//! Points, rectangles and directions on the integer grid.
use vstd::prelude::*;
use vstd::std_specs::ops::AddSpecImpl;
use vstd::std_specs::ops::SubSpecImpl;

verus! {

/// A point of the grid, or the displacement between two points.
///
/// `x` grows to the right and `y` grows downward.
#[derive(Clone, Copy, Debug, PartialEq, Eq, Structural)]
pub struct P {
    pub x: i32,
    pub y: i32,
}

impl P {
    /// The origin.
    pub fn new() -> (p: P)
        ensures
            p.x == 0,
            p.y == 0,
    {
        P { x: 0, y: 0 }
    }

    /// The point with the given coordinates.
    pub fn new_xy(x: i32, y: i32) -> (p: P)
        ensures
            p.x == x,
            p.y == y,
    {
        P { x, y }
    }

    /// Whether both coordinates of the sum of `self` and `rhs` are `i32`
    /// values.
    pub open spec fn spec_can_add(self, rhs: P) -> bool {
        &&& i32::MIN <= self.x + rhs.x <= i32::MAX
        &&& i32::MIN <= self.y + rhs.y <= i32::MAX
    }

    /// Whether `self` and `rhs` can be added: both coordinates of the sum
    /// are `i32` values.
    #[verifier::when_used_as_spec(spec_can_add)]
    pub fn can_add(self, rhs: P) -> (b: bool)
        ensures
            b == self.spec_can_add(rhs),
    {
        self.x.checked_add(rhs.x).is_some() && self.y.checked_add(rhs.y).is_some()
    }

    /// Whether both coordinates of the difference of `self` and `rhs` are
    /// `i32` values.
    pub open spec fn spec_can_sub(self, rhs: P) -> bool {
        &&& i32::MIN <= self.x - rhs.x <= i32::MAX
        &&& i32::MIN <= self.y - rhs.y <= i32::MAX
    }

    /// Whether `rhs` can be subtracted from `self`: both coordinates of the
    /// difference are `i32` values.
    #[verifier::when_used_as_spec(spec_can_sub)]
    pub fn can_sub(self, rhs: P) -> (b: bool)
        ensures
            b == self.spec_can_sub(rhs),
    {
        self.x.checked_sub(rhs.x).is_some() && self.y.checked_sub(rhs.y).is_some()
    }

    /// This point moved by `v` along both axes.
    pub fn offs(&self, v: i32) -> (p: P)
        requires
            i32::MIN <= self.x + v <= i32::MAX,
            i32::MIN <= self.y + v <= i32::MAX,
        ensures
            p.x == self.x + v,
            p.y == self.y + v,
    {
        P { x: self.x + v, y: self.y + v }
    }
}

impl AddSpecImpl for P {
    open spec fn obeys_add_spec() -> bool {
        true
    }

    open spec fn add_req(self, rhs: P) -> bool {
        self.can_add(rhs)
    }

    open spec fn add_spec(self, rhs: P) -> P {
        P { x: (self.x + rhs.x) as i32, y: (self.y + rhs.y) as i32 }
    }
}

impl core::ops::Add for P {
    type Output = P;

    /// The component-wise sum. It is defined where `can_add` holds.
    fn add(self, rhs: P) -> (p: P)
        ensures
            p.x == self.x + rhs.x,
            p.y == self.y + rhs.y,
    {
        P { x: self.x + rhs.x, y: self.y + rhs.y }
    }
}

impl SubSpecImpl for P {
    open spec fn obeys_sub_spec() -> bool {
        true
    }

    open spec fn sub_req(self, rhs: P) -> bool {
        self.can_sub(rhs)
    }

    open spec fn sub_spec(self, rhs: P) -> P {
        P { x: (self.x - rhs.x) as i32, y: (self.y - rhs.y) as i32 }
    }
}

impl core::ops::Sub for P {
    type Output = P;

    /// The component-wise difference. It is defined where `can_sub` holds.
    fn sub(self, rhs: P) -> (p: P)
        ensures
            p.x == self.x - rhs.x,
            p.y == self.y - rhs.y,
    {
        P { x: self.x - rhs.x, y: self.y - rhs.y }
    }
}

/// A rectangle of grid cells, given by its top-left corner `p0` and its
/// bottom-right corner `p1`. Both corners belong to the rectangle.
#[derive(Clone, Copy, Debug, PartialEq, Eq, Structural)]
pub struct R {
    pub p0: P,
    pub p1: P,
}

impl R {
    /// The rectangle with the given corners. The corners are taken as they
    /// are: it is the caller who keeps `p0` above and left of `p1`.
    pub fn new_pp(p0: &P, p1: &P) -> (r: R)
        ensures
            r.p0 == *p0,
            r.p1 == *p1,
    {
        R { p0: *p0, p1: *p1 }
    }

    /// Whether the corners are in order, so that the rectangle holds at
    /// least one cell.
    pub open spec fn wf(self) -> bool {
        &&& self.p0.x <= self.p1.x
        &&& self.p0.y <= self.p1.y
    }

    /// The number of columns.
    pub open spec fn w(self) -> int {
        self.p1.x - self.p0.x + 1
    }

    /// The number of rows.
    pub open spec fn h(self) -> int {
        self.p1.y - self.p0.y + 1
    }

    /// Whether every cell of the rectangle is a cell of a grid with `w`
    /// columns and `h` rows.
    pub open spec fn inside(self, w: int, h: int) -> bool {
        &&& 0 <= self.p0.x
        &&& 0 <= self.p0.y
        &&& self.p1.x < w
        &&& self.p1.y < h
    }
}

/// A direction of movement, one cell at a time.
#[derive(Clone, Copy, Debug, PartialEq, Eq, Structural)]
pub enum Dir {
    Right,
    Left,
    Down,
    Up,
}

impl Dir {
    /// The displacement of one step in this direction.
    pub open spec fn offset(self) -> P {
        match self {
            Dir::Right => P { x: 1, y: 0 },
            Dir::Left => P { x: -1i32, y: 0 },
            Dir::Down => P { x: 0, y: 1 },
            Dir::Up => P { x: 0, y: -1i32 },
        }
    }
}

/// Writes to `p` the displacement of one step in the direction `dir`.
pub fn p_offset(dir: Dir, p: &mut P)
    ensures
        *final(p) == dir.offset(),
{
    match dir {
        Dir::Right => {
            p.x = 1;
            p.y = 0;
        },
        Dir::Left => {
            p.x = -1;
            p.y = 0;
        },
        Dir::Down => {
            p.x = 0;
            p.y = 1;
        },
        Dir::Up => {
            p.x = 0;
            p.y = -1;
        },
    }
}

} // verus!
