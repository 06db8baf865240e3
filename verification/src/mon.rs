//! Monsters.
use vstd::prelude::*;
use crate::utils::{p_offset, Dir, P};

verus! {

/// A monster. All that the world knows of it is where it stands.
pub struct Mon {
    p: P,
}

impl View for Mon {
    type V = P;

    /// The monster's position.
    closed spec fn view(&self) -> P {
        self.p
    }
}

impl Mon {
    /// A monster at `p`.
    pub fn new(p: &P) -> (mon: Mon)
        ensures
            mon@ == *p,
    {
        Mon { p: *p }
    }

    /// Moves the monster one step in the direction `dir`.
    ///
    /// The step is not checked against the bounds of any map: a monster at
    /// the edge of a map walks off it. This is a known gap. Callers that need
    /// the monster on the map have to look before they move it. Only the
    /// range of `i32` limits the move.
    pub fn mv(&mut self, dir: Dir)
        requires
            old(self)@.can_add(dir.offset()),
        ensures
            final(self)@.x == old(self)@.x + dir.offset().x,
            final(self)@.y == old(self)@.y + dir.offset().y,
    {
        let mut d = P::new();

        p_offset(dir, &mut d);

        self.p = self.p + d;
    }

    /// The monster's position.
    pub fn p(&self) -> (p: &P)
        ensures
            *p == self@,
    {
        &self.p
    }
}

} // verus!
