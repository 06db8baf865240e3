//! The viewport that follows a focus point over the map, and the frame that
//! shows the part of the map inside it.
use vstd::prelude::*;
use vstd::arithmetic::div_mod::lemma_fundamental_div_mod_converse;
use vstd::std_specs::ops::SubSpec;
use crate::map::{GameMap, Ter, MAP_H, MAP_W};
use crate::utils::{P, R};

verus! {

/// `v` brought into the range from `lo` to `hi`.
pub open spec fn clamp(v: int, lo: int, hi: int) -> int
    recommends
        lo <= hi,
{
    if v < lo {
        lo
    } else if v > hi {
        hi
    } else {
        v
    }
}

/// Whether the focus is close enough to an edge of the viewport for the
/// viewport to follow it, on one axis.
///
/// The viewport spans the cells from `lo` to `hi`. The focus is close to an
/// edge when at most `trigger_dist` cells separate it from that edge. A
/// focus beyond an edge is close to it.
pub open spec fn axis_triggers(focus: int, lo: int, hi: int, trigger_dist: int) -> bool {
    hi - focus <= trigger_dist || focus - lo <= trigger_dist
}

/// The first cell of a window of `window` cells that is centered on `focus`
/// and then pushed back into a grid of `extent` cells, on one axis.
///
/// A window with an even number of cells has no middle cell. The focus then
/// takes the cell just after the middle, so that the window leans toward
/// the lower coordinates.
pub open spec fn axis_centered(focus: int, window: int, extent: int) -> int
    recommends
        1 <= window <= extent,
{
    clamp(focus - window / 2, 0, extent - window)
}

/// The first cell of the viewport after an update, on one axis: the window
/// centered on the focus where the focus is close to an edge, the first cell
/// as it was where it is not.
pub open spec fn axis_updated(
    focus: int,
    lo: int,
    hi: int,
    window: int,
    extent: int,
    trigger_dist: int,
) -> int {
    if axis_triggers(focus, lo, hi, trigger_dist) {
        axis_centered(focus, window, extent)
    } else {
        lo
    }
}

/// Whether a viewport can be updated on one axis: the window has at least
/// one cell and fits the grid, and where the update leaves the viewport in
/// place, a window that starts at `lo` lies inside the grid.
pub open spec fn axis_can_update(
    focus: int,
    lo: int,
    hi: int,
    window: int,
    extent: int,
    trigger_dist: int,
) -> bool {
    &&& 1 <= window <= extent
    &&& axis_triggers(focus, lo, hi, trigger_dist) || 0 <= lo <= extent - window
}

/// Whether the viewport `vp` can be updated for the focus `p` and a window
/// of `dim.x` columns and `dim.y` rows: it can be on both axes.
pub open spec fn spec_can_update(p: P, dim: P, trigger_dist: i32, vp: R) -> bool {
    &&& axis_can_update(
        p.x as int,
        vp.p0.x as int,
        vp.p1.x as int,
        dim.x as int,
        MAP_W as int,
        trigger_dist as int,
    )
    &&& axis_can_update(
        p.y as int,
        vp.p0.y as int,
        vp.p1.y as int,
        dim.y as int,
        MAP_H as int,
        trigger_dist as int,
    )
}

/// The viewport that an update makes of `vp`. Each axis is decided on its
/// own, and the bottom-right corner follows from the top-left corner and the
/// size of the window.
pub open spec fn vp_updated(p: P, dim: P, trigger_dist: i32, vp: R) -> R {
    let x = axis_updated(
        p.x as int,
        vp.p0.x as int,
        vp.p1.x as int,
        dim.x as int,
        MAP_W as int,
        trigger_dist as int,
    );
    let y = axis_updated(
        p.y as int,
        vp.p0.y as int,
        vp.p1.y as int,
        dim.y as int,
        MAP_H as int,
        trigger_dist as int,
    );
    R {
        p0: P { x: x as i32, y: y as i32 },
        p1: P { x: (x + dim.x - 1) as i32, y: (y + dim.y - 1) as i32 },
    }
}

/// Whether the focus is close enough to an edge of the viewport, on one
/// axis.
fn axis_is_triggered(focus: i32, lo: i32, hi: i32, trigger_dist: i32) -> (b: bool)
    ensures
        b == axis_triggers(focus as int, lo as int, hi as int, trigger_dist as int),
{
    // Clearances are taken in 64 bits: a focus far off the map is no overflow.
    let far: i64 = hi as i64 - focus as i64;
    let near: i64 = focus as i64 - lo as i64;

    far <= trigger_dist as i64 || near <= trigger_dist as i64
}

/// Whether a viewport can be updated on one axis.
fn axis_is_updatable(
    focus: i32,
    lo: i32,
    hi: i32,
    window: i32,
    extent: i32,
    trigger_dist: i32,
) -> (b: bool)
    ensures
        b == axis_can_update(
            focus as int,
            lo as int,
            hi as int,
            window as int,
            extent as int,
            trigger_dist as int,
        ),
{
    1 <= window && window <= extent && (axis_is_triggered(focus, lo, hi, trigger_dist) || (0 <= lo
        && lo <= extent - window))
}

/// Whether the viewport `vp` can be updated for the focus `p` and a window
/// of `dim.x` columns and `dim.y` rows.
///
/// The window has to have at least one cell and to fit the map. On an axis
/// where the focus is not close to an edge, so that the update leaves the
/// viewport in place, a window that starts where the viewport starts has to
/// lie inside the map.
#[verifier::when_used_as_spec(spec_can_update)]
pub fn can_update(p: P, dim: P, trigger_dist: i32, vp: R) -> (b: bool)
    ensures
        b == spec_can_update(p, dim, trigger_dist, vp),
{
    axis_is_updatable(p.x, vp.p0.x, vp.p1.x, dim.x, MAP_W as i32, trigger_dist)
        && axis_is_updatable(p.y, vp.p0.y, vp.p1.y, dim.y, MAP_H as i32, trigger_dist)
}

/// Updates one axis of a viewport and returns its first cell.
pub fn axis_update(
    focus: i32,
    lo: i32,
    hi: i32,
    window: i32,
    extent: i32,
    trigger_dist: i32,
) -> (origin: i32)
    requires
        axis_can_update(
            focus as int,
            lo as int,
            hi as int,
            window as int,
            extent as int,
            trigger_dist as int,
        ),
    ensures
        origin == axis_updated(
            focus as int,
            lo as int,
            hi as int,
            window as int,
            extent as int,
            trigger_dist as int,
        ),
        0 <= origin <= extent - window,
{
    if axis_is_triggered(focus, lo, hi, trigger_dist) {
        let centered: i64 = focus as i64 - (window / 2) as i64;
        let last: i64 = (extent - window) as i64;

        if centered < 0 {
            0
        } else if centered > last {
            extent - window
        } else {
            centered as i32
        }
    } else {
        lo
    }
}

/// Moves the viewport `vp` so that it follows the focus `p`.
///
/// The window has `map_window_dim.x` columns and `map_window_dim.y` rows.
/// On each axis the viewport stays where it is while more than
/// `trigger_dist` cells separate the focus from both of its edges. Once the
/// focus is closer to an edge than that, the viewport is centered on the
/// focus, as far as the map allows. Afterwards the viewport has the size of
/// the window and lies inside the map.
pub fn vp_update(p: &P, map_window_dim: &P, trigger_dist: i32, vp: &mut R)
    requires
        can_update(*p, *map_window_dim, trigger_dist, *old(vp)),
    ensures
        *final(vp) == vp_updated(*p, *map_window_dim, trigger_dist, *old(vp)),
        final(vp).w() == map_window_dim.x,
        final(vp).h() == map_window_dim.y,
        final(vp).wf(),
        final(vp).inside(MAP_W as int, MAP_H as int),
{
    vp.p0.x = axis_update(p.x, vp.p0.x, vp.p1.x, map_window_dim.x, MAP_W as i32, trigger_dist);
    vp.p0.y = axis_update(p.y, vp.p0.y, vp.p1.y, map_window_dim.y, MAP_H as i32, trigger_dist);

    vp.p1.x = vp.p0.x + map_window_dim.x - 1;
    vp.p1.y = vp.p0.y + map_window_dim.y - 1;
}

/// Whether an update leaves one axis of the viewport in place only because
/// the far edge `hi` lies farther from `lo` than a window of `window` cells
/// reaches.
///
/// The focus is then clear of both edges as the viewport has them, but close
/// to the place where the update is about to put the far edge, and a window
/// centered on the focus would start elsewhere than at `lo`.
pub open spec fn axis_held_by_far_edge(
    focus: int,
    lo: int,
    hi: int,
    window: int,
    extent: int,
    trigger_dist: int,
) -> bool {
    &&& !axis_triggers(focus, lo, hi, trigger_dist)
    &&& axis_triggers(focus, lo, lo + window - 1, trigger_dist)
    &&& axis_centered(focus, window, extent) != lo
}

/// Whether an axis of `vp` is held in place by its far edge alone.
pub open spec fn held_by_far_edge(p: P, dim: P, trigger_dist: i32, vp: R) -> bool {
    ||| axis_held_by_far_edge(
        p.x as int,
        vp.p0.x as int,
        vp.p1.x as int,
        dim.x as int,
        MAP_W as int,
        trigger_dist as int,
    )
    ||| axis_held_by_far_edge(
        p.y as int,
        vp.p0.y as int,
        vp.p1.y as int,
        dim.y as int,
        MAP_H as int,
        trigger_dist as int,
    )
}

/// An updated viewport can be updated again, whatever the focus and the
/// trigger distance are then.
pub proof fn lemma_vp_updated_can_update(p: P, dim: P, trigger_dist: i32, vp: R, q: P, d: i32)
    requires
        can_update(p, dim, trigger_dist, vp),
    ensures
        can_update(q, dim, d, vp_updated(p, dim, trigger_dist, vp)),
{
}

/// Updating is idempotent: a second update with the same focus, window and
/// trigger distance leaves the viewport as the first update made it.
///
/// This holds of every viewport that no far edge holds in place, and so of
/// every viewport that has the size of the window.
pub proof fn lemma_vp_update_idempotent(p: P, dim: P, trigger_dist: i32, vp: R)
    requires
        can_update(p, dim, trigger_dist, vp),
        !held_by_far_edge(p, dim, trigger_dist, vp),
    ensures
        vp_updated(p, dim, trigger_dist, vp_updated(p, dim, trigger_dist, vp)) == vp_updated(
            p,
            dim,
            trigger_dist,
            vp,
        ),
{
}

/// A viewport that a far edge holds in place is the only one that a second
/// update moves.
pub proof fn lemma_vp_update_held_moves(p: P, dim: P, trigger_dist: i32, vp: R)
    requires
        can_update(p, dim, trigger_dist, vp),
        held_by_far_edge(p, dim, trigger_dist, vp),
    ensures
        vp_updated(p, dim, trigger_dist, vp_updated(p, dim, trigger_dist, vp)) != vp_updated(
            p,
            dim,
            trigger_dist,
            vp,
        ),
{
}

/// No far edge holds a viewport that has the size of the window.
pub proof fn lemma_sized_vp_not_held(p: P, dim: P, trigger_dist: i32, vp: R)
    requires
        vp.w() == dim.x,
        vp.h() == dim.y,
    ensures
        !held_by_far_edge(p, dim, trigger_dist, vp),
{
}

/// A window that is centered on the focus, and that the grid does not push
/// back, starts half a window before the focus, the half rounded down.
///
/// With an odd number of cells the window has as many cells before the
/// focus as after it. With an even number it has exactly half of its cells
/// before the focus, and so one fewer after it: the window leans toward the
/// lower coordinates, never toward the higher ones.
pub proof fn lemma_axis_centered_leans_low(
    focus: int,
    lo: int,
    hi: int,
    window: int,
    extent: int,
    trigger_dist: int,
)
    requires
        1 <= window <= extent,
        axis_triggers(focus, lo, hi, trigger_dist),
        0 <= focus - window / 2 <= extent - window,
    ensures
        ({
            let origin = axis_updated(focus, lo, hi, window, extent, trigger_dist);
            let before = focus - origin;
            let after = origin + window - 1 - focus;
            &&& origin == focus - window / 2
            &&& window % 2 == 0 ==> 2 * before == window && before == after + 1
            &&& window % 2 == 1 ==> 2 * before + 1 == window && before == after
        }),
{
}

/// A window that is centered on a focus near an end of the grid stops at
/// that end.
///
/// Within half a window of the first cell of the grid the window starts at
/// the first cell. Within half a window of the last cell it ends at the last
/// cell. No part of it is ever outside the grid.
pub proof fn lemma_axis_centered_stops_at_edges(
    focus: int,
    lo: int,
    hi: int,
    window: int,
    extent: int,
    trigger_dist: int,
)
    requires
        1 <= window <= extent,
        axis_triggers(focus, lo, hi, trigger_dist),
    ensures
        ({
            let origin = axis_updated(focus, lo, hi, window, extent, trigger_dist);
            &&& focus <= window / 2 ==> origin == 0
            &&& focus >= extent - window + window / 2 ==> origin == extent - window
            &&& 0 <= origin <= extent - window
        }),
{
}

/// A focus on the first or on the last cell of the grid brings a viewport
/// that lies inside the grid to that end of the grid, whenever the trigger
/// distance is not negative.
pub proof fn lemma_axis_follows_to_edges(
    focus: int,
    lo: int,
    hi: int,
    window: int,
    extent: int,
    trigger_dist: int,
)
    requires
        1 <= window <= extent,
        0 <= lo,
        hi < extent,
        0 <= trigger_dist,
    ensures
        focus == 0 ==> axis_updated(focus, lo, hi, window, extent, trigger_dist) == 0,
        focus == extent - 1 ==> axis_updated(focus, lo, hi, window, extent, trigger_dist)
            == extent - window,
{
}

/// A color of the screen.
#[derive(Clone, Copy, Debug, PartialEq, Eq, Structural)]
pub enum Clr {
    White,
    Black,
}

/// How heavy a character is drawn.
#[derive(Clone, Copy, Debug, PartialEq, Eq, Structural)]
pub enum FontWgt {
    Normal,
    Bold,
}

/// One character on the screen: where it stands, and how it is drawn.
#[derive(Clone, Copy, Debug, PartialEq, Eq, Structural)]
pub struct Glyph {
    pub p: P,
    pub ch: char,
    pub fg: Clr,
    pub bg: Clr,
    pub wgt: FontWgt,
}

/// How terrain is drawn at the screen position `p`: floor as a dot, wall as
/// a hash, both white on black.
pub open spec fn ter_glyph(ter: Ter, p: P) -> Glyph {
    Glyph {
        p,
        ch: match ter {
            Ter::Floor => '.',
            Ter::Wall => '#',
        },
        fg: Clr::White,
        bg: Clr::Black,
        wgt: FontWgt::Normal,
    }
}

/// How a monster is drawn at the screen position `p`: a bold at sign, white
/// on black.
pub open spec fn mon_glyph(p: P) -> Glyph {
    Glyph { p, ch: '@', fg: Clr::White, bg: Clr::Black, wgt: FontWgt::Bold }
}

/// The glyph that shows the map cell `(x, y)` through the viewport `vp`.
/// On the screen the top-left cell of the viewport stands at the origin.
pub open spec fn cell_glyph(game_map: &GameMap, vp: R, x: int, y: int) -> Glyph {
    ter_glyph(game_map.ter_at(x, y), P { x: (x - vp.p0.x) as i32, y: (y - vp.p0.y) as i32 })
}

/// The frame that shows the map through the viewport `vp`, glyph by glyph in
/// the order of drawing.
///
/// The cells of the viewport come first, column by column from the left,
/// each column from the top. The first monster of the map comes last, so
/// that it is drawn over the terrain. It is drawn wherever it stands, inside
/// the viewport or not.
pub open spec fn map_frame(game_map: &GameMap, vp: R) -> Seq<Glyph> {
    Seq::new(
        (vp.w() * vp.h()) as nat,
        |i: int| cell_glyph(game_map, vp, vp.p0.x + i / vp.h(), vp.p0.y + i % vp.h()),
    ).push(mon_glyph(game_map.monsters@[0]@.sub_spec(vp.p0)))
}

/// Whether the map can be drawn through the viewport `vp`: the viewport is
/// a rectangle of map cells, and the map has a first monster, whose position
/// on the screen has `i32` coordinates.
pub open spec fn spec_can_draw(game_map: &GameMap, vp: R) -> bool {
    &&& vp.wf()
    &&& vp.inside(MAP_W as int, MAP_H as int)
    &&& game_map.monsters@.len() > 0
    &&& game_map.monsters@[0]@.can_sub(vp.p0)
}

/// Whether the map can be drawn through the viewport `vp`.
#[verifier::when_used_as_spec(spec_can_draw)]
pub fn can_draw(game_map: &GameMap, vp: R) -> (b: bool)
    ensures
        b == spec_can_draw(game_map, vp),
{
    vp.p0.x <= vp.p1.x && vp.p0.y <= vp.p1.y && 0 <= vp.p0.x && 0 <= vp.p0.y && vp.p1.x
        < MAP_W as i32 && vp.p1.y < MAP_H as i32 && game_map.monsters.len() > 0
        && game_map.monsters[0].p().can_sub(vp.p0)
}

/// Draws the part of the map inside the viewport `vp`, and the first
/// monster of the map, into a new frame.
///
/// The other monsters of the map are not drawn, and the first one is drawn
/// even where it stands outside the viewport: its glyph then has a position
/// off the screen. Both are known limits of the renderer.
pub fn draw_map(game_map: &GameMap, vp: &R) -> (frame: Vec<Glyph>)
    requires
        can_draw(game_map, *vp),
    ensures
        frame@ == map_frame(game_map, *vp),
{
    let ghost h = vp.h();
    let mut frame: Vec<Glyph> = Vec::new();

    assert((vp.p0.x - vp.p0.x) * h == 0) by (nonlinear_arith);
    for x in vp.p0.x..vp.p1.x + 1
        invariant
            vp.wf(),
            vp.inside(MAP_W as int, MAP_H as int),
            h == vp.h(),
            frame@.len() == (x - vp.p0.x) * h,
            forall|k: int|
                0 <= k < frame@.len() ==> frame@[k] == cell_glyph(
                    game_map,
                    *vp,
                    vp.p0.x + k / h,
                    vp.p0.y + k % h,
                ),
    {
        for y in vp.p0.y..vp.p1.y + 1
            invariant
                vp.wf(),
                vp.inside(MAP_W as int, MAP_H as int),
                h == vp.h(),
                vp.p0.x <= x <= vp.p1.x,
                frame@.len() == (x - vp.p0.x) * h + (y - vp.p0.y),
                forall|k: int|
                    0 <= k < frame@.len() ==> frame@[k] == cell_glyph(
                        game_map,
                        *vp,
                        vp.p0.x + k / h,
                        vp.p0.y + k % h,
                    ),
        {
            let scr_p = P::new_xy(x, y) - vp.p0;

            let ch;
            let fg;
            let bg;

            let ter = game_map.ter[x as usize][y as usize];

            match ter {
                Ter::Floor => {
                    ch = '.';
                    fg = Clr::White;
                    bg = Clr::Black;
                },
                Ter::Wall => {
                    ch = '#';
                    fg = Clr::White;
                    bg = Clr::Black;
                },
            }

            proof {
                lemma_fundamental_div_mod_converse(
                    frame@.len() as int,
                    h,
                    x - vp.p0.x,
                    y - vp.p0.y,
                );
            }
            frame.push(Glyph { p: scr_p, ch, fg, bg, wgt: FontWgt::Normal });
        }
        assert((x + 1 - vp.p0.x) * h == (x - vp.p0.x) * h + h) by (nonlinear_arith);
    }

    let mon_p = game_map.monsters[0].p();
    let mon_scr_p = *mon_p - vp.p0;

    frame.push(
        Glyph { p: mon_scr_p, ch: '@', fg: Clr::White, bg: Clr::Black, wgt: FontWgt::Bold },
    );

    frame
}

} // verus!
