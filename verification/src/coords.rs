//! The coordinate mapper: exact conversions between world space (physics
//! units, y up) and screen space (pixels, y down, origin top left).
//!
//! The two spaces are related by a fixed linear scale and a flip of the y
//! axis about the viewport height. All values are fixed-point thousandths,
//! so the mapping and its inverse are stated and proved exactly.

use vstd::prelude::*;

use crate::fixed::{div_pos, div_trunc, Fixed, MILLI};

verus! {

/// Pixels per world unit.
pub const SCALE: i64 = 10;

/// Height of the viewport, in thousandths of a pixel.
pub const VIEWPORT_HEIGHT: i64 = 800 * MILLI;

/// Largest coordinate magnitude, in thousandths, that a world vector may
/// carry into a conversion. Far beyond the viewport; it only keeps the
/// scaled value inside `i64`.
pub const WORLD_LIMIT: i64 = 1_000_000_000_000;

/// Largest coordinate magnitude, in thousandths, that a screen vector may
/// carry into a conversion. Wide enough that every in-range world vector
/// maps to an in-range screen vector.
pub const SCREEN_LIMIT: i64 = 20_000_000_000_000;

/// A vector in world space: physics units, y grows upward.
#[derive(Clone, Copy, PartialEq, Eq, Structural, Debug)]
pub struct WorldVector {
    pub x: Fixed,
    pub y: Fixed,
}

/// A vector in screen space: pixels, y grows downward from the top edge.
#[derive(Clone, Copy, PartialEq, Eq, Structural, Debug)]
pub struct ScreenVector {
    pub x: Fixed,
    pub y: Fixed,
}

impl WorldVector {
    /// The world vector with the given coordinates, in thousandths of a unit.
    pub fn from_milli(x: i64, y: i64) -> (r: WorldVector)
        ensures
            r.x.milli == x,
            r.y.milli == y,
    {
        WorldVector { x: Fixed { milli: x }, y: Fixed { milli: y } }
    }

    /// Both coordinates small enough to convert without overflow.
    pub open spec fn in_range(self) -> bool {
        &&& -WORLD_LIMIT <= self.x.milli <= WORLD_LIMIT
        &&& -WORLD_LIMIT <= self.y.milli <= WORLD_LIMIT
    }
}

impl ScreenVector {
    /// The screen vector with the given coordinates, in thousandths of a pixel.
    pub fn from_milli(x: i64, y: i64) -> (r: ScreenVector)
        ensures
            r.x.milli == x,
            r.y.milli == y,
    {
        ScreenVector { x: Fixed { milli: x }, y: Fixed { milli: y } }
    }

    /// Both coordinates small enough to convert without overflow.
    pub open spec fn in_range(self) -> bool {
        &&& -SCREEN_LIMIT <= self.x.milli <= SCREEN_LIMIT
        &&& -SCREEN_LIMIT <= self.y.milli <= SCREEN_LIMIT
    }
}

/// Screen x of world x: scale by `SCALE`.
pub open spec fn screen_x_of_world(wx: int) -> int {
    wx * SCALE
}

/// Screen y of world y: scale, then flip about the viewport height.
pub open spec fn screen_y_of_world(wy: int) -> int {
    VIEWPORT_HEIGHT - wy * SCALE
}

/// World x of screen x: divide by `SCALE`, rounding toward zero.
pub open spec fn world_x_of_screen(sx: int) -> int {
    div_trunc(sx, SCALE as int)
}

/// World y of screen y: flip about the viewport height, then divide.
pub open spec fn world_y_of_screen(sy: int) -> int {
    div_trunc(VIEWPORT_HEIGHT - sy, SCALE as int)
}

/// Map a world-space position to screen space.
pub fn world_to_screen(world_coords: WorldVector) -> (s: ScreenVector)
    requires
        world_coords.in_range(),
    ensures
        s.x.milli == screen_x_of_world(world_coords.x.milli as int),
        s.y.milli == screen_y_of_world(world_coords.y.milli as int),
        s.in_range(),
{
    ScreenVector {
        x: Fixed { milli: world_coords.x.milli * SCALE },
        y: Fixed { milli: VIEWPORT_HEIGHT - world_coords.y.milli * SCALE },
    }
}

/// Map a screen-space position to world space.
pub fn screen_to_world(screen_coords: ScreenVector) -> (w: WorldVector)
    requires
        screen_coords.in_range(),
    ensures
        w.x.milli == world_x_of_screen(screen_coords.x.milli as int),
        w.y.milli == world_y_of_screen(screen_coords.y.milli as int),
{
    WorldVector {
        x: Fixed { milli: div_pos(screen_coords.x.milli, SCALE) },
        y: Fixed { milli: div_pos(VIEWPORT_HEIGHT - screen_coords.y.milli, SCALE) },
    }
}

/// Map a world-space length (a radius, say) to pixels. Lengths have no
/// origin, so the y flip does not apply.
pub fn world_length_to_screen(world_length: Fixed) -> (r: Fixed)
    requires
        -WORLD_LIMIT <= world_length.milli <= WORLD_LIMIT,
    ensures
        r.milli == world_length.milli * SCALE,
{
    Fixed { milli: world_length.milli * SCALE }
}

/// Map a screen-space length to world units, rounding toward zero.
pub fn screen_length_to_world(screen_length: Fixed) -> (r: Fixed)
    requires
        screen_length.milli != i64::MIN,
    ensures
        r.milli == div_trunc(screen_length.milli as int, SCALE as int),
{
    Fixed { milli: div_pos(screen_length.milli, SCALE) }
}

/// Round-trip law: sending any world coordinate to the screen and back
/// returns it unchanged — the screen value is an exact multiple of the
/// scale, so the truncating division loses nothing.
pub proof fn lemma_round_trip(wx: int, wy: int)
    ensures
        world_x_of_screen(screen_x_of_world(wx)) == wx,
        world_y_of_screen(screen_y_of_world(wy)) == wy,
{
    lemma_mul_div_exact(wx);
    lemma_mul_div_exact(wy);
    assert(VIEWPORT_HEIGHT - (VIEWPORT_HEIGHT - wy * SCALE) == wy * SCALE);
}

/// Multiplying by the scale and dividing back, toward zero, is the identity.
proof fn lemma_mul_div_exact(w: int)
    ensures
        div_trunc(w * SCALE, SCALE as int) == w,
{
    if w >= 0 {
        vstd::arithmetic::div_mod::lemma_div_multiples_vanish(w, SCALE as int);
        assert(SCALE * w == w * SCALE) by (nonlinear_arith);
    } else {
        vstd::arithmetic::div_mod::lemma_div_multiples_vanish(-w, SCALE as int);
        assert(SCALE * (-w) == -(w * SCALE)) by (nonlinear_arith);
        assert(w * SCALE < 0) by (nonlinear_arith)
            requires
                w < 0,
                SCALE > 0,
        ;
    }
}

} // verus!
