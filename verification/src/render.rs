//! The render step: from the ball's current world position to one draw
//! command — a filled circle at the mapped screen position, with the mapped
//! radius, against a fixed background.
//!
//! The external renderer consumes the command; everything it is told is
//! decided and pinned here.

use vstd::prelude::*;

use crate::coords::{screen_x_of_world, screen_y_of_world, world_length_to_screen,
    world_to_screen, ScreenVector, WorldVector, SCALE, WORLD_LIMIT};
use crate::fixed::{Fixed, MILLI};
use crate::sim::Ball;

verus! {

/// Tessellation tolerance of the circle mesh, in thousandths: how far the
/// polygon approximation may stray from the true circle.
pub const CIRCLE_TOLERANCE: i64 = 10;

/// A color with red, green, blue and alpha channels in thousandths of full
/// intensity.
#[derive(Clone, Copy, PartialEq, Eq, Structural, Debug)]
pub struct Color {
    pub r: Fixed,
    pub g: Fixed,
    pub b: Fixed,
    pub a: Fixed,
}

/// The dark blue the frame is cleared to.
pub open spec fn spec_background_color() -> Color {
    Color {
        r: Fixed { milli: 100 },
        g: Fixed { milli: 200 },
        b: Fixed { milli: 300 },
        a: Fixed { milli: MILLI },
    }
}

/// The dark blue the frame is cleared to: `(0.1, 0.2, 0.3, 1.0)`.
pub fn background_color() -> (c: Color)
    ensures
        c == spec_background_color(),
{
    Color {
        r: Fixed { milli: 100 },
        g: Fixed { milli: 200 },
        b: Fixed { milli: 300 },
        a: Fixed { milli: MILLI },
    }
}

/// Flat white.
pub open spec fn spec_white() -> Color {
    Color {
        r: Fixed { milli: MILLI },
        g: Fixed { milli: MILLI },
        b: Fixed { milli: MILLI },
        a: Fixed { milli: MILLI },
    }
}

/// Flat white, the ball's color.
pub fn white() -> (c: Color)
    ensures
        c == spec_white(),
{
    Color {
        r: Fixed { milli: MILLI },
        g: Fixed { milli: MILLI },
        b: Fixed { milli: MILLI },
        a: Fixed { milli: MILLI },
    }
}

/// One frame's draw command: clear to `background`, then draw a filled
/// circle of `radius` pixels at `center`, tessellated within `tolerance`,
/// in `color`.
#[derive(Clone, Copy, PartialEq, Eq, Structural, Debug)]
pub struct CircleDraw {
    pub center: ScreenVector,
    pub radius: Fixed,
    pub tolerance: Fixed,
    pub color: Color,
    pub background: Color,
}

/// Render decision for one frame: map the ball's current world position —
/// read from the engine's body set after the step — to screen space, scale
/// its visual radius to pixels, and fix tolerance and colors.
pub fn draw(position: WorldVector, ball: &Ball) -> (c: CircleDraw)
    requires
        position.in_range(),
        -WORLD_LIMIT <= ball.world_radius.milli <= WORLD_LIMIT,
    ensures
        c.center.x.milli == screen_x_of_world(position.x.milli as int),
        c.center.y.milli == screen_y_of_world(position.y.milli as int),
        c.radius.milli == ball.world_radius.milli * SCALE,
        c.tolerance.milli == CIRCLE_TOLERANCE,
        c.color == spec_white(),
        c.background == spec_background_color(),
{
    CircleDraw {
        center: world_to_screen(position),
        radius: world_length_to_screen(ball.world_radius),
        tolerance: Fixed { milli: CIRCLE_TOLERANCE },
        color: white(),
        background: background_color(),
    }
}

} // verus!
