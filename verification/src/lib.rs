//! A minimal physics demo, verified: one dynamic circular body falls under
//! gravity; an external engine integrates the motion and an external renderer
//! draws the ball.
//!
//! The library owns everything that can be stated exactly: the fixed-point
//! number type, the world/screen coordinate mapping, the startup configuration
//! of the body set, and the per-frame update and draw decisions. The engine
//! and renderer themselves work in floating point and live outside it; the
//! surrounding program converts at the boundary.

pub mod coords;
pub mod fixed;
pub mod render;
pub mod sim;
