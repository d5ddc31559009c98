//! Simulation state and wiring: the creation parameters of the body set,
//! the tracked ball, the physics configuration, and the startup routine.
//!
//! The external physics engine owns the bodies' runtime state; this module
//! owns what the engine is told. `initialize` pins every startup value, and
//! `Simulation::update` records the elapsed frame time as the integration
//! time step before the caller has the engine advance one step.

use vstd::prelude::*;

use crate::coords::{screen_to_world, world_x_of_screen, world_y_of_screen, ScreenVector,
    WorldVector};
use crate::fixed::{Fixed, MILLI};

verus! {

/// Screen position, in thousandths of a pixel, where the ball starts.
pub const INITIAL_SCREEN_X: i64 = 400 * MILLI;

/// Screen position, in thousandths of a pixel, where the ball starts.
pub const INITIAL_SCREEN_Y: i64 = 400 * MILLI;

/// Linear damping of the ball's body, in thousandths: fraction of velocity
/// shed per unit time, emulating air resistance.
pub const BALL_LINEAR_DAMPING: i64 = 600;

/// Physical collision radius of the ball, in thousandths of a world unit.
pub const BALL_COLLIDER_RADIUS: i64 = 500;

/// Restitution of the ball's collider, in thousandths: fraction of bounce
/// energy retained on contact.
pub const BALL_RESTITUTION: i64 = 400;

/// Visual radius of the ball, in thousandths of a world unit. Deliberately
/// four times the collision radius: the demo draws the ball larger than its
/// physical bounds, and the mismatch is kept, not unified.
pub const BALL_WORLD_RADIUS: i64 = 2 * MILLI;

/// Downward gravity, in thousandths of a world unit per second squared.
pub const GRAVITY_Y: i64 = -10 * MILLI;

/// Identifies one body in the simulation's body set: its insertion index.
#[derive(Clone, Copy, PartialEq, Eq, Structural, Debug)]
pub struct BodyHandle {
    pub index: usize,
}

/// Creation parameters of one dynamic rigid body.
#[derive(Clone, Copy, PartialEq, Eq, Structural, Debug)]
pub struct BodySetup {
    /// Initial translation, in world space.
    pub position: WorldVector,
    /// Fraction of velocity shed per unit time, in thousandths.
    pub linear_damping: Fixed,
}

/// Creation parameters of one circular collider.
#[derive(Clone, Copy, PartialEq, Eq, Structural, Debug)]
pub struct ColliderSetup {
    /// Collision radius, in world units.
    pub radius: Fixed,
    /// Fraction of bounce energy retained on contact, in thousandths.
    pub restitution: Fixed,
}

/// A collider together with the body it is parented to.
#[derive(Clone, Copy, PartialEq, Eq, Structural, Debug)]
pub struct ColliderAttachment {
    pub collider: ColliderSetup,
    pub parent: BodyHandle,
}

/// The tracked entity: a handle into the body set, and the radius the ball
/// is drawn with — not the radius it collides with.
#[derive(Clone, Copy, PartialEq, Eq, Structural, Debug)]
pub struct Ball {
    pub rigid_body_handle: BodyHandle,
    pub world_radius: Fixed,
}

/// The creation parameters of everything the physics engine is given:
/// the body set and the colliders attached to its bodies.
pub struct SimulationState {
    pub bodies: Vec<BodySetup>,
    pub colliders: Vec<ColliderAttachment>,
}

impl SimulationState {
    /// Every collider's parent handle points into the body set.
    pub open spec fn wf(self) -> bool {
        forall|i: int|
            0 <= i < self.colliders@.len() ==> self.colliders@[i].parent.index
                < self.bodies@.len()
    }

    /// An empty body set with no colliders.
    pub fn new() -> (s: SimulationState)
        ensures
            s.bodies@ =~= Seq::<BodySetup>::empty(),
            s.colliders@ =~= Seq::<ColliderAttachment>::empty(),
            s.wf(),
    {
        SimulationState { bodies: Vec::new(), colliders: Vec::new() }
    }

    /// Insert one body; its handle is its index in the set.
    pub fn insert_body(&mut self, body: BodySetup) -> (h: BodyHandle)
        requires
            old(self).bodies@.len() < usize::MAX,
        ensures
            h.index == old(self).bodies@.len(),
            final(self).bodies@ =~= old(self).bodies@.push(body),
            final(self).colliders@ =~= old(self).colliders@,
            old(self).wf() ==> final(self).wf(),
    {
        let h = BodyHandle { index: self.bodies.len() };
        self.bodies.push(body);
        h
    }

    /// Attach one collider to an existing body.
    pub fn insert_with_parent(&mut self, collider: ColliderSetup, parent: BodyHandle)
        requires
            parent.index < old(self).bodies@.len(),
            old(self).colliders@.len() < usize::MAX,
        ensures
            final(self).colliders@ =~= old(self).colliders@.push(
                ColliderAttachment { collider, parent },
            ),
            final(self).bodies@ =~= old(self).bodies@,
            old(self).wf() ==> final(self).wf(),
    {
        self.colliders.push(ColliderAttachment { collider, parent });
    }
}

/// The engine's integration configuration: constant gravity, and the time
/// step the next call to the engine integrates over.
#[derive(Clone, Copy, PartialEq, Eq, Structural, Debug)]
pub struct PhysicsConfig {
    pub gravity: WorldVector,
    /// Seconds, in thousandths. Overwritten from the elapsed frame time
    /// before every step; no step reads the starting value.
    pub time_step: Fixed,
}

/// The whole demo as set up at startup: the body-set parameters, the
/// physics configuration, and the tracked ball.
pub struct Simulation {
    pub state: SimulationState,
    pub config: PhysicsConfig,
    pub ball: Ball,
}

impl Simulation {
    /// The simulation is well formed and tracks a body that exists.
    pub open spec fn wf(self) -> bool {
        &&& self.state.wf()
        &&& self.ball.rigid_body_handle.index < self.state.bodies@.len()
    }

    /// Per-frame update decision: record the elapsed real time `dt` as the
    /// integration time step. The caller then has the external engine
    /// advance every body by one step under this configuration; the engine
    /// mutates its own body set, not this model of the creation parameters.
    pub fn update(&mut self, dt: Fixed)
        requires
            dt.milli >= 0,
        ensures
            final(self).config.time_step == dt,
            final(self).config.gravity == old(self).config.gravity,
            final(self).state.bodies@ =~= old(self).state.bodies@,
            final(self).state.colliders@ =~= old(self).state.colliders@,
            final(self).ball == old(self).ball,
            old(self).wf() ==> final(self).wf(),
    {
        self.config.time_step = dt;
    }
}

/// Build the demo's one scene: a single dynamic ball, placed at the world
/// point under the screen position `(400, 400)`, with damping `0.6`; one
/// circular collider of radius `0.5` and restitution `0.4` parented to it;
/// gravity `(0, -10)`; and a visual radius of `2.0` — four times the
/// collision radius, kept distinct on purpose.
pub fn initialize() -> (s: Simulation)
    ensures
        s.wf(),
        s.state.bodies@.len() == 1,
        s.state.colliders@.len() == 1,
        s.ball.rigid_body_handle.index == 0,
        // The ball starts exactly where the initial screen position lands in
        // world space: at (40, 40) world units.
        s.state.bodies@[0].position.x.milli == world_x_of_screen(INITIAL_SCREEN_X as int),
        s.state.bodies@[0].position.y.milli == world_y_of_screen(INITIAL_SCREEN_Y as int),
        s.state.bodies@[0].position.x.milli == 40 * MILLI,
        s.state.bodies@[0].position.y.milli == 40 * MILLI,
        s.state.bodies@[0].linear_damping.milli == BALL_LINEAR_DAMPING,
        s.state.colliders@[0].collider.radius.milli == BALL_COLLIDER_RADIUS,
        s.state.colliders@[0].collider.restitution.milli == BALL_RESTITUTION,
        s.state.colliders@[0].parent == s.ball.rigid_body_handle,
        s.config.gravity.x.milli == 0,
        s.config.gravity.y.milli == GRAVITY_Y,
        s.config.time_step.milli == 0,
        s.ball.world_radius.milli == BALL_WORLD_RADIUS,
        // The visual radius stays four times the collision radius.
        s.ball.world_radius.milli == 4 * s.state.colliders@[0].collider.radius.milli,
{
    let mut state = SimulationState::new();

    let radius = Fixed { milli: BALL_COLLIDER_RADIUS };
    let position = screen_to_world(
        ScreenVector {
            x: Fixed { milli: INITIAL_SCREEN_X },
            y: Fixed { milli: INITIAL_SCREEN_Y },
        },
    );
    let rigid_body = BodySetup { position, linear_damping: Fixed { milli: BALL_LINEAR_DAMPING } };
    let collider = ColliderSetup { radius, restitution: Fixed { milli: BALL_RESTITUTION } };
    let rigid_body_handle = state.insert_body(rigid_body);
    state.insert_with_parent(collider, rigid_body_handle);

    Simulation {
        ball: Ball { rigid_body_handle, world_radius: Fixed { milli: BALL_WORLD_RADIUS } },
        state,
        config: PhysicsConfig {
            gravity: WorldVector { x: Fixed { milli: 0 }, y: Fixed { milli: GRAVITY_Y } },
            time_step: Fixed { milli: 0 },
        },
    }
}

} // verus!
