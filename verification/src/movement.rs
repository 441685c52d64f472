//! The stages of one tick of movement.
//!
//! Each stage is a function from the model of a body to its model after the
//! stage. The stage itself, named as the system it is, carries every body of
//! a collection through that function.

use vstd::prelude::*;
use crate::body::{Body, BodyModel};
use crate::components::{
    drag_force, walk_acceleration, ControllerModel, Force, JumpModel, TimeStep, Velocity,
    WalkerModel,
};
use crate::vector::{v_add, v_div, v_half, v_neg, v_scale, v_zero, Vec3, Vector};

verus! {

/// The body with `contribution` added to the forces gathered so far.
pub open spec fn with_force(body: BodyModel, contribution: Vector) -> BodyModel {
    BodyModel { force: v_add(body.force, contribution), ..body }
}

/// The ground classification is whatever the controller reported last.
pub open spec fn grounded_updated(body: BodyModel) -> BodyModel {
    BodyModel { grounded: body.output.grounded, ..body }
}

/// Weight of a body: its mass times the strength of gravity, against the up axis.
pub open spec fn gravitational_force(up: Vector, g: int, mass: int) -> Vector {
    v_scale(v_scale(v_neg(up), g), mass)
}

/// The body after gravity has added its weight.
pub open spec fn gravity_applied(body: BodyModel) -> BodyModel {
    with_force(body, gravitational_force(body.controller.up, body.jump.g, body.mass))
}

/// Force that drives the walk: the acceleration asked for times the mass,
/// or nothing when no direction is set.
pub open spec fn walking_force(body: BodyModel) -> Option<Vector> {
    match walk_acceleration(body.walker, body.grounded) {
        Some(acceleration) => Some(v_scale(acceleration, body.mass)),
        None => None,
    }
}

/// The body after the walk has added its force, if there is one.
pub open spec fn walking_applied(body: BodyModel) -> BodyModel {
    match walking_force(body) {
        Some(force) => with_force(body, force),
        None => body,
    }
}

/// A jump takes place only when it was asked for and the body stands on the ground.
pub open spec fn jump_fires(body: BodyModel) -> bool {
    body.jump.requested && body.grounded
}

/// The impulse of a jump spread over a tick of `dt` seconds, along the up axis.
pub open spec fn jump_force(up: Vector, impulse: int, dt: int) -> Vector
    recommends
        dt > 0,
{
    v_div(v_scale(up, impulse), dt)
}

/// The body after the jump has added its force, if it fires.
pub open spec fn jumping_applied(body: BodyModel, dt: int) -> BodyModel
    recommends
        dt > 0,
{
    if jump_fires(body) {
        with_force(body, jump_force(body.controller.up, body.jump.impulse, dt))
    } else {
        body
    }
}

/// The body after drag has added its force.
pub open spec fn drag_applied(body: BodyModel) -> BodyModel {
    with_force(body, drag_force(body.drag, body.velocity))
}

/// Acceleration that the gathered forces give the body.
pub open spec fn acceleration(body: BodyModel) -> Vector
    recommends
        body.mass > 0,
{
    v_div(body.force, body.mass)
}

/// Displacement over a tick of `dt` seconds under constant acceleration:
/// velocity times `dt`, plus half the acceleration times `dt` squared.
pub open spec fn desired_translation(body: BodyModel, dt: int) -> Vector
    recommends
        body.mass > 0,
{
    v_add(v_scale(body.velocity, dt), v_scale(v_scale(v_half(acceleration(body)), dt), dt))
}

/// Velocity that `force` gives a body of mass `mass` within `dt` seconds.
pub open spec fn velocity_gain(force: Vector, mass: int, dt: int) -> Vector
    recommends
        mass > 0,
{
    v_scale(v_div(force, mass), dt)
}

/// Velocity after a tick of `dt` seconds.
pub open spec fn next_velocity(body: BodyModel, dt: int) -> Vector
    recommends
        body.mass > 0,
{
    v_add(body.velocity, velocity_gain(body.force, body.mass, dt))
}

/// Integration: the velocity advances and the controller is handed the
/// displacement to resolve. The gathered force is read, not changed.
pub open spec fn force_applied(body: BodyModel, dt: int) -> BodyModel
    recommends
        body.mass > 0,
{
    BodyModel {
        velocity: next_velocity(body, dt),
        controller: ControllerModel {
            translation: Some(desired_translation(body, dt)),
            ..body.controller
        },
        ..body
    }
}

/// What lives for one tick only is cleared: the gathered force, the walk
/// direction and the request to jump.
pub open spec fn movement_reset(body: BodyModel) -> BodyModel {
    BodyModel {
        force: v_zero(),
        walker: WalkerModel { direction: None, ..body.walker },
        jump: JumpModel { requested: false, ..body.jump },
        ..body
    }
}

/// One tick of a body: the seven stages of movement in the order of the schedule.
pub open spec fn ticked(body: BodyModel, dt: int) -> BodyModel
    recommends
        body.mass > 0,
        dt > 0,
{
    movement_reset(
        force_applied(
            drag_applied(
                jumping_applied(walking_applied(gravity_applied(grounded_updated(body))), dt),
            ),
            dt,
        ),
    )
}

impl Body {
    /// Takes the ground classification from the controller's last report.
    pub fn update_grounded(&mut self)
        ensures
            final(self)@ == grounded_updated(old(self)@),
    {
        self.grounded.try_set(self.output.grounded);
    }

    /// Adds the weight of the body to its force.
    pub fn apply_gravity(&mut self)
        ensures
            final(self)@ == gravity_applied(old(self)@),
    {
        let gravitational_force = self.controller.up.negated().scaled(self.jump.g).scaled(
            self.mass.value(),
        );
        self.force = Force(self.force.0.plus(gravitational_force));
    }

    /// Adds the force that drives the walk, if a direction is set.
    pub fn apply_walking(&mut self)
        ensures
            final(self)@ == walking_applied(old(self)@),
    {
        if let Some(acceleration) = self.walker.calculate_acceleration(self.grounded.is_grounded()) {
            let walking_force = acceleration.scaled(self.mass.value());
            self.force = Force(self.force.0.plus(walking_force));
        }
    }

    /// Adds the force of a jump, if one was asked for on the ground.
    pub fn apply_jumping(&mut self, dt: TimeStep)
        ensures
            final(self)@ == jumping_applied(old(self)@, dt@),
    {
        if self.jump.requested && self.grounded.is_grounded() {
            let jump_force = self.controller.up.scaled(self.jump.impulse).divided(dt.seconds());
            self.force = Force(self.force.0.plus(jump_force));
        }
    }

    /// Adds the drag that the velocity calls for.
    pub fn apply_drag(&mut self)
        ensures
            final(self)@ == drag_applied(old(self)@),
    {
        let drag_force = self.drag.calculate_force(self.velocity.0);
        self.force = Force(self.force.0.plus(drag_force));
    }

    /// Integrates the gathered force over the tick.
    pub fn apply_force(&mut self, dt: TimeStep)
        ensures
            final(self)@ == force_applied(old(self)@, dt@),
    {
        let dt = dt.seconds();
        let acceleration = self.force.0.divided(self.mass.value());
        let desired_translation = self.velocity.0.scaled(dt).plus(
            acceleration.halved().scaled(dt).scaled(dt),
        );
        self.velocity = Velocity(self.velocity.0.plus(acceleration.scaled(dt)));
        self.controller.translation = Some(desired_translation);
    }

    /// Clears what lives for one tick only.
    pub fn reset_movement_components(&mut self)
        ensures
            final(self)@ == movement_reset(old(self)@),
    {
        self.force = Force(Vec3::zero());
        self.walker.direction = None;
        self.jump.requested = false;
    }
}

/// Takes the ground classification of every body from its controller's last report.
pub fn update_grounded(bodies: &mut Vec<Body>)
    ensures
        final(bodies)@.len() == old(bodies)@.len(),
        forall|i: int|
            0 <= i < old(bodies)@.len() ==> #[trigger] final(bodies)@[i]@ == grounded_updated(
                old(bodies)@[i]@,
            ),
{
    let n = bodies.len();
    let mut i: usize = 0;
    while i < n
        invariant
            i <= n,
            bodies@.len() == n,
            old(bodies)@.len() == n,
            forall|j: int| 0 <= j < i ==> #[trigger] bodies@[j]@ == grounded_updated(old(bodies)@[j]@),
            forall|j: int| i <= j < n ==> #[trigger] bodies@[j] == old(bodies)@[j],
        decreases n - i,
    {
        bodies[i].update_grounded();
        i += 1;
    }
}

/// Adds to every body its weight.
pub fn apply_gravity(bodies: &mut Vec<Body>)
    ensures
        final(bodies)@.len() == old(bodies)@.len(),
        forall|i: int|
            0 <= i < old(bodies)@.len() ==> #[trigger] final(bodies)@[i]@ == gravity_applied(
                old(bodies)@[i]@,
            ),
{
    let n = bodies.len();
    let mut i: usize = 0;
    while i < n
        invariant
            i <= n,
            bodies@.len() == n,
            old(bodies)@.len() == n,
            forall|j: int| 0 <= j < i ==> #[trigger] bodies@[j]@ == gravity_applied(old(bodies)@[j]@),
            forall|j: int| i <= j < n ==> #[trigger] bodies@[j] == old(bodies)@[j],
        decreases n - i,
    {
        bodies[i].apply_gravity();
        i += 1;
    }
}

/// Adds to every body that has a walk direction the force that drives the walk.
pub fn apply_walking(bodies: &mut Vec<Body>)
    ensures
        final(bodies)@.len() == old(bodies)@.len(),
        forall|i: int|
            0 <= i < old(bodies)@.len() ==> #[trigger] final(bodies)@[i]@ == walking_applied(
                old(bodies)@[i]@,
            ),
{
    let n = bodies.len();
    let mut i: usize = 0;
    while i < n
        invariant
            i <= n,
            bodies@.len() == n,
            old(bodies)@.len() == n,
            forall|j: int| 0 <= j < i ==> #[trigger] bodies@[j]@ == walking_applied(old(bodies)@[j]@),
            forall|j: int| i <= j < n ==> #[trigger] bodies@[j] == old(bodies)@[j],
        decreases n - i,
    {
        bodies[i].apply_walking();
        i += 1;
    }
}

/// Adds the force of a jump to every body that asked for one and stands on the ground.
pub fn apply_jumping(bodies: &mut Vec<Body>, dt: TimeStep)
    ensures
        final(bodies)@.len() == old(bodies)@.len(),
        forall|i: int|
            0 <= i < old(bodies)@.len() ==> #[trigger] final(bodies)@[i]@ == jumping_applied(
                old(bodies)@[i]@, dt@,
            ),
{
    let n = bodies.len();
    let mut i: usize = 0;
    while i < n
        invariant
            i <= n,
            bodies@.len() == n,
            old(bodies)@.len() == n,
            forall|j: int| 0 <= j < i ==> #[trigger] bodies@[j]@ == jumping_applied(old(bodies)@[j]@, dt@),
            forall|j: int| i <= j < n ==> #[trigger] bodies@[j] == old(bodies)@[j],
        decreases n - i,
    {
        bodies[i].apply_jumping(dt);
        i += 1;
    }
}

/// Adds to every body the drag that its velocity at the start of the tick calls for.
pub fn apply_drag(bodies: &mut Vec<Body>)
    ensures
        final(bodies)@.len() == old(bodies)@.len(),
        forall|i: int|
            0 <= i < old(bodies)@.len() ==> #[trigger] final(bodies)@[i]@ == drag_applied(
                old(bodies)@[i]@,
            ),
{
    let n = bodies.len();
    let mut i: usize = 0;
    while i < n
        invariant
            i <= n,
            bodies@.len() == n,
            old(bodies)@.len() == n,
            forall|j: int| 0 <= j < i ==> #[trigger] bodies@[j]@ == drag_applied(old(bodies)@[j]@),
            forall|j: int| i <= j < n ==> #[trigger] bodies@[j] == old(bodies)@[j],
        decreases n - i,
    {
        bodies[i].apply_drag();
        i += 1;
    }
}

/// Integrates the gathered force of every body over the tick. The force is
/// only read from here on.
pub fn apply_force(bodies: &mut Vec<Body>, dt: TimeStep)
    ensures
        final(bodies)@.len() == old(bodies)@.len(),
        forall|i: int|
            0 <= i < old(bodies)@.len() ==> #[trigger] final(bodies)@[i]@ == force_applied(
                old(bodies)@[i]@, dt@,
            ),
{
    let n = bodies.len();
    let mut i: usize = 0;
    while i < n
        invariant
            i <= n,
            bodies@.len() == n,
            old(bodies)@.len() == n,
            forall|j: int| 0 <= j < i ==> #[trigger] bodies@[j]@ == force_applied(old(bodies)@[j]@, dt@),
            forall|j: int| i <= j < n ==> #[trigger] bodies@[j] == old(bodies)@[j],
        decreases n - i,
    {
        bodies[i].apply_force(dt);
        i += 1;
    }
}

/// Clears what lives for one tick only, on every body, whatever it held.
pub fn reset_movement_components(bodies: &mut Vec<Body>)
    ensures
        final(bodies)@.len() == old(bodies)@.len(),
        forall|i: int|
            0 <= i < old(bodies)@.len() ==> #[trigger] final(bodies)@[i]@ == movement_reset(
                old(bodies)@[i]@,
            ),
{
    let n = bodies.len();
    let mut i: usize = 0;
    while i < n
        invariant
            i <= n,
            bodies@.len() == n,
            old(bodies)@.len() == n,
            forall|j: int| 0 <= j < i ==> #[trigger] bodies@[j]@ == movement_reset(old(bodies)@[j]@),
            forall|j: int| i <= j < n ==> #[trigger] bodies@[j] == old(bodies)@[j],
        decreases n - i,
    {
        bodies[i].reset_movement_components();
        i += 1;
    }
}

} // verus!
