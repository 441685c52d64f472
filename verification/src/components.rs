//! The data carried by a moving body, one field per concern, and its mathematical model.

use vstd::prelude::*;
use crate::fixed::{fx_neg, Fixed};
use crate::vector::{v_scale, view_opt, Vec3, Vector};

verus! {

/// Mass of a body: a strictly positive scalar.
#[derive(Clone, Copy, Debug, PartialEq, Eq)]
pub struct Mass {
    value: Fixed,
}

impl View for Mass {
    type V = int;

    closed spec fn view(&self) -> int {
        self.value@
    }
}

impl Mass {
    #[verifier::type_invariant]
    spec fn positive(self) -> bool {
        self.value@ > 0
    }

    /// A mass of `value`, which must be above zero.
    pub fn new(value: Fixed) -> (r: Option<Mass>)
        ensures
            r is Some <==> value@ > 0,
            r is Some ==> r->0@ == value@,
    {
        if value.raw() > 0 {
            Some(Mass { value })
        } else {
            None
        }
    }

    /// The mass as a number, which is above zero.
    pub fn value(&self) -> (r: Fixed)
        ensures
            r@ == self@,
            r@ > 0,
    {
        proof {
            use_type_invariant(self);
        }
        self.value
    }
}

/// Length of a tick: a strictly positive number of seconds.
#[derive(Clone, Copy, Debug, PartialEq, Eq)]
pub struct TimeStep {
    seconds: Fixed,
}

impl View for TimeStep {
    type V = int;

    closed spec fn view(&self) -> int {
        self.seconds@
    }
}

impl TimeStep {
    #[verifier::type_invariant]
    spec fn positive(self) -> bool {
        self.seconds@ > 0
    }

    /// A tick of `seconds`, which must be above zero.
    pub fn new(seconds: Fixed) -> (r: Option<TimeStep>)
        ensures
            r is Some <==> seconds@ > 0,
            r is Some ==> r->0@ == seconds@,
    {
        if seconds.raw() > 0 {
            Some(TimeStep { seconds })
        } else {
            None
        }
    }

    /// The length in seconds, which is above zero.
    pub fn seconds(&self) -> (r: Fixed)
        ensures
            r@ == self@,
            r@ > 0,
    {
        proof {
            use_type_invariant(self);
        }
        self.seconds
    }
}

/// Velocity carried from one tick to the next.
#[derive(Clone, Copy, Debug, PartialEq, Eq, Structural)]
pub struct Velocity(pub Vec3);

/// Sum of the forces gathered during one tick.
#[derive(Clone, Copy, Debug, PartialEq, Eq, Structural)]
pub struct Force(pub Vec3);

/// Latest ground classification of a body.
#[derive(Clone, Copy, Debug, PartialEq, Eq, Structural)]
pub struct Grounded {
    pub state: bool,
}

impl Grounded {
    /// Whether the body stands on the ground.
    pub fn is_grounded(&self) -> (r: bool)
        ensures
            r == self.state,
    {
        self.state
    }

    /// Takes over `new_state` at once.
    pub fn try_set(&mut self, new_state: bool)
        ensures
            final(self).state == new_state,
    {
        self.state = new_state;
    }
}

/// Jump configuration and the one-shot request to jump.
#[derive(Clone, Copy, Debug, PartialEq, Eq, Structural)]
pub struct Jump {
    /// Strength of gravity on this body.
    pub g: Fixed,
    /// Momentum handed to the body by one jump.
    pub impulse: Fixed,
    /// Set from outside before a tick, cleared at its end.
    pub requested: bool,
}

/// Model of a [`Jump`].
pub struct JumpModel {
    pub g: int,
    pub impulse: int,
    pub requested: bool,
}

impl View for Jump {
    type V = JumpModel;

    open spec fn view(&self) -> JumpModel {
        JumpModel { g: self.g@, impulse: self.impulse@, requested: self.requested }
    }
}

/// Walk configuration and the one-shot direction to walk in.
#[derive(Clone, Copy, Debug, PartialEq, Eq)]
pub struct Walker {
    /// Acceleration per unit of direction while on the ground.
    pub ground_acceleration: Fixed,
    /// Acceleration per unit of direction while in the air.
    pub aerial_acceleration: Fixed,
    /// Set from outside before a tick, cleared at its end.
    pub direction: Option<Vec3>,
}

/// Model of a [`Walker`].
pub struct WalkerModel {
    pub ground_acceleration: int,
    pub aerial_acceleration: int,
    pub direction: Option<Vector>,
}

impl View for Walker {
    type V = WalkerModel;

    open spec fn view(&self) -> WalkerModel {
        WalkerModel {
            ground_acceleration: self.ground_acceleration@,
            aerial_acceleration: self.aerial_acceleration@,
            direction: view_opt(self.direction),
        }
    }
}

/// Acceleration that a walker asks for: its direction scaled by the
/// acceleration of the ground state, or nothing without a direction.
pub open spec fn walk_acceleration(walker: WalkerModel, grounded: bool) -> Option<Vector> {
    match walker.direction {
        Some(direction) => Some(
            v_scale(
                direction,
                if grounded {
                    walker.ground_acceleration
                } else {
                    walker.aerial_acceleration
                },
            ),
        ),
        None => None,
    }
}

impl Walker {
    /// The acceleration asked for in the given ground state, if a direction is set.
    pub fn calculate_acceleration(&self, grounded: bool) -> (r: Option<Vec3>)
        ensures
            view_opt(r) == walk_acceleration(self@, grounded),
    {
        match self.direction {
            Some(direction) => {
                let rate = if grounded {
                    self.ground_acceleration
                } else {
                    self.aerial_acceleration
                };
                Some(direction.scaled(rate))
            },
            None => None,
        }
    }
}

/// Linear drag: a force proportional to velocity and opposed to it.
#[derive(Clone, Copy, Debug, PartialEq, Eq)]
pub struct Drag {
    k: Fixed,
}

impl View for Drag {
    type V = int;

    closed spec fn view(&self) -> int {
        self.k@
    }
}

/// Drag on a body moving at `velocity`, for the coefficient `k`.
pub open spec fn drag_force(k: int, velocity: Vector) -> Vector {
    v_scale(velocity, fx_neg(k))
}

impl Drag {
    #[verifier::type_invariant]
    spec fn non_negative(self) -> bool {
        self.k@ >= 0
    }

    /// Drag with the coefficient `k`, which must not be negative.
    pub fn new(k: Fixed) -> (r: Option<Drag>)
        ensures
            r is Some <==> k@ >= 0,
            r is Some ==> r->0@ == k@,
    {
        if k.raw() >= 0 {
            Some(Drag { k })
        } else {
            None
        }
    }

    /// The coefficient, which is not negative.
    pub fn coefficient(&self) -> (r: Fixed)
        ensures
            r@ == self@,
            r@ >= 0,
    {
        proof {
            use_type_invariant(self);
        }
        self.k
    }

    /// The drag on a body that moves at `velocity`.
    pub fn calculate_force(&self, velocity: Vec3) -> (r: Vec3)
        ensures
            r@ == drag_force(self@, velocity@),
    {
        velocity.scaled(self.k.negated())
    }
}

/// What the collision-resolving controller is told about a body.
#[derive(Clone, Copy, Debug, PartialEq, Eq)]
pub struct CharacterController {
    /// The axis that counts as up.
    pub up: Vec3,
    /// Displacement asked for in the current tick, once one was computed.
    pub translation: Option<Vec3>,
}

/// Model of a [`CharacterController`].
pub struct ControllerModel {
    pub up: Vector,
    pub translation: Option<Vector>,
}

impl View for CharacterController {
    type V = ControllerModel;

    open spec fn view(&self) -> ControllerModel {
        ControllerModel { up: self.up@, translation: view_opt(self.translation) }
    }
}

/// What the controller reports after it has resolved a displacement against obstacles.
#[derive(Clone, Copy, Debug, PartialEq, Eq, Structural)]
pub struct ControllerOutput {
    /// Whether the body touches the ground at the resolved position.
    pub grounded: bool,
    /// Displacement that the body actually made.
    pub effective_translation: Vec3,
}

/// Model of a [`ControllerOutput`].
pub struct OutputModel {
    pub grounded: bool,
    pub effective_translation: Vector,
}

impl View for ControllerOutput {
    type V = OutputModel;

    open spec fn view(&self) -> OutputModel {
        OutputModel {
            grounded: self.grounded,
            effective_translation: self.effective_translation@,
        }
    }
}

/// Identity of an entity: its slot in the tables that hold per-entity state.
#[derive(Clone, Copy, Debug, PartialEq, Eq, Hash, Structural)]
pub struct Entity {
    pub index: u32,
}

impl Entity {
    /// The entity of the given index.
    pub fn from_raw(index: u32) -> (r: Entity)
        ensures
            r.index == index,
    {
        Entity { index }
    }

    /// The index of the entity.
    pub fn index(&self) -> (r: u32)
        ensures
            r == self.index,
    {
        self.index
    }
}

/// Whether `entity` is among `entities`.
pub fn contains_entity(entities: &Vec<Entity>, entity: Entity) -> (r: bool)
    ensures
        r == entities@.contains(entity),
{
    let mut i: usize = 0;
    while i < entities.len()
        invariant
            i <= entities@.len(),
            forall|j: int| 0 <= j < i ==> entities@[j] != entity,
        decreases entities@.len() - i,
    {
        if entities[i].index() == entity.index() {
            return true;
        }
        i += 1;
    }
    false
}

/// Handle of an animation clip.
#[derive(Clone, Copy, Debug, PartialEq, Eq, Hash, Structural)]
pub struct ClipHandle {
    pub id: u64,
}

/// The three clips of a character.
#[derive(Clone, Copy, Debug, PartialEq, Eq, Structural)]
pub struct CharacterAnimations {
    pub idle: ClipHandle,
    pub walk: ClipHandle,
    pub aerial: ClipHandle,
}

} // verus!
