//! A moving body as one record of fields, and its mathematical model.

use vstd::prelude::*;
use crate::components::{
    CharacterAnimations, CharacterController, ControllerModel, ControllerOutput, Drag, Force,
    Grounded, Jump, JumpModel, Mass, OutputModel, Velocity, Walker, WalkerModel,
};
use crate::animation_link::AnimationEntityLink;
use crate::fixed::Fixed;
use crate::vector::{v_zero, Vec3, Vector};

verus! {

/// Everything that the stages read and write of one body.
#[derive(Clone, Copy, Debug, PartialEq)]
pub struct Body {
    pub mass: Mass,
    pub velocity: Velocity,
    pub force: Force,
    pub grounded: Grounded,
    pub jump: Jump,
    pub walker: Walker,
    pub drag: Drag,
    pub controller: CharacterController,
    pub output: ControllerOutput,
    pub animations: CharacterAnimations,
    /// Absent until the visual of the body has been found.
    pub link: Option<AnimationEntityLink>,
}

/// Model of a [`Body`]: the same fields over mathematical integers.
pub struct BodyModel {
    pub mass: int,
    pub velocity: Vector,
    pub force: Vector,
    pub grounded: bool,
    pub jump: JumpModel,
    pub walker: WalkerModel,
    pub drag: int,
    pub controller: ControllerModel,
    pub output: OutputModel,
    pub animations: CharacterAnimations,
    pub link: Option<AnimationEntityLink>,
}

impl BodyModel {
    /// What holds of the model of every body: its mass is positive and its
    /// drag coefficient is not negative.
    pub open spec fn wf(self) -> bool {
        self.mass > 0 && self.drag >= 0
    }
}

impl View for Body {
    type V = BodyModel;

    open spec fn view(&self) -> BodyModel {
        BodyModel {
            mass: self.mass@,
            velocity: self.velocity.0@,
            force: self.force.0@,
            grounded: self.grounded.state,
            jump: self.jump@,
            walker: self.walker@,
            drag: self.drag@,
            controller: self.controller@,
            output: self.output@,
            animations: self.animations,
            link: self.link,
        }
    }
}

/// Models of a sequence of bodies, in the same order.
pub open spec fn models(bodies: Seq<Body>) -> Seq<BodyModel> {
    Seq::new(bodies.len(), |i: int| bodies[i]@)
}

impl Body {
    /// A body at rest as it is spawned: no force gathered, no walk direction,
    /// no jump asked for, in the air until the controller reports otherwise,
    /// and not yet linked to a visual.
    pub fn new(
        mass: Mass,
        drag: Drag,
        animations: CharacterAnimations,
        g: Fixed,
        impulse: Fixed,
        ground_acceleration: Fixed,
        aerial_acceleration: Fixed,
        up: Vec3,
    ) -> (r: Body)
        ensures
            r@ == (BodyModel {
                mass: mass@,
                velocity: v_zero(),
                force: v_zero(),
                grounded: false,
                jump: JumpModel { g: g@, impulse: impulse@, requested: false },
                walker: WalkerModel {
                    ground_acceleration: ground_acceleration@,
                    aerial_acceleration: aerial_acceleration@,
                    direction: None,
                },
                drag: drag@,
                controller: ControllerModel { up: up@, translation: None },
                output: OutputModel {
                    grounded: false,
                    effective_translation: v_zero(),
                },
                animations: animations,
                link: None,
            }),
            r@.wf(),
    {
        // Reading the two guarded numbers brings their bounds into the proof.
        let _ = mass.value();
        let _ = drag.coefficient();
        Body {
            mass,
            velocity: Velocity(Vec3::zero()),
            force: Force(Vec3::zero()),
            grounded: Grounded { state: false },
            jump: Jump { g, impulse, requested: false },
            walker: Walker { ground_acceleration, aerial_acceleration, direction: None },
            drag,
            controller: CharacterController { up, translation: None },
            output: ControllerOutput { grounded: false, effective_translation: Vec3::zero() },
            animations,
            link: None,
        }
    }
}

} // verus!
