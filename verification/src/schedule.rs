//! The order of the stages within one tick.
//!
//! Which stage has to wait for which is written down once, as a relation on
//! stages. The plugin hands out one order that respects it, and a tick runs
//! the stages in exactly that order, in two parts: the movement up to the
//! displacement asked for, and, once the controller has resolved that
//! displacement, what is shown of it.

use vstd::prelude::*;
use crate::body::{models, Body, BodyModel};
use crate::components::TimeStep;
use crate::movement::{
    apply_drag, apply_force, apply_gravity, apply_jumping, apply_walking, drag_applied,
    force_applied, gravity_applied, grounded_updated, jumping_applied, movement_reset,
    reset_movement_components, ticked, update_grounded, walking_applied,
};
use crate::presentation::{
    animated_through, play_animations, resolves, rotate_model, rotated_through, visual_models,
    Visual, VisualModel,
};

verus! {

/// The stages of a tick.
#[derive(Clone, Copy, Debug, PartialEq, Eq, Hash, Structural)]
pub enum Stage {
    UpdateGrounded,
    ApplyGravity,
    ApplyWalking,
    ApplyJumping,
    ApplyDrag,
    ApplyForce,
    ResetMovementComponents,
    RotateModel,
    PlayAnimations,
}

/// True when `later` may only run once `earlier` has run in the same tick.
///
/// The ground classification comes first for every stage that reads it; drag
/// waits for gravity and walking; integration waits for all four forces; the
/// reset waits for integration.
pub open spec fn must_precede(earlier: Stage, later: Stage) -> bool {
    match (earlier, later) {
        (Stage::UpdateGrounded, Stage::ApplyGravity) => true,
        (Stage::UpdateGrounded, Stage::ApplyWalking) => true,
        (Stage::UpdateGrounded, Stage::ApplyJumping) => true,
        (Stage::UpdateGrounded, Stage::PlayAnimations) => true,
        (Stage::ApplyGravity, Stage::ApplyDrag) => true,
        (Stage::ApplyWalking, Stage::ApplyDrag) => true,
        (Stage::ApplyGravity, Stage::ApplyForce) => true,
        (Stage::ApplyWalking, Stage::ApplyForce) => true,
        (Stage::ApplyJumping, Stage::ApplyForce) => true,
        (Stage::ApplyDrag, Stage::ApplyForce) => true,
        (Stage::ApplyForce, Stage::ResetMovementComponents) => true,
        _ => false,
    }
}

/// True for the stages that show what the controller made of the
/// displacement asked for: they run once the controller has resolved it.
pub open spec fn waits_for_resolution(stage: Stage) -> bool {
    stage == Stage::RotateModel || stage == Stage::PlayAnimations
}

/// The order in which a tick runs its stages. The controller resolves the
/// displacement between the last stage that does not wait for it and the
/// first that does.
pub open spec fn schedule() -> Seq<Stage> {
    seq![
        Stage::UpdateGrounded,
        Stage::ApplyGravity,
        Stage::ApplyWalking,
        Stage::ApplyJumping,
        Stage::ApplyDrag,
        Stage::ApplyForce,
        Stage::ResetMovementComponents,
        Stage::RotateModel,
        Stage::PlayAnimations,
    ]
}

/// Place of a stage in the schedule.
pub open spec fn position(stage: Stage) -> int {
    match stage {
        Stage::UpdateGrounded => 0,
        Stage::ApplyGravity => 1,
        Stage::ApplyWalking => 2,
        Stage::ApplyJumping => 3,
        Stage::ApplyDrag => 4,
        Stage::ApplyForce => 5,
        Stage::ResetMovementComponents => 6,
        Stage::RotateModel => 7,
        Stage::PlayAnimations => 8,
    }
}

/// True when `order` holds every stage and no stage has to wait for one that
/// comes after it.
pub open spec fn respects_dependencies(order: Seq<Stage>) -> bool {
    &&& forall|stage: Stage| order.contains(stage)
    &&& forall|i: int, j: int|
        0 <= i < order.len() && 0 <= j < order.len() && must_precede(order[i], order[j]) ==> i < j
}

/// Bodies and visuals together.
pub struct WorldModel {
    pub bodies: Seq<BodyModel>,
    pub visuals: Seq<Option<VisualModel>>,
}

/// Model of the two tables.
pub open spec fn world_model(bodies: Seq<Body>, visuals: Seq<Option<Visual>>) -> WorldModel {
    WorldModel { bodies: models(bodies), visuals: visual_models(visuals) }
}

/// True when the link of every linked body names a slot that holds a visual.
pub open spec fn linked(world: WorldModel) -> bool {
    forall|i: int|
        0 <= i < world.bodies.len() && (#[trigger] world.bodies[i]).link is Some ==> resolves(
            world.bodies[i].link.unwrap(),
            world.visuals,
        )
}

/// Whether the link of every linked body finds its visual, so that a tick
/// can run.
pub fn links_resolve(bodies: &Vec<Body>, visuals: &Vec<Option<Visual>>) -> (r: bool)
    ensures
        r == linked(world_model(bodies@, visuals@)),
{
    let ghost world = world_model(bodies@, visuals@);
    let mut i: usize = 0;
    while i < bodies.len()
        invariant
            i <= bodies@.len(),
            world == world_model(bodies@, visuals@),
            forall|j: int|
                0 <= j < i && (#[trigger] world.bodies[j]).link is Some ==> resolves(
                    world.bodies[j].link.unwrap(),
                    world.visuals,
                ),
        decreases bodies@.len() - i,
    {
        if let Some(link) = bodies[i].link {
            let slot = link.0.index() as usize;
            let found = slot < visuals.len() && visuals[slot].is_some();
            if !found {
                assert(world.bodies[i as int].link == Some(link));
                assert(!resolves(link, world.visuals));
                return false;
            }
            assert(world.bodies[i as int].link == Some(link));
        }
        i += 1;
    }
    true
}

/// The world after one stage.
pub open spec fn stage_applied(stage: Stage, world: WorldModel, dt: int) -> WorldModel {
    match stage {
        Stage::UpdateGrounded => WorldModel {
            bodies: world.bodies.map_values(|body: BodyModel| grounded_updated(body)),
            ..world
        },
        Stage::ApplyGravity => WorldModel {
            bodies: world.bodies.map_values(|body: BodyModel| gravity_applied(body)),
            ..world
        },
        Stage::ApplyWalking => WorldModel {
            bodies: world.bodies.map_values(|body: BodyModel| walking_applied(body)),
            ..world
        },
        Stage::ApplyJumping => WorldModel {
            bodies: world.bodies.map_values(|body: BodyModel| jumping_applied(body, dt)),
            ..world
        },
        Stage::ApplyDrag => WorldModel {
            bodies: world.bodies.map_values(|body: BodyModel| drag_applied(body)),
            ..world
        },
        Stage::ApplyForce => WorldModel {
            bodies: world.bodies.map_values(|body: BodyModel| force_applied(body, dt)),
            ..world
        },
        Stage::ResetMovementComponents => WorldModel {
            bodies: world.bodies.map_values(|body: BodyModel| movement_reset(body)),
            ..world
        },
        Stage::RotateModel => WorldModel {
            visuals: rotated_through(world.bodies, world.visuals, world.bodies.len()),
            ..world
        },
        Stage::PlayAnimations => WorldModel {
            visuals: animated_through(world.bodies, world.visuals, world.bodies.len()),
            ..world
        },
    }
}

/// The world after the first `n` stages of `order`, one after the other.
pub open spec fn run_through(order: Seq<Stage>, world: WorldModel, dt: int, n: nat) -> WorldModel
    decreases n,
{
    if n == 0 {
        world
    } else {
        stage_applied(order[n - 1], run_through(order, world, dt, (n - 1) as nat), dt)
    }
}

/// Runs one stage on every body.
pub fn run_stage(
    stage: Stage,
    bodies: &mut Vec<Body>,
    visuals: &mut Vec<Option<Visual>>,
    dt: TimeStep,
)
    requires
        waits_for_resolution(stage) ==> linked(world_model(old(bodies)@, old(visuals)@)),
    ensures
        world_model(final(bodies)@, final(visuals)@) == stage_applied(
            stage,
            world_model(old(bodies)@, old(visuals)@),
            dt@,
        ),
        linked(world_model(old(bodies)@, old(visuals)@)) ==> linked(
            world_model(final(bodies)@, final(visuals)@),
        ),
{
    let ghost before = world_model(bodies@, visuals@);
    proof {
        if linked(before) {
            assert forall|i: int|
                0 <= i < bodies@.len() && bodies@[i].link is Some implies resolves(
                bodies@[i].link.unwrap(),
                visual_models(visuals@),
            ) by {
                assert(before.bodies[i].link == bodies@[i].link);
            }
        }
    }
    match stage {
        Stage::UpdateGrounded => update_grounded(bodies),
        Stage::ApplyGravity => apply_gravity(bodies),
        Stage::ApplyWalking => apply_walking(bodies),
        Stage::ApplyJumping => apply_jumping(bodies, dt),
        Stage::ApplyDrag => apply_drag(bodies),
        Stage::ApplyForce => apply_force(bodies, dt),
        Stage::ResetMovementComponents => reset_movement_components(bodies),
        Stage::RotateModel => rotate_model(bodies, visuals),
        Stage::PlayAnimations => play_animations(visuals, bodies),
    }
    proof {
        let after = world_model(bodies@, visuals@);
        assert(after.bodies =~= stage_applied(stage, before, dt@).bodies);
        assert(after.visuals =~= stage_applied(stage, before, dt@).visuals);
        if linked(before) {
            assert forall|i: int|
                0 <= i < after.bodies.len() && (#[trigger] after.bodies[i]).link is Some implies resolves(
                after.bodies[i].link.unwrap(),
                after.visuals,
            ) by {
                assert(before.bodies[i].link == after.bodies[i].link);
            }
        }
    }
}

/// Runs the stages of `order` from first to last. Where a stage among them
/// shows the bodies, every link has to find its visual.
pub fn run_schedule(
    order: &Vec<Stage>,
    bodies: &mut Vec<Body>,
    visuals: &mut Vec<Option<Visual>>,
    dt: TimeStep,
)
    requires
        linked(world_model(old(bodies)@, old(visuals)@)) || forall|i: int|
            0 <= i < order@.len() ==> !waits_for_resolution(#[trigger] order@[i]),
    ensures
        world_model(final(bodies)@, final(visuals)@) == run_through(
            order@,
            world_model(old(bodies)@, old(visuals)@),
            dt@,
            order@.len(),
        ),
        linked(world_model(old(bodies)@, old(visuals)@)) ==> linked(
            world_model(final(bodies)@, final(visuals)@),
        ),
{
    let n = order.len();
    let mut i: usize = 0;
    while i < n
        invariant
            i <= n,
            n == order@.len(),
            linked(world_model(old(bodies)@, old(visuals)@)) || forall|i: int|
                0 <= i < order@.len() ==> !waits_for_resolution(#[trigger] order@[i]),
            linked(world_model(old(bodies)@, old(visuals)@)) ==> linked(
                world_model(bodies@, visuals@),
            ),
            world_model(bodies@, visuals@) == run_through(
                order@,
                world_model(old(bodies)@, old(visuals)@),
                dt@,
                i as nat,
            ),
        decreases n - i,
    {
        run_stage(order[i], bodies, visuals, dt);
        i += 1;
    }
}

/// The visuals after those of the first `n` stages of `order` that show the
/// bodies have run; the other stages leave the visuals alone.
pub open spec fn shown_through(
    order: Seq<Stage>,
    bodies: Seq<BodyModel>,
    visuals: Seq<Option<VisualModel>>,
    n: nat,
) -> Seq<Option<VisualModel>>
    decreases n,
{
    if n == 0 {
        visuals
    } else {
        let before = shown_through(order, bodies, visuals, (n - 1) as nat);
        match order[n - 1] {
            Stage::RotateModel => rotated_through(bodies, before, bodies.len()),
            Stage::PlayAnimations => animated_through(bodies, before, bodies.len()),
            _ => before,
        }
    }
}

/// The movement of characters, as a unit that an application adds to its loop.
#[derive(Clone, Copy, Debug, Default)]
pub struct GeneralMovementPlugin;

impl GeneralMovementPlugin {
    /// The stages in the order in which a tick runs them.
    pub fn build(&self) -> (order: Vec<Stage>)
        ensures
            order@ == schedule(),
    {
        let order = vec![
            Stage::UpdateGrounded,
            Stage::ApplyGravity,
            Stage::ApplyWalking,
            Stage::ApplyJumping,
            Stage::ApplyDrag,
            Stage::ApplyForce,
            Stage::ResetMovementComponents,
            Stage::RotateModel,
            Stage::PlayAnimations,
        ];
        assert(order@ =~= schedule());
        order
    }

    /// The first part of a tick of `dt` seconds, up to the displacement
    /// that the controller is asked for: the stages of `build` that do not
    /// wait for the controller, in their order. Every body goes through
    /// `ticked`.
    pub fn update(&self, bodies: &mut Vec<Body>, dt: TimeStep)
        ensures
            final(bodies)@.len() == old(bodies)@.len(),
            forall|i: int|
                0 <= i < old(bodies)@.len() ==> #[trigger] final(bodies)@[i]@ == ticked(
                    old(bodies)@[i]@,
                    dt@,
                ),
    {
        let mut order = self.build();
        order.truncate(7);
        let mut no_visuals: Vec<Option<Visual>> = Vec::new();
        let ghost before = world_model(bodies@, no_visuals@);
        assert(order@ =~= schedule().subrange(0, 7));
        run_schedule(&order, bodies, &mut no_visuals, dt);
        proof {
            reveal_with_fuel(run_through, 8);
            let after = world_model(bodies@, no_visuals@);
            assert(after.bodies =~= before.bodies.map_values(|body: BodyModel| ticked(body, dt@)));
            assert forall|i: int| 0 <= i < old(bodies)@.len() implies #[trigger] bodies@[i]@
                == ticked(old(bodies)@[i]@, dt@) by {
                assert(after.bodies[i] == bodies@[i]@);
                assert(before.bodies[i] == old(bodies)@[i]@);
            }
        }
    }

    /// The second part of a tick, once the bodies carry what the controller
    /// made of the displacement: the stages of `build` that wait for the
    /// controller, in their order. The visuals turn first and choose their
    /// clips second.
    pub fn present(&self, bodies: &Vec<Body>, visuals: &mut Vec<Option<Visual>>)
        requires
            linked(world_model(bodies@, old(visuals)@)),
        ensures
            visual_models(final(visuals)@) == animated_through(
                models(bodies@),
                rotated_through(models(bodies@), visual_models(old(visuals)@), bodies@.len()),
                bodies@.len(),
            ),
            linked(world_model(bodies@, final(visuals)@)),
    {
        let order = self.build();
        let ghost world = world_model(bodies@, visuals@);
        let mut i: usize = 0;
        while i < order.len()
            invariant
                i <= order@.len(),
                order@ == schedule(),
                world == world_model(bodies@, old(visuals)@),
                visuals@.len() == old(visuals)@.len(),
                forall|k: int|
                    0 <= k < visuals@.len() ==> (#[trigger] visuals@[k] is Some <==> old(
                        visuals,
                    )@[k] is Some),
                linked(world),
                visual_models(visuals@) == shown_through(
                    schedule(),
                    world.bodies,
                    world.visuals,
                    i as nat,
                ),
            decreases order@.len() - i,
        {
            proof {
                assert forall|j: int|
                    0 <= j < bodies@.len() && bodies@[j].link is Some implies resolves(
                    bodies@[j].link.unwrap(),
                    visual_models(visuals@),
                ) by {
                    assert(world.bodies[j].link == bodies@[j].link);
                }
            }
            match order[i] {
                Stage::RotateModel => rotate_model(bodies, visuals),
                Stage::PlayAnimations => play_animations(visuals, bodies),
                _ => {},
            }
            i += 1;
        }
        proof {
            reveal_with_fuel(shown_through, 10);
            let after = world_model(bodies@, visuals@);
            assert forall|j: int|
                0 <= j < after.bodies.len() && (#[trigger] after.bodies[j]).link is Some implies resolves(
                after.bodies[j].link.unwrap(),
                after.visuals,
            ) by {
                assert(world.bodies[j].link == after.bodies[j].link);
            }
        }
    }
}

} // verus!
