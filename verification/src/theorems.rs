//! What holds of the stages for every body, proved from their definitions.

use vstd::prelude::*;
use crate::body::BodyModel;
use crate::components::{drag_force, ClipHandle, JumpModel};
use crate::fixed::{
    fx_mul, fx_neg, in_range, lemma_quotient_bounds, lemma_quotient_negated,
    lemma_quotient_of_multiple, quotient, saturate, SCALE,
};
use crate::movement::{
    drag_applied, force_applied, gravitational_force, gravity_applied, grounded_updated,
    jump_fires, jump_force, jumping_applied, movement_reset, ticked, velocity_gain,
    walking_applied, walking_force, with_force,
};
use crate::presentation::{
    animated, animated_through, facing_target, horizontal_movement, locomotion, played, repeated,
    resolves, rotated, rotated_through, selected_clip, Locomotion, PlayerModel, VisualModel,
};
use crate::schedule::{
    must_precede, position, respects_dependencies, run_through, schedule, waits_for_resolution,
    Stage, WorldModel,
};
use crate::vector::{v_approx_zero, v_dot, v_sum_fits, v_zero, Vector};

verus! {

/// After the reset no force is gathered, no walk direction is set and no jump
/// is asked for, whatever the body held before; everything else is as it was.
pub proof fn reset_clears_transient_state(body: BodyModel)
    ensures
        movement_reset(body).force == v_zero(),
        movement_reset(body).walker.direction is None,
        !movement_reset(body).jump.requested,
        movement_reset(body).velocity == body.velocity,
        movement_reset(body).grounded == body.grounded,
        movement_reset(body).controller == body.controller,
{
}

/// Resetting twice is the same as resetting once.
pub proof fn reset_is_idempotent(body: BodyModel)
    ensures
        movement_reset(movement_reset(body)) == movement_reset(body),
{
}

/// The stages that gather forces change nothing but the gathered force: the
/// velocity that drag reads is the velocity from the start of the tick.
pub proof fn forces_change_the_force_only(body: BodyModel, dt: int)
    ensures
        gravity_applied(body) == (BodyModel { force: gravity_applied(body).force, ..body }),
        walking_applied(body) == (BodyModel { force: walking_applied(body).force, ..body }),
        jumping_applied(body, dt) == (BodyModel { force: jumping_applied(body, dt).force, ..body }),
        drag_applied(body) == (BodyModel { force: drag_applied(body).force, ..body }),
        drag_applied(
            jumping_applied(walking_applied(gravity_applied(grounded_updated(body))), dt),
        ).velocity == body.velocity,
{
}

/// Integration reads the gathered force and leaves it as it is.
pub proof fn integration_keeps_the_force(body: BodyModel, dt: int)
    ensures
        force_applied(body, dt).force == body.force,
        force_applied(body, dt).grounded == body.grounded,
        force_applied(body, dt).jump == body.jump,
        force_applied(body, dt).walker == body.walker,
{
}

/// What a whole tick leaves of a body: the ground classification that the
/// controller reported, no gathered force, no walk direction, no request to
/// jump, and the configuration it came with.
pub proof fn tick_ends_settled(body: BodyModel, dt: int)
    ensures
        ticked(body, dt).grounded == body.output.grounded,
        ticked(body, dt).force == v_zero(),
        ticked(body, dt).walker.direction is None,
        !ticked(body, dt).jump.requested,
        ticked(body, dt).controller.translation is Some,
        ticked(body, dt).controller.up == body.controller.up,
        ticked(body, dt).mass == body.mass,
        ticked(body, dt).drag == body.drag,
        ticked(body, dt).jump.g == body.jump.g,
        ticked(body, dt).jump.impulse == body.jump.impulse,
        ticked(body, dt).walker.ground_acceleration == body.walker.ground_acceleration,
        ticked(body, dt).walker.aerial_acceleration == body.walker.aerial_acceleration,
        ticked(body, dt).output == body.output,
        ticked(body, dt).animations == body.animations,
        ticked(body, dt).link == body.link,
        body.wf() ==> ticked(body, dt).wf(),
{
}

/// The weight of a body.
pub open spec fn weight(body: BodyModel) -> Vector {
    gravitational_force(body.controller.up, body.jump.g, body.mass)
}

/// Two contributions may be added in either order, as long as neither sum
/// with the force gathered so far needs clamping.
pub proof fn contributions_commute(body: BodyModel, first: Vector, second: Vector)
    requires
        v_sum_fits(body.force, first),
        v_sum_fits(body.force, second),
    ensures
        with_force(with_force(body, first), second) == with_force(
            with_force(body, second),
            first,
        ),
{
}

/// Gravity and walking may run in either order: neither reads what the other
/// writes, and their contributions commute.
pub proof fn gravity_and_walking_commute(body: BodyModel)
    requires
        v_sum_fits(body.force, weight(body)),
        walking_force(body) is Some ==> v_sum_fits(body.force, walking_force(body).unwrap()),
    ensures
        walking_applied(gravity_applied(body)) == gravity_applied(walking_applied(body)),
{
}

/// That drag waits for gravity and walking is a matter of order, not of
/// data: drag reads the velocity, which neither of them writes, so the
/// outcome is the same either way.
pub proof fn drag_commutes_with_gravity_and_walking(body: BodyModel)
    requires
        v_sum_fits(body.force, weight(body)),
        walking_force(body) is Some ==> v_sum_fits(body.force, walking_force(body).unwrap()),
        v_sum_fits(body.force, drag_force(body.drag, body.velocity)),
    ensures
        drag_applied(gravity_applied(body)) == gravity_applied(drag_applied(body)),
        drag_applied(walking_applied(body)) == walking_applied(drag_applied(body)),
{
}

/// A jump may run before or after gravity, walking and drag.
pub proof fn jumping_commutes_with_the_other_forces(body: BodyModel, dt: int)
    requires
        v_sum_fits(body.force, weight(body)),
        walking_force(body) is Some ==> v_sum_fits(body.force, walking_force(body).unwrap()),
        v_sum_fits(body.force, drag_force(body.drag, body.velocity)),
        jump_fires(body) ==> v_sum_fits(
            body.force,
            jump_force(body.controller.up, body.jump.impulse, dt),
        ),
    ensures
        jumping_applied(gravity_applied(body), dt) == gravity_applied(jumping_applied(body, dt)),
        jumping_applied(walking_applied(body), dt) == walking_applied(jumping_applied(body, dt)),
        jumping_applied(drag_applied(body), dt) == drag_applied(jumping_applied(body, dt)),
{
}

/// A jump that does not fire adds no force: a body in the air, or one that
/// did not ask to jump, leaves the jump stage exactly as it entered it.
pub proof fn jump_needs_request_and_ground(body: BodyModel, dt: int)
    requires
        !body.jump.requested || !body.grounded,
    ensures
        !jump_fires(body),
        jumping_applied(body, dt) == body,
{
}

/// A body in the air is shown with the aerial clip, however it moves.
pub proof fn airborne_selects_aerial(body: BodyModel)
    requires
        !body.grounded,
    ensures
        locomotion(body) == Locomotion::Aerial,
        selected_clip(body) == body.animations.aerial,
{
}

/// A body on the ground is shown walking exactly when it made horizontal way,
/// and idle otherwise.
pub proof fn grounded_selects_walk_or_idle(body: BodyModel)
    requires
        body.grounded,
    ensures
        locomotion(body) == (if v_approx_zero(horizontal_movement(body)) {
            Locomotion::Idle
        } else {
            Locomotion::Walk
        }),
{
}

/// Asking a player for the clip it plays already changes nothing, so choosing
/// the same clip tick after tick never starts it over.
pub proof fn replaying_is_idempotent(player: PlayerModel, clip: ClipHandle)
    ensures
        played(played(player, clip), clip) == played(player, clip),
        repeated(played(repeated(played(player, clip)), clip)) == repeated(played(player, clip)),
        player.clip == Some(clip) ==> played(player, clip) == player,
{
}

/// Choosing the clip of a body twice in a row leaves the table as choosing it once.
pub proof fn animating_is_idempotent(body: BodyModel, visuals: Seq<Option<VisualModel>>)
    requires
        body.link is Some ==> resolves(body.link.unwrap(), visuals),
    ensures
        animated(body, animated(body, visuals)) == animated(body, visuals),
{
    assert(animated(body, animated(body, visuals)) =~= animated(body, visuals));
}

/// A body that made no horizontal way to speak of leaves every visual facing
/// as it did.
pub proof fn standing_keeps_facing(body: BodyModel, visuals: Seq<Option<VisualModel>>)
    requires
        v_approx_zero(horizontal_movement(body)),
    ensures
        facing_target(body) is None,
        rotated(body, visuals) == visuals,
{
}

/// A displacement with no horizontal part at all counts as no horizontal way.
pub proof fn vertical_movement_is_no_horizontal_way(body: BodyModel)
    requires
        body.output.effective_translation.x == 0,
        body.output.effective_translation.z == 0,
    ensures
        v_approx_zero(horizontal_movement(body)),
        facing_target(body) is None,
{
}

/// One component of drag never points the way its component of velocity does.
proof fn drag_component_opposes(k: int, v: int)
    requires
        k >= 0,
    ensures
        fx_mul(v, fx_neg(k)) * v <= 0,
{
    let n = fx_neg(k);
    assert(n <= 0);
    let s = SCALE as int;
    let q = quotient(v * n, s);
    if v >= 0 {
        assert(v * n <= 0) by (nonlinear_arith)
            requires
                v >= 0,
                n <= 0,
        ;
        assert(q <= 0) by {
            if v * n < 0 {
                assert((-(v * n)) / s >= 0) by (nonlinear_arith)
                    requires
                        -(v * n) >= 0,
                        s > 0,
                ;
            }
        }
        assert(saturate(q) <= 0);
        assert(saturate(q) * v <= 0) by (nonlinear_arith)
            requires
                saturate(q) <= 0,
                v >= 0,
        ;
    } else {
        assert(v * n >= 0) by (nonlinear_arith)
            requires
                v < 0,
                n <= 0,
        ;
        assert(q >= 0) by (nonlinear_arith)
            requires
                q == (v * n) / s,
                v * n >= 0,
                s > 0,
        ;
        assert(saturate(q) >= 0);
        assert(saturate(q) * v <= 0) by (nonlinear_arith)
            requires
                saturate(q) >= 0,
                v < 0,
        ;
    }
}

/// Drag never pushes a body along: its dot product with the velocity is zero
/// or below, for every velocity and every valid coefficient.
pub proof fn drag_opposes_velocity(k: int, velocity: Vector)
    requires
        k >= 0,
    ensures
        v_dot(drag_force(k, velocity), velocity) <= 0,
{
    drag_component_opposes(k, velocity.x);
    drag_component_opposes(k, velocity.y);
    drag_component_opposes(k, velocity.z);
}

/// A body at rest feels no drag.
pub proof fn no_drag_at_rest(k: int)
    ensures
        drag_force(k, v_zero()) == v_zero(),
{
    let n = fx_neg(k);
    assert(0 * n == 0);
}

/// A request to jump made in the air is lost without a trace: the tick ends
/// as it would have ended without the request.
pub proof fn airborne_request_changes_nothing(body: BodyModel, dt: int)
    requires
        !body.output.grounded,
    ensures
        ticked(BodyModel { jump: JumpModel { requested: true, ..body.jump }, ..body }, dt)
            == ticked(BodyModel { jump: JumpModel { requested: false, ..body.jump }, ..body }, dt),
{
}

/// The schedule holds every stage once, and none before a stage that it has
/// to wait for.
pub proof fn schedule_respects_dependencies()
    ensures
        respects_dependencies(schedule()),
        schedule().len() == 9,
        forall|stage: Stage| #[trigger] schedule()[position(stage)] == stage,
        forall|i: int| 0 <= i < 9 ==> position(#[trigger] schedule()[i]) == i,
{
    assert forall|stage: Stage| schedule().contains(stage) by {
        assert(schedule()[position(stage)] == stage);
    }
    assert forall|i: int, j: int|
        0 <= i < schedule().len() && 0 <= j < schedule().len() && must_precede(
            schedule()[i],
            schedule()[j],
        ) implies i < j by {
        assert(position(schedule()[i]) == i);
        assert(position(schedule()[j]) == j);
    }
}

/// The schedule is cut in two where the controller does its work: no stage
/// that waits for the resolution comes before one that does not.
pub proof fn resolution_divides_the_schedule()
    ensures
        forall|i: int, j: int|
            0 <= i < 9 && 0 <= j < 9 && !waits_for_resolution(#[trigger] schedule()[i])
                && waits_for_resolution(#[trigger] schedule()[j]) ==> i < j,
        forall|i: int| 0 <= i < 7 ==> !waits_for_resolution(#[trigger] schedule()[i]),
        forall|i: int| 7 <= i < 9 ==> waits_for_resolution(#[trigger] schedule()[i]),
{
}

/// Run in one go, with no new report from the controller in between, the
/// schedule carries every body through `ticked`, then turns the visuals and
/// chooses their clips from the bodies as the movement left them.
pub proof fn schedule_ticks_every_body(world: WorldModel, dt: int)
    ensures
        ({
            let after = run_through(schedule(), world, dt, schedule().len());
            let n = world.bodies.len();
            &&& after.bodies == world.bodies.map_values(|body: BodyModel| ticked(body, dt))
            &&& after.visuals == animated_through(
                after.bodies,
                rotated_through(after.bodies, world.visuals, n),
                n,
            )
        }),
{
    reveal_with_fuel(run_through, 10);
    let after = run_through(schedule(), world, dt, schedule().len());
    assert(after.bodies =~= world.bodies.map_values(|body: BodyModel| ticked(body, dt)));
}

/// Upward speed, before any clamping, that a jump of `impulse` gives a body
/// of mass `mass` through a tick of `dt` seconds: the impulse is divided by
/// `dt`, the force by the mass, and the acceleration is multiplied by `dt`.
pub open spec fn jump_gain(impulse: int, mass: int, dt: int) -> int
    recommends
        mass > 0,
        dt > 0,
{
    quotient(quotient(quotient(impulse * SCALE, dt) * SCALE, mass) * dt, SCALE as int)
}

/// True when no step of `jump_gain` leaves the range of raw values.
pub open spec fn jump_stays_in_range(impulse: int, mass: int, dt: int) -> bool
    recommends
        mass > 0,
        dt > 0,
{
    let force = quotient(impulse * SCALE, dt);
    let acceleration = quotient(force * SCALE, mass);
    &&& in_range(impulse)
    &&& in_range(force)
    &&& in_range(acceleration)
    &&& in_range(jump_gain(impulse, mass, dt))
}

proof fn lemma_jump_gain_bounds(impulse: int, mass: int, dt: int)
    requires
        impulse >= 0,
        mass > 0,
        dt > 0,
    ensures
        0 <= jump_gain(impulse, mass, dt),
        jump_gain(impulse, mass, dt) * mass <= impulse * SCALE,
        impulse * SCALE * SCALE - jump_gain(impulse, mass, dt) * mass * SCALE < dt * SCALE
            + mass * dt + mass * SCALE,
{
    let s = SCALE as int;
    let f = quotient(impulse * s, dt);
    lemma_quotient_bounds(impulse * s, dt);
    let a = quotient(f * s, mass);
    lemma_quotient_bounds(f * s, mass);
    assert(a * dt >= 0) by (nonlinear_arith)
        requires
            a >= 0,
            dt > 0,
    ;
    let g = quotient(a * dt, s);
    lemma_quotient_bounds(a * dt, s);
    assert(g == jump_gain(impulse, mass, dt));
    let fd = f * dt;
    let am = a * mass;
    let ad = a * dt;
    let gm = g * mass;
    // from above
    assert((am) * dt <= (f * s) * dt) by (nonlinear_arith)
        requires
            am <= f * s,
            dt > 0,
    ;
    assert((f * s) * dt == fd * s) by (nonlinear_arith)
        requires
            fd == f * dt,
    ;
    assert((g * s) * mass <= ad * mass) by (nonlinear_arith)
        requires
            g * s <= ad,
            mass > 0,
    ;
    assert(ad * mass == am * dt) by (nonlinear_arith)
        requires
            ad == a * dt,
            am == a * mass,
    ;
    assert((g * s) * mass == gm * s) by (nonlinear_arith)
        requires
            gm == g * mass,
    ;
    assert(gm * s <= impulse * s * s);
    assert(gm <= impulse * s);
    // from below
    assert(ad * mass < (g * s + s) * mass) by (nonlinear_arith)
        requires
            ad < g * s + s,
            mass > 0,
    ;
    assert((g * s + s) * mass == gm * s + s * mass) by (nonlinear_arith)
        requires
            gm == g * mass,
    ;
    assert((f * s) * dt < (am + mass) * dt) by (nonlinear_arith)
        requires
            f * s < am + mass,
            dt > 0,
    ;
    assert((am + mass) * dt == am * dt + mass * dt) by (nonlinear_arith);
    assert(impulse * s * s < fd * s + dt * s);
}

/// The speed that a jump gives does not depend on the length of the tick,
/// up to rounding: spreading the impulse over the tick and integrating the
/// force over the same tick gives back the impulse divided by the mass. The
/// gain never exceeds that, falls short of it by less than
/// `dt / mass + dt / SCALE + 1` raw units, and equals it where the impulse
/// is a whole multiple of mass times `dt`. It is directed along the up axis
/// alone.
pub proof fn jump_gain_is_impulse_over_mass(impulse: int, mass: int, dt: int)
    requires
        mass > 0,
        dt > 0,
        jump_stays_in_range(impulse, mass, dt),
    ensures
        velocity_gain(jump_force(Vector { x: 0, y: SCALE as int, z: 0 }, impulse, dt), mass, dt)
            == (Vector { x: 0, y: jump_gain(impulse, mass, dt), z: 0 }),
        impulse >= 0 ==> {
            &&& 0 <= jump_gain(impulse, mass, dt) * mass <= impulse * SCALE
            &&& impulse * SCALE * SCALE - jump_gain(impulse, mass, dt) * mass * SCALE < dt * SCALE
                + mass * dt + mass * SCALE
        },
        impulse <= 0 ==> {
            &&& impulse * SCALE <= jump_gain(impulse, mass, dt) * mass <= 0
            &&& jump_gain(impulse, mass, dt) * mass * SCALE - impulse * SCALE * SCALE < dt * SCALE
                + mass * dt + mass * SCALE
        },
        (impulse * SCALE) % (mass * dt) == 0 ==> jump_gain(impulse, mass, dt) * mass == impulse
            * SCALE,
{
    let s = SCALE as int;
    let f = quotient(impulse * s, dt);
    let a = quotient(f * s, mass);
    let g = jump_gain(impulse, mass, dt);
    // the vertical component
    assert(quotient(s * impulse, s) == impulse) by {
        lemma_quotient_of_multiple(impulse, s);
        assert(impulse * s == s * impulse);
    }
    // the horizontal components
    assert(0 * impulse == 0);
    lemma_quotient_of_multiple(0, s);
    lemma_quotient_of_multiple(0, dt);
    lemma_quotient_of_multiple(0, mass);
    assert(0 * s == 0 && 0 * dt == 0 && 0 * mass == 0);
    // the bounds
    if impulse >= 0 {
        lemma_jump_gain_bounds(impulse, mass, dt);
        assert(g * mass >= 0) by (nonlinear_arith)
            requires
                g >= 0,
                mass > 0,
        ;
    }
    if impulse <= 0 {
        lemma_jump_gain_bounds(-impulse, mass, dt);
        let fp = quotient((-impulse) * s, dt);
        let ap = quotient(fp * s, mass);
        let gp = jump_gain(-impulse, mass, dt);
        assert((-impulse) * s == -(impulse * s));
        lemma_quotient_negated(impulse * s, dt);
        assert(fp == -f);
        assert(fp * s == -(f * s));
        lemma_quotient_negated(f * s, mass);
        assert(ap == -a);
        assert(ap * dt == -(a * dt)) by (nonlinear_arith)
            requires
                ap == -a,
        ;
        lemma_quotient_negated(a * dt, s);
        assert(gp == -g);
        assert(gp * mass == -(g * mass)) by (nonlinear_arith)
            requires
                gp == -g,
        ;
        assert(g * mass <= 0) by (nonlinear_arith)
            requires
                gp >= 0,
                gp == -g,
                mass > 0,
        ;
    }
    // the exact case
    assert(mass * dt > 0) by (nonlinear_arith)
        requires
            mass > 0,
            dt > 0,
    ;
    if (impulse * SCALE) % (mass * dt) == 0 {
        let whole = (impulse * s) / (mass * dt);
        vstd::arithmetic::div_mod::lemma_fundamental_div_mod(impulse * s, mass * dt);
        assert(impulse * s == (whole * mass) * dt) by (nonlinear_arith)
            requires
                impulse * s == (mass * dt) * whole,
        ;
        lemma_quotient_of_multiple(whole * mass, dt);
        assert(f == whole * mass);
        assert(f * s == (whole * s) * mass) by (nonlinear_arith)
            requires
                f == whole * mass,
        ;
        lemma_quotient_of_multiple(whole * s, mass);
        assert(a == whole * s);
        assert(a * dt == (whole * dt) * s) by (nonlinear_arith)
            requires
                a == whole * s,
        ;
        lemma_quotient_of_multiple(whole * dt, s);
        assert(g == whole * dt);
        assert(g * mass == whole * mass * dt) by (nonlinear_arith)
            requires
                g == whole * dt,
        ;
    }
}

} // verus!
