use locomotion::body::Body;
use locomotion::components::{
    CharacterAnimations, ClipHandle, Drag, Entity, Grounded, Mass, TimeStep,
};
use locomotion::fixed::Fixed;
use locomotion::movement::{
    apply_drag, apply_force, apply_gravity, apply_jumping, apply_walking,
    reset_movement_components, update_grounded,
};
use locomotion::schedule::{run_schedule, run_stage, GeneralMovementPlugin, Stage};
use locomotion::animation_link::AnimationEntityLink;
use locomotion::vector::Vec3;

fn vec3(x: i64, y: i64, z: i64) -> Vec3 {
    Vec3::new(Fixed::from_raw(x), Fixed::from_raw(y), Fixed::from_raw(z))
}

fn animations() -> CharacterAnimations {
    CharacterAnimations {
        idle: ClipHandle { id: 1 },
        walk: ClipHandle { id: 2 },
        aerial: ClipHandle { id: 3 },
    }
}

fn body(mass: i64, g: i64, impulse: i64, k: i64) -> Body {
    Body::new(
        Mass::new(Fixed::from_raw(mass)).unwrap(),
        Drag::new(Fixed::from_raw(k)).unwrap(),
        animations(),
        Fixed::from_raw(g),
        Fixed::from_raw(impulse),
        Fixed::from_raw(20_000_000),
        Fixed::from_raw(5_000_000),
        Vec3::unit_y(),
    )
}

fn dt(raw: i64) -> TimeStep {
    TimeStep::new(Fixed::from_raw(raw)).unwrap()
}

fn tick(bodies: &mut Vec<Body>, step: TimeStep) {
    GeneralMovementPlugin.update(bodies, step);
}

fn close(raw: i64, expected: f64) -> bool {
    (raw as f64 / 1e6 - expected).abs() <= 1e-5
}

#[test]
fn mass_must_be_positive() {
    assert!(Mass::new(Fixed::from_raw(0)).is_none());
    assert!(Mass::new(Fixed::from_raw(-1)).is_none());
    assert_eq!(Mass::new(Fixed::from_raw(1)).unwrap().value().raw(), 1);
    assert_eq!(Mass::new(Fixed::from_raw(i64::MAX)).unwrap().value().raw(), i64::MAX);
}

#[test]
fn time_step_must_be_positive() {
    assert!(TimeStep::new(Fixed::from_raw(0)).is_none());
    assert!(TimeStep::new(Fixed::from_raw(-16_000)).is_none());
    assert_eq!(TimeStep::new(Fixed::from_raw(16_000)).unwrap().seconds().raw(), 16_000);
}

#[test]
fn drag_coefficient_must_not_be_negative() {
    assert!(Drag::new(Fixed::from_raw(-1)).is_none());
    assert_eq!(Drag::new(Fixed::from_raw(0)).unwrap().coefficient().raw(), 0);
    assert_eq!(Drag::new(Fixed::from_raw(300_000)).unwrap().coefficient().raw(), 300_000);
}

#[test]
fn a_new_body_is_at_rest_and_unlinked() {
    let b = body(2_000_000, 9_800_000, 5_000_000, 100_000);
    assert_eq!(b.mass.value().raw(), 2_000_000);
    assert_eq!(b.drag.coefficient().raw(), 100_000);
    assert_eq!(b.velocity.0, Vec3::zero());
    assert_eq!(b.force.0, Vec3::zero());
    assert!(!b.grounded.is_grounded());
    assert_eq!(b.jump.g.raw(), 9_800_000);
    assert_eq!(b.jump.impulse.raw(), 5_000_000);
    assert!(!b.jump.requested);
    assert_eq!(b.walker.ground_acceleration.raw(), 20_000_000);
    assert_eq!(b.walker.aerial_acceleration.raw(), 5_000_000);
    assert_eq!(b.walker.direction, None);
    assert_eq!(b.controller.up, Vec3::unit_y());
    assert_eq!(b.controller.translation, None);
    assert!(!b.output.grounded);
    assert_eq!(b.output.effective_translation, Vec3::zero());
    assert_eq!(b.animations, animations());
    assert_eq!(b.link, None);
}

#[test]
fn grounded_takes_the_reported_state_at_once() {
    let mut grounded = Grounded { state: false };
    grounded.try_set(true);
    assert!(grounded.is_grounded());
    grounded.try_set(true);
    assert!(grounded.is_grounded());
    grounded.try_set(false);
    assert!(!grounded.is_grounded());
}

#[test]
fn update_grounded_copies_the_controller_report() {
    let mut on_ground = body(1_000_000, 9_800_000, 5_000_000, 0);
    on_ground.output.grounded = true;
    let mut in_air = body(1_000_000, 9_800_000, 5_000_000, 0);
    in_air.grounded.state = true;
    in_air.output.grounded = false;
    let mut bodies = vec![on_ground, in_air];
    update_grounded(&mut bodies);
    assert!(bodies[0].grounded.is_grounded());
    assert!(!bodies[1].grounded.is_grounded());
    assert_eq!(bodies.len(), 2);
}

#[test]
fn gravity_adds_weight_against_up() {
    let mut bodies = vec![body(2_000_000, 9_800_000, 5_000_000, 0)];
    bodies[0].force.0 = vec3(1, 2, 3);
    apply_gravity(&mut bodies);
    assert_eq!(bodies[0].force.0, vec3(1, 2 - 19_600_000, 3));
}

#[test]
fn gravity_follows_the_up_axis_of_the_controller() {
    let mut b = body(2_000_000, 9_800_000, 5_000_000, 0);
    b.controller.up = vec3(0, 0, -1_000_000);
    let mut bodies = vec![b];
    apply_gravity(&mut bodies);
    assert_eq!(bodies[0].force.0, vec3(0, 0, 19_600_000));
}

#[test]
fn walking_without_direction_adds_nothing() {
    let mut bodies = vec![body(2_000_000, 9_800_000, 5_000_000, 0)];
    bodies[0].force.0 = vec3(7, 8, 9);
    apply_walking(&mut bodies);
    assert_eq!(bodies[0].force.0, vec3(7, 8, 9));
}

#[test]
fn walking_on_the_ground_uses_ground_acceleration() {
    let mut b = body(2_000_000, 9_800_000, 5_000_000, 0);
    b.grounded.state = true;
    b.walker.direction = Some(vec3(1_000_000, 0, -500_000));
    let mut bodies = vec![b];
    apply_walking(&mut bodies);
    // direction * 20 * mass 2
    assert_eq!(bodies[0].force.0, vec3(40_000_000, 0, -20_000_000));
    assert_eq!(
        bodies[0].walker.calculate_acceleration(true),
        Some(vec3(20_000_000, 0, -10_000_000))
    );
}

#[test]
fn walking_in_the_air_uses_aerial_acceleration() {
    let mut b = body(2_000_000, 9_800_000, 5_000_000, 0);
    b.walker.direction = Some(vec3(1_000_000, 0, -500_000));
    let mut bodies = vec![b];
    apply_walking(&mut bodies);
    // direction * 5 * mass 2
    assert_eq!(bodies[0].force.0, vec3(10_000_000, 0, -5_000_000));
    assert_eq!(
        bodies[0].walker.calculate_acceleration(false),
        Some(vec3(5_000_000, 0, -2_500_000))
    );
    assert_eq!(body(1, 1, 1, 0).walker.calculate_acceleration(false), None);
}

#[test]
fn jump_fires_only_when_requested_on_the_ground() {
    for (requested, grounded, expected) in [
        (false, false, 0),
        (false, true, 0),
        (true, false, 0),
        (true, true, 50_000_000),
    ] {
        let mut b = body(1_000_000, 9_800_000, 5_000_000, 0);
        b.jump.requested = requested;
        b.grounded.state = grounded;
        let mut bodies = vec![b];
        apply_jumping(&mut bodies, dt(100_000));
        assert_eq!(bodies[0].force.0, vec3(0, expected, 0));
        assert_eq!(bodies[0].jump.requested, requested);
    }
}

#[test]
fn drag_is_minus_coefficient_times_velocity() {
    let mut b = body(1_000_000, 9_800_000, 5_000_000, 300_000);
    b.velocity.0 = vec3(10_000_000, -2_000_000, 0);
    assert_eq!(b.drag.calculate_force(b.velocity.0), vec3(-3_000_000, 600_000, 0));
    let mut bodies = vec![b];
    apply_drag(&mut bodies);
    assert_eq!(bodies[0].force.0, vec3(-3_000_000, 600_000, 0));
    assert_eq!(bodies[0].velocity.0, vec3(10_000_000, -2_000_000, 0));
}

#[test]
fn drag_opposes_velocity() {
    let velocities = [
        vec3(1, 1, 1),
        vec3(-1, 5, -9),
        vec3(10_000_000, -2_000_000, 3_333_333),
        vec3(i64::MAX, i64::MIN, 17),
        vec3(-4, 0, 0),
    ];
    for k in [0, 1, 300_000, 1_000_000, 77_000_000, i64::MAX] {
        let drag = Drag::new(Fixed::from_raw(k)).unwrap();
        for v in velocities {
            let f = drag.calculate_force(v);
            // every term of the dot product is zero or below, and so is their sum
            assert!(f.x.raw() as i128 * v.x.raw() as i128 <= 0);
            assert!(f.y.raw() as i128 * v.y.raw() as i128 <= 0);
            assert!(f.z.raw() as i128 * v.z.raw() as i128 <= 0);
        }
    }
}

#[test]
fn drag_dot_velocity_is_negative_for_a_moving_body() {
    let drag = Drag::new(Fixed::from_raw(300_000)).unwrap();
    let v = vec3(10_000_000, -2_000_000, 500_000);
    let f = drag.calculate_force(v);
    assert_eq!(f, vec3(-3_000_000, 600_000, -150_000));
    let dot = f.x.raw() * v.x.raw() + f.y.raw() * v.y.raw() + f.z.raw() * v.z.raw();
    assert_eq!(dot, -31_275_000_000_000);
}

#[test]
fn no_drag_at_rest() {
    let drag = Drag::new(Fixed::from_raw(i64::MAX)).unwrap();
    assert_eq!(drag.calculate_force(Vec3::zero()), Vec3::zero());
}

#[test]
fn apply_force_integrates_with_constant_acceleration() {
    let mut b = body(2_000_000, 9_800_000, 5_000_000, 0);
    b.velocity.0 = vec3(1_000_000, 0, 0);
    b.force.0 = vec3(4_000_000, -8_000_000, 0);
    let mut bodies = vec![b];
    apply_force(&mut bodies, dt(500_000));
    // a = (2, -4, 0); v' = v + a/2 = (2, -2, 0); s = v/2 + a/8 = (0.75, -0.5, 0)
    assert_eq!(bodies[0].velocity.0, vec3(2_000_000, -2_000_000, 0));
    assert_eq!(bodies[0].controller.translation, Some(vec3(750_000, -500_000, 0)));
    assert_eq!(bodies[0].force.0, vec3(4_000_000, -8_000_000, 0));
}

#[test]
fn reset_clears_force_direction_and_request() {
    let mut b = body(2_000_000, 9_800_000, 5_000_000, 0);
    b.force.0 = vec3(4, 5, 6);
    b.velocity.0 = vec3(7, 8, 9);
    b.walker.direction = Some(vec3(1, 0, 0));
    b.jump.requested = true;
    b.grounded.state = true;
    let untouched = body(2_000_000, 9_800_000, 5_000_000, 0);
    let mut bodies = vec![b, untouched];
    reset_movement_components(&mut bodies);
    for body in &bodies {
        assert_eq!(body.force.0, Vec3::zero());
        assert_eq!(body.walker.direction, None);
        assert!(!body.jump.requested);
    }
    assert_eq!(bodies[0].velocity.0, vec3(7, 8, 9));
    assert!(bodies[0].grounded.is_grounded());
    assert_eq!(bodies[1], untouched);
    let once = bodies.clone();
    reset_movement_components(&mut bodies);
    assert_eq!(bodies, once);
}

#[test]
fn gravity_only_tick() {
    let mut bodies = vec![body(2_000_000, 9_800_000, 5_000_000, 0)];
    tick(&mut bodies, dt(100_000));
    assert_eq!(bodies[0].velocity.0, vec3(0, -980_000, 0));
    assert_eq!(bodies[0].controller.translation, Some(vec3(0, -49_000, 0)));
    assert!(close(bodies[0].velocity.0.y.raw(), -0.98));
    assert!(close(bodies[0].controller.translation.unwrap().y.raw(), -0.049));
    assert_eq!(bodies[0].force.0, Vec3::zero());
}

#[test]
fn jump_requested_in_the_air_is_a_gravity_only_tick() {
    let mut asked = body(2_000_000, 9_800_000, 5_000_000, 0);
    asked.jump.requested = true;
    // the stale classification says grounded, the controller reports airborne
    asked.grounded.state = true;
    asked.output.grounded = false;
    let mut not_asked = asked;
    not_asked.jump.requested = false;
    let mut bodies = vec![asked, not_asked];
    tick(&mut bodies, dt(100_000));
    assert_eq!(bodies[0].velocity.0, vec3(0, -980_000, 0));
    assert_eq!(bodies[0].controller.translation, Some(vec3(0, -49_000, 0)));
    assert!(!bodies[0].jump.requested);
    assert_eq!(bodies[0], bodies[1]);
}

fn jump_gain(step: i64) -> i64 {
    let mut jumping = body(1_000_000, 9_800_000, 5_000_000, 0);
    jumping.output.grounded = true;
    let mut falling = jumping;
    jumping.jump.requested = true;
    let mut bodies = vec![jumping, falling];
    tick(&mut bodies, dt(step));
    falling = bodies[1];
    assert_eq!(falling.velocity.0.y.raw(), -(9_800_000 * step / 1_000_000));
    bodies[0].velocity.0.y.raw() - falling.velocity.0.y.raw()
}

#[test]
fn jump_gain_is_impulse_over_mass_whatever_the_tick() {
    assert_eq!(jump_gain(10_000), 5_000_000);
    assert_eq!(jump_gain(500_000), 5_000_000);
    assert_eq!(jump_gain(100_000), 5_000_000);
    assert!(close(jump_gain(10_000), 5.0));
    assert!(close(jump_gain(500_000), 5.0));
    // a tick of a sixtieth of a second does not divide the impulse evenly
    assert!(close(jump_gain(16_667), 5.0));
    assert!(close(jump_gain(1), 5.0));
}

#[test]
fn combined_tick() {
    let mut b = body(1_000_000, 9_800_000, 5_000_000, 0);
    b.output.grounded = true;
    b.jump.requested = true;
    let mut bodies = vec![b];
    update_grounded(&mut bodies);
    apply_gravity(&mut bodies);
    apply_walking(&mut bodies);
    apply_jumping(&mut bodies, dt(100_000));
    apply_drag(&mut bodies);
    assert_eq!(bodies[0].force.0, vec3(0, 40_200_000, 0));
    apply_force(&mut bodies, dt(100_000));
    assert_eq!(bodies[0].velocity.0, vec3(0, 4_020_000, 0));
    assert_eq!(bodies[0].controller.translation, Some(vec3(0, 201_000, 0)));
    assert!(close(bodies[0].velocity.0.y.raw(), 4.02));
    assert!(close(bodies[0].controller.translation.unwrap().y.raw(), 0.201));
    reset_movement_components(&mut bodies);
    assert_eq!(bodies[0].force.0, Vec3::zero());
    assert!(!bodies[0].jump.requested);

    let mut again = vec![b];
    tick(&mut again, dt(100_000));
    assert_eq!(again, bodies);
}

#[test]
fn tick_with_walk_and_drag() {
    let mut b = body(2_000_000, 10_000_000, 5_000_000, 500_000);
    b.output.grounded = true;
    b.velocity.0 = vec3(4_000_000, 0, 0);
    b.walker.direction = Some(vec3(0, 0, 1_000_000));
    let mut bodies = vec![b];
    tick(&mut bodies, dt(100_000));
    // forces: gravity (0, -20, 0), walk (0, 0, 40), drag (-2, 0, 0)
    // a = (-1, -10, 20); v' = (3.9, -1, 2); s = (0.4 - 0.005, -0.05, 0.1)
    assert_eq!(bodies[0].velocity.0, vec3(3_900_000, -1_000_000, 2_000_000));
    assert_eq!(bodies[0].controller.translation, Some(vec3(395_000, -50_000, 100_000)));
    assert_eq!(bodies[0].walker.direction, None);
    assert!(bodies[0].grounded.is_grounded());
}

#[test]
fn every_body_is_ticked_on_its_own() {
    let light = body(1_000_000, 9_800_000, 5_000_000, 0);
    let heavy = body(50_000_000, 1_000_000, 5_000_000, 0);
    let mut together = vec![light, heavy];
    tick(&mut together, dt(100_000));
    let mut alone = vec![heavy];
    tick(&mut alone, dt(100_000));
    assert_eq!(together[1], alone[0]);
    assert_eq!(together[0].velocity.0, vec3(0, -980_000, 0));
    assert_eq!(together[1].velocity.0, vec3(0, -100_000, 0));
    let mut none: Vec<Body> = Vec::new();
    tick(&mut none, dt(100_000));
    assert!(none.is_empty());
}

#[test]
fn default_link_names_the_first_slot() {
    assert_eq!(AnimationEntityLink::default(), AnimationEntityLink(Entity::from_raw(0)));
    assert_eq!(AnimationEntityLink::default().0.index(), 0);
    assert_eq!(Entity::from_raw(7).index(), 7);
}

#[test]
fn a_stage_run_by_name_is_the_stage() {
    let mut b = body(2_000_000, 9_800_000, 5_000_000, 300_000);
    b.output.grounded = true;
    b.jump.requested = true;
    b.velocity.0 = vec3(1_000_000, 0, 0);
    b.walker.direction = Some(vec3(0, 0, 1_000_000));
    let step = dt(100_000);
    let stages: [(Stage, fn(&mut Vec<Body>, TimeStep)); 7] = [
        (Stage::UpdateGrounded, |bodies, _| update_grounded(bodies)),
        (Stage::ApplyGravity, |bodies, _| apply_gravity(bodies)),
        (Stage::ApplyWalking, |bodies, _| apply_walking(bodies)),
        (Stage::ApplyJumping, |bodies, dt| apply_jumping(bodies, dt)),
        (Stage::ApplyDrag, |bodies, _| apply_drag(bodies)),
        (Stage::ApplyForce, |bodies, dt| apply_force(bodies, dt)),
        (Stage::ResetMovementComponents, |bodies, _| reset_movement_components(bodies)),
    ];
    let mut by_name = vec![b];
    let mut direct = vec![b];
    for (stage, run) in stages {
        run_stage(stage, &mut by_name, &mut Vec::new(), step);
        run(&mut direct, step);
        assert_eq!(by_name, direct);
    }
    let mut ticked = vec![b];
    tick(&mut ticked, step);
    assert_eq!(ticked, direct);
}

#[test]
fn a_schedule_runs_its_stages_in_the_order_given() {
    let step = dt(100_000);
    let b = body(2_000_000, 9_800_000, 5_000_000, 0);
    let mut bodies = vec![b];
    run_schedule(&vec![Stage::ApplyGravity, Stage::ApplyGravity], &mut bodies, &mut Vec::new(), step);
    assert_eq!(bodies[0].force.0, vec3(0, -39_200_000, 0));
    run_schedule(
        &vec![Stage::ResetMovementComponents, Stage::ApplyGravity, Stage::ApplyForce],
        &mut bodies,
        &mut Vec::new(),
        step,
    );
    assert_eq!(bodies[0].force.0, vec3(0, -19_600_000, 0));
    assert_eq!(bodies[0].velocity.0, vec3(0, -980_000, 0));
    let before = bodies.clone();
    run_schedule(&Vec::new(), &mut bodies, &mut Vec::new(), step);
    assert_eq!(bodies, before);
}
