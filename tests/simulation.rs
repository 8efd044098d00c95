use arcade_sim::arena::{cull_projectiles, is_culled, wrap_shift, PlayArea, Side};
use arcade_sim::controls::{resolve_intents, HeldKeys, RotationIntent, ThrustIntent};
use arcade_sim::firing::{FireTimer, FIRE_COOLDOWN_MS};
use arcade_sim::motion::{rotation_sign, velocity_rule, SpeedClass, VelocityRule};
use arcade_sim::stepper::plan_tick;

fn keys(turn_left: bool, turn_right: bool, forward: bool, backward: bool, fire: bool) -> HeldKeys {
    HeldKeys {
        turn_left,
        turn_right,
        thrust_forward: forward,
        thrust_backward: backward,
        fire,
    }
}

#[test]
fn left_wins_over_right_for_every_combination() {
    for bits in 0u8..8 {
        let k = keys(true, true, bits & 1 != 0, bits & 2 != 0, bits & 4 != 0);
        assert_eq!(resolve_intents(&k).rotation, RotationIntent::TurnCcw);
    }
}

#[test]
fn single_keys_resolve_to_their_intents() {
    let r = resolve_intents(&keys(false, true, false, true, false));
    assert_eq!(r.rotation, RotationIntent::TurnCw);
    assert_eq!(r.thrust, ThrustIntent::Backward);
    assert!(!r.fire_requested);
    let r = resolve_intents(&keys(false, false, true, true, true));
    assert_eq!(r.rotation, RotationIntent::Steady);
    assert_eq!(r.thrust, ThrustIntent::Forward);
    assert!(r.fire_requested);
}

#[test]
fn no_turn_keys_leave_the_angle_alone() {
    let mut timer = FireTimer::new(0);
    for elapsed_ms in [0u64, 16, 1000] {
        let plan = plan_tick(&mut timer, &keys(false, false, false, false, false), SpeedClass::Moving, elapsed_ms, FIRE_COOLDOWN_MS);
        assert_eq!(plan.rotation_sign, 0);
        let angle: f32 = 1.25;
        let turned = angle + plan.rotation_sign as f32 * std::f32::consts::PI * (elapsed_ms as f32 / 1000.0);
        assert_eq!(turned, angle);
    }
    assert_eq!(rotation_sign(RotationIntent::TurnCcw), 1);
    assert_eq!(rotation_sign(RotationIntent::TurnCw), -1);
}

#[test]
fn resting_craft_keeps_halting() {
    assert_eq!(velocity_rule(ThrustIntent::Idle, SpeedClass::Creeping), VelocityRule::Halt);
    for _ in 0..5 {
        assert_eq!(velocity_rule(ThrustIntent::Idle, SpeedClass::Zero), VelocityRule::Halt);
    }
}

#[test]
fn velocity_rule_priority() {
    assert_eq!(velocity_rule(ThrustIntent::Forward, SpeedClass::Zero), VelocityRule::Accelerate);
    assert_eq!(velocity_rule(ThrustIntent::Backward, SpeedClass::Creeping), VelocityRule::Decelerate);
    assert_eq!(velocity_rule(ThrustIntent::Idle, SpeedClass::Moving), VelocityRule::Drag);
}

#[test]
fn thrust_from_rest_accelerates_along_facing() {
    let mut timer = FireTimer::new(0);
    let plan = plan_tick(&mut timer, &keys(false, false, true, false, false), SpeedClass::Zero, 1000, FIRE_COOLDOWN_MS);
    assert_eq!(plan.velocity_rule, VelocityRule::Accelerate);
    let thrust: f32 = 10.0;
    let angle: f32 = 0.0;
    let velocity = (thrust * 1.0 * angle.cos(), thrust * 1.0 * angle.sin());
    assert_eq!(velocity, (10.0, 0.0));
}

#[test]
fn held_fire_within_one_window_shoots_once() {
    let mut timer = FireTimer::new(0);
    let mut shots = 0;
    for now in 150u64..240 {
        if timer.try_fire(true, now, FIRE_COOLDOWN_MS) {
            shots += 1;
        }
    }
    assert_eq!(shots, 1);
    assert_eq!(timer.last_fired_ms, 150);
}

#[test]
fn cooldown_must_be_exceeded_strictly() {
    let mut timer = FireTimer::new(1000);
    assert!(!timer.try_fire(true, 1100, FIRE_COOLDOWN_MS));
    assert_eq!(timer.last_fired_ms, 1000);
    assert!(timer.try_fire(true, 1101, FIRE_COOLDOWN_MS));
    assert_eq!(timer.last_fired_ms, 1101);
    assert!(!timer.try_fire(false, 5000, FIRE_COOLDOWN_MS));
    assert_eq!(timer.last_fired_ms, 1101);
}

#[test]
fn clock_reading_earlier_than_last_shot_does_not_fire() {
    let mut timer = FireTimer::new(500);
    assert!(!timer.try_fire(true, 10, FIRE_COOLDOWN_MS));
    assert_eq!(timer.last_fired_ms, 500);
}

#[test]
fn plan_tick_fires_and_restarts_window() {
    let mut timer = FireTimer::new(0);
    let plan = plan_tick(&mut timer, &keys(false, false, false, false, true), SpeedClass::Moving, 101, FIRE_COOLDOWN_MS);
    assert!(plan.fire);
    assert_eq!(timer.last_fired_ms, 101);
    let plan = plan_tick(&mut timer, &keys(false, false, false, false, true), SpeedClass::Moving, 150, FIRE_COOLDOWN_MS);
    assert!(!plan.fire);
    assert_eq!(timer.last_fired_ms, 101);
}

#[test]
fn viewport_is_halved() {
    assert_eq!(PlayArea::from_viewport(800, 600), PlayArea { width: 400, height: 300 });
    assert_eq!(PlayArea::from_viewport(801, 1), PlayArea { width: 400, height: 0 });
}

#[test]
fn craft_past_right_edge_wraps_by_the_halved_width() {
    let area = PlayArea::from_viewport(800, 600);
    let x: f32 = 401.0;
    let wrapped = x + wrap_shift(Side::Above) as f32 * area.width as f32;
    assert_eq!(wrapped, 1.0);
}

#[test]
fn wrap_round_trip() {
    let area = PlayArea::from_viewport(800, 600);
    let half = area.width as f32 / 2.0;
    let x = half + 1.0;
    let wrapped = x + wrap_shift(Side::Above) as f32 * area.width as f32;
    assert_eq!(wrapped, half + 1.0 - area.width as f32);
    assert_eq!(wrapped + area.width as f32, x);
    assert_eq!(wrap_shift(Side::Below), 1);
    assert_eq!(wrap_shift(Side::Inside), 0);
}

#[test]
fn cull_predicate_reads_craft_for_three_edges() {
    assert!(is_culled(Side::Below, Side::Inside, Side::Inside));
    assert!(!is_culled(Side::Above, Side::Inside, Side::Inside));
    assert!(is_culled(Side::Inside, Side::Above, Side::Inside));
    assert!(!is_culled(Side::Inside, Side::Below, Side::Inside));
    assert!(is_culled(Side::Inside, Side::Inside, Side::Below));
    assert!(is_culled(Side::Inside, Side::Inside, Side::Above));
}

#[test]
fn culling_keeps_survivor_order() {
    let mut items = vec!['a', 'b', 'c', 'd', 'e'];
    let sides = vec![Side::Inside, Side::Below, Side::Inside, Side::Below, Side::Above];
    cull_projectiles(&mut items, &sides, Side::Inside, Side::Inside);
    assert_eq!(items, vec!['a', 'c', 'e']);
}

#[test]
fn craft_outside_culls_everything() {
    let mut items = vec![1, 2, 3];
    cull_projectiles(&mut items, &vec![Side::Inside; 3], Side::Inside, Side::Above);
    assert!(items.is_empty());
    let mut none: Vec<u8> = Vec::new();
    cull_projectiles(&mut none, &Vec::new(), Side::Inside, Side::Inside);
    assert!(none.is_empty());
}
