use skrr::car::{Car, Config, CAR_MASS, MAX_DT, MAX_TURN_RATE, MAX_WHEEL_ANGULAR_ACC, STATE_LIMIT};
use skrr::fixed::{fixed_div, fixed_mul, integer_sqrt, ONE};
use skrr::tools::{vec_determinant, Vec2};

/// The unit heading of a fixed-point angle, as a host would compute it.
fn heading_of(angle: i64) -> Vec2 {
    let a = angle as f64 / ONE as f64;
    Vec2::new(
        (a.cos() * ONE as f64).round() as i64,
        (a.sin() * ONE as f64).round() as i64,
    )
}

fn advance(car: &mut Car, dt: i64) {
    assert!(car.within_limits());
    let h = heading_of(car.body_angle());
    car.update(dt, h);
}

#[test]
fn new_car_is_at_rest() {
    let car = Car::new(Vec2::new(300 * ONE, 200 * ONE));
    assert_eq!(car.position(), Vec2::new(300_000_000, 200_000_000));
    assert_eq!(car.vel, Vec2::zeros());
    assert_eq!(car.body_angle(), 0);
    assert_eq!(car.heading, Vec2::new(ONE, 0));
    assert_eq!(car.throttle, 0);
    assert_eq!(car.steering, 0);
    assert_eq!(car.body_angular_vel, 0);
    assert_eq!(car.angular_vel, 0);
    assert_eq!(car.angular_acc, 0);
    assert_eq!(car.config, Config::default());
    assert!(car.within_limits());
}

#[test]
fn default_config_values() {
    let c = Config::default();
    assert_eq!(c.car_width, 20 * ONE);
    assert_eq!(c.car_length, 30 * ONE);
    assert_eq!(c.mass, 1000 * ONE);
    assert_eq!(c.gravity, 9_810_000);
    assert_eq!(c.static_friction, ONE);
    assert_eq!(c.kinetic_friction, 600_000);
    assert_eq!(c.max_turn_rate, 1_570_796);
    assert_eq!(c.max_wheel_angular_acc, 3_141_592_654);
    assert_eq!(c.wheel_offset, 10 * ONE);
    assert!(c.is_valid());
}

#[test]
fn setters_store_and_reset() {
    let mut car = Car::new(Vec2::zeros());
    car.set_throttle(-ONE);
    car.set_steering(ONE);
    assert_eq!(car.throttle, -ONE);
    assert_eq!(car.steering, ONE);
    car.reset_throttle();
    assert_eq!(car.throttle, 0);
    assert_eq!(car.steering, ONE);
    car.reset_steering();
    assert_eq!(car.steering, 0);
}

#[test]
fn zero_step_changes_nothing() {
    let mut car = Car::new(Vec2::new(5 * ONE, -3 * ONE));
    car.vel = Vec2::new(2 * ONE, ONE);
    car.body_angle = 700_000;
    car.body_angular_vel = 300_000;
    car.angular_vel = 4 * ONE;
    car.set_throttle(ONE);
    car.set_steering(-ONE);
    let before = car;
    let h = heading_of(car.body_angle);
    car.update(0, h);
    assert_eq!(car.pos, before.pos);
    assert_eq!(car.vel, before.vel);
    assert_eq!(car.body_angle, before.body_angle);
    assert_eq!(car.body_angular_vel, before.body_angular_vel);
    assert_eq!(car.angular_vel, before.angular_vel);
    assert_eq!(car.heading, h);
}

#[test]
fn heading_is_recomputed_each_step() {
    let mut car = Car::new(Vec2::zeros());
    car.set_steering(ONE);
    for _ in 0..5 {
        advance(&mut car, 100_000);
        let h = heading_of(car.body_angle);
        car.update(100_000, h);
        assert_eq!(car.heading, h);
        let (c, s) = (car.heading.x as f64 / 1e6, car.heading.y as f64 / 1e6);
        assert!((c * c + s * s - 1.0).abs() < 1e-5);
    }
}

#[test]
fn idle_car_stays_put() {
    let mut car = Car::new(Vec2::new(300 * ONE, 200 * ONE));
    for _ in 0..20 {
        advance(&mut car, 16_000);
    }
    assert_eq!(car.pos, Vec2::new(300 * ONE, 200 * ONE));
    assert_eq!(car.vel, Vec2::zeros());
    assert_eq!(car.body_angular_vel, 0);
    assert_eq!(car.angular_vel, 0);
    assert_eq!(car.body_angle, 0);
}

#[test]
fn steering_accumulates_and_persists() {
    let mut car = Car::new(Vec2::zeros());
    car.set_steering(ONE);
    for _ in 0..10 {
        advance(&mut car, 100_000);
    }
    // Ten steps of 0.1 s each add 157_079 (pi/2 * 0.1, rounded toward zero).
    assert_eq!(car.body_angular_vel, 1_570_790);
    assert!((car.body_angular_vel - MAX_TURN_RATE).abs() <= 10);
    car.reset_steering();
    for _ in 0..10 {
        advance(&mut car, 100_000);
    }
    assert_eq!(car.body_angular_vel, 1_570_790);
    assert_eq!(car.vel, Vec2::zeros());
}

#[test]
fn throttle_accumulates_wheel_spin() {
    let mut car = Car::new(Vec2::new(300 * ONE, 200 * ONE));
    car.set_throttle(ONE);
    for _ in 0..10 {
        advance(&mut car, 16_000);
    }
    // 1000 pi * 0.016 = 50.265482... per step.
    assert_eq!(car.angular_vel, 502_654_820);
    assert_eq!(car.angular_acc, MAX_WHEEL_ANGULAR_ACC);
    car.reset_throttle();
    advance(&mut car, 16_000);
    assert_eq!(car.angular_vel, 502_654_820);
}

#[test]
fn friction_slows_a_sliding_car() {
    let mut car = Car::new(Vec2::zeros());
    car.vel = Vec2::new(5 * ONE, 0);
    advance(&mut car, 16_000);
    // 9.81 * 0.016 = 0.15696 of speed lost.
    assert_eq!(car.vel, Vec2::new(4_843_040, 0));
    assert_eq!(car.body_angular_vel, 0);
    assert_eq!(car.pos, Vec2::new(77_488, 0));
}

#[test]
fn friction_opposes_diagonal_motion() {
    let mut car = Car::new(Vec2::zeros());
    car.vel = Vec2::new(-3 * ONE, 4 * ONE);
    advance(&mut car, 16_000);
    assert!(car.vel.x > -3 * ONE);
    assert!(car.vel.y < 4 * ONE);
    // Direction (-0.6, 0.8): changes of 0.6 and 0.8 of 0.15696.
    assert_eq!(car.vel, Vec2::new(-3 * ONE + 94_176, 4 * ONE - 125_568));
}

#[test]
fn friction_at_the_wheel_turns_the_body() {
    let mut car = Car::new(Vec2::zeros());
    car.vel = Vec2::new(0, 2 * ONE);
    advance(&mut car, 10_000);
    // Arm (-10, 0), force (0, 9810): torque -98100; -(torque / mass) * dt = 0.981.
    assert_eq!(car.body_angular_vel, 981_000);
    assert_eq!(car.vel, Vec2::new(0, 2 * ONE - 98_100));
}

#[test]
fn drive_from_rest_moves_along_heading_axis() {
    let mut car = Car::new(Vec2::new(300 * ONE, 200 * ONE));
    car.set_throttle(ONE);
    let mut last_spin = car.angular_vel;
    for i in 0..10 {
        advance(&mut car, 16_000);
        assert!(car.angular_vel > last_spin);
        last_spin = car.angular_vel;
        assert_eq!(car.body_angle, 0);
        assert_eq!(car.pos.y, 200 * ONE);
        if i == 0 {
            assert_eq!(car.angular_vel, 50_265_482);
            assert_eq!(car.vel, Vec2::new(-156_960, 0));
            assert_eq!(car.pos, Vec2::new(299_997_489, 200 * ONE));
        }
    }
    assert_ne!(car.pos.x, 300 * ONE);
}

#[test]
fn one_second_of_steering_from_rest() {
    let mut car = Car::new(Vec2::zeros());
    car.set_steering(ONE);
    advance(&mut car, ONE);
    assert_eq!(car.body_angular_vel, 1_570_796);
    // The angle integrates the angular velocity of this same step.
    assert_eq!(car.body_angle, 1_570_796);
    car.reset_steering();
    advance(&mut car, ONE);
    assert_eq!(car.body_angular_vel, 1_570_796);
    assert_eq!(car.body_angle, 3_141_592);
}

#[test]
fn custom_config_is_used() {
    let mut config = Config::default();
    config.mass = ONE;
    config.gravity = ONE;
    assert!(config.is_valid());
    let mut car = Car::with_config(Vec2::zeros(), config);
    car.vel = Vec2::new(ONE, 0);
    advance(&mut car, 100_000);
    assert_eq!(car.vel, Vec2::new(900_000, 0));
    config.mass = 0;
    assert!(!config.is_valid());
}

#[test]
fn limits_are_checked() {
    let mut car = Car::new(Vec2::zeros());
    assert!(car.within_limits());
    car.vel = Vec2::new(STATE_LIMIT + 1, 0);
    assert!(!car.within_limits());
    assert!(MAX_DT >= ONE);
    assert_eq!(CAR_MASS, 1000 * ONE);
}

#[test]
fn fixed_point_rounds_toward_zero() {
    assert_eq!(fixed_mul(1_500_000, 2_000_000), 3_000_000);
    assert_eq!(fixed_mul(3, 500_000), 1);
    assert_eq!(fixed_mul(-3, 500_000), -1);
    assert_eq!(fixed_div(ONE, 3 * ONE), 333_333);
    assert_eq!(fixed_div(-ONE, 3 * ONE), -333_333);
}

#[test]
fn integer_square_roots() {
    assert_eq!(integer_sqrt(0), 0);
    assert_eq!(integer_sqrt(1), 1);
    assert_eq!(integer_sqrt(24), 4);
    assert_eq!(integer_sqrt(25), 5);
    assert_eq!(integer_sqrt(1u128 << 100), 1u64 << 50);
}

#[test]
fn determinant_of_axes() {
    let a = Vec2::new(2 * ONE, 0);
    let b = Vec2::new(0, 3 * ONE);
    assert_eq!(vec_determinant(&a, &b), 6 * ONE);
    assert_eq!(vec_determinant(&b, &a), -6 * ONE);
    assert_eq!(vec_determinant(&a, &a), 0);
}
