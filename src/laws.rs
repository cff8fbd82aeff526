//! Properties of the physics step that hold for every state.
use vstd::prelude::*;
use crate::fixed::{ONE, abs, trunc_div, fx_mul, fx_div, is_isqrt, lemma_isqrt_unique, lemma_trunc_div_bound, lemma_fx_div_bound};
use crate::car::{CarModel, Config, magnitude, unit, friction_force, friction_velocity_change};

verus! {

/// The state after one step of `dt` for each heading of `headings`, in order.
pub open spec fn run(c: CarModel, dt: int, headings: Seq<(int, int)>) -> CarModel
    decreases headings.len(),
{
    if headings.len() == 0 {
        c
    } else {
        run(c.step(dt, headings[0]), dt, headings.drop_first())
    }
}

/// Neither the body nor the wheel moves, and no input is applied.
pub open spec fn is_idle(c: CarModel) -> bool {
    &&& c.vel == (0int, 0int)
    &&& c.angular_vel == 0
    &&& c.body_angular_vel == 0
    &&& c.throttle == 0
    &&& c.steering == 0
}

proof fn lemma_still_contact(c: CarModel)
    requires
        c.vel == (0int, 0int),
        c.angular_vel == 0,
    ensures
        magnitude(c.contact_velocity()) == 0,
{
    assert(is_isqrt(0, 0));
    lemma_isqrt_unique(0, 0);
}

proof fn lemma_fx_mul_one(a: int)
    ensures
        fx_mul(ONE as int, a) == a,
{
    if a >= 0 {
        assert((ONE * a) / (ONE as int) == a) by (nonlinear_arith)
            requires
                a >= 0,
        ;
    } else {
        assert(ONE * a < 0) by (nonlinear_arith)
            requires
                a < 0,
        ;
        assert((-(ONE * a)) / (ONE as int) == -a) by (nonlinear_arith)
            requires
                a < 0,
        ;
    }
}

proof fn lemma_fx_mul_sign(a: int, b: int)
    requires
        b >= 0,
    ensures
        a >= 0 ==> fx_mul(a, b) >= 0,
        a <= 0 ==> fx_mul(a, b) <= 0,
{
    assert(a >= 0 ==> a * b >= 0) by (nonlinear_arith)
        requires
            b >= 0,
    ;
    assert(a <= 0 ==> a * b <= 0) by (nonlinear_arith)
        requires
            b >= 0,
    ;
    lemma_trunc_div_bound(a * b, ONE as int, abs(a * b));
}

/// A step of zero length changes no position, velocity, angle or angular
/// velocity; it only records the heading it was given.
pub proof fn lemma_zero_step(c: CarModel, heading: (int, int))
    ensures
        c.step(0, heading).pos == c.pos,
        c.step(0, heading).vel == c.vel,
        c.step(0, heading).body_angle == c.body_angle,
        c.step(0, heading).body_angular_vel == c.body_angular_vel,
        c.step(0, heading).angular_vel == c.angular_vel,
        c.step(0, heading).heading == heading,
{
}

/// A car at rest with no throttle and no steering stays where it is, for
/// any number of steps of any length.
pub proof fn lemma_rest_is_kept(c: CarModel, dt: int, headings: Seq<(int, int)>)
    requires
        is_idle(c),
    ensures
        is_idle(run(c, dt, headings)),
        run(c, dt, headings).pos == c.pos,
        run(c, dt, headings).body_angle == c.body_angle,
    decreases headings.len(),
{
    if headings.len() > 0 {
        let c1 = CarModel { heading: headings[0], ..c };
        lemma_still_contact(c1);
        lemma_rest_is_kept(c.step(dt, headings[0]), dt, headings.drop_first());
    }
}

/// Full steering with the car otherwise at rest adds
/// `max_turn_rate * dt` of angular velocity at every step.
pub proof fn lemma_steering_accumulates(c: CarModel, dt: int, headings: Seq<(int, int)>)
    requires
        c.vel == (0int, 0int),
        c.angular_vel == 0,
        c.throttle == 0,
        c.steering == ONE,
    ensures
        run(c, dt, headings).body_angular_vel == c.body_angular_vel + headings.len() * fx_mul(
            c.config.max_turn_rate as int,
            dt,
        ),
        run(c, dt, headings).vel == (0int, 0int),
    decreases headings.len(),
{
    if headings.len() > 0 {
        let k = fx_mul(c.config.max_turn_rate as int, dt);
        let c1 = CarModel { heading: headings[0], ..c }.steer_step(dt);
        lemma_fx_mul_one(c.config.max_turn_rate as int);
        assert(fx_mul(c.steering, c.config.max_turn_rate as int) == c.config.max_turn_rate);
        lemma_still_contact(c1);
        let next = c.step(dt, headings[0]);
        assert(next.body_angular_vel == c.body_angular_vel + k);
        lemma_steering_accumulates(next, dt, headings.drop_first());
        let n = headings.len();
        assert(c.body_angular_vel + k + (n - 1) * k == c.body_angular_vel + n * k) by (nonlinear_arith);
    }
}

/// `n` steps of `fx_mul(rate, dt)` fall short of the exact `rate * n * dt`
/// by less than one fixed-point step per step: the accumulated angular
/// velocity of full steering, and the wheel spin of full throttle, match the
/// rate times the elapsed time to that tolerance.
pub proof fn lemma_accumulated_rate(rate: int, dt: int, n: int)
    requires
        rate >= 0,
        dt >= 0,
        n >= 0,
    ensures
        ONE * (n * fx_mul(rate, dt)) <= n * (rate * dt),
        n * (rate * dt) < ONE * (n * fx_mul(rate, dt)) + n * ONE || n == 0,
{
    assert(rate * dt >= 0) by (nonlinear_arith)
        requires
            rate >= 0,
            dt >= 0,
    ;
    let p = rate * dt;
    let q = p / (ONE as int);
    assert(fx_mul(rate, dt) == q);
    assert(ONE * q <= p && p < ONE * q + ONE) by (nonlinear_arith)
        requires
            p >= 0,
            q == p / (ONE as int),
    ;
    assert(ONE * (n * q) <= n * p) by (nonlinear_arith)
        requires
            ONE * q <= p,
            n >= 0,
    ;
    if n > 0 {
        assert(n * p < ONE * (n * q) + n * ONE) by (nonlinear_arith)
            requires
                p < ONE * q + ONE,
                n > 0,
        ;
    }
}

/// With no input the angular velocity of a body whose contact point is still
/// persists: nothing damps it.
pub proof fn lemma_spin_persists(c: CarModel, dt: int, headings: Seq<(int, int)>)
    requires
        c.vel == (0int, 0int),
        c.angular_vel == 0,
        c.throttle == 0,
        c.steering == 0,
    ensures
        run(c, dt, headings).body_angular_vel == c.body_angular_vel,
        run(c, dt, headings).vel == (0int, 0int),
    decreases headings.len(),
{
    if headings.len() > 0 {
        lemma_still_contact(CarModel { heading: headings[0], ..c });
        lemma_spin_persists(c.step(dt, headings[0]), dt, headings.drop_first());
    }
}

/// Full throttle adds `max_wheel_angular_acc * dt` of wheel spin at every
/// step, whatever else happens.
pub proof fn lemma_throttle_accumulates(c: CarModel, dt: int, headings: Seq<(int, int)>)
    requires
        c.throttle == ONE,
    ensures
        run(c, dt, headings).angular_vel == c.angular_vel + headings.len() * fx_mul(
            c.config.max_wheel_angular_acc as int,
            dt,
        ),
    decreases headings.len(),
{
    if headings.len() > 0 {
        let k = fx_mul(c.config.max_wheel_angular_acc as int, dt);
        lemma_fx_mul_one(c.config.max_wheel_angular_acc as int);
        assert(fx_mul(c.config.max_wheel_angular_acc as int, ONE as int) == c.config.max_wheel_angular_acc) by {
            assert(c.config.max_wheel_angular_acc as int * ONE == ONE * c.config.max_wheel_angular_acc as int);
        }
        let next = c.step(dt, headings[0]);
        assert(next.angular_vel == c.angular_vel + k);
        lemma_throttle_accumulates(next, dt, headings.drop_first());
        let n = headings.len();
        assert(c.angular_vel + k + (n - 1) * k == c.angular_vel + n * k) by (nonlinear_arith);
    }
}

/// The velocity change that friction causes opposes the contact velocity in
/// each component, so it never speeds the contact point up.
pub proof fn lemma_friction_opposes(config: Config, cv: (int, int), dt: int)
    requires
        config.wf(),
        dt >= 0,
        magnitude(cv) > 0,
    ensures
        friction_velocity_change(config, friction_force(config, cv), dt).0 * cv.0 <= 0,
        friction_velocity_change(config, friction_force(config, cv), dt).1 * cv.1 <= 0,
        friction_velocity_change(config, friction_force(config, cv), dt).0 * cv.0
            + friction_velocity_change(config, friction_force(config, cv), dt).1 * cv.1 <= 0,
{
    let n = magnitude(cv);
    let nf = config.normal_force();
    lemma_fx_mul_sign(config.mass as int, config.gravity as int);
    let f = friction_force(config, cv);
    let dv = friction_velocity_change(config, f, dt);
    opposes_one(config, cv.0, n, nf, dt);
    opposes_one(config, cv.1, n, nf, dt);
    assert(unit(cv).0 == trunc_div(cv.0 * ONE, n));
    assert(dv.0 * cv.0 <= 0);
    assert(dv.1 * cv.1 <= 0);
}

proof fn opposes_one(config: Config, c: int, n: int, nf: int, dt: int)
    requires
        config.wf(),
        dt >= 0,
        n > 0,
        nf >= 0,
    ensures
        fx_mul(fx_div(-fx_mul(fx_mul(trunc_div(c * ONE, n), nf), config.static_friction as int), config.mass as int), dt) * c <= 0,
{
    assert(c >= 0 ==> c * ONE >= 0) by (nonlinear_arith);
    assert(c <= 0 ==> c * ONE <= 0) by (nonlinear_arith);
    lemma_trunc_div_bound(c * ONE, n, abs(c * ONE));
    let d = trunc_div(c * ONE, n);
    lemma_fx_mul_sign(d, nf);
    let f1 = fx_mul(d, nf);
    lemma_fx_mul_sign(f1, config.static_friction as int);
    let f = fx_mul(f1, config.static_friction as int);
    lemma_fx_div_bound(-f, config.mass as int);
    let a = fx_div(-f, config.mass as int);
    lemma_fx_mul_sign(a, dt);
    let r = fx_mul(a, dt);
    assert(r * c <= 0) by (nonlinear_arith)
        requires
            c >= 0 ==> r <= 0,
            c <= 0 ==> r >= 0,
    ;
}

} // verus!
