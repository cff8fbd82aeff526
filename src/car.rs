//! The vehicle: a car body approximated by a single wheel in contact with
//! the ground, advanced by explicit time steps.
use vstd::prelude::*;
use crate::fixed::{
    ONE, abs, trunc_div, fx_mul, fx_div, isqrt, fixed_mul, fixed_div, integer_sqrt,
    lemma_fx_mul_within, lemma_fx_div_bound, lemma_trunc_div_bound, lemma_isqrt_ge_component,
};
use crate::tools::{Vec2, vec_determinant, determinant};

verus! {

/// The car's footprint width, 20 units.
pub const CAR_WIDTH: i64 = 20_000_000;
/// The car's footprint length, 30 units.
pub const CAR_LENGTH: i64 = 30_000_000;
/// 1000 mass units.
pub const CAR_MASS: i64 = 1_000_000_000;
/// Gravitational acceleration, 9.81 units.
pub const GRAVITY: i64 = 9_810_000;
/// Friction coefficient of the wheel on the ground, used at every step.
pub const STATIC_FRIC_COEF: i64 = 1_000_000;
/// Friction while sliding; defined by the model but not selected by any step.
pub const KIN_FRIC_COEF: i64 = 600_000;
/// pi / 2 radians per second.
pub const MAX_TURN_RATE: i64 = 1_570_796;
/// 1000 pi radians per second squared.
pub const MAX_WHEEL_ANGULAR_ACC: i64 = 3_141_592_654;
/// A third of the car's length.
pub const WHEEL_DIST_FROM_CENTRE: i64 = 10_000_000;

/// Largest time step, about 1.05 seconds.
pub const MAX_DT: i64 = 0x10_0000;
/// Largest magnitude of a state quantity at the start of a step.
pub const STATE_LIMIT: i64 = 0x100_0000_0000;

/// The physical constants of the model.
#[derive(Clone, Copy, Debug, PartialEq, Eq, Structural)]
pub struct Config {
    pub car_width: i64,
    pub car_length: i64,
    pub mass: i64,
    pub gravity: i64,
    pub static_friction: i64,
    pub kinetic_friction: i64,
    pub max_turn_rate: i64,
    pub max_wheel_angular_acc: i64,
    pub wheel_offset: i64,
}

impl Config {
    /// The ranges in which a step is free of overflow.
    pub open spec fn wf(self) -> bool {
        &&& ONE <= self.mass <= 0x4_0000_0000
        &&& 0 <= self.gravity <= 0x400_0000
        &&& 0 <= self.static_friction <= 0x400_0000
        &&& 0 <= self.kinetic_friction <= 0x400_0000
        &&& 0 <= self.max_turn_rate <= 0x400_0000
        &&& 0 <= self.max_wheel_angular_acc <= 0x4_0000_0000
        &&& 0 <= self.car_width <= 0x4000_0000
        &&& 0 <= self.car_length <= 0x4000_0000
        &&& 0 <= self.wheel_offset <= 0x4000_0000
    }

    pub open spec fn is_standard(self) -> bool {
        &&& self.car_width == CAR_WIDTH
        &&& self.car_length == CAR_LENGTH
        &&& self.mass == CAR_MASS
        &&& self.gravity == GRAVITY
        &&& self.static_friction == STATIC_FRIC_COEF
        &&& self.kinetic_friction == KIN_FRIC_COEF
        &&& self.max_turn_rate == MAX_TURN_RATE
        &&& self.max_wheel_angular_acc == MAX_WHEEL_ANGULAR_ACC
        &&& self.wheel_offset == WHEEL_DIST_FROM_CENTRE
    }

    pub open spec fn normal_force(self) -> int {
        fx_mul(self.mass as int, self.gravity as int)
    }

    pub fn is_valid(&self) -> (r: bool)
        ensures
            r == self.wf(),
    {
        ONE <= self.mass && self.mass <= 0x4_0000_0000 && 0 <= self.gravity && self.gravity
            <= 0x400_0000 && 0 <= self.static_friction && self.static_friction <= 0x400_0000 && 0
            <= self.kinetic_friction && self.kinetic_friction <= 0x400_0000 && 0
            <= self.max_turn_rate && self.max_turn_rate <= 0x400_0000 && 0
            <= self.max_wheel_angular_acc && self.max_wheel_angular_acc <= 0x4_0000_0000 && 0
            <= self.car_width && self.car_width <= 0x4000_0000 && 0 <= self.car_length
            && self.car_length <= 0x4000_0000 && 0 <= self.wheel_offset && self.wheel_offset
            <= 0x4000_0000
    }
}

impl Default for Config {
    fn default() -> (r: Config)
        ensures
            r.is_standard(),
            r.wf(),
    {
        Config {
            car_width: CAR_WIDTH,
            car_length: CAR_LENGTH,
            mass: CAR_MASS,
            gravity: GRAVITY,
            static_friction: STATIC_FRIC_COEF,
            kinetic_friction: KIN_FRIC_COEF,
            max_turn_rate: MAX_TURN_RATE,
            max_wheel_angular_acc: MAX_WHEEL_ANGULAR_ACC,
            wheel_offset: WHEEL_DIST_FROM_CENTRE,
        }
    }
}

/// The mathematical state of a car: every quantity as an unbounded integer
/// counting millionths of its unit.
pub ghost struct CarModel {
    pub pos: (int, int),
    pub vel: (int, int),
    pub body_angle: int,
    pub heading: (int, int),
    pub throttle: int,
    pub steering: int,
    pub body_angular_vel: int,
    pub angular_vel: int,
    pub angular_acc: int,
    pub config: Config,
}

/// Velocity of the point where the wheel touches the ground: the body's
/// velocity plus the rim speed of a unit-radius wheel along the heading.
pub open spec fn contact_velocity(vel: (int, int), wheel_vel: int, heading: (int, int)) -> (int, int) {
    (vel.0 + fx_mul(wheel_vel, heading.0), vel.1 + fx_mul(wheel_vel, heading.1))
}

/// Length of `v`, rounded down to a whole fixed-point step; zero for any
/// vector shorter than one step.
pub open spec fn magnitude(v: (int, int)) -> int {
    isqrt(v.0 * v.0 + v.1 * v.1)
}

/// `v` scaled to unit length; meaningful for a non-zero magnitude.
pub open spec fn unit(v: (int, int)) -> (int, int) {
    (trunc_div(v.0 * ONE, magnitude(v)), trunc_div(v.1 * ONE, magnitude(v)))
}

/// Friction force at the contact point, along the contact velocity with the
/// size of the normal force times the static coefficient.
pub open spec fn friction_force(config: Config, cv: (int, int)) -> (int, int) {
    let d = unit(cv);
    (
        fx_mul(fx_mul(d.0, config.normal_force()), config.static_friction as int),
        fx_mul(fx_mul(d.1, config.normal_force()), config.static_friction as int),
    )
}

/// Offset of the wheel from the centre of mass: behind it along the heading.
pub open spec fn wheel_arm(config: Config, heading: (int, int)) -> (int, int) {
    (-fx_mul(heading.0, config.wheel_offset as int), -fx_mul(heading.1, config.wheel_offset as int))
}

/// Torque of the friction force applied at the wheel.
pub open spec fn friction_torque(config: Config, heading: (int, int), force: (int, int)) -> int {
    determinant(wheel_arm(config, heading), force)
}

/// Change of linear velocity over `dt` caused by `force`: `(-force / mass) * dt`.
pub open spec fn friction_velocity_change(config: Config, force: (int, int), dt: int) -> (int, int) {
    (
        fx_mul(fx_div(-force.0, config.mass as int), dt),
        fx_mul(fx_div(-force.1, config.mass as int), dt),
    )
}

impl CarModel {
    /// A car at rest at `pos`, facing +x, with no input applied.
    pub open spec fn at_rest(pos: (int, int), config: Config) -> CarModel {
        CarModel {
            pos,
            vel: (0, 0),
            body_angle: 0,
            heading: (ONE as int, 0),
            throttle: 0,
            steering: 0,
            body_angular_vel: 0,
            angular_vel: 0,
            angular_acc: 0,
            config,
        }
    }

    /// Steering turns the body: `steering * max_turn_rate * dt` is added to
    /// its angular velocity, with no damping.
    pub open spec fn steer_step(self, dt: int) -> CarModel {
        if self.steering != 0 {
            CarModel {
                body_angular_vel: self.body_angular_vel + fx_mul(
                    fx_mul(self.steering, self.config.max_turn_rate as int),
                    dt,
                ),
                ..self
            }
        } else {
            self
        }
    }

    /// Throttle sets the wheel's angular acceleration and spins the wheel up,
    /// with no damping.
    pub open spec fn drive_step(self, dt: int) -> CarModel {
        if self.throttle != 0 {
            let acc = fx_mul(self.config.max_wheel_angular_acc as int, self.throttle);
            CarModel { angular_acc: acc, angular_vel: self.angular_vel + fx_mul(acc, dt), ..self }
        } else {
            self
        }
    }

    pub open spec fn contact_velocity(self) -> (int, int) {
        contact_velocity(self.vel, self.angular_vel, self.heading)
    }

    /// Friction at the contact point slows the body and turns it; nothing
    /// happens while the contact point does not move.
    pub open spec fn friction_step(self, dt: int) -> CarModel {
        let cv = self.contact_velocity();
        if magnitude(cv) == 0 {
            self
        } else {
            let f = friction_force(self.config, cv);
            let dv = friction_velocity_change(self.config, f, dt);
            let torque = friction_torque(self.config, self.heading, f);
            CarModel {
                vel: (self.vel.0 + dv.0, self.vel.1 + dv.1),
                body_angular_vel: self.body_angular_vel - fx_mul(
                    fx_div(torque, self.config.mass as int),
                    dt,
                ),
                ..self
            }
        }
    }

    /// Position and body angle move on with the new velocities.
    pub open spec fn integrate_step(self, dt: int) -> CarModel {
        CarModel {
            pos: (self.pos.0 + fx_mul(self.vel.0, dt), self.pos.1 + fx_mul(self.vel.1, dt)),
            body_angle: self.body_angle + fx_mul(self.body_angular_vel, dt),
            ..self
        }
    }

    /// One physics step of `dt`, with `heading` the unit vector of the
    /// current body angle.
    pub open spec fn step(self, dt: int, heading: (int, int)) -> CarModel {
        CarModel { heading, ..self }.steer_step(dt).drive_step(dt).friction_step(dt).integrate_step(
            dt,
        )
    }
}

/// The simulated car, treated as a single wheel.
#[derive(Clone, Copy, Debug)]
pub struct Car {
    pub pos: Vec2,
    pub vel: Vec2,
    /// Angle from the +x axis, counter-clockwise positive.
    pub body_angle: i64,
    pub heading: Vec2,
    pub throttle: i64,
    pub steering: i64,
    pub body_angular_vel: i64,
    /// Spin rate of the wheel.
    pub angular_vel: i64,
    /// Last drive acceleration of the wheel.
    pub angular_acc: i64,
    pub config: Config,
}

impl View for Car {
    type V = CarModel;

    open spec fn view(&self) -> CarModel {
        CarModel {
            pos: self.pos@,
            vel: self.vel@,
            body_angle: self.body_angle as int,
            heading: self.heading@,
            throttle: self.throttle as int,
            steering: self.steering as int,
            body_angular_vel: self.body_angular_vel as int,
            angular_vel: self.angular_vel as int,
            angular_acc: self.angular_acc as int,
            config: self.config,
        }
    }
}

pub open spec fn within(x: int, bound: int) -> bool {
    -bound <= x <= bound
}

impl Car {
    /// The state in which a step cannot overflow.
    pub open spec fn in_limits(&self) -> bool {
        &&& self.config.wf()
        &&& within(self.pos.x as int, STATE_LIMIT as int)
        &&& within(self.pos.y as int, STATE_LIMIT as int)
        &&& within(self.vel.x as int, STATE_LIMIT as int)
        &&& within(self.vel.y as int, STATE_LIMIT as int)
        &&& within(self.body_angle as int, STATE_LIMIT as int)
        &&& within(self.throttle as int, STATE_LIMIT as int)
        &&& within(self.steering as int, STATE_LIMIT as int)
        &&& within(self.body_angular_vel as int, STATE_LIMIT as int)
        &&& within(self.angular_vel as int, STATE_LIMIT as int)
    }

    pub fn new(pos: Vec2) -> (r: Car)
        ensures
            r@ == CarModel::at_rest(pos@, r.config),
            r.config.is_standard(),
    {
        Car::with_config(pos, Config::default())
    }

    pub fn with_config(pos: Vec2, config: Config) -> (r: Car)
        ensures
            r@ == CarModel::at_rest(pos@, config),
    {
        Car {
            pos,
            vel: Vec2::zeros(),
            body_angle: 0,
            heading: Vec2::new(ONE, 0),
            throttle: 0,
            steering: 0,
            body_angular_vel: 0,
            angular_vel: 0,
            angular_acc: 0,
            config,
        }
    }

    pub fn within_limits(&self) -> (r: bool)
        ensures
            r == self.in_limits(),
    {
        let l = STATE_LIMIT;
        self.config.is_valid() && -l <= self.pos.x && self.pos.x <= l && -l <= self.pos.y
            && self.pos.y <= l && -l <= self.vel.x && self.vel.x <= l && -l <= self.vel.y
            && self.vel.y <= l && -l <= self.body_angle && self.body_angle <= l && -l
            <= self.throttle && self.throttle <= l && -l <= self.steering && self.steering <= l
            && -l <= self.body_angular_vel && self.body_angular_vel <= l && -l <= self.angular_vel
            && self.angular_vel <= l
    }

    /// Advances the car by `dt`. `heading` is the unit vector
    /// `(cos(body_angle), sin(body_angle))` of the current body angle, in
    /// fixed point; it is stored and used for this step's forces.
    pub fn update(&mut self, dt: i64, heading: Vec2)
        requires
            old(self).in_limits(),
            0 <= dt <= MAX_DT,
            within(heading.x as int, ONE as int),
            within(heading.y as int, ONE as int),
        ensures
            final(self)@ == old(self)@.step(dt as int, heading@),
            final(self).heading == heading,
            final(self).config == old(self).config,
    {
        self.heading = heading;
        if self.steering != 0 {
            self.steer(dt);
        }
        if self.throttle != 0 {
            self.accelerate(dt);
        }
        self.calculate_velocity(dt);
        proof {
            lemma_fx_mul_within(self.vel.x as int, dt as int, 0x4_0000_0000_0000, MAX_DT as int, 0x8_0000_0000_0000);
            lemma_fx_mul_within(self.vel.y as int, dt as int, 0x4_0000_0000_0000, MAX_DT as int, 0x8_0000_0000_0000);
            lemma_fx_mul_within(self.body_angular_vel as int, dt as int, 0x4000_0000_0000_0000, MAX_DT as int, 4_900_000_000_000_000_000);
        }
        self.pos = Vec2 {
            x: self.pos.x + fixed_mul(self.vel.x, dt),
            y: self.pos.y + fixed_mul(self.vel.y, dt),
        };
        self.body_angle = self.body_angle + fixed_mul(self.body_angular_vel, dt);
    }

    fn steer(&mut self, dt: i64)
        requires
            old(self).config.wf(),
            old(self).steering != 0,
            within(old(self).steering as int, STATE_LIMIT as int),
            within(old(self).body_angular_vel as int, STATE_LIMIT as int),
            0 <= dt <= MAX_DT,
        ensures
            final(self)@ == old(self)@.steer_step(dt as int),
            within(final(self).body_angular_vel as int, 0x2_0000_0000_0000),
    {
        proof {
            lemma_fx_mul_within(self.steering as int, self.config.max_turn_rate as int, STATE_LIMIT as int, 0x400_0000, 0x8000_0000_0000);
            let s = fx_mul(self.steering as int, self.config.max_turn_rate as int);
            lemma_fx_mul_within(s, dt as int, 0x8000_0000_0000, MAX_DT as int, 0x1_0000_0000_0000);
        }
        let s = fixed_mul(self.steering, self.config.max_turn_rate);
        self.body_angular_vel = self.body_angular_vel + fixed_mul(s, dt);
    }

    fn accelerate(&mut self, dt: i64)
        requires
            old(self).config.wf(),
            old(self).throttle != 0,
            within(old(self).throttle as int, STATE_LIMIT as int),
            within(old(self).angular_vel as int, STATE_LIMIT as int),
            0 <= dt <= MAX_DT,
        ensures
            final(self)@ == old(self)@.drive_step(dt as int),
            within(final(self).angular_vel as int, 0x200_0000_0000_0000),
    {
        proof {
            lemma_fx_mul_within(self.config.max_wheel_angular_acc as int, self.throttle as int, 0x4_0000_0000, STATE_LIMIT as int, 0x80_0000_0000_0000);
            let a = fx_mul(self.config.max_wheel_angular_acc as int, self.throttle as int);
            lemma_fx_mul_within(a, dt as int, 0x80_0000_0000_0000, MAX_DT as int, 0x100_0000_0000_0000);
        }
        self.angular_acc = fixed_mul(self.config.max_wheel_angular_acc, self.throttle);
        self.angular_vel = self.angular_vel + fixed_mul(self.angular_acc, dt);
    }

    fn calculate_velocity(&mut self, dt: i64)
        requires
            old(self).config.wf(),
            within(old(self).vel.x as int, STATE_LIMIT as int),
            within(old(self).vel.y as int, STATE_LIMIT as int),
            within(old(self).angular_vel as int, 0x200_0000_0000_0000),
            within(old(self).heading.x as int, ONE as int),
            within(old(self).heading.y as int, ONE as int),
            within(old(self).body_angular_vel as int, 0x2_0000_0000_0000),
            0 <= dt <= MAX_DT,
        ensures
            final(self)@ == old(self)@.friction_step(dt as int),
            within(final(self).vel.x as int, 0x4_0000_0000_0000),
            within(final(self).vel.y as int, 0x4_0000_0000_0000),
            within(final(self).body_angular_vel as int, 0x4000_0000_0000_0000),
    {
        let cfg = self.config;
        proof {
            lemma_fx_mul_within(self.angular_vel as int, self.heading.x as int, 0x200_0000_0000_0000, ONE as int, 0x200_0000_0000_0000);
            lemma_fx_mul_within(self.angular_vel as int, self.heading.y as int, 0x200_0000_0000_0000, ONE as int, 0x200_0000_0000_0000);
        }
        // Velocity of the contact point: v + w * h for a wheel of radius one.
        let cx: i64 = self.vel.x + fixed_mul(self.angular_vel, self.heading.x);
        let cy: i64 = self.vel.y + fixed_mul(self.angular_vel, self.heading.y);
        assert((cx as i128) * (cx as i128) <= 0x10_0000_0000_0000_0000_0000_0000_0000) by (nonlinear_arith)
            requires
                within(cx as int, 0x400_0000_0000_0000),
        ;
        assert((cy as i128) * (cy as i128) <= 0x10_0000_0000_0000_0000_0000_0000_0000) by (nonlinear_arith)
            requires
                within(cy as int, 0x400_0000_0000_0000),
        ;
        assert((cx as i128) * (cx as i128) >= 0) by (nonlinear_arith);
        assert((cy as i128) * (cy as i128) >= 0) by (nonlinear_arith);
        let sq: i128 = (cx as i128) * (cx as i128) + (cy as i128) * (cy as i128);
        let n: u64 = integer_sqrt(sq as u128);
        if n > 0 {
            let n: i64 = n as i64;
            let cv: Ghost<(int, int)> = Ghost((cx as int, cy as int));
            proof {
                lemma_isqrt_ge_component(cx as int, cy as int);
                lemma_isqrt_ge_component(cy as int, cx as int);
                assert(cy as int * cy as int + cx as int * cx as int == cx as int * cx as int + cy as int * cy as int);
                assert(abs(cx * ONE) <= n * ONE) by (nonlinear_arith)
                    requires
                        abs(cx as int) <= n,
                ;
                assert(abs(cy * ONE) <= n * ONE) by (nonlinear_arith)
                    requires
                        abs(cy as int) <= n,
                ;
                assert((n * ONE) / (n as int) == ONE) by (nonlinear_arith)
                    requires
                        n > 0,
                ;
                lemma_trunc_div_bound(cx * ONE, n as int, n * ONE);
                lemma_trunc_div_bound(cy * ONE, n as int, n * ONE);
            }
            // Direction of the friction force: the contact velocity, normalised.
            let px: i128 = (cx as i128) * 1_000_000;
            let py: i128 = (cy as i128) * 1_000_000;
            let dx: i64 = (if px >= 0 {
                px / (n as i128)
            } else {
                -((-px) / (n as i128))
            }) as i64;
            let dy: i64 = (if py >= 0 {
                py / (n as i128)
            } else {
                -((-py) / (n as i128))
            }) as i64;
            assert(dx == unit(cv@).0 && dy == unit(cv@).1);
            proof {
                lemma_fx_mul_within(cfg.mass as int, cfg.gravity as int, 0x4_0000_0000, 0x400_0000, 0x200_0000_0000);
                let nf = cfg.normal_force();
                lemma_fx_mul_within(dx as int, nf, ONE as int, 0x200_0000_0000, 0x200_0000_0000);
                lemma_fx_mul_within(dy as int, nf, ONE as int, 0x200_0000_0000, 0x200_0000_0000);
                lemma_fx_mul_within(fx_mul(dx as int, nf), cfg.static_friction as int, 0x200_0000_0000, 0x400_0000, 0x1_0000_0000_0000);
                lemma_fx_mul_within(fx_mul(dy as int, nf), cfg.static_friction as int, 0x200_0000_0000, 0x400_0000, 0x1_0000_0000_0000);
                lemma_fx_mul_within(self.heading.x as int, cfg.wheel_offset as int, ONE as int, 0x4000_0000, 0x4000_0000);
                lemma_fx_mul_within(self.heading.y as int, cfg.wheel_offset as int, ONE as int, 0x4000_0000, 0x4000_0000);
            }
            let normal_force = fixed_mul(cfg.mass, cfg.gravity);
            let force = Vec2 {
                x: fixed_mul(fixed_mul(dx, normal_force), cfg.static_friction),
                y: fixed_mul(fixed_mul(dy, normal_force), cfg.static_friction),
            };
            assert(force@ == friction_force(cfg, cv@));
            // The wheel sits behind the centre of mass, so the friction there
            // turns the body.
            let arm = Vec2 {
                x: -fixed_mul(self.heading.x, cfg.wheel_offset),
                y: -fixed_mul(self.heading.y, cfg.wheel_offset),
            };
            proof {
                lemma_fx_mul_within(arm.x as int, force.y as int, 0x4000_0000, 0x1_0000_0000_0000, 0x800_0000_0000_0000);
                lemma_fx_mul_within(force.x as int, arm.y as int, 0x1_0000_0000_0000, 0x4000_0000, 0x800_0000_0000_0000);
            }
            let torque = vec_determinant(&arm, &force);
            proof {
                lemma_fx_div_bound(torque as int, cfg.mass as int);
                lemma_fx_mul_within(fx_div(torque as int, cfg.mass as int), dt as int, 0x1000_0000_0000_0000, MAX_DT as int, 0x2000_0000_0000_0000);
                lemma_fx_div_bound(-force.x, cfg.mass as int);
                lemma_fx_div_bound(-force.y, cfg.mass as int);
                lemma_fx_mul_within(fx_div(-force.x, cfg.mass as int), dt as int, 0x1_0000_0000_0000, MAX_DT as int, 0x2_0000_0000_0000);
                lemma_fx_mul_within(fx_div(-force.y, cfg.mass as int), dt as int, 0x1_0000_0000_0000, MAX_DT as int, 0x2_0000_0000_0000);
            }
            self.body_angular_vel = self.body_angular_vel - fixed_mul(fixed_div(torque, cfg.mass), dt);
            // F = m a: the linear velocity loses (F / m) dt.
            self.vel = Vec2 {
                x: self.vel.x + fixed_mul(fixed_div(-force.x, cfg.mass), dt),
                y: self.vel.y + fixed_mul(fixed_div(-force.y, cfg.mass), dt),
            };
        }
    }

    pub fn position(&self) -> (r: Vec2)
        ensures
            r == self.pos,
    {
        self.pos
    }

    pub fn body_angle(&self) -> (r: i64)
        ensures
            r == self.body_angle,
    {
        self.body_angle
    }

    pub fn set_throttle(&mut self, throttle: i64)
        ensures
            final(self)@ == (CarModel { throttle: throttle as int, ..old(self)@ }),
    {
        self.throttle = throttle;
    }

    pub fn reset_throttle(&mut self)
        ensures
            final(self)@ == (CarModel { throttle: 0, ..old(self)@ }),
    {
        self.set_throttle(0)
    }

    pub fn set_steering(&mut self, steering: i64)
        ensures
            final(self)@ == (CarModel { steering: steering as int, ..old(self)@ }),
    {
        self.steering = steering;
    }

    pub fn reset_steering(&mut self)
        ensures
            final(self)@ == (CarModel { steering: 0, ..old(self)@ }),
    {
        self.set_steering(0)
    }
}

} // verus!
