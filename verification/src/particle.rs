//! Decorative particles: short-lived points spawned in bursts, drifting
//! at a fixed velocity and fading out as they approach their lifetime.

use vstd::prelude::*;

use crate::config::{
    COLOR_MAX, COLOR_MIN, DT_MAX, MAX_OPACITY, PARTICLE_LIFETIME_MAX, PARTICLE_LIFETIME_MIN,
    PARTICLE_POS_LIMIT, PARTICLE_SPEED_MAX, PARTICLE_SPEED_MIN, POS_LIMIT,
};
use crate::geometry::lemma_mul_bounds_factor;
use crate::rng::{draw_bool_value, draw_in_range_value, next_state, GameRng};

verus! {

/// A fully opaque color, one byte per channel.
#[derive(Clone, Copy, Debug, PartialEq, Eq, Structural)]
pub struct Rgb {
    pub r: u8,
    pub g: u8,
    pub b: u8,
}

/// Mathematical image of an [`Rgb`] color.
pub ghost struct RgbModel {
    pub r: int,
    pub g: int,
    pub b: int,
}

impl View for Rgb {
    type V = RgbModel;

    open spec fn view(&self) -> RgbModel {
        RgbModel { r: self.r as int, g: self.g as int, b: self.b as int }
    }
}

/// A particle's state.  Positions are milli-pixels, velocities
/// milli-pixels per millisecond, lifetimes milliseconds.
#[derive(Clone, Copy, Debug, PartialEq, Eq, Structural)]
pub struct Particle {
    pub x: i64,
    pub y: i64,
    pub vel_x: i64,
    pub vel_y: i64,
    pub lifetime: i64,
    pub max_lifetime: i64,
    pub color: Rgb,
}

/// Mathematical image of a [`Particle`].
pub ghost struct ParticleModel {
    pub x: int,
    pub y: int,
    pub vel_x: int,
    pub vel_y: int,
    pub lifetime: int,
    pub max_lifetime: int,
    pub color: RgbModel,
}

impl View for Particle {
    type V = ParticleModel;

    open spec fn view(&self) -> ParticleModel {
        ParticleModel {
            x: self.x as int,
            y: self.y as int,
            vel_x: self.vel_x as int,
            vel_y: self.vel_y as int,
            lifetime: self.lifetime as int,
            max_lifetime: self.max_lifetime as int,
            color: self.color@,
        }
    }
}

/// Well-formedness of a particle: its velocity and lifetime are within
/// the configured ranges, its color fits a byte, and its position has
/// not drifted further from the field than its age allows.
pub open spec fn particle_wf(p: ParticleModel) -> bool {
    &&& -PARTICLE_SPEED_MAX <= p.vel_x <= PARTICLE_SPEED_MAX
    &&& -PARTICLE_SPEED_MAX <= p.vel_y <= PARTICLE_SPEED_MAX
    &&& 0 <= p.lifetime
    &&& 0 < p.max_lifetime <= PARTICLE_LIFETIME_MAX
    &&& -(PARTICLE_POS_LIMIT + PARTICLE_SPEED_MAX * p.lifetime) <= p.x <= PARTICLE_POS_LIMIT
        + PARTICLE_SPEED_MAX * p.lifetime
    &&& -(PARTICLE_POS_LIMIT + PARTICLE_SPEED_MAX * p.lifetime) <= p.y <= PARTICLE_POS_LIMIT
        + PARTICLE_SPEED_MAX * p.lifetime
    &&& 0 <= p.color.r <= 255
    &&& 0 <= p.color.g <= 255
    &&& 0 <= p.color.b <= 255
}

/// Whether a particle that has aged to `p` is still alive.
pub open spec fn particle_alive(p: ParticleModel) -> bool {
    p.lifetime < p.max_lifetime
}

/// One tick of particle physics: drift by `velocity * dt` and age by
/// `dt`.
pub open spec fn particle_step(p: ParticleModel, dt: int) -> ParticleModel {
    ParticleModel {
        x: p.x + p.vel_x * dt,
        y: p.y + p.vel_y * dt,
        lifetime: p.lifetime + dt,
        ..p
    }
}

/// The opacity of a particle: full at birth, fading linearly to zero
/// as its age reaches its lifetime.
pub open spec fn particle_alpha(p: ParticleModel) -> int {
    if p.lifetime >= p.max_lifetime {
        0
    } else {
        (p.max_lifetime - p.lifetime) * MAX_OPACITY / p.max_lifetime
    }
}

/// The particle spawned at `(x, y)` from generator state `s`, paired
/// with the generator state left behind.  The draws, in order: the two
/// velocity components (a magnitude and a sign each), the lifetime, and
/// the three color channels.
pub open spec fn particle_from(x: int, y: int, s: u64) -> (ParticleModel, u64) {
    let mag_x = draw_in_range_value(s, PARTICLE_SPEED_MIN as int, PARTICLE_SPEED_MAX as int);
    let s1 = next_state(s);
    let neg_x = draw_bool_value(s1);
    let s2 = next_state(s1);
    let mag_y = draw_in_range_value(s2, PARTICLE_SPEED_MIN as int, PARTICLE_SPEED_MAX as int);
    let s3 = next_state(s2);
    let neg_y = draw_bool_value(s3);
    let s4 = next_state(s3);
    let max_lifetime = draw_in_range_value(
        s4,
        PARTICLE_LIFETIME_MIN as int,
        PARTICLE_LIFETIME_MAX as int,
    );
    let s5 = next_state(s4);
    let cr = draw_in_range_value(s5, COLOR_MIN as int, COLOR_MAX as int);
    let s6 = next_state(s5);
    let cg = draw_in_range_value(s6, COLOR_MIN as int, COLOR_MAX as int);
    let s7 = next_state(s6);
    let cb = draw_in_range_value(s7, COLOR_MIN as int, COLOR_MAX as int);
    let s8 = next_state(s7);
    (
        ParticleModel {
            x,
            y,
            vel_x: if neg_x {
                -mag_x
            } else {
                mag_x
            },
            vel_y: if neg_y {
                -mag_y
            } else {
                mag_y
            },
            lifetime: 0,
            max_lifetime,
            color: RgbModel { r: cr, g: cg, b: cb },
        },
        s8,
    )
}

impl Particle {
    /// Spawn one particle at `(x, y)`, drawing its velocity, lifetime
    /// and color from `rng`.
    pub fn new(x: i64, y: i64, rng: &mut GameRng) -> (p: Particle)
        requires
            -PARTICLE_POS_LIMIT <= x <= PARTICLE_POS_LIMIT,
            -PARTICLE_POS_LIMIT <= y <= PARTICLE_POS_LIMIT,
        ensures
            p@ == particle_from(x as int, y as int, old(rng).state).0,
            final(rng).state == particle_from(x as int, y as int, old(rng).state).1,
            particle_wf(p@),
    {
        let mag_x = rng.next_in_range(PARTICLE_SPEED_MIN, PARTICLE_SPEED_MAX);
        let neg_x = rng.next_bool();
        let mag_y = rng.next_in_range(PARTICLE_SPEED_MIN, PARTICLE_SPEED_MAX);
        let neg_y = rng.next_bool();
        let max_lifetime = rng.next_in_range(PARTICLE_LIFETIME_MIN, PARTICLE_LIFETIME_MAX);
        let cr = rng.next_in_range(COLOR_MIN, COLOR_MAX);
        let cg = rng.next_in_range(COLOR_MIN, COLOR_MAX);
        let cb = rng.next_in_range(COLOR_MIN, COLOR_MAX);
        Particle {
            x,
            y,
            vel_x: if neg_x {
                -mag_x
            } else {
                mag_x
            },
            vel_y: if neg_y {
                -mag_y
            } else {
                mag_y
            },
            lifetime: 0,
            max_lifetime,
            color: Rgb { r: cr as u8, g: cg as u8, b: cb as u8 },
        }
    }

    /// Advance the particle by `dt` milliseconds and report whether it
    /// is still alive afterwards.
    pub fn update(&mut self, dt: i64) -> (alive: bool)
        requires
            0 <= dt <= DT_MAX,
            particle_wf(old(self)@),
            old(self).lifetime <= POS_LIMIT,
        ensures
            final(self)@ == particle_step(old(self)@, dt as int),
            particle_wf(final(self)@),
            alive == particle_alive(final(self)@),
    {
        proof {
            lemma_mul_bounds_factor(self.vel_x as int, dt as int, PARTICLE_SPEED_MAX as int);
            lemma_mul_bounds_factor(self.vel_y as int, dt as int, PARTICLE_SPEED_MAX as int);
        }
        self.x = self.x + self.vel_x * dt;
        self.y = self.y + self.vel_y * dt;
        self.lifetime = self.lifetime + dt;
        self.lifetime < self.max_lifetime
    }

    /// The opacity with which the renderer should draw this particle.
    pub fn alpha(&self) -> (a: u8)
        requires
            particle_wf(self@),
        ensures
            a as int == particle_alpha(self@),
    {
        if self.lifetime >= self.max_lifetime {
            0
        } else {
            let diff: u64 = (self.max_lifetime - self.lifetime) as u64;
            let num: u64 = diff * 255;
            assert(num == (self.max_lifetime - self.lifetime) * MAX_OPACITY);
            let q: u64 = num / (self.max_lifetime as u64);
            assert(q <= 255) by (nonlinear_arith)
                requires
                    q == num / (self.max_lifetime as u64),
                    num <= 255 * (self.max_lifetime as u64),
                    self.max_lifetime as u64 > 0,
            ;
            q as u8
        }
    }
}

} // verus!
