//! A paddle: a vertically moving bar whose velocity is set by the
//! input layer and whose position is clamped to the playing field.

use vstd::prelude::*;

use crate::config::{DT_MAX, PADDLE_HEIGHT, POS_LIMIT, SCREEN_HEIGHT};
use crate::geometry::clamp_int;

verus! {

/// A paddle's state: the top edge of the bar in milli-pixels and its
/// vertical velocity in milli-pixels per millisecond.
#[derive(Clone, Copy, Debug, PartialEq, Eq, Structural)]
pub struct Paddle {
    pub y: i64,
    pub vel_y: i64,
}

/// Mathematical image of a [`Paddle`].
pub ghost struct PaddleModel {
    pub y: int,
    pub vel_y: int,
}

impl View for Paddle {
    type V = PaddleModel;

    open spec fn view(&self) -> PaddleModel {
        PaddleModel { y: self.y as int, vel_y: self.vel_y as int }
    }
}

/// One tick of paddle physics: advance by `velocity * dt`, then clamp
/// the position into `0 ..= SCREEN_HEIGHT - PADDLE_HEIGHT`.
pub open spec fn paddle_step(p: PaddleModel, dt: int) -> PaddleModel {
    PaddleModel {
        y: clamp_int(p.y + p.vel_y * dt, 0, SCREEN_HEIGHT - PADDLE_HEIGHT),
        vel_y: p.vel_y,
    }
}

impl Paddle {
    /// A motionless paddle whose top edge sits at `y`.
    pub fn new(y: i64) -> (p: Paddle)
        ensures
            p.y == y,
            p.vel_y == 0,
    {
        Paddle { y, vel_y: 0 }
    }

    /// Advance the paddle by `dt` milliseconds.  Whatever the velocity,
    /// the paddle ends inside the vertical range of the field.
    pub fn update(&mut self, dt: i64)
        requires
            0 <= dt <= DT_MAX,
            -POS_LIMIT <= old(self).y <= POS_LIMIT,
            -POS_LIMIT <= old(self).vel_y <= POS_LIMIT,
        ensures
            final(self)@ == paddle_step(old(self)@, dt as int),
            0 <= final(self).y <= SCREEN_HEIGHT - PADDLE_HEIGHT,
    {
        proof {
            crate::geometry::lemma_mul_bounds(
                self.vel_y as int,
                dt as int,
                POS_LIMIT as int,
                DT_MAX as int,
            );
        }
        let yr = self.y + self.vel_y * dt;
        self.y = if yr < 0 {
            0
        } else if yr > SCREEN_HEIGHT - PADDLE_HEIGHT {
            SCREEN_HEIGHT - PADDLE_HEIGHT
        } else {
            yr
        };
    }
}

} // verus!
