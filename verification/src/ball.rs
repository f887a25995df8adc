//! The ball: a position and a velocity, bouncing elastically off the
//! top and bottom walls.  Leaving the field to the left or right is not
//! a bounce but a scoring event, resolved by the game state.

use vstd::prelude::*;

use crate::config::{
    BALL_BASE_SPEED, BALL_SIZE, BALL_SPEED_LIMIT, BALL_VERTICAL_SPEED, DT_MAX, POS_LIMIT,
    SCREEN_CENTER_X, SCREEN_CENTER_Y, SCREEN_HEIGHT,
};
use crate::geometry::clamp_int;
use crate::rng::{draw_bool_value, draw_in_range_value, next_state, GameRng};

verus! {

/// The ball's state.  Coordinates are milli-pixels with the origin at
/// the top-left corner; velocities are milli-pixels per millisecond.
#[derive(Clone, Copy, Debug, PartialEq, Eq, Structural)]
pub struct Ball {
    pub x: i64,
    pub y: i64,
    pub vel_x: i64,
    pub vel_y: i64,
}

/// Mathematical image of a [`Ball`].
pub ghost struct BallModel {
    pub x: int,
    pub y: int,
    pub vel_x: int,
    pub vel_y: int,
}

impl View for Ball {
    type V = BallModel;

    open spec fn view(&self) -> BallModel {
        BallModel {
            x: self.x as int,
            y: self.y as int,
            vel_x: self.vel_x as int,
            vel_y: self.vel_y as int,
        }
    }
}

/// One tick of ball physics: advance by `velocity * dt`; if the new
/// vertical position has left `0 ..= SCREEN_HEIGHT - BALL_SIZE`, or sits
/// exactly on its edge, flip the vertical velocity and clamp the
/// position back into that range.
pub open spec fn ball_step(b: BallModel, dt: int) -> BallModel {
    let x = b.x + b.vel_x * dt;
    let yr = b.y + b.vel_y * dt;
    if yr <= 0 || yr >= SCREEN_HEIGHT - BALL_SIZE {
        BallModel {
            x,
            y: clamp_int(yr, 0, SCREEN_HEIGHT - BALL_SIZE),
            vel_x: b.vel_x,
            vel_y: -b.vel_y,
        }
    } else {
        BallModel { x, y: yr, vel_x: b.vel_x, vel_y: b.vel_y }
    }
}

/// The ball after a re-serve from generator state `s`, paired with the
/// generator state left behind.  The first draw picks the serve
/// direction, the second the vertical speed.
pub open spec fn ball_reset_result(s: u64) -> (BallModel, u64) {
    let dir_right = draw_bool_value(s);
    let s1 = next_state(s);
    let vy = draw_in_range_value(s1, -BALL_VERTICAL_SPEED as int, BALL_VERTICAL_SPEED as int);
    let s2 = next_state(s1);
    (
        BallModel {
            x: SCREEN_CENTER_X as int,
            y: SCREEN_CENTER_Y as int,
            vel_x: if dir_right {
                BALL_BASE_SPEED as int
            } else {
                -BALL_BASE_SPEED as int
            },
            vel_y: vy,
        },
        s2,
    )
}

impl Ball {
    /// A ball at `(x, y)`, served to the lower right at the base speed.
    pub fn new(x: i64, y: i64) -> (b: Ball)
        ensures
            b.x == x,
            b.y == y,
            b.vel_x == BALL_BASE_SPEED,
            b.vel_y == BALL_VERTICAL_SPEED,
    {
        Ball { x, y, vel_x: BALL_BASE_SPEED, vel_y: BALL_VERTICAL_SPEED }
    }

    /// Advance the ball by `dt` milliseconds, bouncing off the top and
    /// bottom walls.  Whatever the ball's starting position, it ends
    /// inside the vertical range of the field.
    pub fn update(&mut self, dt: i64)
        requires
            0 <= dt <= DT_MAX,
            -POS_LIMIT <= old(self).x <= POS_LIMIT,
            -POS_LIMIT <= old(self).y <= POS_LIMIT,
            -BALL_SPEED_LIMIT <= old(self).vel_x <= BALL_SPEED_LIMIT,
            -BALL_SPEED_LIMIT <= old(self).vel_y <= BALL_SPEED_LIMIT,
        ensures
            final(self)@ == ball_step(old(self)@, dt as int),
            0 <= final(self).y <= SCREEN_HEIGHT - BALL_SIZE,
    {
        proof {
            crate::geometry::lemma_mul_bounds(
                self.vel_x as int,
                dt as int,
                BALL_SPEED_LIMIT as int,
                DT_MAX as int,
            );
            crate::geometry::lemma_mul_bounds(
                self.vel_y as int,
                dt as int,
                BALL_SPEED_LIMIT as int,
                DT_MAX as int,
            );
        }
        self.x = self.x + self.vel_x * dt;
        self.y = self.y + self.vel_y * dt;
        if self.y <= 0 || self.y >= SCREEN_HEIGHT - BALL_SIZE {
            self.vel_y = -self.vel_y;
            self.y = if self.y < 0 {
                0
            } else if self.y > SCREEN_HEIGHT - BALL_SIZE {
                SCREEN_HEIGHT - BALL_SIZE
            } else {
                self.y
            };
        }
    }

    /// Re-serve the ball: recenter it, pick the horizontal direction by
    /// a coin flip at the base speed, and draw a fresh vertical speed.
    pub fn reset(&mut self, rng: &mut GameRng)
        ensures
            final(self)@ == ball_reset_result(old(rng).state).0,
            final(rng).state == ball_reset_result(old(rng).state).1,
    {
        self.x = SCREEN_CENTER_X;
        self.y = SCREEN_CENTER_Y;
        self.vel_x = if rng.next_bool() {
            BALL_BASE_SPEED
        } else {
            -BALL_BASE_SPEED
        };
        self.vel_y = rng.next_in_range(-BALL_VERTICAL_SPEED, BALL_VERTICAL_SPEED);
    }
}

} // verus!
