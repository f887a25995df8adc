//! Fixed configuration constants of the simulation.
//!
//! Distances are measured in milli-pixels (one pixel is `SCALE` units)
//! and time in milliseconds.  A velocity is stored in milli-pixels per
//! millisecond, which is numerically the same as pixels per second.

use vstd::prelude::*;

verus! {

/// Milli-pixels per pixel.
pub const SCALE: i64 = 1000;

/// Width of the playing field, in milli-pixels (1024 pixels).
pub const SCREEN_WIDTH: i64 = 1024 * SCALE;

/// Height of the playing field, in milli-pixels (768 pixels).
pub const SCREEN_HEIGHT: i64 = 768 * SCALE;

/// Edge length of the square ball, in milli-pixels (20 pixels).
pub const BALL_SIZE: i64 = 20 * SCALE;

/// Half of `BALL_SIZE`: the offset from the ball's top-left corner to
/// its center.
pub const BALL_HALF: i64 = 10 * SCALE;

/// Horizontal center of the playing field: half of `SCREEN_WIDTH`.
pub const SCREEN_CENTER_X: i64 = 512 * SCALE;

/// Vertical center of the playing field: half of `SCREEN_HEIGHT`.
pub const SCREEN_CENTER_Y: i64 = 384 * SCALE;

/// Top edge of a freshly placed paddle, chosen so the paddle is
/// vertically centered: `SCREEN_CENTER_Y` less half of `PADDLE_HEIGHT`.
pub const PADDLE_START_Y: i64 = 334 * SCALE;

/// Width of each paddle, in milli-pixels (15 pixels).
pub const PADDLE_WIDTH: i64 = 15 * SCALE;

/// Height of each paddle, in milli-pixels (100 pixels).
pub const PADDLE_HEIGHT: i64 = 100 * SCALE;

/// Horizontal gap between a screen edge and its paddle, in milli-pixels
/// (20 pixels).
pub const PADDLE_MARGIN: i64 = 20 * SCALE;

/// Speed of a moving paddle, in milli-pixels per millisecond.
pub const PADDLE_SPEED: i64 = 400;

/// Horizontal speed of the ball when it is served, in milli-pixels per
/// millisecond.
pub const BALL_BASE_SPEED: i64 = 300;

/// Vertical speed of the ball when the game starts; a re-served ball
/// draws its vertical speed from `-BALL_VERTICAL_SPEED .. BALL_VERTICAL_SPEED`.
pub const BALL_VERTICAL_SPEED: i64 = 200;

/// Numerator of the speed multiplier applied on a paddle hit.
pub const PADDLE_BOUNCE_NUM: i64 = 105;

/// Denominator of the speed multiplier applied on a paddle hit; the
/// multiplier is `PADDLE_BOUNCE_NUM / PADDLE_BOUNCE_DEN`, here 1.05.
pub const PADDLE_BOUNCE_DEN: i64 = 100;

/// Tunable ceiling on the ball's horizontal speed.  Each paddle hit
/// amplifies the speed, so some ceiling is needed for the arithmetic to
/// stay exact; this one sits far above anything a session can reach, so
/// in practice the growth is unbounded.
pub const BALL_SPEED_LIMIT: i64 = 1_000_000_000;

/// Number of particles created by one burst.
pub const PARTICLES_PER_BURST: usize = 20;

/// Largest number of points the trail buffer may hold.
pub const TRAIL_MAX_LENGTH: usize = 50;

/// Smallest lifetime a new particle may draw, in milliseconds.
pub const PARTICLE_LIFETIME_MIN: i64 = 500;

/// One past the largest lifetime a new particle may draw, in
/// milliseconds.
pub const PARTICLE_LIFETIME_MAX: i64 = 2000;

/// Smallest magnitude a new particle's velocity component may draw, in
/// milli-pixels per millisecond.
pub const PARTICLE_SPEED_MIN: i64 = 50;

/// One past the largest magnitude a new particle's velocity component
/// may draw, in milli-pixels per millisecond.
pub const PARTICLE_SPEED_MAX: i64 = 200;

/// Brightness floor of a particle's color channels, so that particles
/// stay visible against the background.
pub const COLOR_MIN: i64 = 100;

/// One past the largest value of a particle's color channels.
pub const COLOR_MAX: i64 = 255;

/// Largest opacity of a particle, at the moment it is spawned.
pub const MAX_OPACITY: i64 = 255;

/// Largest time step a single tick may advance, in milliseconds.  A
/// longer measured step (a stall, a debugger pause) is clamped to this,
/// so that the ball cannot tunnel through a paddle or a wall.
pub const DT_MAX: i64 = 250;

/// Machine bound on the coordinates fed to the leaf update routines;
/// far outside anything the game can reach, but needed so that the
/// integer arithmetic provably stays in range.
pub const POS_LIMIT: i64 = 1_000_000_000_000;

/// Machine bound on the coordinates at which a particle may be spawned;
/// generous enough for any point of the playing field.
pub const PARTICLE_POS_LIMIT: i64 = 2_000_000;

} // verus!
