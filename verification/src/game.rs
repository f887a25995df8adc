//! The game state and its per-tick state machine: physics advance,
//! trail bookkeeping, one-sided paddle collisions with speed
//! amplification, and scoring with a ball re-serve.

use vstd::prelude::*;

use crate::ball::{ball_reset_result, ball_step, Ball, BallModel};
use crate::config::{
    BALL_BASE_SPEED, BALL_HALF, BALL_SIZE, BALL_SPEED_LIMIT, BALL_VERTICAL_SPEED, DT_MAX,
    PADDLE_BOUNCE_DEN, PADDLE_BOUNCE_NUM, PADDLE_HEIGHT, PADDLE_MARGIN, PADDLE_SPEED,
    PADDLE_START_Y, PADDLE_WIDTH, PARTICLES_PER_BURST, PARTICLE_POS_LIMIT, SCREEN_CENTER_X,
    SCREEN_CENTER_Y, SCREEN_HEIGHT, SCREEN_WIDTH, TRAIL_MAX_LENGTH,
};
use crate::geometry::{rects_overlap, Rect, RectModel};
use crate::paddle::{paddle_step, Paddle, PaddleModel};
use crate::particle::{
    particle_alive, particle_from, particle_step, particle_wf, Particle, ParticleModel,
};
use crate::rng::GameRng;

verus! {

/// One recorded center of the ball, in milli-pixels.
#[derive(Clone, Copy, Debug, PartialEq, Eq, Structural)]
pub struct TrailPoint {
    pub x: i64,
    pub y: i64,
}

/// Mathematical image of a [`TrailPoint`].
pub ghost struct PointModel {
    pub x: int,
    pub y: int,
}

impl View for TrailPoint {
    type V = PointModel;

    open spec fn view(&self) -> PointModel {
        PointModel { x: self.x as int, y: self.y as int }
    }
}

/// A normalized input command, independent of any window toolkit.  The
/// driver translates raw key events into these; `Quit` is interpreted
/// by the driver itself and leaves the state unchanged.
#[derive(Clone, Copy, Debug, PartialEq, Eq, Structural)]
pub enum Intent {
    LeftPaddleUp,
    LeftPaddleDown,
    LeftPaddleStop,
    RightPaddleUp,
    RightPaddleDown,
    RightPaddleStop,
    ToggleTrail,
    SpawnBurst,
    ResetGame,
    Quit,
}

/// The whole simulation state: one ball, two paddles, the live
/// particles, both scores, and the trail buffer.
#[derive(Debug, PartialEq)]
pub struct GameState {
    pub ball: Ball,
    pub left_paddle: Paddle,
    pub right_paddle: Paddle,
    pub left_score: u64,
    pub right_score: u64,
    pub particles: Vec<Particle>,
    pub show_trail: bool,
    pub trail_points: Vec<TrailPoint>,
}

/// Mathematical image of a [`GameState`].
pub ghost struct GameModel {
    pub ball: BallModel,
    pub left_paddle: PaddleModel,
    pub right_paddle: PaddleModel,
    pub left_score: int,
    pub right_score: int,
    pub particles: Seq<ParticleModel>,
    pub show_trail: bool,
    pub trail_points: Seq<PointModel>,
}

impl View for GameState {
    type V = GameModel;

    open spec fn view(&self) -> GameModel {
        GameModel {
            ball: self.ball@,
            left_paddle: self.left_paddle@,
            right_paddle: self.right_paddle@,
            left_score: self.left_score as int,
            right_score: self.right_score as int,
            particles: self.particles@.map_values(|p: Particle| p@),
            show_trail: self.show_trail,
            trail_points: self.trail_points@.map_values(|t: TrailPoint| t@),
        }
    }
}

/// Well-formedness of the whole game: the ball is on or near the field
/// (a scoring ball sits just past a boundary until the tick resolves
/// it), the paddles are inside it, speeds are within their limits,
/// every held particle is alive and well-formed, and the trail
/// respects its cap.
pub open spec fn game_wf(g: GameModel) -> bool {
    &&& -SCREEN_WIDTH <= g.ball.x <= SCREEN_WIDTH
    &&& -SCREEN_HEIGHT <= g.ball.y <= SCREEN_HEIGHT
    &&& -BALL_SPEED_LIMIT <= g.ball.vel_x <= BALL_SPEED_LIMIT
    &&& -BALL_VERTICAL_SPEED <= g.ball.vel_y <= BALL_VERTICAL_SPEED
    &&& 0 <= g.left_paddle.y <= SCREEN_HEIGHT - PADDLE_HEIGHT
    &&& -PADDLE_SPEED <= g.left_paddle.vel_y <= PADDLE_SPEED
    &&& 0 <= g.right_paddle.y <= SCREEN_HEIGHT - PADDLE_HEIGHT
    &&& -PADDLE_SPEED <= g.right_paddle.vel_y <= PADDLE_SPEED
    &&& forall|i: int|
        0 <= i < g.particles.len() ==> particle_wf(#[trigger] g.particles[i]) && particle_alive(
            g.particles[i],
        )
    &&& g.trail_points.len() <= TRAIL_MAX_LENGTH
}

/// The state of a freshly started game: everything centered, scores
/// zero, no particles, trail enabled and empty.
pub open spec fn initial_game() -> GameModel {
    GameModel {
        ball: BallModel {
            x: SCREEN_CENTER_X as int,
            y: SCREEN_CENTER_Y as int,
            vel_x: BALL_BASE_SPEED as int,
            vel_y: BALL_VERTICAL_SPEED as int,
        },
        left_paddle: PaddleModel { y: PADDLE_START_Y as int, vel_y: 0 },
        right_paddle: PaddleModel { y: PADDLE_START_Y as int, vel_y: 0 },
        left_score: 0,
        right_score: 0,
        particles: Seq::empty(),
        show_trail: true,
        trail_points: Seq::empty(),
    }
}

/// A measured time step forced into `0 ..= DT_MAX`.
pub open spec fn clamp_dt(dt: int) -> int {
    if dt < 0 {
        0
    } else if dt > DT_MAX {
        DT_MAX as int
    } else {
        dt
    }
}

/// The ball's bounding box.
pub open spec fn ball_rect(b: BallModel) -> RectModel {
    RectModel { x: b.x, y: b.y, w: BALL_SIZE as int, h: BALL_SIZE as int }
}

/// The left paddle's bounding box.
pub open spec fn left_paddle_rect(p: PaddleModel) -> RectModel {
    RectModel { x: PADDLE_MARGIN as int, y: p.y, w: PADDLE_WIDTH as int, h: PADDLE_HEIGHT as int }
}

/// The right paddle's bounding box.
pub open spec fn right_paddle_rect(p: PaddleModel) -> RectModel {
    RectModel {
        x: SCREEN_WIDTH - PADDLE_MARGIN - PADDLE_WIDTH,
        y: p.y,
        w: PADDLE_WIDTH as int,
        h: PADDLE_HEIGHT as int,
    }
}

/// The ball's center.
pub open spec fn ball_center(b: BallModel) -> PointModel {
    PointModel { x: b.x + BALL_HALF, y: b.y + BALL_HALF }
}

/// The horizontal speed after a paddle hit: the incoming magnitude
/// `mag` amplified by the bounce multiplier, held below the configured
/// ceiling.
pub open spec fn amplified_speed(mag: int) -> int {
    let amp = mag * PADDLE_BOUNCE_NUM / (PADDLE_BOUNCE_DEN as int);
    if amp > BALL_SPEED_LIMIT {
        BALL_SPEED_LIMIT as int
    } else {
        amp
    }
}

/// The ball after a hit on the left paddle: the horizontal velocity is
/// inverted and amplified, and the ball is snapped flush to the
/// paddle's right edge.
pub open spec fn bounce_left(b: BallModel) -> BallModel {
    BallModel { x: (PADDLE_MARGIN + PADDLE_WIDTH) as int, vel_x: amplified_speed(-b.vel_x), ..b }
}

/// The ball after a hit on the right paddle: the horizontal velocity
/// is inverted and amplified, and the ball is snapped flush to the
/// paddle's left edge.
pub open spec fn bounce_right(b: BallModel) -> BallModel {
    BallModel {
        x: SCREEN_WIDTH - PADDLE_MARGIN - PADDLE_WIDTH - BALL_SIZE,
        vel_x: -amplified_speed(b.vel_x),
        ..b
    }
}

/// The trail after appending `p`: the oldest point is discarded once
/// the buffer would exceed its cap.
pub open spec fn trail_push(t: Seq<PointModel>, p: PointModel) -> Seq<PointModel> {
    let t2 = t.push(p);
    if t2.len() > TRAIL_MAX_LENGTH {
        t2.subrange(1, t2.len() as int)
    } else {
        t2
    }
}

/// The particles of one burst of `n` spawned at `(x, y)` from
/// generator state `s`, in spawn order, paired with the generator
/// state left behind.
pub open spec fn burst_result(x: int, y: int, s: u64, n: nat) -> (Seq<ParticleModel>, u64)
    decreases n,
{
    if n == 0 {
        (Seq::empty(), s)
    } else {
        let prev = burst_result(x, y, s, (n - 1) as nat);
        let p = particle_from(x, y, prev.1);
        (prev.0.push(p.0), p.1)
    }
}

/// All particles advanced by `dt`, keeping, in order, exactly those
/// still alive afterwards.
pub open spec fn prune_particles(s: Seq<ParticleModel>, dt: int) -> Seq<ParticleModel>
    decreases s.len(),
{
    if s.len() == 0 {
        Seq::empty()
    } else {
        let rest = prune_particles(s.drop_last(), dt);
        let p = particle_step(s.last(), dt);
        if particle_alive(p) {
            rest.push(p)
        } else {
            rest
        }
    }
}

/// One whole tick, as a function of the starting state, the measured
/// time step, and the generator state: advance ball, paddles and
/// particles; record the trail point; resolve paddle hits (only
/// against a ball moving toward the paddle, so an overlapping ball
/// cannot stick); then resolve scoring, which re-serves the ball and
/// clears the trail.  Returns the new state and the generator state
/// left behind.
pub open spec fn game_step(g: GameModel, dt: int, s: u64) -> (GameModel, u64) {
    let dtc = clamp_dt(dt);
    let b1 = ball_step(g.ball, dtc);
    let lp = paddle_step(g.left_paddle, dtc);
    let rp = paddle_step(g.right_paddle, dtc);
    let ps1 = prune_particles(g.particles, dtc);
    let trail1 = if g.show_trail {
        trail_push(g.trail_points, ball_center(b1))
    } else {
        g.trail_points
    };
    let rect0 = ball_rect(b1);
    let hit_left = rects_overlap(rect0, left_paddle_rect(lp)) && b1.vel_x < 0;
    let b2 = if hit_left {
        bounce_left(b1)
    } else {
        b1
    };
    let after_left = if hit_left {
        let burst = burst_result(b2.x, b2.y + BALL_HALF, s, PARTICLES_PER_BURST as nat);
        (ps1 + burst.0, burst.1)
    } else {
        (ps1, s)
    };
    let hit_right = rects_overlap(rect0, right_paddle_rect(rp)) && b2.vel_x > 0;
    let b3 = if hit_right {
        bounce_right(b2)
    } else {
        b2
    };
    let after_right = if hit_right {
        let burst = burst_result(b3.x, b3.y + BALL_HALF, after_left.1, PARTICLES_PER_BURST as nat);
        (after_left.0 + burst.0, burst.1)
    } else {
        after_left
    };
    let ps3 = after_right.0;
    let s3 = after_right.1;
    if b3.x <= 0 {
        let r = ball_reset_result(s3);
        (
            GameModel {
                ball: r.0,
                left_paddle: lp,
                right_paddle: rp,
                left_score: g.left_score,
                right_score: g.right_score + 1,
                particles: ps3,
                show_trail: g.show_trail,
                trail_points: Seq::empty(),
            },
            r.1,
        )
    } else if b3.x >= SCREEN_WIDTH - BALL_SIZE {
        let r = ball_reset_result(s3);
        (
            GameModel {
                ball: r.0,
                left_paddle: lp,
                right_paddle: rp,
                left_score: g.left_score + 1,
                right_score: g.right_score,
                particles: ps3,
                show_trail: g.show_trail,
                trail_points: Seq::empty(),
            },
            r.1,
        )
    } else {
        (
            GameModel {
                ball: b3,
                left_paddle: lp,
                right_paddle: rp,
                left_score: g.left_score,
                right_score: g.right_score,
                particles: ps3,
                show_trail: g.show_trail,
                trail_points: trail1,
            },
            s3,
        )
    }
}

/// The effect of one input intent on the state: paddle velocity
/// commands, the trail toggle, an explicit burst at the ball's center,
/// and the whole-game reset, which is the only way scores return to
/// zero.  `Quit` is a driver-level command and changes nothing.
pub open spec fn apply_intent_result(g: GameModel, intent: Intent, s: u64) -> (GameModel, u64) {
    match intent {
        Intent::LeftPaddleUp => (
            GameModel {
                left_paddle: PaddleModel { vel_y: -PADDLE_SPEED as int, ..g.left_paddle },
                ..g
            },
            s,
        ),
        Intent::LeftPaddleDown => (
            GameModel {
                left_paddle: PaddleModel { vel_y: PADDLE_SPEED as int, ..g.left_paddle },
                ..g
            },
            s,
        ),
        Intent::LeftPaddleStop => (
            GameModel { left_paddle: PaddleModel { vel_y: 0, ..g.left_paddle }, ..g },
            s,
        ),
        Intent::RightPaddleUp => (
            GameModel {
                right_paddle: PaddleModel { vel_y: -PADDLE_SPEED as int, ..g.right_paddle },
                ..g
            },
            s,
        ),
        Intent::RightPaddleDown => (
            GameModel {
                right_paddle: PaddleModel { vel_y: PADDLE_SPEED as int, ..g.right_paddle },
                ..g
            },
            s,
        ),
        Intent::RightPaddleStop => (
            GameModel { right_paddle: PaddleModel { vel_y: 0, ..g.right_paddle }, ..g },
            s,
        ),
        Intent::ToggleTrail => (GameModel { show_trail: !g.show_trail, ..g }, s),
        Intent::SpawnBurst => {
            let burst = burst_result(
                g.ball.x + BALL_HALF,
                g.ball.y + BALL_HALF,
                s,
                PARTICLES_PER_BURST as nat,
            );
            (GameModel { particles: g.particles + burst.0, ..g }, burst.1)
        },
        Intent::ResetGame => (initial_game(), s),
        Intent::Quit => (g, s),
    }
}

/// The effect of a whole batch of intents, applied in order.
pub open spec fn apply_intents_result(g: GameModel, intents: Seq<Intent>, s: u64) -> (
    GameModel,
    u64,
)
    decreases intents.len(),
{
    if intents.len() == 0 {
        (g, s)
    } else {
        let prev = apply_intents_result(g, intents.drop_last(), s);
        apply_intent_result(prev.0, intents.last(), prev.1)
    }
}

/// One whole frame: the frame's input intents, in order, then one
/// [`game_step`] with the frame's time step.
pub open spec fn frame_result(g: GameModel, intents: Seq<Intent>, dt: int, s: u64) -> (
    GameModel,
    u64,
) {
    let applied = apply_intents_result(g, intents, s);
    game_step(applied.0, dt, applied.1)
}

/// The input of one frame of a session: the drained intents and the
/// measured time step.
pub ghost struct FrameInput {
    pub intents: Seq<Intent>,
    pub dt: int,
}

/// The state and generator after running a whole session of frames.
pub open spec fn run_result(g: GameModel, frames: Seq<FrameInput>, s: u64) -> (GameModel, u64)
    decreases frames.len(),
{
    if frames.len() == 0 {
        (g, s)
    } else {
        let prev = run_result(g, frames.drop_last(), s);
        frame_result(prev.0, frames.last().intents, frames.last().dt, prev.1)
    }
}

/// The trajectory of a session: the state after each frame, in order.
pub open spec fn run_trace(g: GameModel, frames: Seq<FrameInput>, s: u64) -> Seq<GameModel>
    decreases frames.len(),
{
    if frames.len() == 0 {
        Seq::empty()
    } else {
        run_trace(g, frames.drop_last(), s).push(run_result(g, frames, s).0)
    }
}

impl GameState {
    /// A freshly started game.
    pub fn new() -> (g: GameState)
        ensures
            g@ == initial_game(),
            game_wf(g@),
    {
        let g = GameState {
            ball: Ball::new(SCREEN_CENTER_X, SCREEN_CENTER_Y),
            left_paddle: Paddle::new(PADDLE_START_Y),
            right_paddle: Paddle::new(PADDLE_START_Y),
            left_score: 0,
            right_score: 0,
            particles: Vec::new(),
            show_trail: true,
            trail_points: Vec::new(),
        };
        proof {
            assert(g@.particles =~= Seq::<ParticleModel>::empty());
            assert(g@.trail_points =~= Seq::<PointModel>::empty());
        }
        g
    }

    /// Spawn one burst of particles at `(x, y)`; everything else is
    /// left untouched.
    pub fn spawn_particles(&mut self, x: i64, y: i64, rng: &mut GameRng)
        requires
            -PARTICLE_POS_LIMIT <= x <= PARTICLE_POS_LIMIT,
            -PARTICLE_POS_LIMIT <= y <= PARTICLE_POS_LIMIT,
        ensures
            final(self)@.particles == old(self)@.particles + burst_result(
                x as int,
                y as int,
                old(rng).state,
                PARTICLES_PER_BURST as nat,
            ).0,
            final(rng).state == burst_result(
                x as int,
                y as int,
                old(rng).state,
                PARTICLES_PER_BURST as nat,
            ).1,
            final(self).ball == old(self).ball,
            final(self).left_paddle == old(self).left_paddle,
            final(self).right_paddle == old(self).right_paddle,
            final(self).left_score == old(self).left_score,
            final(self).right_score == old(self).right_score,
            final(self).show_trail == old(self).show_trail,
            final(self).trail_points == old(self).trail_points,
            forall|i: int|
                old(self)@.particles.len() <= i < final(self)@.particles.len() ==> particle_wf(
                    #[trigger] final(self)@.particles[i],
                ) && particle_alive(final(self)@.particles[i]),
    {
        let ghost s0 = rng.state;
        let ghost ps0 = self@.particles;
        let ghost ob = self.ball;
        let ghost olp = self.left_paddle;
        let ghost orp = self.right_paddle;
        let ghost ols = self.left_score;
        let ghost ors = self.right_score;
        let ghost ost = self.show_trail;
        let ghost otr = self.trail_points;
        let mut i: usize = 0;
        while i < PARTICLES_PER_BURST
            invariant
                i <= PARTICLES_PER_BURST,
                -PARTICLE_POS_LIMIT <= x <= PARTICLE_POS_LIMIT,
                -PARTICLE_POS_LIMIT <= y <= PARTICLE_POS_LIMIT,
                self@.particles == ps0 + burst_result(x as int, y as int, s0, i as nat).0,
                rng.state == burst_result(x as int, y as int, s0, i as nat).1,
                self.ball == ob,
                self.left_paddle == olp,
                self.right_paddle == orp,
                self.left_score == ols,
                self.right_score == ors,
                self.show_trail == ost,
                self.trail_points == otr,
                forall|j: int|
                    ps0.len() <= j < self@.particles.len() ==> particle_wf(
                        #[trigger] self@.particles[j],
                    ) && particle_alive(self@.particles[j]),
            decreases PARTICLES_PER_BURST - i,
        {
            let ghost before = self@.particles;
            let p = Particle::new(x, y, rng);
            self.particles.push(p);
            proof {
                assert(self@.particles =~= before.push(p@));
                assert(self@.particles =~= ps0 + burst_result(
                    x as int,
                    y as int,
                    s0,
                    (i + 1) as nat,
                ).0);
            }
            i = i + 1;
        }
        proof {
            assert(burst_result(x as int, y as int, s0, i as nat) == burst_result(
                x as int,
                y as int,
                s0,
                PARTICLES_PER_BURST as nat,
            ));
        }
    }

    /// Advance every particle by `dt` and drop the ones whose lifetime
    /// has run out, keeping the survivors in order.
    fn step_and_prune_particles(&mut self, dt: i64)
        requires
            0 <= dt <= DT_MAX,
            forall|i: int|
                0 <= i < old(self)@.particles.len() ==> particle_wf(
                    #[trigger] old(self)@.particles[i],
                ) && particle_alive(old(self)@.particles[i]),
        ensures
            final(self)@.particles == prune_particles(old(self)@.particles, dt as int),
            final(self).ball == old(self).ball,
            final(self).left_paddle == old(self).left_paddle,
            final(self).right_paddle == old(self).right_paddle,
            final(self).left_score == old(self).left_score,
            final(self).right_score == old(self).right_score,
            final(self).show_trail == old(self).show_trail,
            final(self).trail_points == old(self).trail_points,
            forall|i: int|
                0 <= i < final(self)@.particles.len() ==> particle_wf(
                    #[trigger] final(self)@.particles[i],
                ) && particle_alive(final(self)@.particles[i]),
    {
        let ghost ps0 = self@.particles;
        let n = self.particles.len();
        let mut kept: Vec<Particle> = Vec::new();
        let mut i: usize = 0;
        while i < n
            invariant
                i <= n,
                0 <= dt <= DT_MAX,
                n == self.particles.len(),
                ps0 == self@.particles,
                forall|j: int|
                    0 <= j < ps0.len() ==> particle_wf(#[trigger] ps0[j]) && particle_alive(
                        ps0[j],
                    ),
                kept@.map_values(|p: Particle| p@) == prune_particles(
                    ps0.take(i as int),
                    dt as int,
                ),
                forall|j: int|
                    0 <= j < kept@.len() ==> particle_wf(#[trigger] kept@[j]@) && particle_alive(
                        kept@[j]@,
                    ),
            decreases n - i,
        {
            let ghost kept0 = kept@.map_values(|p: Particle| p@);
            let mut p = self.particles[i];
            assert(p@ == ps0[i as int]);
            let alive = p.update(dt);
            if alive {
                kept.push(p);
                proof {
                    assert(kept@.map_values(|q: Particle| q@) =~= kept0.push(p@));
                }
            }
            proof {
                assert(ps0.take(i + 1).drop_last() =~= ps0.take(i as int));
                assert(ps0.take(i + 1).last() == ps0[i as int]);
            }
            i = i + 1;
        }
        proof {
            assert(ps0.take(n as int) =~= ps0);
        }
        self.particles = kept;
    }

    /// One tick of the whole game, exactly as [`game_step`] describes
    /// it.  The state stays well-formed and the scores never go down.
    #[verifier::rlimit(60)]
    pub fn update(&mut self, dt: i64, rng: &mut GameRng)
        requires
            game_wf(old(self)@),
            old(self).left_score < u64::MAX,
            old(self).right_score < u64::MAX,
        ensures
            final(self)@ == game_step(old(self)@, dt as int, old(rng).state).0,
            final(rng).state == game_step(old(self)@, dt as int, old(rng).state).1,
            game_wf(final(self)@),
            final(self).left_score >= old(self).left_score,
            final(self).right_score >= old(self).right_score,
    {
        let ghost g0 = self@;
        let ghost s0 = rng.state;
        let dtc: i64 = if dt < 0 {
            0
        } else if dt > DT_MAX {
            DT_MAX
        } else {
            dt
        };
        proof {
            assert(dtc as int == clamp_dt(dt as int));
        }
        self.ball.update(dtc);
        self.left_paddle.update(dtc);
        self.right_paddle.update(dtc);
        proof {
            assert(self@.particles == g0.particles);
            assert forall|i: int|
                0 <= i < self@.particles.len() implies particle_wf(
                #[trigger] self@.particles[i],
            ) && particle_alive(self@.particles[i]) by {
                assert(self@.particles[i] == g0.particles[i]);
            };
        }
        self.step_and_prune_particles(dtc);
        let ghost b1 = self.ball@;
        proof {
            assert(b1 == ball_step(g0.ball, dtc as int));
            crate::geometry::lemma_mul_bounds_factor(
                g0.ball.vel_x,
                dtc as int,
                BALL_SPEED_LIMIT as int,
            );
        }
        if self.show_trail {
            let pt = TrailPoint { x: self.ball.x + BALL_HALF, y: self.ball.y + BALL_HALF };
            self.trail_points.push(pt);
            if self.trail_points.len() > TRAIL_MAX_LENGTH {
                self.trail_points.remove(0);
            }
            proof {
                assert(self@.trail_points =~= trail_push(g0.trail_points, ball_center(b1)));
            }
        }
        let ball_r = Rect { x: self.ball.x, y: self.ball.y, w: BALL_SIZE, h: BALL_SIZE };
        let left_r = Rect {
            x: PADDLE_MARGIN,
            y: self.left_paddle.y,
            w: PADDLE_WIDTH,
            h: PADDLE_HEIGHT,
        };
        let right_r = Rect {
            x: SCREEN_WIDTH - PADDLE_MARGIN - PADDLE_WIDTH,
            y: self.right_paddle.y,
            w: PADDLE_WIDTH,
            h: PADDLE_HEIGHT,
        };
        if ball_r.overlaps(&left_r) && self.ball.vel_x < 0 {
            let mag: i64 = -self.ball.vel_x;
            let amp_q: u64 = (mag as u64) * 105 / 100;
            let amp: i64 = if amp_q > (BALL_SPEED_LIMIT as u64) {
                BALL_SPEED_LIMIT
            } else {
                amp_q as i64
            };
            proof {
                assert(amp as int == amplified_speed(-b1.vel_x));
            }
            self.ball.vel_x = amp;
            self.ball.x = PADDLE_MARGIN + PADDLE_WIDTH;
            self.spawn_particles(self.ball.x, self.ball.y + BALL_HALF, rng);
        }
        let ghost b2 = self.ball@;
        if ball_r.overlaps(&right_r) && self.ball.vel_x > 0 {
            let mag: i64 = self.ball.vel_x;
            let amp_q: u64 = (mag as u64) * 105 / 100;
            let amp: i64 = if amp_q > (BALL_SPEED_LIMIT as u64) {
                BALL_SPEED_LIMIT
            } else {
                amp_q as i64
            };
            proof {
                assert(amp as int == amplified_speed(b2.vel_x));
            }
            self.ball.vel_x = -amp;
            self.ball.x = SCREEN_WIDTH - PADDLE_MARGIN - PADDLE_WIDTH - BALL_SIZE;
            self.spawn_particles(self.ball.x, self.ball.y + BALL_HALF, rng);
        }
        if self.ball.x <= 0 {
            self.right_score = self.right_score + 1;
            self.ball.reset(rng);
            self.trail_points.clear();
            proof {
                assert(self@.trail_points =~= Seq::<PointModel>::empty());
            }
        } else if self.ball.x >= SCREEN_WIDTH - BALL_SIZE {
            self.left_score = self.left_score + 1;
            self.ball.reset(rng);
            self.trail_points.clear();
            proof {
                assert(self@.trail_points =~= Seq::<PointModel>::empty());
            }
        }
        proof {
            assert(self@.particles =~= game_step(g0, dt as int, s0).0.particles);
            assert(self@.trail_points =~= game_step(g0, dt as int, s0).0.trail_points);
            assert(self@ == game_step(g0, dt as int, s0).0);
        }
    }

    /// Consume one input intent, exactly as [`apply_intent_result`]
    /// describes it.  No intent raises a score.
    pub fn apply_intent(&mut self, intent: Intent, rng: &mut GameRng)
        requires
            game_wf(old(self)@),
        ensures
            final(self)@ == apply_intent_result(old(self)@, intent, old(rng).state).0,
            final(rng).state == apply_intent_result(old(self)@, intent, old(rng).state).1,
            game_wf(final(self)@),
            final(self).left_score <= old(self).left_score,
            final(self).right_score <= old(self).right_score,
    {
        match intent {
            Intent::LeftPaddleUp => {
                self.left_paddle.vel_y = -PADDLE_SPEED;
            },
            Intent::LeftPaddleDown => {
                self.left_paddle.vel_y = PADDLE_SPEED;
            },
            Intent::LeftPaddleStop => {
                self.left_paddle.vel_y = 0;
            },
            Intent::RightPaddleUp => {
                self.right_paddle.vel_y = -PADDLE_SPEED;
            },
            Intent::RightPaddleDown => {
                self.right_paddle.vel_y = PADDLE_SPEED;
            },
            Intent::RightPaddleStop => {
                self.right_paddle.vel_y = 0;
            },
            Intent::ToggleTrail => {
                self.show_trail = !self.show_trail;
            },
            Intent::SpawnBurst => {
                let cx = self.ball.x + BALL_HALF;
                let cy = self.ball.y + BALL_HALF;
                self.spawn_particles(cx, cy, rng);
            },
            Intent::ResetGame => {
                *self = GameState::new();
            },
            Intent::Quit => {},
        }
    }

    /// One whole frame of a session: drain the frame's intents in
    /// order, then advance the simulation by `dt`, exactly as
    /// [`frame_result`] describes it.
    pub fn frame(&mut self, intents: &Vec<Intent>, dt: i64, rng: &mut GameRng)
        requires
            game_wf(old(self)@),
            old(self).left_score < u64::MAX,
            old(self).right_score < u64::MAX,
        ensures
            final(self)@ == frame_result(old(self)@, intents@, dt as int, old(rng).state).0,
            final(rng).state == frame_result(old(self)@, intents@, dt as int, old(rng).state).1,
            game_wf(final(self)@),
    {
        let ghost g0 = self@;
        let ghost s0 = rng.state;
        let ghost ols = self.left_score;
        let ghost ors = self.right_score;
        let n = intents.len();
        let mut i: usize = 0;
        while i < n
            invariant
                i <= n,
                n == intents.len(),
                game_wf(self@),
                self.left_score <= ols < u64::MAX,
                self.right_score <= ors < u64::MAX,
                self@ == apply_intents_result(g0, intents@.take(i as int), s0).0,
                rng.state == apply_intents_result(g0, intents@.take(i as int), s0).1,
            decreases n - i,
        {
            let intent = intents[i];
            self.apply_intent(intent, rng);
            proof {
                assert(intents@.take(i + 1).drop_last() =~= intents@.take(i as int));
                assert(intents@.take(i + 1).last() == intents@[i as int]);
            }
            i = i + 1;
        }
        proof {
            assert(intents@.take(n as int) =~= intents@);
        }
        self.update(dt, rng);
    }
}

} // verus!
