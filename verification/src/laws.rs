//! The library's guarantees, stated and proved once over the spec
//! functions that the executable contracts are pinned to.

use vstd::prelude::*;

use crate::ball::{ball_step, BallModel};
use crate::config::{
    BALL_HALF, BALL_SIZE, BALL_SPEED_LIMIT, PADDLE_BOUNCE_DEN, PADDLE_BOUNCE_NUM, PADDLE_HEIGHT,
    PADDLE_MARGIN, PADDLE_WIDTH, PARTICLES_PER_BURST, SCREEN_HEIGHT, TRAIL_MAX_LENGTH,
};
use crate::game::{
    ball_rect, bounce_left, bounce_right, burst_result, clamp_dt, game_step, left_paddle_rect,
    prune_particles, right_paddle_rect, run_result, run_trace, trail_push, FrameInput, GameModel,
    PointModel,
};
use crate::geometry::rects_overlap;
use crate::paddle::{paddle_step, PaddleModel};
use crate::particle::{particle_alive, particle_step, ParticleModel};

verus! {

/// Wall-bounce invariant: whatever the ball's starting state and the
/// time step, after one tick of ball physics the ball sits inside the
/// vertical range of the field.
pub proof fn lemma_wall_bounce(b: BallModel, dt: int)
    ensures
        0 <= ball_step(b, dt).y <= SCREEN_HEIGHT - BALL_SIZE,
{
}

/// Paddle-bound invariant: whatever the paddle's velocity and the time
/// step, after one tick of paddle physics the paddle sits inside the
/// vertical range of the field.
pub proof fn lemma_paddle_bound(p: PaddleModel, dt: int)
    ensures
        0 <= paddle_step(p, dt).y <= SCREEN_HEIGHT - PADDLE_HEIGHT,
{
}

/// Particle pruning, kept half: a particle whose elapsed lifetime
/// stays below its maximum after this tick is still in the pruned set,
/// in its advanced form.
pub proof fn lemma_particle_pruning_keeps_living(s: Seq<ParticleModel>, dt: int, i: int)
    requires
        0 <= i < s.len(),
        particle_alive(particle_step(s[i], dt)),
    ensures
        prune_particles(s, dt).contains(particle_step(s[i], dt)),
    decreases s.len(),
{
    let p = particle_step(s[i], dt);
    if i == s.len() - 1 {
        let result = prune_particles(s, dt);
        assert(result.last() == p);
        assert(result.contains(p));
    } else {
        assert(s.drop_last()[i] == s[i]);
        lemma_particle_pruning_keeps_living(s.drop_last(), dt, i);
        let rest = prune_particles(s.drop_last(), dt);
        let j = choose|j: int| 0 <= j < rest.len() && rest[j] == p;
        assert(prune_particles(s, dt)[j] == p);
        assert(prune_particles(s, dt).contains(p));
    }
}

/// Particle pruning, dropped half: everything in the pruned set is
/// alive, so a particle whose elapsed lifetime has reached its maximum
/// is absent from the very tick that happens.
pub proof fn lemma_particle_pruning_drops_dead(s: Seq<ParticleModel>, dt: int)
    ensures
        forall|j: int|
            0 <= j < prune_particles(s, dt).len() ==> particle_alive(
                #[trigger] prune_particles(s, dt)[j],
            ),
    decreases s.len(),
{
    if s.len() > 0 {
        lemma_particle_pruning_drops_dead(s.drop_last(), dt);
        let rest = prune_particles(s.drop_last(), dt);
        let result = prune_particles(s, dt);
        assert forall|j: int| 0 <= j < result.len() implies particle_alive(result[j]) by {
            if j < rest.len() {
                assert(result[j] == rest[j]);
                assert(particle_alive(rest[j]));
            }
        };
    }
}

/// Every particle of one burst is born alive, with no elapsed
/// lifetime.
pub proof fn lemma_burst_alive(x: int, y: int, s: u64, n: nat)
    ensures
        forall|j: int|
            0 <= j < burst_result(x, y, s, n).0.len() ==> particle_alive(
                #[trigger] burst_result(x, y, s, n).0[j],
            ) && burst_result(x, y, s, n).0[j].lifetime == 0,
    decreases n,
{
    if n > 0 {
        lemma_burst_alive(x, y, s, (n - 1) as nat);
        let prev = burst_result(x, y, s, (n - 1) as nat);
        let result = burst_result(x, y, s, n).0;
        assert forall|j: int|
            0 <= j < result.len() implies particle_alive(result[j]) && result[j].lifetime
            == 0 by {
            if j < prev.0.len() {
                assert(result[j] == prev.0[j]);
            }
        };
    }
}

/// Particle pruning at the level of a whole tick, kept half: a held
/// particle whose elapsed lifetime stays below its maximum over this
/// tick is still held afterwards, in its advanced form, whatever else
/// the tick does.
pub proof fn lemma_game_keeps_living_particles(g: GameModel, dt: int, s: u64, i: int)
    requires
        0 <= i < g.particles.len(),
        particle_alive(particle_step(g.particles[i], clamp_dt(dt))),
    ensures
        game_step(g, dt, s).0.particles.contains(particle_step(g.particles[i], clamp_dt(dt))),
{
    let dtc = clamp_dt(dt);
    let p = particle_step(g.particles[i], dtc);
    lemma_particle_pruning_keeps_living(g.particles, dtc, i);
    let pruned = prune_particles(g.particles, dtc);
    let j = choose|j: int| 0 <= j < pruned.len() && pruned[j] == p;
    assert(game_step(g, dt, s).0.particles[j] == p);
    assert(game_step(g, dt, s).0.particles.contains(p));
}

/// Particle pruning at the level of a whole tick, dropped half: a dead
/// particle — one whose elapsed lifetime has reached its maximum — is
/// held by no state a tick can produce.
pub proof fn lemma_game_drops_dead_particles(g: GameModel, dt: int, s: u64, q: ParticleModel)
    requires
        !particle_alive(q),
    ensures
        !game_step(g, dt, s).0.particles.contains(q),
{
    let dtc = clamp_dt(dt);
    lemma_particle_pruning_drops_dead(g.particles, dtc);
    let pruned = prune_particles(g.particles, dtc);
    let result = game_step(g, dt, s).0.particles;
    let b1 = ball_step(g.ball, dtc);
    let lp = paddle_step(g.left_paddle, dtc);
    let rp = paddle_step(g.right_paddle, dtc);
    let rect0 = ball_rect(b1);
    let hit_left = rects_overlap(rect0, left_paddle_rect(lp)) && b1.vel_x < 0;
    let b2 = if hit_left {
        bounce_left(b1)
    } else {
        b1
    };
    let s2 = if hit_left {
        burst_result(b2.x, b2.y + BALL_HALF, s, PARTICLES_PER_BURST as nat).1
    } else {
        s
    };
    let hit_right = rects_overlap(rect0, right_paddle_rect(rp)) && b2.vel_x > 0;
    let b3 = if hit_right {
        bounce_right(b2)
    } else {
        b2
    };
    lemma_burst_alive(b2.x, b2.y + BALL_HALF, s, PARTICLES_PER_BURST as nat);
    lemma_burst_alive(b3.x, b3.y + BALL_HALF, s2, PARTICLES_PER_BURST as nat);
    assert forall|j: int| 0 <= j < result.len() implies particle_alive(result[j]) by {
        if j < pruned.len() {
            assert(result[j] == pruned[j]);
        }
    };
    if result.contains(q) {
        let j = choose|j: int| 0 <= j < result.len() && result[j] == q;
        assert(particle_alive(result[j]));
    }
}

/// Trail cap: appending to a trail within its cap keeps it within its
/// cap, the newest point lands at the back, and the buffer is exactly
/// the most recent points in chronological order — the whole history
/// when it fits, else the history with its oldest point discarded.
pub proof fn lemma_trail_cap(t: Seq<PointModel>, p: PointModel)
    requires
        t.len() <= TRAIL_MAX_LENGTH,
    ensures
        trail_push(t, p).len() <= TRAIL_MAX_LENGTH,
        trail_push(t, p).last() == p,
        t.len() < TRAIL_MAX_LENGTH ==> trail_push(t, p) == t.push(p),
        t.len() == TRAIL_MAX_LENGTH ==> trail_push(t, p) == t.push(p).subrange(
            1,
            t.len() as int + 1,
        ),
{
}

/// Trail cap at the level of a whole tick: however many ticks run, a
/// trail that respects its cap still respects it afterwards.
pub proof fn lemma_game_trail_cap(g: GameModel, dt: int, s: u64)
    requires
        g.trail_points.len() <= TRAIL_MAX_LENGTH,
    ensures
        game_step(g, dt, s).0.trail_points.len() <= TRAIL_MAX_LENGTH,
{
}

/// Scoring exclusivity: one tick can raise at most one of the two
/// scores, never both.
pub proof fn lemma_scoring_exclusive(g: GameModel, dt: int, s: u64)
    ensures
        !(game_step(g, dt, s).0.left_score > g.left_score && game_step(g, dt, s).0.right_score
            > g.right_score),
{
}

/// Bounce amplification: a ball moving left with speed `v` that is
/// resolved against the left paddle leaves with horizontal velocity
/// `+v * PADDLE_BOUNCE_NUM / PADDLE_BOUNCE_DEN` — strictly faster than
/// it came in, for every speed the game can serve — and its horizontal
/// position snapped exactly to the paddle's right edge.  The one
/// excluded corner is a speed so large that the amplified value would
/// pass the configured ceiling `BALL_SPEED_LIMIT`, where the ceiling
/// wins instead.
pub proof fn lemma_bounce_amplification(b: BallModel)
    requires
        b.vel_x < 0,
        -b.vel_x * PADDLE_BOUNCE_NUM / (PADDLE_BOUNCE_DEN as int) <= BALL_SPEED_LIMIT,
    ensures
        bounce_left(b).vel_x == -b.vel_x * PADDLE_BOUNCE_NUM / (PADDLE_BOUNCE_DEN as int),
        bounce_left(b).vel_x > 0,
        bounce_left(b).x == PADDLE_MARGIN + PADDLE_WIDTH,
        -b.vel_x >= 20 ==> bounce_left(b).vel_x > -b.vel_x,
{
    let mag = -b.vel_x;
    let amp = mag * PADDLE_BOUNCE_NUM / (PADDLE_BOUNCE_DEN as int);
    assert(mag * PADDLE_BOUNCE_NUM == mag * 105);
    vstd::arithmetic::div_mod::lemma_div_is_ordered(100 * mag, mag * 105, 100);
    vstd::arithmetic::div_mod::lemma_div_multiples_vanish(mag, 100);
    assert(amp >= mag);
    if mag >= 20 {
        assert(100 * (mag + 1) <= mag * 105);
        vstd::arithmetic::div_mod::lemma_div_is_ordered(100 * (mag + 1), mag * 105, 100);
        vstd::arithmetic::div_mod::lemma_div_multiples_vanish(mag + 1, 100);
        assert(amp >= mag + 1);
    }
}

/// Determinism under a fixed seed: the per-tick and per-intent
/// contracts pin the executable behavior to `run_result` and
/// `run_trace`, which are functions of the starting state, the input
/// sequence and the generator seed alone — so two runs from equal
/// seeds with equal inputs produce the same trajectory of states,
/// scores and positions included.
pub proof fn lemma_fixed_seed_determinism(
    g1: GameModel,
    g2: GameModel,
    frames1: Seq<FrameInput>,
    frames2: Seq<FrameInput>,
    s1: u64,
    s2: u64,
)
    requires
        g1 == g2,
        frames1 == frames2,
        s1 == s2,
    ensures
        run_result(g1, frames1, s1) == run_result(g2, frames2, s2),
        run_trace(g1, frames1, s1) == run_trace(g2, frames2, s2),
{
}

} // verus!
