use pong_core::ball::Ball;
use pong_core::config::{
    BALL_BASE_SPEED, BALL_HALF, BALL_SIZE, PADDLE_HEIGHT, PADDLE_SPEED, PARTICLES_PER_BURST,
    SCREEN_CENTER_X, SCREEN_CENTER_Y, SCREEN_HEIGHT, TRAIL_MAX_LENGTH,
};
use pong_core::game::{GameState, Intent};
use pong_core::paddle::Paddle;
use pong_core::particle::{Particle, Rgb};
use pong_core::rng::GameRng;

#[test]
fn ball_bounces_off_bottom_wall() {
    let mut b = Ball::new(500_000, 740_000);
    b.update(100);
    assert_eq!(b.x, 530_000);
    assert_eq!(b.y, SCREEN_HEIGHT - BALL_SIZE);
    assert_eq!(b.vel_x, 300);
    assert_eq!(b.vel_y, -200);
}

#[test]
fn ball_bounces_off_top_wall() {
    let mut b = Ball::new(500_000, 5_000);
    b.vel_y = -200;
    b.update(100);
    assert_eq!(b.y, 0);
    assert_eq!(b.vel_y, 200);
}

#[test]
fn ball_stays_in_vertical_range() {
    let mut b = Ball::new(SCREEN_CENTER_X, SCREEN_CENTER_Y);
    for _ in 0..500 {
        b.update(16);
        assert!(0 <= b.y && b.y <= SCREEN_HEIGHT - BALL_SIZE);
    }
}

#[test]
fn paddle_clamps_at_top() {
    let mut p = Paddle::new(0);
    p.vel_y = -PADDLE_SPEED;
    p.update(16);
    assert_eq!(p.y, 0);
}

#[test]
fn paddle_clamps_at_bottom() {
    let mut p = Paddle::new(SCREEN_HEIGHT - PADDLE_HEIGHT);
    p.vel_y = PADDLE_SPEED;
    p.update(16);
    assert_eq!(p.y, SCREEN_HEIGHT - PADDLE_HEIGHT);
}

#[test]
fn paddle_moves_freely_inside_field() {
    let mut p = Paddle::new(334_000);
    p.vel_y = PADDLE_SPEED;
    p.update(16);
    assert_eq!(p.y, 340_400);
    assert!(0 <= p.y && p.y <= SCREEN_HEIGHT - PADDLE_HEIGHT);
}

fn test_particle(max_lifetime: i64) -> Particle {
    Particle {
        x: 0,
        y: 0,
        vel_x: 100,
        vel_y: -50,
        lifetime: 0,
        max_lifetime,
        color: Rgb { r: 200, g: 150, b: 120 },
    }
}

#[test]
fn particle_lives_until_its_lifetime_and_no_longer() {
    let mut p = test_particle(1000);
    assert!(p.update(250));
    assert!(p.update(250));
    assert!(p.update(250));
    assert_eq!(p.lifetime, 750);
    // The first tick at which elapsed >= max_lifetime reports dead.
    assert!(!p.update(250));
    assert_eq!(p.lifetime, 1000);
}

#[test]
fn particle_drifts_with_its_velocity() {
    let mut p = test_particle(1000);
    p.update(250);
    assert_eq!(p.x, 25_000);
    assert_eq!(p.y, -12_500);
}

#[test]
fn game_prunes_dead_particles() {
    let mut gs = GameState::new();
    let mut rng = GameRng::new(1);
    gs.particles.push(test_particle(300));
    gs.update(250, &mut rng);
    assert_eq!(gs.particles.len(), 1);
    assert_eq!(gs.particles[0].lifetime, 250);
    gs.update(250, &mut rng);
    assert_eq!(gs.particles.len(), 0);
}

#[test]
fn particle_alpha_fades_linearly() {
    let mut p = test_particle(1000);
    assert_eq!(p.alpha(), 255);
    p.update(250);
    p.update(250);
    assert_eq!(p.alpha(), 127);
    p.update(250);
    p.update(250);
    assert_eq!(p.alpha(), 0);
}

#[test]
fn trail_is_capped_and_chronological() {
    let mut gs = GameState::new();
    let mut rng = GameRng::new(2);
    for k in 0..60u32 {
        gs.update(16, &mut rng);
        let expected_len = std::cmp::min(k as usize + 1, TRAIL_MAX_LENGTH);
        assert_eq!(gs.trail_points.len(), expected_len);
    }
    assert_eq!(gs.trail_points.len(), TRAIL_MAX_LENGTH);
    // The newest point is the current ball center, the oldest is from
    // eleven ticks in, and the recorded centers are in chronological
    // order (the ball moves right, so x increases).
    assert_eq!(gs.trail_points[49].x, gs.ball.x + BALL_HALF);
    assert_eq!(gs.trail_points[0].x, 522_000 + 4_800 * 11);
    for i in 0..49 {
        assert!(gs.trail_points[i].x < gs.trail_points[i + 1].x);
    }
}

#[test]
fn trail_is_not_recorded_when_disabled() {
    let mut gs = GameState::new();
    let mut rng = GameRng::new(3);
    gs.show_trail = false;
    gs.update(16, &mut rng);
    assert!(gs.trail_points.is_empty());
}

#[test]
fn crossing_left_boundary_scores_right_and_resets() {
    let mut gs = GameState::new();
    let mut rng = GameRng::new(4);
    gs.ball.x = -1_000;
    gs.ball.vel_x = -BALL_BASE_SPEED;
    gs.update(16, &mut rng);
    assert_eq!(gs.right_score, 1);
    assert_eq!(gs.left_score, 0);
    assert_eq!(gs.ball.x, SCREEN_CENTER_X);
    assert_eq!(gs.ball.y, SCREEN_CENTER_Y);
    assert!(gs.ball.vel_x == BALL_BASE_SPEED || gs.ball.vel_x == -BALL_BASE_SPEED);
    assert!(-200 <= gs.ball.vel_y && gs.ball.vel_y < 200);
    assert!(gs.trail_points.is_empty());
}

#[test]
fn crossing_right_boundary_scores_left() {
    let mut gs = GameState::new();
    let mut rng = GameRng::new(5);
    gs.ball.x = SCREEN_CENTER_X * 2;
    gs.update(16, &mut rng);
    assert_eq!(gs.left_score, 1);
    assert_eq!(gs.right_score, 0);
    assert_eq!(gs.ball.x, SCREEN_CENTER_X);
    assert!(gs.trail_points.is_empty());
}

#[test]
fn left_paddle_hit_amplifies_and_snaps() {
    let mut gs = GameState::new();
    let mut rng = GameRng::new(6);
    gs.ball.x = 30_000;
    gs.ball.y = 360_000;
    gs.ball.vel_x = -BALL_BASE_SPEED;
    gs.update(0, &mut rng);
    // Incoming speed 300 leaves as +300 * 105 / 100 = +315, with the
    // ball flush against the paddle's right edge (20 + 15 pixels).
    assert_eq!(gs.ball.vel_x, 315);
    assert_eq!(gs.ball.x, 35_000);
    assert_eq!(gs.particles.len(), PARTICLES_PER_BURST);
    assert_eq!(gs.left_score, 0);
    assert_eq!(gs.right_score, 0);
}

#[test]
fn right_paddle_hit_amplifies_and_snaps() {
    let mut gs = GameState::new();
    let mut rng = GameRng::new(7);
    gs.ball.x = 985_000;
    gs.ball.y = 360_000;
    gs.ball.vel_x = 315;
    gs.update(0, &mut rng);
    assert_eq!(gs.ball.vel_x, -330);
    assert_eq!(gs.ball.x, 969_000);
    assert_eq!(gs.particles.len(), PARTICLES_PER_BURST);
}

#[test]
fn paddle_is_ignored_when_ball_moves_away() {
    let mut gs = GameState::new();
    let mut rng = GameRng::new(8);
    gs.ball.x = 30_000;
    gs.ball.y = 360_000;
    // Overlapping the left paddle but moving right: no bounce, so an
    // overlapping ball cannot stick.
    gs.update(0, &mut rng);
    assert_eq!(gs.ball.vel_x, BALL_BASE_SPEED);
    assert_eq!(gs.ball.x, 30_000);
    assert!(gs.particles.is_empty());
}

#[test]
fn new_game_starts_centered_and_clean() {
    let gs = GameState::new();
    assert_eq!(gs.ball.x, SCREEN_CENTER_X);
    assert_eq!(gs.ball.y, SCREEN_CENTER_Y);
    assert_eq!(gs.ball.vel_x, 300);
    assert_eq!(gs.ball.vel_y, 200);
    assert_eq!(gs.left_paddle.y, 334_000);
    assert_eq!(gs.right_paddle.y, 334_000);
    assert_eq!(gs.left_score, 0);
    assert_eq!(gs.right_score, 0);
    assert!(gs.particles.is_empty());
    assert!(gs.show_trail);
    assert!(gs.trail_points.is_empty());
}

#[test]
fn intents_drive_paddles_and_toggles() {
    let mut gs = GameState::new();
    let mut rng = GameRng::new(9);
    gs.apply_intent(Intent::LeftPaddleUp, &mut rng);
    assert_eq!(gs.left_paddle.vel_y, -PADDLE_SPEED);
    gs.apply_intent(Intent::LeftPaddleDown, &mut rng);
    assert_eq!(gs.left_paddle.vel_y, PADDLE_SPEED);
    gs.apply_intent(Intent::LeftPaddleStop, &mut rng);
    assert_eq!(gs.left_paddle.vel_y, 0);
    gs.apply_intent(Intent::RightPaddleUp, &mut rng);
    assert_eq!(gs.right_paddle.vel_y, -PADDLE_SPEED);
    gs.apply_intent(Intent::RightPaddleStop, &mut rng);
    assert_eq!(gs.right_paddle.vel_y, 0);
    gs.apply_intent(Intent::ToggleTrail, &mut rng);
    assert!(!gs.show_trail);
    gs.apply_intent(Intent::ToggleTrail, &mut rng);
    assert!(gs.show_trail);
}

#[test]
fn spawn_burst_intent_adds_particles_at_ball_center() {
    let mut gs = GameState::new();
    let mut rng = GameRng::new(10);
    gs.apply_intent(Intent::SpawnBurst, &mut rng);
    assert_eq!(gs.particles.len(), PARTICLES_PER_BURST);
    for p in &gs.particles {
        assert_eq!(p.x, gs.ball.x + BALL_HALF);
        assert_eq!(p.y, gs.ball.y + BALL_HALF);
        assert_eq!(p.lifetime, 0);
        assert!(500 <= p.max_lifetime && p.max_lifetime < 2000);
        assert!(50 <= p.vel_x.abs() && p.vel_x.abs() < 200);
        assert!(50 <= p.vel_y.abs() && p.vel_y.abs() < 200);
        assert!(100 <= p.color.r && p.color.r < 255);
        assert!(100 <= p.color.g && p.color.g < 255);
        assert!(100 <= p.color.b && p.color.b < 255);
    }
}

#[test]
fn reset_game_intent_replaces_the_whole_state() {
    let mut gs = GameState::new();
    let mut rng = GameRng::new(11);
    gs.ball.x = -1_000;
    gs.ball.vel_x = -BALL_BASE_SPEED;
    gs.update(16, &mut rng);
    assert_eq!(gs.right_score, 1);
    gs.apply_intent(Intent::SpawnBurst, &mut rng);
    gs.apply_intent(Intent::ResetGame, &mut rng);
    assert_eq!(gs, GameState::new());
}

#[test]
fn quit_intent_changes_nothing() {
    let mut gs = GameState::new();
    let mut rng = GameRng::new(12);
    gs.apply_intent(Intent::Quit, &mut rng);
    assert_eq!(gs, GameState::new());
    assert_eq!(rng.state, GameRng::new(12).state);
}

#[test]
fn scores_never_decrease_within_a_session() {
    let mut gs = GameState::new();
    let mut rng = GameRng::new(13);
    let mut last_left = 0u64;
    let mut last_right = 0u64;
    for _ in 0..2000 {
        gs.update(50, &mut rng);
        assert!(gs.left_score >= last_left);
        assert!(gs.right_score >= last_right);
        last_left = gs.left_score;
        last_right = gs.right_score;
    }
}

#[test]
fn fixed_seed_runs_are_identical() {
    let script: Vec<(Vec<Intent>, i64)> = vec![
        (vec![Intent::LeftPaddleDown, Intent::RightPaddleUp], 16),
        (vec![Intent::SpawnBurst], 20),
        (vec![], 250),
        (vec![Intent::ToggleTrail], 16),
        (vec![Intent::LeftPaddleStop, Intent::SpawnBurst], 33),
        (vec![Intent::ToggleTrail], 16),
    ];
    let mut gs1 = GameState::new();
    let mut gs2 = GameState::new();
    let mut rng1 = GameRng::new(12_345);
    let mut rng2 = GameRng::new(12_345);
    for round in 0..40 {
        let (intents, dt) = &script[round % script.len()];
        gs1.frame(intents, *dt, &mut rng1);
        gs2.frame(intents, *dt, &mut rng2);
        assert_eq!(gs1.ball, gs2.ball);
        assert_eq!(gs1.left_score, gs2.left_score);
        assert_eq!(gs1.right_score, gs2.right_score);
        assert_eq!(gs1, gs2);
        assert_eq!(rng1.state, rng2.state);
    }
}

#[test]
fn frame_applies_intents_then_advances() {
    let mut gs = GameState::new();
    let mut rng = GameRng::new(14);
    let intents = vec![Intent::LeftPaddleDown];
    gs.frame(&intents, 16, &mut rng);
    assert_eq!(gs.left_paddle.vel_y, PADDLE_SPEED);
    assert_eq!(gs.left_paddle.y, 340_400);
    assert_eq!(gs.ball.x, SCREEN_CENTER_X + 4_800);
}

#[test]
fn oversized_time_step_is_clamped() {
    let mut gs = GameState::new();
    let mut rng = GameRng::new(15);
    // A stall of ten seconds advances the ball by at most DT_MAX
    // milliseconds, so it cannot tunnel through a wall or paddle.
    gs.update(10_000, &mut rng);
    assert_eq!(gs.ball.x, SCREEN_CENTER_X + 300 * 250);
    assert_eq!(gs.ball.y, SCREEN_CENTER_Y + 200 * 250);
}

#[test]
fn ball_landing_exactly_on_a_wall_still_bounces() {
    let mut b = Ball::new(0, 3_200);
    b.vel_y = -200;
    b.update(16);
    assert_eq!(b.y, 0);
    assert_eq!(b.vel_y, 200);
}

#[test]
fn ball_exactly_on_the_left_boundary_scores() {
    let mut gs = GameState::new();
    let mut rng = GameRng::new(16);
    gs.ball.x = 4_800;
    gs.ball.vel_x = -BALL_BASE_SPEED;
    gs.update(16, &mut rng);
    assert_eq!(gs.right_score, 1);
    assert_eq!(gs.ball.x, SCREEN_CENTER_X);
}

#[test]
fn negative_time_step_changes_nothing_kinematic() {
    let mut gs = GameState::new();
    let mut rng = GameRng::new(17);
    let before_ball = gs.ball;
    gs.update(-5, &mut rng);
    assert_eq!(gs.ball, before_ball);
    assert_eq!(gs.left_score, 0);
    assert_eq!(gs.right_score, 0);
}

#[test]
fn ball_reset_is_seed_deterministic() {
    let mut b1 = Ball::new(0, 0);
    let mut b2 = Ball::new(0, 0);
    let mut r1 = GameRng::new(99);
    let mut r2 = GameRng::new(99);
    b1.reset(&mut r1);
    b2.reset(&mut r2);
    assert_eq!(b1, b2);
    assert_eq!(b1.x, SCREEN_CENTER_X);
    assert_eq!(b1.y, SCREEN_CENTER_Y);
    assert!(b1.vel_x == 300 || b1.vel_x == -300);
    assert!(-200 <= b1.vel_y && b1.vel_y < 200);
}
