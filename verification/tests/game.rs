use std::collections::VecDeque;

use flappy::entities::{Color, Pipe, Player};
use flappy::geometry::{Rect, Vector2};
use flappy::scheduler::{next_state, LoopState};
use flappy::sim::{check_loss, cull_front, scroll_all, spawn_obstacles, update};
use flappy::{GRAVITY, PIPE_SPEED, PLAYER_VELOCITY, WINDOW_HEIGHT};

fn player_at(x: i32, y: i32) -> Player {
    Player::new(Rect::new(x, y, 30, 30), Color::rgb(252, 242, 101))
}

fn pipe_with(x: i32, gap_top: i32) -> Pipe {
    Pipe::new(
        Rect::new(x, 0, 75, gap_top),
        Rect::new(x, gap_top + 100, 75, WINDOW_HEIGHT - 100),
    )
}

#[test]
fn vector_addition_is_componentwise() {
    let a = Vector2 { x: 35, y: 100 };
    let b = Vector2 { x: 30, y: -70 };
    let c = a.add(b);
    assert_eq!(c.x, 65);
    assert_eq!(c.y, 30);
}

#[test]
fn jump_moves_player_up_by_velocity() {
    let mut player = player_at(35, 100);
    player.apply_jump();
    assert_eq!(player.pos.y, 100 - PLAYER_VELOCITY);
    assert_eq!(player.pos.x, 35);
    assert_eq!(player.pos.w, 30);
    assert_eq!(player.pos.h, 30);
}

#[test]
fn spawn_produces_expected_pair_shapes() {
    // Window height 600, gap 100, draw n = 250: top rectangle height 250,
    // bottom rectangle starts at y = 350 with height 500.
    let mut pipes: VecDeque<Pipe> = VecDeque::new();
    spawn_obstacles(&mut pipes, 250, 180);
    assert_eq!(pipes.len(), 2);

    let near = pipes[0];
    assert_eq!(near.top_pos, Rect::new(325, 0, 75, 250));
    assert_eq!(near.bot_pos, Rect::new(325, 350, 75, 500));

    let far = pipes[1];
    assert_eq!(far.top_pos, Rect::new(650, 0, 75, 180));
    assert_eq!(far.bot_pos, Rect::new(650, 280, 75, 500));
}

#[test]
fn spawn_fires_on_frame_zero() {
    // The cadence fires at frame 0 even before any scrolling: two pairs are
    // appended, then scrolled once by this same tick.
    let mut pipes: VecDeque<Pipe> = VecDeque::new();
    let mut player = player_at(35, 100);
    update(&mut player, &mut pipes, 0);
    assert_eq!(pipes.len(), 2);
    assert_eq!(pipes[0].top_pos.x, 325 - PIPE_SPEED);
    assert_eq!(pipes[1].top_pos.x, 650 - PIPE_SPEED);
}

#[test]
fn spawn_fires_exactly_on_cadence_multiples() {
    let mut pipes: VecDeque<Pipe> = VecDeque::new();
    pipes.push_back(pipe_with(300, 250));

    let mut player = player_at(35, 100);
    update(&mut player, &mut pipes, 60);
    assert_eq!(pipes.len(), 1, "a non-multiple of the cadence must not spawn");

    update(&mut player, &mut pipes, 120);
    assert_eq!(pipes.len(), 3, "a multiple of the cadence spawns two pairs");
}

#[test]
fn spawned_gap_heights_lie_in_range() {
    // The gap-top heights are drawn at random; every draw must land in
    // [100, window_height - 100).
    for frame in [0, 120, 240, 360, 480, 600, 720, 840, 960, 1080] {
        let mut pipes: VecDeque<Pipe> = VecDeque::new();
        let mut player = player_at(35, 100);
        update(&mut player, &mut pipes, frame);
        assert_eq!(pipes.len(), 2);
        for pipe in pipes.iter() {
            let n: i32 = pipe.top_pos.h;
            assert!((100..WINDOW_HEIGHT - 100).contains(&n));
            assert_eq!(pipe.bot_pos.y, n + 100);
        }
    }
}

#[test]
fn gravity_applies_above_floor() {
    let mut pipes: VecDeque<Pipe> = VecDeque::new();
    pipes.push_back(pipe_with(300, 250));
    let mut player = player_at(35, 100);
    update(&mut player, &mut pipes, 1);
    assert_eq!(player.pos.y, 100 + GRAVITY);
}

#[test]
fn gravity_rests_at_floor() {
    // Bottom edge at the floor line (570 + 30 == 600): no further fall.
    let mut pipes: VecDeque<Pipe> = VecDeque::new();
    pipes.push_back(pipe_with(300, 250));
    let mut player = player_at(35, 570);
    update(&mut player, &mut pipes, 1);
    assert_eq!(player.pos.y, 570);
}

#[test]
fn scroll_moves_every_obstacle_left_by_speed() {
    let mut pipes: VecDeque<Pipe> = VecDeque::new();
    pipes.push_back(pipe_with(200, 250));
    pipes.push_back(pipe_with(650, 300));
    scroll_all(&mut pipes);
    assert_eq!(pipes.len(), 2);
    assert_eq!(pipes[0].top_pos.x, 200 - PIPE_SPEED);
    assert_eq!(pipes[0].bot_pos.x, 200 - PIPE_SPEED);
    assert_eq!(pipes[1].top_pos.x, 650 - PIPE_SPEED);
    assert_eq!(pipes[1].bot_pos.x, 650 - PIPE_SPEED);
    // Everything but the horizontal position is untouched.
    assert_eq!(pipes[0].top_pos.h, 250);
    assert_eq!(pipes[0].bot_pos.y, 350);
    assert_eq!(pipes[1].top_pos.h, 300);
}

#[test]
fn cull_removes_front_exactly_at_threshold() {
    let mut pipes: VecDeque<Pipe> = VecDeque::new();
    pipes.push_back(pipe_with(-75, 250));
    pipes.push_back(pipe_with(300, 250));
    cull_front(&mut pipes);
    assert_eq!(pipes.len(), 1);
    assert_eq!(pipes[0].top_pos.x, 300);
}

#[test]
fn cull_keeps_front_above_threshold() {
    let mut pipes: VecDeque<Pipe> = VecDeque::new();
    pipes.push_back(pipe_with(-74, 250));
    pipes.push_back(pipe_with(300, 250));
    cull_front(&mut pipes);
    assert_eq!(pipes.len(), 2);
    assert_eq!(pipes[0].top_pos.x, -74);
}

#[test]
fn cull_removes_at_most_one_per_tick() {
    let mut pipes: VecDeque<Pipe> = VecDeque::new();
    pipes.push_back(pipe_with(-80, 250));
    pipes.push_back(pipe_with(-90, 250));
    let mut player = player_at(35, 100);
    update(&mut player, &mut pipes, 1);
    // Both are past the threshold, but only the front one leaves this tick.
    assert_eq!(pipes.len(), 1);
    assert_eq!(pipes[0].top_pos.x, -90 - PIPE_SPEED);
}

#[test]
fn survival_inside_gap() {
    // Gap top at 250, gap 100: y strictly between 250 and 350 survives while
    // the player is horizontally inside the column.
    let mut pipes: VecDeque<Pipe> = VecDeque::new();
    pipes.push_back(pipe_with(325, 250));
    assert!(check_loss(&player_at(350, 260), &pipes));
}

#[test]
fn loss_above_gap() {
    let mut pipes: VecDeque<Pipe> = VecDeque::new();
    pipes.push_back(pipe_with(325, 250));
    assert!(!check_loss(&player_at(350, 240), &pipes));
}

#[test]
fn loss_below_gap() {
    let mut pipes: VecDeque<Pipe> = VecDeque::new();
    pipes.push_back(pipe_with(325, 250));
    assert!(!check_loss(&player_at(350, 360), &pipes));
}

#[test]
fn loss_at_gap_boundaries() {
    // The gap is open: sitting exactly on either edge is a loss.
    let mut pipes: VecDeque<Pipe> = VecDeque::new();
    pipes.push_back(pipe_with(325, 250));
    assert!(!check_loss(&player_at(350, 250), &pipes));
    assert!(!check_loss(&player_at(350, 350), &pipes));
}

#[test]
fn outside_column_always_survives() {
    let mut pipes: VecDeque<Pipe> = VecDeque::new();
    pipes.push_back(pipe_with(325, 250));
    // Column spans [325, 400]; just outside either side survives at any y.
    assert!(check_loss(&player_at(324, 0), &pipes));
    assert!(check_loss(&player_at(401, 599), &pipes));
    assert!(check_loss(&player_at(10, 250), &pipes));
}

#[test]
fn column_boundaries_are_inclusive() {
    let mut pipes: VecDeque<Pipe> = VecDeque::new();
    pipes.push_back(pipe_with(325, 250));
    assert!(!check_loss(&player_at(325, 240), &pipes));
    assert!(!check_loss(&player_at(400, 240), &pipes));
}

#[test]
fn evaluator_only_examines_front_obstacle() {
    let mut pipes: VecDeque<Pipe> = VecDeque::new();
    pipes.push_back(pipe_with(100, 250));
    // The player collides with the second obstacle's column, but only the
    // front obstacle is examined.
    pipes.push_back(pipe_with(325, 250));
    assert!(check_loss(&player_at(350, 240), &pipes));
}

#[test]
fn evaluator_is_idempotent() {
    let mut pipes: VecDeque<Pipe> = VecDeque::new();
    pipes.push_back(pipe_with(325, 250));
    let player = player_at(350, 240);
    let first = check_loss(&player, &pipes);
    let second = check_loss(&player, &pipes);
    assert_eq!(first, second);

    let survivor = player_at(350, 300);
    assert_eq!(check_loss(&survivor, &pipes), check_loss(&survivor, &pipes));
}

#[test]
fn scheduler_terminates_on_quit_or_loss() {
    assert_eq!(next_state(false, true), LoopState::Running);
    assert_eq!(next_state(true, true), LoopState::Terminated);
    assert_eq!(next_state(false, false), LoopState::Terminated);
    assert_eq!(next_state(true, false), LoopState::Terminated);
}
