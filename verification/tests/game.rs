use block_breaker::breaker::{Command, Game};
use block_breaker::phys::{Color, Square, Vec2d};

#[test]
fn new_game_places_ball_and_paddle() {
    let game = Game::new((20, 20));
    assert_eq!(game.screen_size.w, 19);
    assert_eq!(game.screen_size.h, 19);
    assert_eq!(game.ball.collider, Square { x: 9, y: 11, w: 1, h: 1 });
    assert_eq!(game.ball.speed, Vec2d { x: 1, y: 1 });
    assert!(game.ball.alive);
    assert_eq!(game.paddle.collider, Square { x: 6, y: 16, w: 6, h: 1 });
    assert_eq!(game.paddle.speed, Vec2d { x: 0, y: 0 });
}

#[test]
fn new_game_generates_staggered_blocks() {
    let game = Game::new((20, 20));
    // Rows 2, 5 and 8 (below half of 19); even rows at columns 0, 5, 10,
    // the odd row offset by half a block width: columns 2, 7, 12.
    let expected_pos: [(u16, u16); 9] = [
        (0, 2),
        (5, 2),
        (10, 2),
        (2, 5),
        (7, 5),
        (12, 5),
        (0, 8),
        (5, 8),
        (10, 8),
    ];
    let expected_colors = [
        Color::Magenta,
        Color::Grey,
        Color::Magenta,
        Color::Yellow,
        Color::Green,
        Color::Yellow,
        Color::Magenta,
        Color::Grey,
        Color::Magenta,
    ];
    assert_eq!(game.blocks.len(), 9);
    for (i, block) in game.blocks.iter().enumerate() {
        let (x, y) = expected_pos[i];
        assert_eq!(block.collider, Square { x, y, w: 4, h: 2 });
        assert_eq!(block.color, expected_colors[i]);
        assert!(block.alive);
    }
}

#[test]
fn quit_returns_false_and_changes_nothing() {
    let mut game = Game::new((20, 20));
    let ball_before = game.ball;
    let paddle_before = game.paddle;
    let blocks_before = game.blocks.clone();
    let size_before = game.screen_size;
    let r = game.update(Some(Command::Quit));
    assert!(!r);
    assert_eq!(game.ball, ball_before);
    assert_eq!(game.paddle, paddle_before);
    assert_eq!(game.blocks, blocks_before);
    assert_eq!(game.screen_size, size_before);
}

#[test]
fn paddle_follows_input_and_stops_without_it() {
    let mut game = Game::new((20, 20));
    assert!(game.update(Some(Command::MoveLeft)));
    assert_eq!(game.paddle.speed.x, -1);
    assert_eq!(game.paddle.collider.x, 5);
    assert!(game.update(Some(Command::MoveRight)));
    assert_eq!(game.paddle.speed.x, 1);
    assert_eq!(game.paddle.collider.x, 6);
    assert!(game.update(None));
    assert_eq!(game.paddle.speed.x, 0);
    assert_eq!(game.paddle.collider.x, 6);
}

#[test]
fn wall_bounce_inverts_velocity_x() {
    let mut game = Game::new((20, 20));
    // A ball on the left edge moving left: the move saturates at 0, the
    // bounce flips the horizontal velocity to +1.
    game.ball.collider = Square { x: 0, y: 12, w: 1, h: 1 };
    game.ball.speed = Vec2d { x: -1, y: 1 };
    assert!(game.update(None));
    assert_eq!(game.ball.collider, Square { x: 0, y: 13, w: 1, h: 1 });
    assert_eq!(game.ball.speed, Vec2d { x: 1, y: 1 });
}

#[test]
fn wall_bounce_after_overshoot_clamp() {
    let mut game = Game::new((20, 20));
    // Moving right from x = 18 would overshoot; the clamp puts the right
    // edge exactly on the bound, which triggers the bounce the same tick.
    game.ball.collider = Square { x: 18, y: 12, w: 1, h: 1 };
    game.ball.speed = Vec2d { x: 1, y: 1 };
    assert!(game.update(None));
    assert_eq!(game.ball.collider, Square { x: 18, y: 13, w: 1, h: 1 });
    assert_eq!(game.ball.speed, Vec2d { x: -1, y: 1 });
}

#[test]
fn paddle_hit_left_half_steers_right() {
    let mut game = Game::new((20, 20));
    // Ball lands on the paddle (row 16) at x = 7, left of the midpoint 9:
    // vertical velocity inverts, horizontal velocity is set to +1.
    game.ball.collider = Square { x: 6, y: 15, w: 1, h: 1 };
    game.ball.speed = Vec2d { x: 1, y: 1 };
    assert!(game.update(None));
    assert_eq!(game.ball.collider, Square { x: 7, y: 16, w: 1, h: 1 });
    assert_eq!(game.ball.speed, Vec2d { x: 1, y: -1 });
}

#[test]
fn paddle_hit_right_half_steers_left() {
    let mut game = Game::new((20, 20));
    // Ball lands on the paddle at x = 11, right of the midpoint 9:
    // vertical velocity inverts, horizontal velocity is set to -1.
    game.ball.collider = Square { x: 10, y: 15, w: 1, h: 1 };
    game.ball.speed = Vec2d { x: 1, y: 1 };
    assert!(game.update(None));
    assert_eq!(game.ball.collider, Square { x: 11, y: 16, w: 1, h: 1 });
    assert_eq!(game.ball.speed, Vec2d { x: -1, y: -1 });
}

#[test]
fn block_hit_is_destroyed_once() {
    let mut game = Game::new((20, 20));
    // Ball moves to (2, 3), inside the first block (0, 2, 4, 2); the ball
    // strikes the block's LEFT side, so the horizontal velocity flips.
    game.ball.collider = Square { x: 1, y: 4, w: 1, h: 1 };
    game.ball.speed = Vec2d { x: 1, y: -1 };
    assert!(game.update(None));
    assert!(!game.blocks[0].alive);
    assert_eq!(game.ball.speed, Vec2d { x: -1, y: -1 });
    for block in game.blocks.iter().skip(1) {
        assert!(block.alive);
    }
    // The same pass again: the dead block is ignored, nothing changes.
    game.ball.collider = Square { x: 1, y: 4, w: 1, h: 1 };
    game.ball.speed = Vec2d { x: 1, y: -1 };
    assert!(game.update(None));
    assert!(!game.blocks[0].alive);
    assert_eq!(game.ball.collider, Square { x: 2, y: 3, w: 1, h: 1 });
    assert_eq!(game.ball.speed, Vec2d { x: 1, y: -1 });
}

#[test]
fn dead_blocks_are_not_drawn() {
    let mut game = Game::new((20, 20));
    let all = game.draw();
    // 9 blocks, the paddle and the ball.
    assert_eq!(all.len(), 11);
    assert_eq!(all[9], (game.paddle.collider, Color::Cyan));
    assert_eq!(all[10], (game.ball.collider, Color::Red));
    // Destroy the first block, then draw again.
    game.ball.collider = Square { x: 1, y: 4, w: 1, h: 1 };
    game.ball.speed = Vec2d { x: 1, y: -1 };
    assert!(game.update(None));
    let after = game.draw();
    assert_eq!(after.len(), 10);
    for op in after.iter() {
        assert_ne!(op.0, Square { x: 0, y: 2, w: 4, h: 2 });
    }
}

#[test]
fn scenario_twenty_by_twenty() {
    let mut game = Game::new((20, 20));
    assert_eq!(game.ball.collider, Square { x: 9, y: 11, w: 1, h: 1 });
    assert_eq!(game.ball.speed, Vec2d { x: 1, y: 1 });
    let expected: [(u16, u16, i16, i16); 16] = [
        (10, 12, 1, 1),
        (11, 13, 1, 1),
        (12, 14, 1, 1),
        (13, 15, 1, 1),
        (14, 16, 1, 1),
        (15, 17, 1, 1),
        // Bottom edge reached: vertical velocity inverts.
        (16, 18, 1, -1),
        (17, 17, 1, -1),
        // Right edge reached: horizontal velocity inverts.
        (18, 16, -1, -1),
        (17, 15, -1, -1),
        (16, 14, -1, -1),
        (15, 13, -1, -1),
        (14, 12, -1, -1),
        (13, 11, -1, -1),
        (12, 10, -1, -1),
        // Hits the block at (10, 8): destroyed; the ball strikes its DOWN
        // side, so the vertical velocity inverts.
        (11, 9, -1, 1),
    ];
    for (tick, &(x, y, vx, vy)) in expected.iter().enumerate() {
        assert!(game.update(None));
        // The paddle never moves without input.
        assert_eq!(game.paddle.collider, Square { x: 6, y: 16, w: 6, h: 1 });
        assert_eq!(game.paddle.speed, Vec2d { x: 0, y: 0 });
        assert_eq!(game.ball.collider, Square { x, y, w: 1, h: 1 }, "tick {}", tick + 1);
        assert_eq!(game.ball.speed, Vec2d { x: vx, y: vy }, "tick {}", tick + 1);
    }
    // All blocks but the struck one are still alive.
    for (i, block) in game.blocks.iter().enumerate() {
        assert_eq!(block.alive, i != 8);
    }
}

#[test]
fn minimal_playfield_runs_without_blocks() {
    // The smallest allowed terminal: playfield 6x5, too short for any block
    // row, paddle as wide as the field.
    let mut game = Game::new((7, 6));
    assert_eq!(game.screen_size.w, 6);
    assert_eq!(game.screen_size.h, 5);
    assert!(game.blocks.is_empty());
    assert_eq!(game.paddle.collider, Square { x: 0, y: 2, w: 6, h: 1 });
    assert_eq!(game.ball.collider, Square { x: 3, y: 4, w: 1, h: 1 });
    for _ in 0..20 {
        assert!(game.update(Some(Command::MoveRight)));
        assert!(game.ball.collider.x + game.ball.collider.w <= 6);
        assert!(game.ball.collider.y + game.ball.collider.h <= 5);
        assert!(game.paddle.collider.x + game.paddle.collider.w <= 6);
        assert!(game.ball.speed.x == 1 || game.ball.speed.x == -1);
        assert!(game.ball.speed.y == 1 || game.ball.speed.y == -1);
    }
}
