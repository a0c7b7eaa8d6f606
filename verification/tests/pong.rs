use pong::ball::Ball;
use pong::game::{Config, Game};
use pong::geometry::{Color, Point, Rect, Velocity};
use pong::paddle::Paddle;

fn ball(x: i64, y: i64, dx: i64, dy: i64, radius: i64) -> Ball {
    Ball {
        position: Point { x, y },
        velocity: Velocity { dx, dy },
        radius,
        color: Color { r: 0, g: 228, b: 48, a: 255 },
    }
}

fn paddle(x: i64, y: i64, width: i64, height: i64, speed: i64) -> Paddle {
    Paddle {
        rect: Rect {
            x,
            y,
            width,
            height,
        },
        speed,
        score: 0,
    }
}

#[test]
fn move_without_wall_contact() {
    let mut b = ball(640, 360, 15, 13, 30);
    b.move_ball(1280, 720);
    assert_eq!(b.position.x, 655);
    assert_eq!(b.position.y, 373);
    assert_eq!(b.velocity.dx, 15);
    assert_eq!(b.velocity.dy, 13);
}

#[test]
fn move_reflects_off_left_wall() {
    let mut b = ball(25, 360, -15, 0, 30);
    b.move_ball(1280, 720);
    assert_eq!(b.velocity.dx, 15);
    assert_eq!(b.position.x, 40);
    assert_eq!(b.position.y, 360);
}

#[test]
fn move_reflects_off_right_wall() {
    let mut b = ball(1255, 360, 20, 0, 30);
    b.move_ball(1280, 720);
    assert_eq!(b.velocity.dx, -20);
    assert_eq!(b.position.x, 1235);
}

#[test]
fn move_reflects_off_top_and_bottom_walls() {
    let mut top = ball(640, 28, 0, -10, 30);
    top.move_ball(1280, 720);
    assert_eq!(top.velocity.dy, 10);
    assert_eq!(top.position.y, 38);

    let mut bottom = ball(640, 695, 0, 12, 30);
    bottom.move_ball(1280, 720);
    assert_eq!(bottom.velocity.dy, -12);
    assert_eq!(bottom.position.y, 683);
}

#[test]
fn move_in_a_corner_reflects_both_axes() {
    let mut b = ball(25, 25, -10, -10, 30);
    b.move_ball(1280, 720);
    assert_eq!(b.velocity.dx, 10);
    assert_eq!(b.velocity.dy, 10);
    assert_eq!(b.position.x, 35);
    assert_eq!(b.position.y, 35);
}

#[test]
fn reflection_at_exact_boundary_flips_once() {
    // x - radius is exactly 0 and the velocity points outward: one flip,
    // and the ball moves back into the field.
    let mut b = ball(30, 360, -15, 0, 30);
    b.move_ball(1280, 720);
    assert_eq!(b.velocity.dx, 15);
    assert_eq!(b.position.x, 45);
}

#[test]
fn fast_ball_tunnels_past_wall() {
    // A displacement larger than the radius can pass the wall in one step:
    // accepted, the position is not clamped.
    let mut b = ball(35, 360, -45, 0, 30);
    b.move_ball(1280, 720);
    assert_eq!(b.velocity.dx, -45);
    assert_eq!(b.position.x, -10);
}

#[test]
fn slow_ball_stays_inside_field() {
    // Displacement bounded by the radius, ball wholly inside: one step keeps
    // the center within [0, width] x [0, height].
    let mut b = ball(100, 100, -30, -30, 30);
    b.move_ball(1280, 720);
    assert!(b.position.x >= 0 && b.position.x <= 1280);
    assert!(b.position.y >= 0 && b.position.y <= 720);
}

#[test]
fn clamp_picks_bound_or_value() {
    assert_eq!(Ball::clamp(5, 10, 20), 10);
    assert_eq!(Ball::clamp(25, 10, 20), 20);
    assert_eq!(Ball::clamp(15, 10, 20), 15);
    assert_eq!(Ball::clamp(10, 10, 20), 10);
    assert_eq!(Ball::clamp(20, 10, 20), 20);
}

#[test]
fn collision_inside_paddle_resolves_on_dominant_axis() {
    // Center (100,100) clamps to itself inside the rect: distance 0, well
    // under radius 10. Offset from the rect center (100,110) is (0,-10), so
    // the y axis dominates and the ball leaves through the top edge.
    let mut b = ball(100, 100, 5, 3, 10);
    b.check_collision(&Rect {
        x: 90,
        y: 80,
        width: 20,
        height: 60,
    });
    assert_eq!(b.position.x, 100);
    assert_eq!(b.position.y, 70);
    assert_eq!(b.velocity.dx, 5);
    assert_eq!(b.velocity.dy, -3);
}

#[test]
fn collision_on_right_side_pushes_ball_out() {
    let mut b = ball(125, 110, -8, 2, 12);
    let p = Rect {
        x: 90,
        y: 80,
        width: 30,
        height: 60,
    };
    // Closest point (120,110): distance 5 < 12. Offset from center
    // (105,110) is (20,0): x dominates, ball is to the right.
    b.check_collision(&p);
    assert_eq!(b.position.x, 90 + 30 + 12);
    assert_eq!(b.velocity.dx, 8);
    assert_eq!(b.position.y, 110);
    assert_eq!(b.velocity.dy, 2);
}

#[test]
fn collision_on_left_side_pushes_ball_out() {
    let mut b = ball(85, 110, 8, 2, 12);
    let p = Rect {
        x: 90,
        y: 80,
        width: 30,
        height: 60,
    };
    b.check_collision(&p);
    assert_eq!(b.position.x, 90 - 12);
    assert_eq!(b.velocity.dx, -8);
    assert_eq!(b.position.y, 110);
}

#[test]
fn collision_on_bottom_side_pushes_ball_out() {
    let mut b = ball(105, 145, 3, -9, 12);
    let p = Rect {
        x: 90,
        y: 80,
        width: 30,
        height: 60,
    };
    // Closest point (105,140): distance 5 < 12. Offset from center
    // (105,110) is (0,35): y dominates, ball is below.
    b.check_collision(&p);
    assert_eq!(b.position.y, 80 + 60 + 12);
    assert_eq!(b.velocity.dy, 9);
    assert_eq!(b.position.x, 105);
    assert_eq!(b.velocity.dx, 3);
}

#[test]
fn no_collision_leaves_ball_untouched() {
    let mut b = ball(300, 300, 7, -4, 10);
    b.check_collision(&Rect {
        x: 90,
        y: 80,
        width: 30,
        height: 60,
    });
    assert_eq!(b.position.x, 300);
    assert_eq!(b.position.y, 300);
    assert_eq!(b.velocity.dx, 7);
    assert_eq!(b.velocity.dy, -4);
}

#[test]
fn collision_never_decreases_separation() {
    // After one resolve, the closest point is at least one radius away.
    let mut b = ball(100, 100, 5, 3, 10);
    let p = Rect {
        x: 90,
        y: 80,
        width: 20,
        height: 60,
    };
    b.check_collision(&p);
    let cx = Ball::clamp(b.position.x, p.x, p.x + p.width);
    let cy = Ball::clamp(b.position.y, p.y, p.y + p.height);
    let ddx = b.position.x - cx;
    let ddy = b.position.y - cy;
    assert!(ddx * ddx + ddy * ddy >= b.radius * b.radius);
}

#[test]
fn manual_move_down_and_up() {
    let mut p = paddle(60, 285, 30, 150, 15);
    p.move_paddle(false, true, 720);
    assert_eq!(p.rect.y, 300);
    p.move_paddle(true, false, 720);
    assert_eq!(p.rect.y, 285);
    p.move_paddle(false, false, 720);
    assert_eq!(p.rect.y, 285);
    assert_eq!(p.rect.x, 60);
}

#[test]
fn manual_move_down_wins_a_tie() {
    let mut p = paddle(60, 285, 30, 150, 15);
    p.move_paddle(true, true, 720);
    assert_eq!(p.rect.y, 300);
}

#[test]
fn manual_move_clamps_at_bottom_edge() {
    let mut p = paddle(60, 560, 30, 150, 15);
    p.move_paddle(false, true, 720);
    assert_eq!(p.rect.y, 570);
    p.move_paddle(false, true, 720);
    assert_eq!(p.rect.y, 570);
}

#[test]
fn manual_move_clamps_at_top_edge() {
    let mut p = paddle(60, 10, 30, 150, 15);
    p.move_paddle(true, false, 720);
    assert_eq!(p.rect.y, 0);
    p.move_paddle(true, false, 720);
    assert_eq!(p.rect.y, 0);
}

#[test]
fn manual_move_never_leaves_field() {
    let mut p = paddle(60, 285, 30, 150, 40);
    for i in 0..100 {
        let down = i % 3 == 0;
        let up = i % 2 == 0;
        p.move_paddle(up, down, 720);
        assert!(p.rect.y >= 0);
        assert!(p.rect.y + p.rect.height <= 720);
    }
}

#[test]
fn ai_holds_still_while_ball_moves_away() {
    let mut p = paddle(1190, 285, 30, 150, 15);
    let b = ball(640, 50, -15, 13, 30);
    p.move_paddle_ai(&b, 720);
    assert_eq!(p.rect.y, 285);
}

#[test]
fn ai_tracks_ball_up_and_down() {
    let mut p = paddle(1190, 285, 30, 150, 15);
    let below = ball(640, 500, 15, 13, 30);
    p.move_paddle_ai(&below, 720);
    assert_eq!(p.rect.y, 300);

    let above = ball(640, 50, 15, 13, 30);
    p.move_paddle_ai(&above, 720);
    assert_eq!(p.rect.y, 285);

    let level = ball(640, 285, 15, 13, 30);
    p.move_paddle_ai(&level, 720);
    assert_eq!(p.rect.y, 285);
}

#[test]
fn ai_never_leaves_field() {
    let mut p = paddle(1190, 0, 30, 150, 600);
    let low = ball(640, 719, 15, 0, 30);
    p.move_paddle_ai(&low, 720);
    assert_eq!(p.rect.y, 570);
    let high = ball(640, 0, 15, 0, 30);
    p.move_paddle_ai(&high, 720);
    assert_eq!(p.rect.y, 0);
}

#[test]
fn default_config_matches_finished_game() {
    let cfg = Config::default();
    assert_eq!(cfg.field_width, 1280);
    assert_eq!(cfg.field_height, 720);
    assert_eq!(cfg.ball_radius, 30);
    assert_eq!(cfg.ball_velocity.dx, 15);
    assert_eq!(cfg.ball_velocity.dy, 13);
    assert_eq!(cfg.paddle_width, 30);
    assert_eq!(cfg.paddle_height, 150);
    assert_eq!(cfg.paddle_speed, 15);
    assert_eq!(cfg.paddle_padding, 30);
    assert!(cfg.is_well_formed());
}

#[test]
fn ill_formed_config_is_rejected() {
    let mut cfg = Config::default();
    cfg.paddle_height = 1000;
    assert!(!cfg.is_well_formed());
    let mut wide = Config::default();
    wide.paddle_width = 700;
    assert!(!wide.is_well_formed());
}

#[test]
fn new_game_has_documented_layout() {
    let g = Game::new(Config::default());
    assert_eq!(g.ball.position.x, 640);
    assert_eq!(g.ball.position.y, 360);
    assert_eq!(g.ball.radius, 30);
    assert_eq!(g.player.rect.x, 60);
    assert_eq!(g.player.rect.y, 285);
    assert_eq!(g.player.rect.width, 30);
    assert_eq!(g.player.rect.height, 150);
    assert_eq!(g.computer.rect.x, 1190);
    assert_eq!(g.computer.rect.y, 285);
    assert_eq!(g.player.score, 0);
    assert_eq!(g.computer.score, 0);
    assert!(g.is_well_formed());
}

#[test]
fn one_frame_composes_the_steps() {
    let mut g = Game::new(Config::default());
    g.update_frame(false, true);
    // The computer tracks the ball (360 > 285) and moves down; the player
    // holds the down key; the ball advances without wall or paddle contact.
    assert_eq!(g.computer.rect.y, 300);
    assert_eq!(g.player.rect.y, 300);
    assert_eq!(g.ball.position.x, 655);
    assert_eq!(g.ball.position.y, 373);
    assert_eq!(g.ball.velocity.dx, 15);
    assert_eq!(g.ball.velocity.dy, 13);
    assert!(g.is_well_formed());
}

#[test]
fn frame_resolves_paddle_contact() {
    let mut g = Game::new(Config::default());
    // Put the ball just left of the computer paddle, moving right: after the
    // motion step it overlaps the paddle and is pushed back out through its
    // left edge with the x velocity forced toward the field center.
    g.ball.position = Point { x: 1150, y: 360 };
    g.ball.velocity = Velocity { dx: 20, dy: 0 };
    g.update_frame(false, false);
    // The computer paddle first tracked down to y 300, so the moved ball at
    // (1170,360) overlaps it x-dominantly and leaves at its left edge.
    assert_eq!(g.computer.rect.y, 300);
    assert_eq!(g.ball.position.x, 1190 - 30);
    assert_eq!(g.ball.position.y, 360);
    assert_eq!(g.ball.velocity.dx, -20);
    assert_eq!(g.ball.velocity.dy, 0);
}

#[test]
fn long_run_keeps_paddles_inside_field() {
    let mut g = Game::new(Config::default());
    for i in 0..1000 {
        assert!(g.is_well_formed());
        g.update_frame(i % 5 == 0, i % 7 == 0);
        assert!(g.player.rect.y >= 0 && g.player.rect.y + g.player.rect.height <= 720);
        assert!(g.computer.rect.y >= 0 && g.computer.rect.y + g.computer.rect.height <= 720);
    }
}
