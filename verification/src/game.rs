//! The game aggregate: one ball and two paddles on a fixed field, a
//! configuration for the starting state, and the per-frame update that the
//! control loop applies.

use crate::ball::{ball_after_collision, ball_after_move, Ball, BallView};
use crate::geometry::{coord_ok, in_field, Color, Point, Rect, RectView, Velocity, COORD_LIMIT};
use crate::paddle::{paddle_after_ai, paddle_after_manual, Paddle, PaddleView};
use vstd::prelude::*;

verus! {

/// The fixed start-up configuration: field size, initial ball parameters,
/// and paddle geometry and speed.
#[derive(Clone, Copy, Debug, PartialEq, Eq, Structural)]
pub struct Config {
    pub field_width: i64,
    pub field_height: i64,
    pub ball_radius: i64,
    pub ball_velocity: Velocity,
    pub ball_color: Color,
    pub paddle_width: i64,
    pub paddle_height: i64,
    pub paddle_speed: i64,
    pub paddle_padding: i64,
}

impl Config {
    /// A configuration the library admits: positive bounded sizes and
    /// speeds, paddles no taller than the field, and both paddles fitting
    /// horizontally with their padding.
    pub open spec fn wf(self) -> bool {
        &&& 0 < self.field_width <= COORD_LIMIT
        &&& 0 < self.field_height <= COORD_LIMIT
        &&& 0 < self.ball_radius <= COORD_LIMIT
        &&& coord_ok(self.ball_velocity.dx as int)
        &&& coord_ok(self.ball_velocity.dy as int)
        &&& 0 < self.paddle_width
        &&& 0 < self.paddle_height <= self.field_height
        &&& 0 < self.paddle_speed <= COORD_LIMIT
        &&& 0 <= self.paddle_padding
        &&& 2 * self.paddle_width + self.paddle_padding <= self.field_width
    }

    /// Runtime form of `wf`, for callers outside verified code.
    pub fn is_well_formed(&self) -> (r: bool)
        ensures
            r == self.wf(),
    {
        0 < self.field_width && self.field_width <= COORD_LIMIT
            && 0 < self.field_height && self.field_height <= COORD_LIMIT
            && 0 < self.ball_radius && self.ball_radius <= COORD_LIMIT
            && -COORD_LIMIT <= self.ball_velocity.dx && self.ball_velocity.dx <= COORD_LIMIT
            && -COORD_LIMIT <= self.ball_velocity.dy && self.ball_velocity.dy <= COORD_LIMIT
            && 0 < self.paddle_width
            && 0 < self.paddle_height && self.paddle_height <= self.field_height
            && 0 < self.paddle_speed && self.paddle_speed <= COORD_LIMIT
            && 0 <= self.paddle_padding
            && self.paddle_width <= COORD_LIMIT / 2
            && self.paddle_padding <= COORD_LIMIT
            && 2 * self.paddle_width + self.paddle_padding <= self.field_width
    }
}

/// The defaults of the finished game: a 1280 x 720 field, a radius-30 green
/// ball launched at (15, 13) from the center, and 30 x 150 paddles moving 15
/// per frame, padded 30 in from the field edges.
pub open spec fn default_config() -> Config {
    Config {
        field_width: 1280,
        field_height: 720,
        ball_radius: 30,
        ball_velocity: Velocity { dx: 15, dy: 13 },
        ball_color: Color { r: 0, g: 228, b: 48, a: 255 },
        paddle_width: 30,
        paddle_height: 150,
        paddle_speed: 15,
        paddle_padding: 30,
    }
}

impl Default for Config {
    /// The default configuration; see `default_config`.
    fn default() -> (c: Config)
        ensures
            c == default_config(),
            c.wf(),
    {
        Config {
            field_width: 1280,
            field_height: 720,
            ball_radius: 30,
            ball_velocity: Velocity { dx: 15, dy: 13 },
            ball_color: Color { r: 0, g: 228, b: 48, a: 255 },
            paddle_width: 30,
            paddle_height: 150,
            paddle_speed: 15,
            paddle_padding: 30,
        }
    }
}

/// The whole mutable state of a running game.
pub struct Game {
    pub ball: Ball,
    pub player: Paddle,
    pub computer: Paddle,
    pub field_width: i64,
    pub field_height: i64,
}

/// The mathematical value of a game.
pub ghost struct GameView {
    pub ball: BallView,
    pub player: PaddleView,
    pub computer: PaddleView,
    pub field_width: int,
    pub field_height: int,
}

impl View for Game {
    type V = GameView;

    open spec fn view(&self) -> GameView {
        GameView {
            ball: self.ball@,
            player: self.player@,
            computer: self.computer@,
            field_width: self.field_width as int,
            field_height: self.field_height as int,
        }
    }
}

impl GameView {
    /// Every part well formed, a bounded field, and both paddles fully
    /// inside its vertical bounds.
    pub open spec fn wf(self) -> bool {
        &&& self.ball.wf()
        &&& self.player.wf()
        &&& self.computer.wf()
        &&& 0 < self.field_width <= COORD_LIMIT as int
        &&& 0 < self.field_height <= COORD_LIMIT as int
        &&& in_field(self.player.rect, self.field_height)
        &&& in_field(self.computer.rect, self.field_height)
    }
}

/// The starting state a configuration describes: the ball at the field
/// center, both paddles vertically centered, the player's rectangle one
/// paddle width plus the padding in from the left edge, the computer's two
/// paddle widths plus the padding in from the right edge, and both scores
/// zero.
pub open spec fn initial_game(cfg: Config) -> GameView {
    let paddle_y = cfg.field_height as int / 2 - cfg.paddle_height as int / 2;
    GameView {
        ball: BallView {
            x: cfg.field_width as int / 2,
            y: cfg.field_height as int / 2,
            dx: cfg.ball_velocity.dx as int,
            dy: cfg.ball_velocity.dy as int,
            radius: cfg.ball_radius as int,
        },
        player: PaddleView {
            rect: RectView {
                x: cfg.paddle_width as int + cfg.paddle_padding as int,
                y: paddle_y,
                width: cfg.paddle_width as int,
                height: cfg.paddle_height as int,
            },
            speed: cfg.paddle_speed as int,
            score: 0,
        },
        computer: PaddleView {
            rect: RectView {
                x: cfg.field_width as int - 2 * cfg.paddle_width as int
                    - cfg.paddle_padding as int,
                y: paddle_y,
                width: cfg.paddle_width as int,
                height: cfg.paddle_height as int,
            },
            speed: cfg.paddle_speed as int,
            score: 0,
        },
        field_width: cfg.field_width as int,
        field_height: cfg.field_height as int,
    }
}

/// What one frame leaves of the whole game, in the order the loop applies:
/// the computer paddle tracks the ball as it stood at the start of the
/// frame, the player paddle takes its manual step, the ball takes its motion
/// step, and contact is then resolved against the moved player paddle and
/// the moved computer paddle in turn.
pub open spec fn game_after_frame(g: GameView, up_held: bool, down_held: bool) -> GameView {
    let computer = paddle_after_ai(g.computer, g.ball, g.field_height);
    let player = paddle_after_manual(g.player, up_held, down_held, g.field_height);
    let moved = ball_after_move(g.ball, g.field_width, g.field_height);
    let ball = ball_after_collision(ball_after_collision(moved, player.rect), computer.rect);
    GameView { ball, player, computer, ..g }
}

impl Game {
    /// Builds the starting state a configuration describes; see
    /// `initial_game`.
    pub fn new(cfg: Config) -> (g: Game)
        requires
            cfg.wf(),
        ensures
            g@ == initial_game(cfg),
            g@.wf(),
    {
        let paddle_y = cfg.field_height / 2 - cfg.paddle_height / 2;
        proof {
            assert(cfg.paddle_height as int / 2 <= cfg.field_height as int / 2
                && cfg.field_height as int / 2 + cfg.paddle_height as int
                    - cfg.paddle_height as int / 2 <= cfg.field_height as int)
                by (nonlinear_arith)
                requires 0 < cfg.paddle_height as int <= cfg.field_height as int;
        }
        let player_rect = Rect {
            x: cfg.paddle_width + cfg.paddle_padding,
            y: paddle_y,
            width: cfg.paddle_width,
            height: cfg.paddle_height,
        };
        let computer_rect = Rect {
            x: cfg.field_width - 2 * cfg.paddle_width - cfg.paddle_padding,
            y: paddle_y,
            width: cfg.paddle_width,
            height: cfg.paddle_height,
        };
        Game {
            ball: Ball {
                position: Point { x: cfg.field_width / 2, y: cfg.field_height / 2 },
                velocity: cfg.ball_velocity,
                radius: cfg.ball_radius,
                color: cfg.ball_color,
            },
            player: Paddle { rect: player_rect, speed: cfg.paddle_speed, score: 0 },
            computer: Paddle { rect: computer_rect, speed: cfg.paddle_speed, score: 0 },
            field_width: cfg.field_width,
            field_height: cfg.field_height,
        }
    }

    /// Runtime form of the view's `wf`, for callers outside verified code.
    pub fn is_well_formed(&self) -> (r: bool)
        ensures
            r == self@.wf(),
    {
        let ball_ok = -COORD_LIMIT <= self.ball.position.x && self.ball.position.x <= COORD_LIMIT
            && -COORD_LIMIT <= self.ball.position.y && self.ball.position.y <= COORD_LIMIT
            && -COORD_LIMIT <= self.ball.velocity.dx && self.ball.velocity.dx <= COORD_LIMIT
            && -COORD_LIMIT <= self.ball.velocity.dy && self.ball.velocity.dy <= COORD_LIMIT
            && 0 < self.ball.radius && self.ball.radius <= COORD_LIMIT;
        let player_ok = Game::paddle_ok(&self.player, self.field_height);
        let computer_ok = Game::paddle_ok(&self.computer, self.field_height);
        ball_ok && player_ok && computer_ok
            && 0 < self.field_width && self.field_width <= COORD_LIMIT
            && 0 < self.field_height && self.field_height <= COORD_LIMIT
    }

    /// The paddle is well formed and fully inside the field's vertical
    /// bounds.
    fn paddle_ok(p: &Paddle, field_height: i64) -> (r: bool)
        ensures
            r == (p@.wf() && in_field(p@.rect, field_height as int)),
    {
        -COORD_LIMIT <= p.rect.x && p.rect.x <= COORD_LIMIT
            && -COORD_LIMIT <= p.rect.y && p.rect.y <= COORD_LIMIT
            && 0 < p.rect.width && p.rect.width <= COORD_LIMIT
            && 0 < p.rect.height && p.rect.height <= COORD_LIMIT
            && 0 < p.speed && p.speed <= COORD_LIMIT
            && 0 <= p.rect.y && p.rect.y + p.rect.height <= field_height
    }

    /// One frame of the game given the player's held keys; see
    /// `game_after_frame` for the exact result. Both paddles end inside the
    /// field.
    pub fn update_frame(&mut self, up_held: bool, down_held: bool)
        requires
            old(self)@.wf(),
        ensures
            final(self)@ == game_after_frame(old(self)@, up_held, down_held),
            in_field(final(self)@.player.rect, final(self)@.field_height),
            in_field(final(self)@.computer.rect, final(self)@.field_height),
    {
        self.computer.move_paddle_ai(&self.ball, self.field_height);
        self.player.move_paddle(up_held, down_held, self.field_height);
        self.ball.move_ball(self.field_width, self.field_height);
        self.ball.check_collision(&self.player.rect);
        self.ball.check_collision(&self.computer.rect);
    }
}

} // verus!
