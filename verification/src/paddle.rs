//! The paddles: manual movement from held keys, autonomous tracking of the
//! ball, and the clamping that keeps a paddle inside the field.

use crate::ball::{Ball, BallView};
use crate::geometry::{coord_ok, in_field, Rect, RectView, COORD_LIMIT};
use vstd::prelude::*;

verus! {

/// A paddle: a rectangle, a per-frame speed, and a score counter. The
/// counter is part of the state of the game; no operation of this library
/// changes it.
#[derive(Clone, Copy, Debug, PartialEq, Eq, Structural)]
pub struct Paddle {
    pub rect: Rect,
    pub speed: i64,
    pub score: u64,
}

/// The mathematical value of a paddle.
pub ghost struct PaddleView {
    pub rect: RectView,
    pub speed: int,
    pub score: int,
}

impl View for Paddle {
    type V = PaddleView;

    open spec fn view(&self) -> PaddleView {
        PaddleView { rect: self.rect@, speed: self.speed as int, score: self.score as int }
    }
}

impl PaddleView {
    /// A paddle with a well-formed rectangle and a positive speed.
    pub open spec fn wf(self) -> bool {
        &&& self.rect.wf()
        &&& 0 < self.speed
        &&& coord_ok(self.speed)
    }
}

/// The vertical position a manual movement step leaves: down moves first and
/// wins a tie when both keys are held; each direction clamps only against
/// the edge it can cross.
pub open spec fn manual_y(p: PaddleView, up_held: bool, down_held: bool, field_height: int) -> int {
    if down_held {
        let moved = p.rect.y + p.speed;
        if moved + p.rect.height > field_height {
            field_height - p.rect.height
        } else {
            moved
        }
    } else if up_held {
        let moved = p.rect.y - p.speed;
        if moved < 0 {
            0
        } else {
            moved
        }
    } else {
        p.rect.y
    }
}

/// What one manual movement call leaves of a paddle.
pub open spec fn paddle_after_manual(
    p: PaddleView,
    up_held: bool,
    down_held: bool,
    field_height: int,
) -> PaddleView {
    PaddleView {
        rect: RectView { y: manual_y(p, up_held, down_held, field_height), ..p.rect },
        ..p
    }
}

/// Pushing a vertical position back into the field: first off the bottom
/// edge, then off the top edge.
pub open spec fn clamp_into_field(y: int, height: int, field_height: int) -> int {
    let off_bottom = if y + height > field_height {
        field_height - height
    } else {
        y
    };
    if off_bottom < 0 {
        0
    } else {
        off_bottom
    }
}

/// The vertical position the tracking step aims for: one speed toward the
/// ball center's y, measured against the paddle's top edge — the tracker is
/// deliberately imperfect.
pub open spec fn ai_target_y(p: PaddleView, ball: BallView) -> int {
    if ball.y < p.rect.y {
        p.rect.y - p.speed
    } else if ball.y > p.rect.y {
        p.rect.y + p.speed
    } else {
        p.rect.y
    }
}

/// What one tracking call leaves of a paddle: unchanged while the ball moves
/// away from the right side of the field, otherwise one clamped step toward
/// the ball.
pub open spec fn paddle_after_ai(p: PaddleView, ball: BallView, field_height: int) -> PaddleView {
    if ball.dx < 0 {
        p
    } else {
        PaddleView {
            rect: RectView {
                y: clamp_into_field(ai_target_y(p, ball), p.rect.height, field_height),
                ..p.rect
            },
            ..p
        }
    }
}

impl Paddle {
    /// Player-controlled movement. Down takes precedence when both keys are
    /// held; the moved rectangle is pushed back inside the field when the
    /// step would carry it past the edge it moved toward. The horizontal
    /// position never changes.
    pub fn move_paddle(&mut self, up_held: bool, down_held: bool, field_height: i64)
        requires
            old(self)@.wf(),
            0 < field_height <= COORD_LIMIT,
            in_field(old(self)@.rect, field_height as int),
        ensures
            final(self)@ == paddle_after_manual(
                old(self)@,
                up_held,
                down_held,
                field_height as int,
            ),
            in_field(final(self)@.rect, field_height as int),
            final(self)@.wf(),
    {
        if down_held {
            self.rect.y = self.rect.y + self.speed;
            if self.rect.y + self.rect.height > field_height {
                self.rect.y = field_height - self.rect.height;
            }
        } else if up_held {
            self.rect.y = self.rect.y - self.speed;
            if self.rect.y < 0 {
                self.rect.y = 0;
            }
        }
    }

    /// Autonomous tracking for the right-side paddle: while the ball moves
    /// away (negative x velocity) the paddle holds still; otherwise it takes
    /// one speed step toward the ball's y and is then pushed back inside the
    /// field.
    pub fn move_paddle_ai(&mut self, ball: &Ball, field_height: i64)
        requires
            old(self)@.wf(),
            0 < field_height <= COORD_LIMIT,
            in_field(old(self)@.rect, field_height as int),
        ensures
            final(self)@ == paddle_after_ai(old(self)@, ball@, field_height as int),
            in_field(final(self)@.rect, field_height as int),
            final(self)@.wf(),
            ball@.dx < 0 ==> final(self)@ == old(self)@,
    {
        // Only move the paddle while the ball is approaching it.
        if ball.velocity.dx < 0 {
            return;
        }

        if ball.position.y < self.rect.y {
            self.rect.y = self.rect.y - self.speed;
        } else if ball.position.y > self.rect.y {
            self.rect.y = self.rect.y + self.speed;
        }

        if self.rect.y + self.rect.height > field_height {
            self.rect.y = field_height - self.rect.height;
        }
        if self.rect.y < 0 {
            self.rect.y = 0;
        }
    }
}

} // verus!
