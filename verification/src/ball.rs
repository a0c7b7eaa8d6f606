//! The ball: motion integration with wall reflection, and resolution of
//! contact with a paddle rectangle.

use crate::geometry::{
    abs_int, clamp_int, coord_ok, coord_wide, Color, Point, Rect, RectView, Velocity, COORD_LIMIT,
};
use vstd::prelude::*;

verus! {

/// The ball of the game: a circle with a per-frame displacement.
#[derive(Clone, Copy, Debug, PartialEq, Eq, Structural)]
pub struct Ball {
    pub position: Point,
    pub velocity: Velocity,
    pub radius: i64,
    pub color: Color,
}

/// The mathematical value of a ball; the color, which no rule reads, is left
/// out.
pub ghost struct BallView {
    pub x: int,
    pub y: int,
    pub dx: int,
    pub dy: int,
    pub radius: int,
}

impl View for Ball {
    type V = BallView;

    open spec fn view(&self) -> BallView {
        BallView {
            x: self.position.x as int,
            y: self.position.y as int,
            dx: self.velocity.dx as int,
            dy: self.velocity.dy as int,
            radius: self.radius as int,
        }
    }
}

impl BallView {
    /// A ball of positive radius whose values the library admits.
    pub open spec fn wf(self) -> bool {
        &&& coord_ok(self.x)
        &&& coord_ok(self.y)
        &&& coord_ok(self.dx)
        &&& coord_ok(self.dy)
        &&& 0 < self.radius
        &&& coord_ok(self.radius)
    }

    /// As `wf`, except that the center may sit in the wider band that one
    /// motion step or collision replacement can carry it into.
    pub open spec fn wf_wide(self) -> bool {
        &&& coord_wide(self.x)
        &&& coord_wide(self.y)
        &&& coord_ok(self.dx)
        &&& coord_ok(self.dy)
        &&& 0 < self.radius
        &&& coord_ok(self.radius)
    }
}

/// The velocity component a motion step uses on one axis: negated when the
/// circle touches or overlaps either wall of that axis before translating,
/// unchanged otherwise.
pub open spec fn reflect_vel(pos: int, radius: int, limit: int, vel: int) -> int {
    if pos - radius <= 0 || pos + radius >= limit {
        -vel
    } else {
        vel
    }
}

/// One motion step: reflect each axis independently against the field walls,
/// then translate by the (possibly reflected) velocity.
pub open spec fn ball_after_move(b: BallView, field_width: int, field_height: int) -> BallView {
    let ndx = reflect_vel(b.x, b.radius, field_width, b.dx);
    let ndy = reflect_vel(b.y, b.radius, field_height, b.dy);
    BallView { x: b.x + ndx, y: b.y + ndy, dx: ndx, dy: ndy, radius: b.radius }
}

/// The point of the rectangle closest to the ball center, x coordinate.
pub open spec fn closest_point_x(b: BallView, p: RectView) -> int {
    clamp_int(b.x, p.x, p.x + p.width)
}

/// The point of the rectangle closest to the ball center, y coordinate.
pub open spec fn closest_point_y(b: BallView, p: RectView) -> int {
    clamp_int(b.y, p.y, p.y + p.height)
}

/// Squared distance from the ball center to the closest point of the
/// rectangle.
pub open spec fn dist_sq(b: BallView, p: RectView) -> int {
    let ddx = b.x - closest_point_x(b, p);
    let ddy = b.y - closest_point_y(b, p);
    ddx * ddx + ddy * ddy
}

/// The ball overlaps the rectangle: the closest point lies strictly inside
/// the circle.
pub open spec fn collides(b: BallView, p: RectView) -> bool {
    dist_sq(b, p) < b.radius * b.radius
}

/// Resolution of an overlap: on the dominant axis (the one with the larger
/// offset of the ball center from the rectangle center, y winning ties) the
/// ball is set just outside the struck edge and that velocity component is
/// forced to point away from the rectangle; the other axis is untouched.
pub open spec fn resolve_collision(b: BallView, p: RectView) -> BallView {
    let offx = b.x - (p.x + p.width / 2);
    let offy = b.y - (p.y + p.height / 2);
    if abs_int(offx) > abs_int(offy) {
        if offx > 0 {
            BallView { x: p.x + p.width + b.radius, dx: abs_int(b.dx), ..b }
        } else {
            BallView { x: p.x - b.radius, dx: -abs_int(b.dx), ..b }
        }
    } else {
        if offy > 0 {
            BallView { y: p.y + p.height + b.radius, dy: abs_int(b.dy), ..b }
        } else {
            BallView { y: p.y - b.radius, dy: -abs_int(b.dy), ..b }
        }
    }
}

/// What one collision call leaves: the resolved ball on overlap, the ball
/// unchanged otherwise.
pub open spec fn ball_after_collision(b: BallView, p: RectView) -> BallView {
    if collides(b, p) {
        resolve_collision(b, p)
    } else {
        b
    }
}

/// One motion step keeps a ball coordinate inside `[0, limit]` on its axis,
/// provided the displacement on that axis is no larger than the radius (a
/// faster ball may pass the wall in one step, which is accepted) and the
/// ball is not overlapping a wall with its velocity pointing back into the
/// field — reflection would then send it outward.
pub proof fn lemma_move_keeps_axis_in_field(pos: int, radius: int, limit: int, vel: int)
    requires
        0 < radius,
        2 * radius <= limit,
        0 < pos < limit,
        -radius <= vel <= radius,
        !(pos <= radius && vel > 0),
        !(pos >= limit - radius && vel < 0),
    ensures
        0 <= pos + reflect_vel(pos, radius, limit, vel) <= limit,
{
}

/// The two-axis reading of `lemma_move_keeps_axis_in_field`: a ball whose
/// displacement is bounded by its radius on each axis, and which is not
/// overlapping a wall while moving back into the field, stays within the
/// field rectangle over one motion step.
pub proof fn lemma_move_ball_stays_in_field(b: BallView, field_width: int, field_height: int)
    requires
        0 < b.radius,
        2 * b.radius <= field_width,
        2 * b.radius <= field_height,
        0 < b.x < field_width,
        0 < b.y < field_height,
        -b.radius <= b.dx <= b.radius,
        -b.radius <= b.dy <= b.radius,
        !(b.x <= b.radius && b.dx > 0),
        !(b.x >= field_width - b.radius && b.dx < 0),
        !(b.y <= b.radius && b.dy > 0),
        !(b.y >= field_height - b.radius && b.dy < 0),
    ensures
        0 <= ball_after_move(b, field_width, field_height).x <= field_width,
        0 <= ball_after_move(b, field_width, field_height).y <= field_height,
{
    lemma_move_keeps_axis_in_field(b.x, b.radius, field_width, b.dx);
    lemma_move_keeps_axis_in_field(b.y, b.radius, field_height, b.dy);
}

/// Reflection is applied once per axis per step: a ball exactly at a wall
/// with its velocity pointing outward has that component negated exactly
/// once, so the reflected component points back into the field.
pub proof fn lemma_reflection_flips_once(pos: int, radius: int, limit: int, vel: int)
    requires
        (pos == radius && vel < 0) || (pos == limit - radius && vel > 0),
    ensures
        reflect_vel(pos, radius, limit, vel) == -vel,
        reflect_vel(pos, radius, limit, vel) != vel,
{
}

/// Resolving an overlap separates the ball from the paddle: immediately
/// after one resolution, the squared distance from the ball center to the
/// closest point of the rectangle is at least the squared radius — so the
/// overlap is gone, and the distance has not decreased.
pub proof fn lemma_resolution_separates(b: BallView, p: RectView)
    requires
        0 < b.radius,
        0 < p.width,
        0 < p.height,
        collides(b, p),
    ensures
        dist_sq(resolve_collision(b, p), p) >= b.radius * b.radius,
        dist_sq(resolve_collision(b, p), p) >= dist_sq(b, p),
        !collides(resolve_collision(b, p), p),
        resolve_collision(b, p).radius == b.radius,
{
    let nb = resolve_collision(b, p);
    let r = b.radius;
    let offx = b.x - (p.x + p.width / 2);
    let offy = b.y - (p.y + p.height / 2);
    assert(r * r >= 0) by (nonlinear_arith)
        requires r > 0;
    if abs_int(offx) > abs_int(offy) {
        // Reflection on the x axis: the resolved center sits exactly one
        // radius beyond the struck vertical edge, and the y offset from the
        // closest point is unchanged.
        let ddy = nb.y - closest_point_y(nb, p);
        assert(nb.x - closest_point_x(nb, p) == r || nb.x - closest_point_x(nb, p) == -r);
        assert(r * r + ddy * ddy >= r * r && (-r) * (-r) == r * r) by (nonlinear_arith);
    } else {
        let ddx = nb.x - closest_point_x(nb, p);
        assert(nb.y - closest_point_y(nb, p) == r || nb.y - closest_point_y(nb, p) == -r);
        assert(r * r + ddx * ddx >= r * r && (-r) * (-r) == r * r) by (nonlinear_arith);
    }
}

impl Ball {
    /// Clamping a value into `[min, max]`, testing the low end first.
    pub fn clamp(value: i64, min: i64, max: i64) -> (r: i64)
        ensures
            r as int == clamp_int(value as int, min as int, max as int),
    {
        if value < min {
            min
        } else if value > max {
            max
        } else {
            value
        }
    }

    /// Advances the ball by one discrete time step inside the given field:
    /// each axis whose wall the circle already touches or overlaps has its
    /// velocity component negated, then the position is translated by the
    /// resulting velocity. The position is not clamped afterwards, so a ball
    /// faster than its radius can pass a wall in one step.
    pub fn move_ball(&mut self, field_width: i64, field_height: i64)
        requires
            old(self)@.wf(),
            0 < field_width <= COORD_LIMIT,
            0 < field_height <= COORD_LIMIT,
        ensures
            final(self)@ == ball_after_move(old(self)@, field_width as int, field_height as int),
            final(self)@.wf_wide(),
            final(self).color == old(self).color,
    {
        if self.position.x - self.radius <= 0 || self.position.x + self.radius >= field_width {
            self.velocity.dx = -self.velocity.dx;
        }
        if self.position.y - self.radius <= 0 || self.position.y + self.radius >= field_height {
            self.velocity.dy = -self.velocity.dy;
        }
        self.position.x = self.position.x + self.velocity.dx;
        self.position.y = self.position.y + self.velocity.dy;
    }

    /// Resolves contact with a paddle rectangle. Without overlap the ball is
    /// left untouched; on overlap the ball is set just outside the struck
    /// edge of the dominant axis and its velocity component on that axis is
    /// forced to point away from the paddle.
    pub fn check_collision(&mut self, paddle: &Rect)
        requires
            old(self)@.wf_wide(),
            paddle@.wf(),
        ensures
            final(self)@ == ball_after_collision(old(self)@, paddle@),
            final(self).color == old(self).color,
    {
        let closest_x = Ball::clamp(self.position.x, paddle.x, paddle.x + paddle.width);
        let closest_y = Ball::clamp(self.position.y, paddle.y, paddle.y + paddle.height);

        let distance_x = self.position.x - closest_x;
        let distance_y = self.position.y - closest_y;

        assert(distance_x * distance_x <= 0x2000_0000_0000_0000 && distance_x * distance_x >= 0)
            by (nonlinear_arith)
            requires -600_000_000 <= distance_x <= 600_000_000;
        assert(distance_y * distance_y <= 0x2000_0000_0000_0000 && distance_y * distance_y >= 0)
            by (nonlinear_arith)
            requires -600_000_000 <= distance_y <= 600_000_000;
        let distance_squared = distance_x * distance_x + distance_y * distance_y;

        assert(self.radius * self.radius <= 0x2000_0000_0000_0000 && self.radius * self.radius >= 0)
            by (nonlinear_arith)
            requires 0 <= self.radius <= 100_000_000;
        if distance_squared >= self.radius * self.radius {
            return;
        }

        let paddle_center_x = paddle.x + paddle.width / 2;
        let paddle_center_y = paddle.y + paddle.height / 2;

        let dx = self.position.x - paddle_center_x;
        let dy = self.position.y - paddle_center_y;

        let abs_dx = if dx < 0 { -dx } else { dx };
        let abs_dy = if dy < 0 { -dy } else { dy };

        if abs_dx > abs_dy {
            if dx > 0 {
                self.position.x = paddle.x + paddle.width + self.radius;
                self.velocity.dx = if self.velocity.dx < 0 {
                    -self.velocity.dx
                } else {
                    self.velocity.dx
                };
            } else {
                self.position.x = paddle.x - self.radius;
                self.velocity.dx = if self.velocity.dx < 0 {
                    self.velocity.dx
                } else {
                    -self.velocity.dx
                };
            }
        } else {
            if dy > 0 {
                self.position.y = paddle.y + paddle.height + self.radius;
                self.velocity.dy = if self.velocity.dy < 0 {
                    -self.velocity.dy
                } else {
                    self.velocity.dy
                };
            } else {
                self.position.y = paddle.y - self.radius;
                self.velocity.dy = if self.velocity.dy < 0 {
                    self.velocity.dy
                } else {
                    -self.velocity.dy
                };
            }
        }
    }
}

} // verus!
