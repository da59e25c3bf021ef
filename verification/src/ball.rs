//! The ball: its state, one tick of its motion, and its answer to a kick.

use vstd::prelude::*;
use crate::draw::{Color, DrawCall, DrawCallView};
use crate::glyph::{cp437, to_cp437};
use crate::units::{
    cell_of, saturate, saturating_negation, saturating_sum, to_cell, BALL_RADIUS, SCREEN_WIDTH,
};

verus! {

/// Downward velocity gained per tick while the ball is below its terminal
/// velocity, in tenths of a cell per tick.
pub const GRAVITY: i32 = 2;

/// Downward velocity at which gravity stops adding to it.
pub const TERMINAL_VELOCITY: i32 = 20;

/// Largest horizontal speed that a tick moves the ball by, before drag.
pub const MAX_X_VELOCITY: i32 = 20;

/// Horizontal velocity taken away per tick in the ball's direction.
pub const DRAG: i32 = 1;

/// Vertical velocity right after a kick: straight up at full speed.
pub const KICK_VELOCITY: i32 = -20;

/// Horizontal speed right after a kick that missed the ball's centre column.
pub const KICK_X_SPEED: i32 = 20;

/// Horizontal velocity that a wall adds, per frame, to a ball that touches it.
pub const WALL_NUDGE: i32 = 2;

/// The way the ball was last sent: by a kick or by a wall.
#[derive(Clone, Copy, Debug, PartialEq, Eq, Structural)]
pub enum Direction {
    /// Toward column 0.
    Left,
    /// Toward the last column.
    Right,
}

impl Direction {
    /// `-1` for `Left`, `+1` for `Right`.
    pub open spec fn sign(self) -> int {
        match self {
            Direction::Left => -1,
            Direction::Right => 1,
        }
    }

    /// A rightward quantity `v` pointed this way instead: `v` times the
    /// sign of the direction.
    pub open spec fn turn(self, v: int) -> int {
        match self {
            Direction::Left => -v,
            Direction::Right => v,
        }
    }

    /// Turning is multiplication by the sign.
    pub proof fn turn_is_product(self, v: int)
        ensures
            self.turn(v) == v * self.sign(),
            self.turn(v) == self.sign() * v,
    {
    }
}

/// The ball. All fields are fixed-point numbers in tenths of a cell; `y`
/// grows downward, row 0 being the top of the play area.
#[derive(Clone, Copy, Debug, PartialEq, Eq, Structural)]
pub struct Ball {
    pub x: i32,
    pub y: i32,
    /// Vertical velocity per tick; positive is downward.
    pub velocity: i32,
    /// Horizontal velocity per tick; positive is rightward.
    pub x_velocity: i32,
    pub x_direction: Direction,
}

impl Ball {
    /// A ball is well formed when it is not above the top row and its
    /// vertical velocity is one that gravity and kicks can produce: a whole
    /// number of gravity steps between the kick velocity and the terminal
    /// velocity.
    pub open spec fn wf(self) -> bool {
        &&& self.y >= 0
        &&& KICK_VELOCITY <= self.velocity <= TERMINAL_VELOCITY
        &&& self.velocity % GRAVITY == 0
    }

    /// Whether the horizontal velocity points the way of the direction:
    /// the velocity times the direction's sign is positive.
    pub open spec fn velocity_agrees(self) -> bool {
        self.x_direction.turn(self.x_velocity as int) > 0
    }

    /// The cell that the ball is drawn in and clicked at: both coordinates
    /// truncated to whole cells.
    pub open spec fn cell(self) -> (i32, i32) {
        (cell_of(self.x as int) as i32, cell_of(self.y as int) as i32)
    }

    /// The ball after one tick.
    ///
    /// In order: gravity adds to the vertical velocity while that is below
    /// the terminal velocity; the horizontal velocity is limited to
    /// `MAX_X_VELOCITY` either way; unless it is zero, drag pulls it against
    /// the ball's direction; both velocities move the ball; the ball is kept
    /// at or below the top row; and a horizontal velocity that does not
    /// point the way of the direction becomes zero.
    pub open spec fn advanced(self) -> Ball {
        let velocity = if self.velocity < TERMINAL_VELOCITY {
            self.velocity + GRAVITY
        } else {
            self.velocity as int
        };
        let limited = if self.x_velocity < -MAX_X_VELOCITY {
            -MAX_X_VELOCITY
        } else if self.x_velocity > MAX_X_VELOCITY {
            MAX_X_VELOCITY as int
        } else {
            self.x_velocity as int
        };
        let dragged = if limited != 0 {
            limited - self.x_direction.turn(DRAG as int)
        } else {
            limited
        };
        let y = saturate(self.y + velocity);
        Ball {
            x: saturate(self.x + dragged),
            y: if y < 0 { 0 } else { y },
            velocity: velocity as i32,
            x_velocity: if self.x_direction.turn(dragged) > 0 { dragged as i32 } else { 0 },
            x_direction: self.x_direction,
        }
    }

    /// The ball after `ticks` ticks in a row.
    pub open spec fn after_ticks(self, ticks: nat) -> Ball
        decreases ticks,
    {
        if ticks == 0 {
            self
        } else {
            self.after_ticks((ticks - 1) as nat).advanced()
        }
    }

    /// The ball after a kick.
    ///
    /// The vertical velocity becomes `KICK_VELOCITY` whatever it was. A kick
    /// on the centre column multiplies the horizontal velocity by the sign of
    /// `direction`; any other kick sets it to `KICK_X_SPEED` in that
    /// direction. The ball's direction becomes `direction`.
    pub open spec fn kicked(self, direction: Direction, did_hit_center: bool) -> Ball {
        Ball {
            velocity: KICK_VELOCITY,
            x_velocity: if did_hit_center {
                saturate(direction.turn(self.x_velocity as int))
            } else {
                direction.turn(KICK_X_SPEED as int) as i32
            },
            x_direction: direction,
            ..self
        }
    }

    /// Whether the ball's hit box reaches the right wall.
    pub open spec fn touches_right_wall(self) -> bool {
        self.cell().0 + BALL_RADIUS >= SCREEN_WIDTH
    }

    /// Whether the ball's hit box reaches the left wall.
    pub open spec fn touches_left_wall(self) -> bool {
        self.cell().0 - BALL_RADIUS <= 0
    }

    /// The ball after the walls have acted on it for one frame.
    ///
    /// The right wall sends the ball left and nudges its velocity leftward.
    /// The left wall sends it right, reflects a velocity that does not point
    /// right, and then nudges it rightward. Away from both walls nothing
    /// changes.
    pub open spec fn bounced(self) -> Ball {
        if self.touches_right_wall() {
            Ball {
                x_direction: Direction::Left,
                x_velocity: saturate(self.x_velocity - WALL_NUDGE),
                ..self
            }
        } else if self.touches_left_wall() {
            let reflected = if self.x_velocity <= 0 {
                saturate(-self.x_velocity)
            } else {
                self.x_velocity
            };
            Ball {
                x_direction: Direction::Right,
                x_velocity: saturate(reflected + WALL_NUDGE),
                ..self
            }
        } else {
            self
        }
    }

    /// The draw call that shows the ball: the letter `O` of the font, white
    /// on white smoke, in the ball's cell.
    pub open spec fn rendered(self) -> DrawCallView {
        DrawCallView::Glyph {
            x: self.cell().0,
            y: self.cell().1,
            fg: Color::White,
            bg: Color::WhiteSmoke,
            glyph: cp437('O'),
        }
    }

    /// A ball at rest at `(x, y)`, facing right.
    pub fn new(x: i32, y: i32) -> (ball: Ball)
        requires
            y >= 0,
        ensures
            ball == (Ball { x, y, velocity: 0, x_velocity: 0, x_direction: Direction::Right }),
            ball.wf(),
    {
        Ball { x, y, velocity: 0, x_velocity: 0, x_direction: Direction::Right }
    }

    /// The cell that the ball occupies.
    pub fn position(&self) -> (cell: (i32, i32))
        ensures
            cell == self.cell(),
    {
        (to_cell(self.x), to_cell(self.y))
    }

    /// Makes the draw call that shows the ball.
    pub fn render(&self) -> (call: DrawCall)
        ensures
            call@ == self.rendered(),
    {
        DrawCall::Glyph {
            x: to_cell(self.x),
            y: to_cell(self.y),
            fg: Color::White,
            bg: Color::WhiteSmoke,
            glyph: to_cp437('O'),
        }
    }

    /// Tells whether the horizontal velocity points the way of the direction.
    pub fn check_velocity_and_direction(&self) -> (agrees: bool)
        ensures
            agrees == self.velocity_agrees(),
            agrees == (self.x_direction.sign() * self.x_velocity > 0),
    {
        proof {
            self.x_direction.turn_is_product(self.x_velocity as int);
        }
        match self.x_direction {
            Direction::Left => self.x_velocity < 0,
            Direction::Right => self.x_velocity > 0,
        }
    }

    /// However many ticks pass without a kick, a well-formed ball stays
    /// well formed: it never rises above the top row, and its vertical
    /// velocity never exceeds the terminal velocity.
    pub proof fn velocity_stays_capped(self, ticks: nat)
        requires
            self.wf(),
        ensures
            self.after_ticks(ticks).wf(),
            self.after_ticks(ticks).velocity <= TERMINAL_VELOCITY,
            self.after_ticks(ticks).y >= 0,
        decreases ticks,
    {
        if ticks > 0 {
            self.velocity_stays_capped((ticks - 1) as nat);
        }
    }

    /// Moves the ball by one tick.
    ///
    /// Whatever the velocities were, the ball ends at or below the top row.
    /// A ball that falls at the terminal velocity keeps that velocity and,
    /// short of the end of `i32`, falls by exactly that much.
    pub fn gravity_and_move(&mut self)
        ensures
            *final(self) == old(self).advanced(),
            final(self).y >= 0,
            old(self).wf() ==> final(self).wf(),
            old(self).velocity == TERMINAL_VELOCITY ==> final(self).velocity == TERMINAL_VELOCITY,
            old(self).velocity == TERMINAL_VELOCITY && 0 <= old(self).y <= i32::MAX - TERMINAL_VELOCITY
                ==> final(self).y == old(self).y + TERMINAL_VELOCITY,
    {
        if self.velocity < TERMINAL_VELOCITY {
            self.velocity += GRAVITY;
        }
        if self.x_velocity < -MAX_X_VELOCITY {
            self.x_velocity = -MAX_X_VELOCITY;
        }
        if self.x_velocity > MAX_X_VELOCITY {
            self.x_velocity = MAX_X_VELOCITY;
        }
        if self.x_velocity != 0 {
            match self.x_direction {
                Direction::Right => {
                    self.x_velocity -= DRAG;
                },
                Direction::Left => {
                    self.x_velocity += DRAG;
                },
            }
        }
        self.y = saturating_sum(self.y, self.velocity);
        self.x = saturating_sum(self.x, self.x_velocity);
        if self.y < 0 {
            self.y = 0;
        }
        if self.x_velocity == 0 || !self.check_velocity_and_direction() {
            self.x_velocity = 0;
        }
    }

    /// Kicks the ball toward `direction`.
    pub fn kick(&mut self, direction: Direction, did_hit_center: bool)
        ensures
            *final(self) == old(self).kicked(direction, did_hit_center),
            final(self).velocity == KICK_VELOCITY,
            !did_hit_center ==> final(self).x_velocity == KICK_X_SPEED * direction.sign(),
            old(self).y >= 0 ==> final(self).wf(),
    {
        proof {
            direction.turn_is_product(KICK_X_SPEED as int);
        }
        self.velocity = KICK_VELOCITY;
        if did_hit_center {
            match direction {
                Direction::Left => {
                    self.x_velocity = saturating_negation(self.x_velocity);
                },
                Direction::Right => {},
            }
        } else {
            match direction {
                Direction::Left => {
                    self.x_velocity = -KICK_X_SPEED;
                },
                Direction::Right => {
                    self.x_velocity = KICK_X_SPEED;
                },
            }
        }
        self.x_direction = direction;
    }

    /// Lets the walls act on the ball for one frame.
    pub fn bounce(&mut self)
        ensures
            *final(self) == old(self).bounced(),
            old(self).wf() ==> final(self).wf(),
    {
        let column = to_cell(self.x);
        if column + BALL_RADIUS >= SCREEN_WIDTH {
            self.x_direction = Direction::Left;
            self.x_velocity = saturating_sum(self.x_velocity, -WALL_NUDGE);
        } else if column - BALL_RADIUS <= 0 {
            self.x_direction = Direction::Right;
            if self.x_velocity <= 0 {
                self.x_velocity = saturating_negation(self.x_velocity);
            }
            self.x_velocity = saturating_sum(self.x_velocity, WALL_NUDGE);
        }
    }
}

} // verus!
