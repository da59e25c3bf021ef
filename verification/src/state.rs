//! The game: its three modes and what one frame does in each.

use vstd::prelude::*;
use crate::ball::{Ball, Direction, KICK_VELOCITY, TERMINAL_VELOCITY};
use crate::draw::{Frame, FrameView};
use crate::hit_box::{calculate_hit_box, in_hit_box};
use crate::scene::{draw_end, draw_menu, draw_playing, end_scene, menu_scene, playing_scene};
use crate::timer::FrameTimer;
use crate::units::{BALL_RADIUS, SCREEN_HEIGHT, TENTHS_PER_CELL};

verus! {

/// Where a new ball appears: the middle of the play area, in tenths.
pub const SPAWN_X: i32 = 400;

/// See `SPAWN_X`.
pub const SPAWN_Y: i32 = 250;

/// The bottom of the play area, in tenths. A ball below it is lost.
pub const FLOOR: i32 = SCREEN_HEIGHT * TENTHS_PER_CELL;

/// The mode that the game is in.
#[derive(Clone, Copy, Debug, PartialEq, Eq, Structural)]
pub enum GameMode {
    /// Before the first round.
    Menu,
    /// A round is in progress.
    Playing,
    /// The ball was lost; the score of the round is on show.
    End,
}

/// A key as the game reads it.
#[derive(Clone, Copy, Debug, PartialEq, Eq, Structural)]
pub enum Key {
    /// Start a round.
    Play,
    /// Leave the game.
    Quit,
    /// Any key without a meaning.
    Other,
}

/// What the terminal reports for one frame.
#[derive(Clone, Copy, Debug, PartialEq, Eq)]
pub struct Input {
    /// Milliseconds since the frame before.
    pub elapsed_ms: u32,
    /// The cell under the pointer.
    pub mouse: (i32, i32),
    /// Whether the left button went down during this frame.
    pub left_click: bool,
    /// The key pressed during this frame, if any.
    pub key: Option<Key>,
}

impl Input {
    /// Whether the click of this frame, if there is one, lands on `ball`.
    pub open spec fn kicks(self, ball: Ball) -> bool {
        self.left_click && in_hit_box(ball.cell(), self.mouse, BALL_RADIUS)
    }

    /// The way a kick of this frame sends `ball`: away from the pointer,
    /// and to the right when the pointer is on the ball's column.
    pub open spec fn kick_direction(self, ball: Ball) -> Direction {
        if self.mouse.0 > ball.cell().0 {
            Direction::Left
        } else {
            Direction::Right
        }
    }

    /// Whether the pointer is on the column of `ball`.
    pub open spec fn hits_center(self, ball: Ball) -> bool {
        self.mouse.0 == ball.cell().0
    }
}

/// The whole state of the game.
#[derive(Clone, Copy, Debug, PartialEq, Eq, Structural)]
pub struct State {
    pub ball: Ball,
    pub frame_time: FrameTimer,
    pub mode: GameMode,
    /// Kicks landed in the current round. It stops at `u32::MAX`.
    pub score: u32,
}

impl State {
    /// The state is well formed when its ball and its timer are, and no
    /// round goes on with the ball below the floor.
    pub open spec fn wf(self) -> bool {
        &&& self.ball.wf()
        &&& self.frame_time.wf()
        &&& self.mode == GameMode::Playing ==> self.ball.y <= FLOOR
    }

    /// The start of a round: a resting ball at the spawn point, an empty
    /// timer and no score.
    pub open spec fn round_start() -> State {
        State {
            ball: Ball {
                x: SPAWN_X,
                y: SPAWN_Y,
                velocity: 0,
                x_velocity: 0,
                x_direction: Direction::Right,
            },
            frame_time: FrameTimer { accumulated: 0 },
            mode: GameMode::Playing,
            score: 0,
        }
    }

    /// The state after a frame of a round.
    ///
    /// In order: the timer takes the frame's duration, and the ball moves
    /// by one tick if that makes a tick due; a click on the ball kicks it
    /// and scores a point; the walls act on the ball; and a ball that is
    /// then below the floor ends the round, the score staying as it is.
    pub open spec fn played(self, input: Input) -> State {
        let fallen = if self.frame_time.is_due(input.elapsed_ms) {
            self.ball.advanced()
        } else {
            self.ball
        };
        let kick = input.kicks(fallen);
        let kicked = if kick {
            fallen.kicked(input.kick_direction(fallen), input.hits_center(fallen))
        } else {
            fallen
        };
        let ball = kicked.bounced();
        State {
            ball,
            frame_time: self.frame_time.accumulated_with(input.elapsed_ms),
            mode: if ball.y > FLOOR { GameMode::End } else { self.mode },
            score: if kick && self.score < u32::MAX { (self.score + 1) as u32 } else { self.score },
        }
    }

    /// The state after a frame of the menu or of the end screen: a new
    /// round on `Key::Play`, and no change otherwise.
    pub open spec fn after_key(self, key: Option<Key>) -> State {
        if key == Some(Key::Play) {
            Self::round_start()
        } else {
            self
        }
    }

    /// The state after one frame in the current mode.
    pub open spec fn ticked(self, input: Input) -> State {
        match self.mode {
            GameMode::Menu => self.after_key(input.key),
            GameMode::End => self.after_key(input.key),
            GameMode::Playing => self.played(input),
        }
    }

    /// The state after the frames with the given inputs, in order.
    pub open spec fn after_frames(self, inputs: Seq<Input>) -> State
        decreases inputs.len(),
    {
        if inputs.len() == 0 {
            self
        } else {
            self.after_frames(inputs.drop_last()).ticked(inputs.last())
        }
    }

    /// What one frame in the current mode hands back: the screen of the
    /// mode, and a request to quit on `Key::Quit` outside a round. The end
    /// screen shows the score of the round that ended; the screen of a round
    /// shows the ball and the score as the frame leaves them.
    pub open spec fn shown(self, input: Input) -> FrameView {
        match self.mode {
            GameMode::Menu => FrameView {
                calls: menu_scene(),
                quit: input.key == Some(Key::Quit),
            },
            GameMode::End => FrameView {
                calls: end_scene(self.score),
                quit: input.key == Some(Key::Quit),
            },
            GameMode::Playing => FrameView {
                calls: playing_scene(self.played(input).ball, self.played(input).score),
                quit: false,
            },
        }
    }

    /// The modes follow one another as the game's transition table says.
    ///
    /// From the menu and from the end screen only `Key::Play` leads on, to
    /// the start of a round; every other frame leaves the state as it is. A
    /// round goes on until a frame leaves the ball below the floor, and
    /// that frame ends it.
    pub proof fn transition_table(self, input: Input)
        ensures
            self.mode != GameMode::Playing && input.key == Some(Key::Play)
                ==> self.ticked(input) == Self::round_start(),
            self.mode != GameMode::Playing && input.key != Some(Key::Play)
                ==> self.ticked(input) == self,
            self.mode == GameMode::Playing && self.ticked(input).ball.y > FLOOR
                ==> self.ticked(input).mode == GameMode::End,
            self.mode == GameMode::Playing && self.ticked(input).ball.y <= FLOOR
                ==> self.ticked(input).mode == GameMode::Playing,
    {
    }

    /// Whatever the player does and however long the frames take, a
    /// well-formed game stays well formed: the ball never rises above the top
    /// row, its vertical velocity stays between the kick velocity and the
    /// terminal velocity, and a round never goes on below the floor.
    pub proof fn stays_well_formed(self, inputs: Seq<Input>)
        requires
            self.wf(),
        ensures
            self.after_frames(inputs).wf(),
            self.after_frames(inputs).ball.y >= 0,
            KICK_VELOCITY <= self.after_frames(inputs).ball.velocity <= TERMINAL_VELOCITY,
        decreases inputs.len(),
    {
        if inputs.len() > 0 {
            self.stays_well_formed(inputs.drop_last());
        }
    }

    /// The game as it starts: in the menu, with a ball waiting at the spawn
    /// point.
    pub fn new() -> (state: State)
        ensures
            state == (State { mode: GameMode::Menu, ..Self::round_start() }),
            state.wf(),
    {
        State {
            ball: Ball::new(SPAWN_X, SPAWN_Y),
            frame_time: FrameTimer::new(),
            mode: GameMode::Menu,
            score: 0,
        }
    }

    /// Starts a round.
    pub fn restart(&mut self)
        ensures
            *final(self) == Self::round_start(),
            final(self).wf(),
    {
        self.ball = Ball::new(SPAWN_X, SPAWN_Y);
        self.frame_time = FrameTimer::new();
        self.mode = GameMode::Playing;
        self.score = 0;
    }

    /// Runs one frame of a round.
    pub fn play(&mut self, input: &Input) -> (frame: Frame)
        ensures
            *final(self) == old(self).played(*input),
            frame@ == (FrameView {
                calls: playing_scene(final(self).ball, final(self).score),
                quit: false,
            }),
            final(self).ball.y > FLOOR ==> final(self).mode == GameMode::End,
            final(self).ball.y <= FLOOR ==> final(self).mode == old(self).mode,
            final(self).score >= old(self).score,
            old(self).wf() ==> final(self).wf(),
    {
        if self.frame_time.accumulate(input.elapsed_ms) {
            self.ball.gravity_and_move();
        }
        let cell = self.ball.position();
        if input.left_click && calculate_hit_box(cell, input.mouse, BALL_RADIUS) {
            let direction = if input.mouse.0 > cell.0 {
                Direction::Left
            } else {
                Direction::Right
            };
            let did_hit_center = input.mouse.0 == cell.0;
            self.ball.kick(direction, did_hit_center);
            self.score = self.score.saturating_add(1);
        }
        self.ball.bounce();
        let calls = draw_playing(&self.ball, self.score);
        if self.ball.y > FLOOR {
            self.mode = GameMode::End;
        }
        Frame { calls, quit: false }
    }

    /// Runs one frame of the menu.
    pub fn main_menu(&mut self, input: &Input) -> (frame: Frame)
        ensures
            *final(self) == old(self).after_key(input.key),
            frame@ == (FrameView { calls: menu_scene(), quit: input.key == Some(Key::Quit) }),
            old(self).wf() ==> final(self).wf(),
    {
        let calls = draw_menu();
        let mut quit = false;
        match input.key {
            Some(Key::Play) => {
                self.restart();
            },
            Some(Key::Quit) => {
                quit = true;
            },
            _ => {},
        }
        Frame { calls, quit }
    }

    /// Runs one frame of the end screen.
    pub fn dead(&mut self, input: &Input) -> (frame: Frame)
        ensures
            *final(self) == old(self).after_key(input.key),
            frame@ == (FrameView {
                calls: end_scene(old(self).score),
                quit: input.key == Some(Key::Quit),
            }),
            old(self).wf() ==> final(self).wf(),
    {
        let calls = draw_end(self.score);
        let mut quit = false;
        match input.key {
            Some(Key::Play) => {
                self.restart();
            },
            Some(Key::Quit) => {
                quit = true;
            },
            _ => {},
        }
        Frame { calls, quit }
    }

    /// Runs one frame in the current mode.
    pub fn tick(&mut self, input: &Input) -> (frame: Frame)
        ensures
            *final(self) == old(self).ticked(*input),
            frame@ == old(self).shown(*input),
            old(self).wf() ==> final(self).wf(),
    {
        match self.mode {
            GameMode::Menu => self.main_menu(input),
            GameMode::End => self.dead(input),
            GameMode::Playing => self.play(input),
        }
    }
}

} // verus!
