//! What a frame asks the terminal to draw.
//!
//! The game never touches the terminal. Each frame it hands back a list of
//! draw calls, to be carried out in order, and whether the player asked to
//! quit.

use vstd::prelude::*;

verus! {

/// The colours that the game draws with, by their palette names.
#[derive(Clone, Copy, Debug, PartialEq, Eq, Structural)]
pub enum Color {
    White,
    WhiteSmoke,
    Green4,
}

/// One request to the terminal.
#[derive(Debug, PartialEq, Eq)]
pub enum DrawCall {
    /// Clear the screen to the default background.
    Clear,
    /// Clear the screen to a background colour.
    ClearBackground { color: Color },
    /// Put one glyph of the font at cell `(x, y)`.
    Glyph { x: i32, y: i32, fg: Color, bg: Color, glyph: u16 },
    /// Print `text` starting at cell `(x, y)`.
    Text { x: i32, y: i32, text: String },
    /// Print `text` centred on row `y`.
    TextCentered { y: i32, text: String },
}

/// A draw call as a mathematical value: text is a sequence of characters.
pub enum DrawCallView {
    Clear,
    ClearBackground { color: Color },
    Glyph { x: i32, y: i32, fg: Color, bg: Color, glyph: u16 },
    Text { x: i32, y: i32, text: Seq<char> },
    TextCentered { y: i32, text: Seq<char> },
}

impl View for DrawCall {
    type V = DrawCallView;

    open spec fn view(&self) -> DrawCallView {
        match *self {
            DrawCall::Clear => DrawCallView::Clear,
            DrawCall::ClearBackground { color } => DrawCallView::ClearBackground { color },
            DrawCall::Glyph { x, y, fg, bg, glyph } => DrawCallView::Glyph { x, y, fg, bg, glyph },
            DrawCall::Text { x, y, text } => DrawCallView::Text { x, y, text: text@ },
            DrawCall::TextCentered { y, text } => DrawCallView::TextCentered { y, text: text@ },
        }
    }
}

/// The views of a list of draw calls, in order.
pub open spec fn views(calls: Seq<DrawCall>) -> Seq<DrawCallView> {
    calls.map_values(|call: DrawCall| call@)
}

/// What one frame of the game hands back.
#[derive(Debug, PartialEq, Eq)]
pub struct Frame {
    /// The draw calls of the frame, in the order to carry them out.
    pub calls: Vec<DrawCall>,
    /// Whether the player asked to quit during this frame.
    pub quit: bool,
}

/// A frame as a mathematical value.
pub struct FrameView {
    pub calls: Seq<DrawCallView>,
    pub quit: bool,
}

impl View for Frame {
    type V = FrameView;

    open spec fn view(&self) -> FrameView {
        FrameView { calls: views(self.calls@), quit: self.quit }
    }
}

} // verus!
