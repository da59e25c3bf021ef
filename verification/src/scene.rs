//! The three screens of the game as lists of draw calls.

use vstd::prelude::*;
use crate::ball::Ball;
use crate::draw::{views, Color, DrawCall, DrawCallView};
use crate::text::{decimal, decimal_text};

verus! {

/// The menu: a cleared screen, the title, and the two keys.
pub open spec fn menu_scene() -> Seq<DrawCallView> {
    seq![
        DrawCallView::Clear,
        DrawCallView::TextCentered { y: 5, text: "Welcome to Kick Ups"@ },
        DrawCallView::TextCentered { y: 8, text: "(P) Play Game"@ },
        DrawCallView::TextCentered { y: 9, text: "(Q) Quit Game"@ },
    ]
}

/// The round in progress: the green field, the ball, the hint and the score.
pub open spec fn playing_scene(ball: Ball, score: u32) -> Seq<DrawCallView> {
    seq![
        DrawCallView::ClearBackground { color: Color::Green4 },
        ball.rendered(),
        DrawCallView::Text { x: 0, y: 0, text: "Click to kick..."@ },
        DrawCallView::Text { x: 0, y: 1, text: "Score: "@ + decimal(score as nat) },
    ]
}

/// The end of a round: a cleared screen, the verdict with the number of
/// kicks, and the two keys.
pub open spec fn end_scene(score: u32) -> Seq<DrawCallView> {
    seq![
        DrawCallView::Clear,
        DrawCallView::TextCentered { y: 5, text: "You lose!"@ },
        DrawCallView::TextCentered {
            y: 6,
            text: "You kicked "@ + decimal(score as nat)
                + " times without dropping the ball!"@,
        },
        DrawCallView::TextCentered { y: 8, text: "(P) Play Game"@ },
        DrawCallView::TextCentered { y: 9, text: "(Q) Quit Game"@ },
    ]
}

/// Builds the draw calls of the menu.
pub fn draw_menu() -> (calls: Vec<DrawCall>)
    ensures
        views(calls@) == menu_scene(),
{
    let mut calls: Vec<DrawCall> = Vec::new();
    calls.push(DrawCall::Clear);
    calls.push(DrawCall::TextCentered { y: 5, text: String::from_str("Welcome to Kick Ups") });
    calls.push(DrawCall::TextCentered { y: 8, text: String::from_str("(P) Play Game") });
    calls.push(DrawCall::TextCentered { y: 9, text: String::from_str("(Q) Quit Game") });
    assert(views(calls@) =~= menu_scene());
    calls
}

/// Builds the draw calls of a round in progress.
pub fn draw_playing(ball: &Ball, score: u32) -> (calls: Vec<DrawCall>)
    ensures
        views(calls@) == playing_scene(*ball, score),
{
    let mut score_line = String::from_str("Score: ");
    score_line.append(decimal_text(score).as_str());
    let mut calls: Vec<DrawCall> = Vec::new();
    calls.push(DrawCall::ClearBackground { color: Color::Green4 });
    calls.push(ball.render());
    calls.push(DrawCall::Text { x: 0, y: 0, text: String::from_str("Click to kick...") });
    calls.push(DrawCall::Text { x: 0, y: 1, text: score_line });
    assert(views(calls@) =~= playing_scene(*ball, score));
    calls
}

/// Builds the draw calls of the end of a round.
pub fn draw_end(score: u32) -> (calls: Vec<DrawCall>)
    ensures
        views(calls@) == end_scene(score),
{
    let mut verdict = String::from_str("You kicked ");
    verdict.append(decimal_text(score).as_str());
    verdict.append(" times without dropping the ball!");
    let mut calls: Vec<DrawCall> = Vec::new();
    calls.push(DrawCall::Clear);
    calls.push(DrawCall::TextCentered { y: 5, text: String::from_str("You lose!") });
    calls.push(DrawCall::TextCentered { y: 6, text: verdict });
    calls.push(DrawCall::TextCentered { y: 8, text: String::from_str("(P) Play Game") });
    calls.push(DrawCall::TextCentered { y: 9, text: String::from_str("(Q) Quit Game") });
    assert(views(calls@) =~= end_scene(score));
    calls
}

} // verus!
