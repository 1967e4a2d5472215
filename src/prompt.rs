//! The decisions behind the two prompts between rounds: which difficulty a
//! menu answer picks, and whether an answer asks for another round.

use vstd::prelude::*;

use crate::error::GameError;
use crate::game::{best_of, Difficulty, Game, GameView};
use crate::text::{i32_text, lowered, parse_i32, same_text, to_lowercase, trim, trimmed};

verus! {

/// The difficulty that a menu number stands for, if any.
pub open spec fn menu_choice(n: int) -> Option<Difficulty> {
    if n == 0 {
        Some(Difficulty::Journalist)
    } else if n == 1 {
        Some(Difficulty::Easy)
    } else if n == 2 {
        Some(Difficulty::Medium)
    } else if n == 3 {
        Some(Difficulty::Hard)
    } else {
        None
    }
}

/// The outcome of an answer to the difficulty menu.
#[derive(Clone, Copy, Debug, PartialEq, Eq, Structural)]
pub struct Selection {
    /// The difficulty to play.
    pub difficulty: Difficulty,
    /// False where the number was off the menu and the default was taken.
    pub recognized: bool,
}

/// The selection made by the menu number `n`: its difficulty, or Medium for a
/// number off the menu.
pub open spec fn selection_of(n: int) -> Selection {
    match menu_choice(n) {
        Some(d) => Selection { difficulty: d, recognized: true },
        None => Selection { difficulty: Difficulty::Medium, recognized: false },
    }
}

/// Maps a menu number to its difficulty.
pub fn difficulty_for(n: i32) -> (r: Option<Difficulty>)
    ensures
        r == menu_choice(n as int),
{
    match n {
        0 => Some(Difficulty::Journalist),
        1 => Some(Difficulty::Easy),
        2 => Some(Difficulty::Medium),
        3 => Some(Difficulty::Hard),
        _ => None,
    }
}

/// Reads a trimmed answer to the difficulty menu. The quit word gives
/// `EarlyQuit`, a text that is no integer gives `ParseError`, and any integer
/// gives a selection.
pub fn selection_from_text(text: &str) -> (r: Result<Selection, GameError>)
    ensures
        text@ == "q"@ ==> r is Err && r->Err_0 is EarlyQuit,
        text@ != "q"@ && i32_text(text@) is None ==> r is Err && r->Err_0 is ParseError,
        text@ != "q"@ && i32_text(text@) is Some ==> r == Ok::<Selection, GameError>(
            selection_of(i32_text(text@)->0 as int),
        ),
{
    if same_text(text, "q") {
        return Err(GameError::EarlyQuit);
    }
    match parse_i32(text) {
        Ok(n) => match difficulty_for(n) {
            Some(d) => Ok(Selection { difficulty: d, recognized: true }),
            None => Ok(Selection { difficulty: Difficulty::Medium, recognized: false }),
        },
        Err(e) => Err(GameError::ParseError(e)),
    }
}

/// Reads an answer to the difficulty menu as typed, after trimming it.
pub fn select_difficulty(line: &str) -> (r: Result<Selection, GameError>)
    ensures
        trimmed(line@) == "q"@ ==> r is Err && r->Err_0 is EarlyQuit,
        trimmed(line@) != "q"@ && i32_text(trimmed(line@)) is None ==> r is Err && r->Err_0 is ParseError,
        trimmed(line@) != "q"@ && i32_text(trimmed(line@)) is Some ==> r == Ok::<Selection, GameError>(
            selection_of(i32_text(trimmed(line@))->0 as int),
        ),
{
    selection_from_text(trim(line))
}

/// What a trimmed, lowercased answer to "keep playing?" means: `Some(true)`
/// for another round, `Some(false)` to stop, `None` to ask again.
pub open spec fn answer_of(text: Seq<char>) -> Option<bool> {
    if text == "y"@ || text == "yes"@ {
        Some(true)
    } else if text == "n"@ || text == "no"@ || text == "q"@ {
        Some(false)
    } else {
        None
    }
}

/// Reads a trimmed, lowercased answer to "keep playing?".
pub fn answer_from_text(text: &str) -> (r: Option<bool>)
    ensures
        r == answer_of(text@),
{
    if same_text(text, "y") || same_text(text, "yes") {
        Some(true)
    } else if same_text(text, "n") || same_text(text, "no") || same_text(text, "q") {
        Some(false)
    } else {
        None
    }
}

/// Reads an answer to "keep playing?" as typed: trimmed, then lowercased.
pub fn keep_playing(line: &str) -> (r: Option<bool>)
    ensures
        r == answer_of(lowered(trimmed(line@))),
{
    let text = to_lowercase(trim(line));
    answer_from_text(text.as_str())
}

/// What follows an answer to "keep playing?".
#[derive(Clone, Copy, Debug, PartialEq, Eq, Structural)]
pub enum Next {
    /// The answer was not understood: ask again.
    AskAgain,
    /// The player is done.
    Stop,
    /// A new round was set up; the best score so far, if any round was won.
    Replay { best: Option<u32> },
}

/// Acts on an answer to "keep playing?": another round resets the session's
/// count and secret and reports the best score; stopping or an answer that is
/// not understood leaves the session as it is.
pub fn after_round(game: &mut Game, line: &str) -> (r: Next)
    ensures
        match answer_of(lowered(trimmed(line@))) {
            None => r == Next::AskAgain && final(game)@ == old(game)@,
            Some(false) => r == Next::Stop && final(game)@ == old(game)@,
            Some(true) => {
                &&& r == (Next::Replay { best: best_of(old(game)@.scores) })
                &&& final(game)@.wf()
                &&& final(game)@ == (GameView { guesses: 0, secret: final(game)@.secret, ..old(game)@ })
            },
        },
{
    match keep_playing(line) {
        None => Next::AskAgain,
        Some(false) => Next::Stop,
        Some(true) => {
            game.reset();
            Next::Replay { best: game.best_score() }
        },
    }
}

} // verus!
