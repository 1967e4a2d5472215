//! What can end a session before the player declines another round.

use vstd::prelude::*;

verus! {

/// `std::time::SystemTimeError`, carried opaque in `GameError::TimeError`.
#[verifier::external_type_specification]
#[verifier::external_body]
pub struct ExSystemTimeError(std::time::SystemTimeError);

/// `std::io::Error`, carried opaque in `GameError::IoError`.
#[verifier::external_type_specification]
#[verifier::external_body]
pub struct ExIoError(std::io::Error);

/// Why a session stopped early.
#[derive(Debug)]
pub enum GameError {
    /// The player typed the quit word: an intended stop, not a failure.
    EarlyQuit,
    /// The clock went back while a round was timed.
    TimeError(std::time::SystemTimeError),
    /// The difficulty choice was not an integer.
    ParseError(std::num::ParseIntError),
    /// The console gave no line.
    IoError(std::io::Error),
}

impl From<std::num::ParseIntError> for GameError {
    fn from(error: std::num::ParseIntError) -> (r: GameError)
        ensures
            r == GameError::ParseError(error),
    {
        GameError::ParseError(error)
    }
}

impl vstd::std_specs::convert::FromSpecImpl<std::num::ParseIntError> for GameError {
    open spec fn obeys_from_spec() -> bool {
        true
    }

    open spec fn from_spec(v: std::num::ParseIntError) -> GameError {
        GameError::ParseError(v)
    }
}

impl From<std::io::Error> for GameError {
    fn from(error: std::io::Error) -> (r: GameError)
        ensures
            r == GameError::IoError(error),
    {
        GameError::IoError(error)
    }
}

impl vstd::std_specs::convert::FromSpecImpl<std::io::Error> for GameError {
    open spec fn obeys_from_spec() -> bool {
        true
    }

    open spec fn from_spec(v: std::io::Error) -> GameError {
        GameError::IoError(v)
    }
}

impl From<std::time::SystemTimeError> for GameError {
    fn from(error: std::time::SystemTimeError) -> (r: GameError)
        ensures
            r == GameError::TimeError(error),
    {
        GameError::TimeError(error)
    }
}

impl vstd::std_specs::convert::FromSpecImpl<std::time::SystemTimeError> for GameError {
    open spec fn obeys_from_spec() -> bool {
        true
    }

    open spec fn from_spec(v: std::time::SystemTimeError) -> GameError {
        GameError::TimeError(v)
    }
}

} // verus!
