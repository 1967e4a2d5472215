//! The state of a session and the rules of a round.

use rand::Rng;
use std::time::{Duration, SystemTime, SystemTimeError};
use vstd::prelude::*;

use crate::error::GameError;
use crate::text::{i32_text, parse_i32, same_text, trim};

verus! {

/// The lowest secret number.
pub const LOWEST: i32 = 1;

/// The highest secret number.
pub const HIGHEST: i32 = 100;

/// How many attempts a round allows.
#[derive(Clone, Copy, Debug, PartialEq, Eq, Structural)]
pub enum Difficulty {
    /// No limit on attempts.
    Journalist,
    /// Ten attempts.
    Easy,
    /// Five attempts.
    Medium,
    /// Three attempts.
    Hard,
}

impl Difficulty {
    /// The attempt budget, or `None` where attempts are unlimited.
    pub open spec fn limit(self) -> Option<nat> {
        match self {
            Difficulty::Journalist => None,
            Difficulty::Easy => Some(10),
            Difficulty::Medium => Some(5),
            Difficulty::Hard => Some(3),
        }
    }
}

/// How a guess compares with the secret.
#[derive(Clone, Copy, Debug, PartialEq, Eq, Structural)]
pub enum Verdict {
    /// The guess is the secret.
    Correct,
    /// The secret is less than the guess.
    Less,
    /// The secret is greater than the guess.
    Greater,
}

/// Where the secret lies relative to the guess.
pub open spec fn verdict_of(guess: int, secret: int) -> Verdict {
    if guess == secret {
        Verdict::Correct
    } else if guess > secret {
        Verdict::Less
    } else {
        Verdict::Greater
    }
}

/// Compares a guess with the secret; the verdict says where the secret lies
/// relative to the guess.
pub fn judge(guess: i32, secret: i32) -> (r: Verdict)
    ensures
        r == verdict_of(guess as int, secret as int),
{
    if guess == secret {
        Verdict::Correct
    } else if guess > secret {
        Verdict::Less
    } else {
        Verdict::Greater
    }
}

/// What one line typed during a round led to.
#[derive(Clone, Copy, Debug, PartialEq, Eq, Structural)]
pub enum Step {
    /// The player typed the quit word.
    Quit,
    /// The line was no integer; nothing was counted.
    Invalid,
    /// A wrong guess, with its verdict, and whether it used up the budget.
    Miss { guess: i32, verdict: Verdict, exhausted: bool },
    /// The secret was found with this many attempts.
    Won { attempts: u32 },
}

/// The abstract state of a session.
pub ghost struct GameView {
    pub difficulty: Difficulty,
    pub guesses: nat,
    pub secret: int,
    pub scores: Seq<u32>,
    pub started: SystemTime,
}

impl GameView {
    /// The secret lies in the range that rounds draw from.
    pub open spec fn wf(self) -> bool {
        LOWEST <= self.secret <= HIGHEST
    }

    /// The round's budget is set and used up.
    pub open spec fn over(self) -> bool {
        match self.difficulty.limit() {
            Some(l) => self.guesses >= l,
            None => false,
        }
    }
}

/// The lowest of a sequence of scores, or `None` if it is empty.
pub open spec fn best_of(s: Seq<u32>) -> Option<u32>
    decreases s.len(),
{
    if s.len() == 0 {
        None
    } else {
        match best_of(s.drop_last()) {
            None => Some(s.last()),
            Some(b) => Some(if s.last() < b { s.last() } else { b }),
        }
    }
}

/// The state and result after a parsed guess `g`.
pub open spec fn after_guess(v: GameView, g: i32) -> (GameView, Step) {
    let n = v.guesses + 1;
    let verdict = verdict_of(g as int, v.secret);
    if verdict == Verdict::Correct {
        (GameView { guesses: n, ..v }, Step::Won { attempts: n as u32 })
    } else {
        let w = GameView { guesses: n, ..v };
        (w, Step::Miss { guess: g, verdict, exhausted: w.over() })
    }
}

/// The state after a won round's attempt count is added to the scores.
pub open spec fn recorded(v: GameView) -> GameView {
    GameView { scores: v.scores.push(v.guesses as u32), ..v }
}

/// The state and result after a trimmed line `text` typed during a round.
pub open spec fn after_line(v: GameView, text: Seq<char>) -> (GameView, Step) {
    if text == "q"@ {
        (v, Step::Quit)
    } else {
        match i32_text(text) {
            None => (v, Step::Invalid),
            Some(g) => after_guess(v, g),
        }
    }
}

/// `std::time::SystemTime`, held opaque as the start of a round.
#[verifier::external_type_specification]
#[verifier::external_body]
pub struct ExSystemTime(std::time::SystemTime);

/// Relies on `SystemTime::now`: the current time of the system clock.
/// Nothing is promised of the value.
#[verifier::external_body]
fn now() -> SystemTime {
    SystemTime::now()
}

/// Relies on `SystemTime::elapsed`: the time passed since `t`, or an error
/// where the clock now reads earlier than `t`. Nothing is promised of the value.
#[verifier::external_body]
fn elapsed_since(t: &SystemTime) -> Result<Duration, SystemTimeError> {
    t.elapsed()
}

/// Relies on `Duration::as_secs`: the whole seconds of a duration. The type is
/// opaque here, so nothing is stated of the value.
pub assume_specification[ core::time::Duration::as_secs ](d: &core::time::Duration) -> u64;

/// Relies on rand's `thread_rng` and `Rng::gen_range` over `lo..=hi`: a value
/// from `lo` to `hi`, both included (the call panics on an empty range).
#[verifier::external_body]
fn random_between(lo: i32, hi: i32) -> (r: i32)
    requires
        lo <= hi,
    ensures
        lo <= r <= hi,
{
    rand::thread_rng().gen_range(lo..=hi)
}

/// A session: the difficulty, the current round's secret and attempt count,
/// the winning scores so far, and when the round began.
#[derive(Debug)]
pub struct Game {
    difficulty: Difficulty,
    guesses: u32,
    number: i32,
    scores: Vec<u32>,
    started: SystemTime,
}

impl View for Game {
    type V = GameView;

    closed spec fn view(&self) -> GameView {
        GameView {
            difficulty: self.difficulty,
            guesses: self.guesses as nat,
            secret: self.number as int,
            scores: self.scores@,
            started: self.started,
        }
    }
}

impl Game {
    /// A session at the default difficulty, with a freshly drawn secret,
    /// no attempts and no scores.
    pub fn new() -> (r: Game)
        ensures
            r@.wf(),
            r@.difficulty == Difficulty::Medium,
            r@.guesses == 0,
            r@.scores == Seq::<u32>::empty(),
    {
        let number = random_between(LOWEST, HIGHEST);
        Game { difficulty: Difficulty::Medium, guesses: 0, number, scores: Vec::new(), started: now() }
    }

    /// The difficulty in force.
    pub fn difficulty(&self) -> (r: Difficulty)
        ensures
            r == self@.difficulty,
    {
        self.difficulty
    }

    /// The attempts made in the current round.
    pub fn guesses(&self) -> (r: u32)
        ensures
            r == self@.guesses,
    {
        self.guesses
    }

    /// The current round's secret.
    pub fn secret(&self) -> (r: i32)
        ensures
            r == self@.secret,
    {
        self.number
    }

    /// The winning attempt counts, oldest first.
    pub fn scores(&self) -> (r: &Vec<u32>)
        ensures
            r@ == self@.scores,
    {
        &self.scores
    }

    /// Sets the secret to `number`, leaving the rest as it is.
    pub fn set_number(&mut self, number: i32)
        requires
            LOWEST <= number <= HIGHEST,
        ensures
            final(self)@ == (GameView { secret: number as int, ..old(self)@ }),
    {
        self.number = number;
    }

    /// Draws a new secret from 1 to 100, leaving the rest as it is.
    pub fn gen_number(&mut self)
        ensures
            final(self)@.wf(),
            final(self)@ == (GameView { secret: final(self)@.secret, ..old(self)@ }),
    {
        let number = random_between(LOWEST, HIGHEST);
        self.set_number(number);
    }

    /// Replaces the difficulty, leaving the rest as it is.
    pub fn change_difficulty(&mut self, difficulty: Difficulty)
        ensures
            final(self)@ == (GameView { difficulty, ..old(self)@ }),
    {
        self.difficulty = difficulty;
    }

    /// The attempt budget of the difficulty in force, `None` where unlimited.
    pub fn max_attempts(&self) -> (r: Option<u32>)
        ensures
            match self@.difficulty.limit() {
                Some(l) => r == Some(l as u32),
                None => r is None,
            },
    {
        match self.difficulty {
            Difficulty::Journalist => None,
            Difficulty::Easy => Some(10),
            Difficulty::Medium => Some(5),
            Difficulty::Hard => Some(3),
        }
    }

    /// Whether the round's budget is set and used up.
    pub fn is_over(&self) -> (r: bool)
        ensures
            r == self@.over(),
    {
        match self.max_attempts() {
            Some(max_attempts) => self.guesses >= max_attempts,
            None => false,
        }
    }

    /// Starts a new round with the secret `number`: no attempts yet; the
    /// difficulty and the scores stay.
    pub fn restart_with(&mut self, number: i32)
        requires
            LOWEST <= number <= HIGHEST,
        ensures
            final(self)@ == (GameView { guesses: 0, secret: number as int, ..old(self)@ }),
    {
        self.guesses = 0;
        self.set_number(number);
    }

    /// Starts a new round with a freshly drawn secret from 1 to 100: no
    /// attempts yet; the difficulty and the scores stay.
    pub fn reset(&mut self)
        ensures
            final(self)@.wf(),
            final(self)@ == (GameView { guesses: 0, secret: final(self)@.secret, ..old(self)@ }),
    {
        let number = random_between(LOWEST, HIGHEST);
        self.restart_with(number);
    }

    /// The lowest winning attempt count so far, `None` before the first win.
    pub fn best_score(&self) -> (r: Option<u32>)
        ensures
            r == best_of(self@.scores),
    {
        let mut best: Option<u32> = None;
        let mut i: usize = 0;
        while i < self.scores.len()
            invariant
                i <= self.scores@.len(),
                best == best_of(self.scores@.take(i as int)),
            decreases self.scores@.len() - i,
        {
            let s = self.scores[i];
            assert(self.scores@.take(i + 1).drop_last() =~= self.scores@.take(i as int));
            best = match best {
                None => Some(s),
                Some(b) => Some(if s < b { s } else { b }),
            };
            i = i + 1;
        }
        assert(self.scores@.take(i as int) =~= self.scores@);
        best
    }

    /// The time the round's timing started.
    pub fn started(&self) -> (r: SystemTime)
        ensures
            r == self@.started,
    {
        self.started
    }

    /// Starts the round's timing at `t`, leaving the rest as it is.
    pub fn start_round_at(&mut self, t: SystemTime)
        ensures
            final(self)@ == (GameView { started: t, ..old(self)@ }),
    {
        self.started = t;
    }

    /// Starts the round's timing now, leaving the rest as it is.
    pub fn start_round(&mut self)
        ensures
            final(self)@ == (GameView { started: final(self)@.started, ..old(self)@ }),
    {
        let t = now();
        self.start_round_at(t);
    }

    /// Closes a won round given the time it took: where the clock gave a
    /// duration, the attempt count joins the scores and the whole seconds are
    /// returned; where it failed, the session is left as it is and the error
    /// becomes `TimeError`.
    pub fn record_win(&mut self, t: Result<Duration, SystemTimeError>) -> (r: Result<u64, GameError>)
        ensures
            r is Ok <==> t is Ok,
            t is Ok ==> final(self)@ == recorded(old(self)@),
            t is Err ==> final(self)@ == old(self)@ && r->Err_0 is TimeError,
    {
        match t {
            Ok(d) => {
                self.scores.push(self.guesses);
                Ok(d.as_secs())
            },
            Err(e) => Err(GameError::TimeError(e)),
        }
    }

    /// Closes a won round, timed from the round's start by the system clock:
    /// either the count joins the scores and the whole seconds come back, or
    /// the clock went back, nothing changes and `TimeError` comes back.
    pub fn finish_win(&mut self) -> (r: Result<u64, GameError>)
        ensures
            r is Ok ==> final(self)@ == recorded(old(self)@),
            r is Err ==> final(self)@ == old(self)@ && r->Err_0 is TimeError,
    {
        let t = elapsed_since(&self.started);
        self.record_win(t)
    }

    /// Plays a guess `g` already read as an integer: counts the attempt,
    /// and compares it with the secret; a win is recorded by `record_win`.
    pub fn play_guess(&mut self, g: i32) -> (r: Step)
        requires
            old(self)@.guesses < u32::MAX,
        ensures
            (final(self)@, r) == after_guess(old(self)@, g),
    {
        self.guesses = self.guesses + 1;
        let verdict = judge(g, self.number);
        match verdict {
            Verdict::Correct => Step::Won { attempts: self.guesses },
            _ => Step::Miss { guess: g, verdict, exhausted: self.is_over() },
        }
    }

    /// Plays one trimmed line of a round: the quit word quits, a line that is
    /// no integer changes nothing, an integer is played as a guess.
    pub fn play_text(&mut self, text: &str) -> (r: Step)
        requires
            old(self)@.guesses < u32::MAX,
        ensures
            (final(self)@, r) == after_line(old(self)@, text@),
    {
        if same_text(text, "q") {
            return Step::Quit;
        }
        match parse_i32(text) {
            Ok(g) => self.play_guess(g),
            Err(_) => Step::Invalid,
        }
    }

    /// Plays one line as typed during a round, after trimming it.
    pub fn play_line(&mut self, line: &str) -> (r: Step)
        requires
            old(self)@.guesses < u32::MAX,
        ensures
            (final(self)@, r) == after_line(old(self)@, crate::text::trimmed(line@)),
    {
        let text = trim(line);
        self.play_text(text)
    }
}

} // verus!
