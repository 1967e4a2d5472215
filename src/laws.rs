//! Properties of the game's rules that hold for all inputs.

use vstd::prelude::*;

use crate::game::{after_guess, after_line, best_of, recorded, verdict_of, Difficulty, GameView, Step, Verdict};
use crate::text::i32_text;

verus! {

/// With a finite budget, a wrong guess ends the round exactly when it is the
/// attempt that reaches the budget, and never on an earlier attempt.
pub proof fn exhausted_exactly_at_budget(v: GameView, g: i32)
    requires
        v.difficulty.limit() is Some,
        v.guesses < v.difficulty.limit()->0,
        verdict_of(g as int, v.secret) != Verdict::Correct,
    ensures
        after_guess(v, g).1 is Miss,
        after_guess(v, g).1->exhausted <==> v.guesses + 1 == v.difficulty.limit()->0,
{
}

/// At the unlimited difficulty a round is never over, whatever the count.
pub proof fn unlimited_never_over(v: GameView)
    requires
        v.difficulty == Difficulty::Journalist,
    ensures
        !v.over(),
{
}

/// Exactly one verdict applies to a guess, and it says where the secret lies
/// relative to the guess: a guess above the secret hears "less", one below
/// hears "greater".
pub proof fn verdict_total(guess: int, secret: int)
    ensures
        (verdict_of(guess, secret) == Verdict::Correct) == (guess == secret),
        (verdict_of(guess, secret) == Verdict::Less) == (guess > secret),
        (verdict_of(guess, secret) == Verdict::Greater) == (guess < secret),
{
}

/// Playing a line never touches the scores by itself: a miss, a line that is
/// no integer and the quit word add nothing, and a win adds exactly its
/// attempt count, once, when the round is closed.
pub proof fn scores_grow_only_on_win(v: GameView, text: Seq<char>)
    ensures
        after_line(v, text).0.scores == v.scores,
        after_line(v, text).1 is Won ==> recorded(after_line(v, text).0).scores == v.scores.push(
            after_line(v, text).1->attempts,
        ),
{
}

/// The best score is absent exactly when there is no score, and otherwise is
/// a recorded score no greater than any other.
pub proof fn best_is_minimum(s: Seq<u32>)
    ensures
        best_of(s) is None <==> s.len() == 0,
        best_of(s) is Some ==> s.contains(best_of(s)->0),
        best_of(s) is Some ==> forall|i: int| 0 <= i < s.len() ==> best_of(s)->0 <= #[trigger] s[i],
    decreases s.len(),
{
    if s.len() > 0 {
        let t = s.drop_last();
        best_is_minimum(t);
        assert(s =~= t.push(s.last()));
        if best_of(t) is Some {
            assert(t.contains(best_of(t)->0));
            let j = choose|j: int| 0 <= j < t.len() && t[j] == best_of(t)->0;
            assert(s[j] == t[j]);
        }
        assert(s[s.len() - 1] == s.last());
        assert forall|i: int| 0 <= i < s.len() implies best_of(s)->0 <= #[trigger] s[i] by {
            if i < s.len() - 1 {
                assert(s[i] == t[i]);
            }
        }
    }
}

/// A line that is neither the quit word nor an integer changes nothing and
/// keeps the round going.
pub proof fn malformed_guess_changes_nothing(v: GameView, text: Seq<char>)
    requires
        text != "q"@,
        i32_text(text) is None,
    ensures
        after_line(v, text) == (v, Step::Invalid),
{
}

} // verus!
