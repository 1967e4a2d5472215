use std::time::{Duration, SystemTime, UNIX_EPOCH};

use number_guessing::error::GameError;
use number_guessing::game::{judge, Difficulty, Game, Step, Verdict};
use number_guessing::prompt::{
    after_round, answer_from_text, difficulty_for, keep_playing, select_difficulty, selection_from_text,
    Next, Selection,
};
use number_guessing::text::same_text;

fn game_at(difficulty: Difficulty, secret: i32) -> Game {
    let mut game = Game::new();
    game.change_difficulty(difficulty);
    game.restart_with(secret);
    game
}

#[test]
fn hard_round_exhausted_after_three_misses() {
    let mut game = game_at(Difficulty::Hard, 42);
    assert_eq!(game.max_attempts(), Some(3));
    assert_eq!(
        game.play_line("10"),
        Step::Miss { guess: 10, verdict: Verdict::Greater, exhausted: false }
    );
    assert_eq!(
        game.play_line("90"),
        Step::Miss { guess: 90, verdict: Verdict::Less, exhausted: false }
    );
    assert_eq!(
        game.play_line("50"),
        Step::Miss { guess: 50, verdict: Verdict::Less, exhausted: true }
    );
    assert!(game.is_over());
    assert_eq!(game.secret(), 42);
    assert!(game.scores().is_empty());
}

#[test]
fn medium_round_won_at_first_guess() {
    let mut game = game_at(Difficulty::Medium, 7);
    assert_eq!(game.play_line("7"), Step::Won { attempts: 1 });
    assert_eq!(game.guesses(), 1);
    assert!(game.scores().is_empty());
    assert_eq!(game.record_win(Ok(Duration::from_secs(12))).unwrap(), 12);
    assert_eq!(game.scores(), &vec![1u32]);
    assert_eq!(game.best_score(), Some(1));
}

#[test]
fn continue_prompt_retries_then_accepts() {
    assert_eq!(keep_playing("maybe"), None);
    assert_eq!(keep_playing("Y"), Some(true));
}

#[test]
fn continue_prompt_answers() {
    assert_eq!(keep_playing(" yes \n"), Some(true));
    assert_eq!(keep_playing("YES"), Some(true));
    assert_eq!(keep_playing("n"), Some(false));
    assert_eq!(keep_playing("No"), Some(false));
    assert_eq!(keep_playing("Q\n"), Some(false));
    assert_eq!(keep_playing(""), None);
    assert_eq!(answer_from_text("Y"), None);
    assert_eq!(answer_from_text("y"), Some(true));
}

#[test]
fn unlimited_round_never_over() {
    let mut game = game_at(Difficulty::Journalist, 100);
    assert_eq!(game.max_attempts(), None);
    for _ in 0..50 {
        assert_eq!(
            game.play_line("1"),
            Step::Miss { guess: 1, verdict: Verdict::Greater, exhausted: false }
        );
        assert!(!game.is_over());
    }
    assert_eq!(game.guesses(), 50);
}

#[test]
fn easy_round_budget_is_ten() {
    let mut game = game_at(Difficulty::Easy, 1);
    assert_eq!(game.max_attempts(), Some(10));
    for i in 1..10u32 {
        assert_eq!(
            game.play_line("2"),
            Step::Miss { guess: 2, verdict: Verdict::Less, exhausted: false }
        );
        assert_eq!(game.guesses(), i);
    }
    assert_eq!(
        game.play_line("3"),
        Step::Miss { guess: 3, verdict: Verdict::Less, exhausted: true }
    );
}

#[test]
fn verdict_relative_to_guess() {
    assert_eq!(judge(5, 5), Verdict::Correct);
    assert_eq!(judge(60, 40), Verdict::Less);
    assert_eq!(judge(20, 40), Verdict::Greater);
    assert_eq!(judge(i32::MIN, i32::MAX), Verdict::Greater);
}

#[test]
fn malformed_guess_counts_nothing() {
    let mut game = game_at(Difficulty::Hard, 30);
    assert_eq!(game.play_line("abc"), Step::Invalid);
    assert_eq!(game.play_line(""), Step::Invalid);
    assert_eq!(game.play_line("3.5"), Step::Invalid);
    assert_eq!(game.play_line("99999999999"), Step::Invalid);
    assert_eq!(game.guesses(), 0);
    assert_eq!(
        game.play_line("  +25 \n"),
        Step::Miss { guess: 25, verdict: Verdict::Greater, exhausted: false }
    );
    assert_eq!(game.guesses(), 1);
}

#[test]
fn quit_word_during_round() {
    let mut game = game_at(Difficulty::Medium, 30);
    assert_eq!(game.play_line("q\n"), Step::Quit);
    assert_eq!(game.play_line("Q"), Step::Invalid);
    assert_eq!(game.guesses(), 0);
    assert!(game.scores().is_empty());
}

#[test]
fn scores_and_best_across_rounds() {
    let mut game = game_at(Difficulty::Medium, 50);
    assert_eq!(game.best_score(), None);
    assert_eq!(game.play_line("20"), Step::Miss { guess: 20, verdict: Verdict::Greater, exhausted: false });
    assert_eq!(game.play_line("50"), Step::Won { attempts: 2 });
    game.finish_win().unwrap();
    game.restart_with(10);
    assert_eq!(game.play_line("10"), Step::Won { attempts: 1 });
    game.finish_win().unwrap();
    game.restart_with(80);
    for _ in 0..4 {
        game.play_line("1");
    }
    assert_eq!(game.play_line("80"), Step::Won { attempts: 5 });
    game.finish_win().unwrap();
    game.restart_with(3);
    for _ in 0..5 {
        game.play_line("4");
    }
    assert!(game.is_over());
    assert_eq!(game.scores(), &vec![2u32, 1, 5]);
    assert_eq!(game.best_score(), Some(1));
}

#[test]
fn reset_draws_in_range_and_clears_count() {
    let mut game = game_at(Difficulty::Hard, 42);
    game.play_line("1");
    game.play_line("2");
    game.play_line("42");
    game.finish_win().unwrap();
    let started = game.started();
    for _ in 0..200 {
        game.reset();
        assert_eq!(game.guesses(), 0);
        assert!((1..=100).contains(&game.secret()));
        assert_eq!(game.difficulty(), Difficulty::Hard);
        assert_eq!(game.scores(), &vec![3u32]);
        assert_eq!(game.started(), started);
    }
    let mut fresh = Game::new();
    assert_eq!(fresh.difficulty(), Difficulty::Medium);
    assert_eq!(fresh.guesses(), 0);
    assert!((1..=100).contains(&fresh.secret()));
    fresh.gen_number();
    assert!((1..=100).contains(&fresh.secret()));
}

#[test]
fn set_number_keeps_count() {
    let mut game = game_at(Difficulty::Easy, 9);
    game.play_line("1");
    game.set_number(77);
    assert_eq!(game.secret(), 77);
    assert_eq!(game.guesses(), 1);
}

#[test]
fn difficulty_menu() {
    assert_eq!(difficulty_for(0), Some(Difficulty::Journalist));
    assert_eq!(difficulty_for(1), Some(Difficulty::Easy));
    assert_eq!(difficulty_for(2), Some(Difficulty::Medium));
    assert_eq!(difficulty_for(3), Some(Difficulty::Hard));
    assert_eq!(difficulty_for(4), None);
    assert_eq!(difficulty_for(-1), None);
    assert_eq!(
        select_difficulty(" 3\n").unwrap(),
        Selection { difficulty: Difficulty::Hard, recognized: true }
    );
    assert_eq!(
        select_difficulty("0").unwrap(),
        Selection { difficulty: Difficulty::Journalist, recognized: true }
    );
    assert_eq!(
        select_difficulty("17").unwrap(),
        Selection { difficulty: Difficulty::Medium, recognized: false }
    );
}

#[test]
fn difficulty_menu_errors() {
    assert!(matches!(select_difficulty("q\n"), Err(GameError::EarlyQuit)));
    assert!(matches!(select_difficulty("hard"), Err(GameError::ParseError(_))));
    assert!(matches!(selection_from_text(" 2"), Err(GameError::ParseError(_))));
    assert!(matches!(select_difficulty(""), Err(GameError::ParseError(_))));
}

#[test]
fn text_helpers() {
    let mut game = game_at(Difficulty::Journalist, 50);
    assert_eq!(game.play_line("\t-12 \n"), Step::Miss { guess: -12, verdict: Verdict::Greater, exhausted: false });
    assert_eq!(game.play_line("+7"), Step::Miss { guess: 7, verdict: Verdict::Greater, exhausted: false });
    assert_eq!(game.play_line("-"), Step::Invalid);
    assert_eq!(game.play_line("2147483648"), Step::Invalid);
    assert_eq!(
        game.play_line("2147483647"),
        Step::Miss { guess: i32::MAX, verdict: Verdict::Less, exhausted: false }
    );
    assert_eq!(keep_playing("  YeS\t"), Some(true));
    assert!(same_text("h\u{e9}llo", "h\u{e9}llo"));
    assert!(!same_text("hello", "hell"));
    assert!(!same_text("abc", "abd"));
}

#[test]
fn timing_a_round() {
    let mut game = Game::new();
    game.start_round();
    assert_eq!(game.play_line(&game.secret().to_string()), Step::Won { attempts: 1 });
    let secs = game.finish_win().unwrap();
    assert!(secs < 5);
    assert_eq!(game.scores(), &vec![1u32]);
}

#[test]
fn round_start_is_kept_until_restarted() {
    let t = UNIX_EPOCH + Duration::from_secs(1_000);
    let mut game = game_at(Difficulty::Easy, 40);
    game.start_round_at(t);
    game.change_difficulty(Difficulty::Hard);
    game.gen_number();
    game.reset();
    game.restart_with(12);
    assert_eq!(game.started(), t);
    assert_eq!(game.difficulty(), Difficulty::Hard);
    game.start_round();
    assert!(game.started() > t);
}

#[test]
fn failed_timing_records_nothing() {
    let mut game = game_at(Difficulty::Medium, 20);
    assert_eq!(game.play_line("20"), Step::Won { attempts: 1 });
    let backwards = UNIX_EPOCH.duration_since(UNIX_EPOCH + Duration::from_secs(5));
    assert!(matches!(game.record_win(backwards), Err(GameError::TimeError(_))));
    assert!(game.scores().is_empty());
    assert_eq!(game.best_score(), None);

    let mut late = game_at(Difficulty::Medium, 20);
    late.start_round_at(SystemTime::now() + Duration::from_secs(3_600));
    assert_eq!(late.play_line("20"), Step::Won { attempts: 1 });
    assert!(matches!(late.finish_win(), Err(GameError::TimeError(_))));
    assert!(late.scores().is_empty());
}

#[test]
fn error_conversions() {
    let parse = "x".parse::<i32>().unwrap_err();
    assert!(matches!(GameError::from(parse), GameError::ParseError(_)));
    let io = std::io::Error::new(std::io::ErrorKind::UnexpectedEof, "closed");
    assert!(matches!(GameError::from(io), GameError::IoError(_)));
    let time = UNIX_EPOCH.duration_since(UNIX_EPOCH + Duration::from_secs(1)).unwrap_err();
    assert!(matches!(GameError::from(time), GameError::TimeError(_)));
}

#[test]
fn after_round_transitions() {
    let mut game = game_at(Difficulty::Hard, 42);
    game.play_line("42");
    game.finish_win().unwrap();
    assert_eq!(after_round(&mut game, "maybe\n"), Next::AskAgain);
    assert_eq!(game.guesses(), 1);
    assert_eq!(game.secret(), 42);
    assert_eq!(after_round(&mut game, "N"), Next::Stop);
    assert_eq!(game.guesses(), 1);
    assert_eq!(after_round(&mut game, "Yes\n"), Next::Replay { best: Some(1) });
    assert_eq!(game.guesses(), 0);
    assert_eq!(game.difficulty(), Difficulty::Hard);
    assert!((1..=100).contains(&game.secret()));

    let mut fresh = game_at(Difficulty::Easy, 5);
    fresh.play_line("1");
    assert_eq!(after_round(&mut fresh, "y"), Next::Replay { best: None });
}
