use hangman::difficulty::{get_tries_for_difficulty, word_length_matches};
use hangman::render::{display_word, hangman_figure, hangman_stage};
use hangman::round::{GuessOutcome, GuessState, RoundStatus};
use hangman::select::select_word_by_difficulty;
use hangman::session::{menu_action, wants_replay, MenuAction};

#[test]
fn budget_table_is_fixed() {
    assert_eq!(get_tries_for_difficulty(1), 12);
    assert_eq!(get_tries_for_difficulty(2), 9);
    assert_eq!(get_tries_for_difficulty(3), 6);
}

#[test]
fn length_buckets_partition() {
    // Easy: at most 5 letters.
    assert!(word_length_matches(1, 1));
    assert!(word_length_matches(1, 5));
    assert!(!word_length_matches(1, 6));
    // Medium: 6 to 8 letters.
    assert!(!word_length_matches(2, 5));
    assert!(word_length_matches(2, 6));
    assert!(word_length_matches(2, 8));
    assert!(!word_length_matches(2, 9));
    // Hard: 9 letters or more.
    assert!(!word_length_matches(3, 8));
    assert!(word_length_matches(3, 9));
    assert!(word_length_matches(3, 40));
    // Every length lands in exactly one bucket.
    for len in 0..30 {
        let hits = [1u8, 2, 3]
            .iter()
            .filter(|&&d| word_length_matches(d, len))
            .count();
        assert_eq!(hits, 1, "length {} must fall in exactly one bucket", len);
    }
}

#[test]
fn selection_respects_bucket_and_catalog() {
    let catalog: Vec<String> = vec![
        "cat".to_string(),
        "house".to_string(),
        "astronomy".to_string(),
        "grammar".to_string(),
    ];
    for difficulty in 1u8..=3 {
        for _ in 0..20 {
            let w = select_word_by_difficulty(&catalog, difficulty);
            assert!(catalog.contains(&w));
            assert!(word_length_matches(difficulty, w.chars().count()));
        }
    }
}

#[test]
fn selection_hard_picks_the_only_long_word() {
    let catalog: Vec<String> = vec![
        "cat".to_string(),
        "house".to_string(),
        "astronomy".to_string(),
    ];
    // "house" (5 letters) and "cat" (3) both fit Easy; only "astronomy" fits Hard.
    let w = select_word_by_difficulty(&catalog, 3);
    assert_eq!(w, "astronomy");
}

#[test]
fn masked_word_hides_unguessed_letters() {
    let guessed = vec!['c'];
    assert_eq!(display_word("cat", &guessed), "c _ _");
    let none: Vec<char> = vec![];
    assert_eq!(display_word("cat", &none), "_ _ _");
    assert_eq!(display_word("", &none), "");
}

#[test]
fn masked_word_complete_shows_the_word() {
    let guessed = vec!['c', 'a', 't'];
    assert_eq!(display_word("cat", &guessed), "c a t");
    // Repeated letters in the word are all revealed by one guessed letter.
    let guessed = vec!['o', 'd', 'r'];
    assert_eq!(display_word("odor", &guessed), "o d o r");
}

#[test]
fn repeated_guess_changes_nothing() {
    let mut round = GuessState::new("cat".to_string(), 12);
    assert_eq!(round.submit_guess('x'), GuessOutcome::Wrong);
    assert_eq!(round.tries_left(), 11);
    assert_eq!(round.guessed_letters().len(), 1);
    // The same wrong letter again: rejected, no try consumed, set unchanged.
    assert_eq!(round.submit_guess('x'), GuessOutcome::AlreadyGuessed);
    assert_eq!(round.tries_left(), 11);
    assert_eq!(round.guessed_letters().len(), 1);
    // A correct letter repeated: same rejection.
    assert_eq!(round.submit_guess('c'), GuessOutcome::Good);
    assert_eq!(round.submit_guess('c'), GuessOutcome::AlreadyGuessed);
    assert_eq!(round.tries_left(), 11);
    assert_eq!(round.guessed_letters().len(), 2);
}

#[test]
fn tries_decrease_only_on_wrong_new_letters() {
    let mut round = GuessState::new("cat".to_string(), 12);
    assert_eq!(round.tries_left(), 12);
    assert_eq!(round.submit_guess('c'), GuessOutcome::Good);
    assert_eq!(round.tries_left(), 12);
    assert_eq!(round.submit_guess('z'), GuessOutcome::Wrong);
    assert_eq!(round.tries_left(), 11);
    assert_eq!(round.submit_guess('3'), GuessOutcome::NotALetter);
    assert_eq!(round.tries_left(), 11);
    assert_eq!(round.submit_guess('z'), GuessOutcome::AlreadyGuessed);
    assert_eq!(round.tries_left(), 11);
}

#[test]
fn rejected_input_consumes_nothing() {
    let mut round = GuessState::new("cat".to_string(), 6);
    assert_eq!(round.submit_guess(' '), GuessOutcome::NotALetter);
    assert_eq!(round.submit_guess('7'), GuessOutcome::NotALetter);
    assert_eq!(round.submit_guess('A'), GuessOutcome::NotALetter);
    assert_eq!(round.tries_left(), 6);
    assert_eq!(round.guessed_letters().len(), 0);
    assert_eq!(round.status(), RoundStatus::InProgress);
}

#[test]
fn round_is_won_exactly_when_all_letters_are_guessed() {
    let mut round = GuessState::new("odor".to_string(), 6);
    assert_eq!(round.status(), RoundStatus::InProgress);
    assert_eq!(round.submit_guess('o'), GuessOutcome::Good);
    assert_eq!(round.status(), RoundStatus::InProgress);
    assert_eq!(round.submit_guess('d'), GuessOutcome::Good);
    assert_eq!(round.status(), RoundStatus::InProgress);
    assert_eq!(round.submit_guess('r'), GuessOutcome::Good);
    assert_eq!(round.status(), RoundStatus::Won);
    assert_eq!(round.tries_left(), 6);
}

#[test]
fn round_is_lost_when_tries_run_out() {
    let mut round = GuessState::new("cat".to_string(), 2);
    assert_eq!(round.submit_guess('x'), GuessOutcome::Wrong);
    assert_eq!(round.status(), RoundStatus::InProgress);
    assert_eq!(round.submit_guess('y'), GuessOutcome::Wrong);
    assert_eq!(round.tries_left(), 0);
    assert_eq!(round.status(), RoundStatus::Lost);
}

#[test]
fn figure_stages_quantize_the_remaining_fraction() {
    // Full budget: stage 6. No tries: stage 0. Half of 12: round(3.0) = 3.
    assert_eq!(hangman_stage(12, 12), 6);
    assert_eq!(hangman_stage(0, 12), 0);
    assert_eq!(hangman_stage(6, 12), 3);
    // Rounding is to nearest, halves up: 5/6 -> round(5.0) = 5, 1/6 -> round(1.0) = 1,
    // 1/12 -> round(0.5) = 1, 11/12 -> round(5.5) = 6.
    assert_eq!(hangman_stage(5, 6), 5);
    assert_eq!(hangman_stage(1, 6), 1);
    assert_eq!(hangman_stage(1, 12), 1);
    assert_eq!(hangman_stage(11, 12), 6);
    assert_eq!(hangman_stage(1, 1), 6);
}

#[test]
fn figure_art_follows_the_stage() {
    // The untouched gallows of a fresh round differs from the completed figure.
    let fresh = hangman_figure(12, 12);
    let dead = hangman_figure(0, 12);
    assert_ne!(fresh, dead);
    // Stage is what picks the art: equal stages, equal art.
    assert_eq!(hangman_figure(6, 6), fresh);
    assert_eq!(hangman_figure(0, 1), dead);
    // The completed figure has both legs; the fresh gallows has no body.
    assert!(dead.contains("/ \\"));
    assert!(!fresh.contains('O'));
    // Each of the seven stages draws distinct art.
    let stages: Vec<&str> = (0..=6).map(|t| hangman_figure(t, 6)).collect();
    for i in 0..stages.len() {
        for j in 0..i {
            assert_ne!(stages[i], stages[j]);
        }
    }
}

#[test]
fn easy_round_on_cat_is_won_with_full_tries() {
    let catalog: Vec<String> = vec![
        "cat".to_string(),
        "house".to_string(),
        "astronomy".to_string(),
    ];
    // With this catalog, Easy only ever picks a word of at most 5 letters.
    let word = select_word_by_difficulty(&catalog, 1);
    assert!(word.chars().count() <= 5);

    // Play the round on "cat" as the scenario fixes it.
    let budget = get_tries_for_difficulty(1);
    assert_eq!(budget, 12);
    let mut round = GuessState::new("cat".to_string(), budget);

    assert_eq!(round.submit_guess('c'), GuessOutcome::Good);
    assert_eq!(display_word("cat", round.guessed_letters()), "c _ _");
    assert_eq!(round.status(), RoundStatus::InProgress);

    assert_eq!(round.submit_guess('a'), GuessOutcome::Good);
    assert_eq!(display_word("cat", round.guessed_letters()), "c a _");
    assert_eq!(round.status(), RoundStatus::InProgress);

    assert_eq!(round.submit_guess('t'), GuessOutcome::Good);
    assert_eq!(display_word("cat", round.guessed_letters()), "c a t");
    assert_eq!(round.status(), RoundStatus::Won);
    assert_eq!(round.tries_left(), 12);
}

#[test]
fn single_budget_round_is_lost_on_one_miss() {
    let mut round = GuessState::new("cat".to_string(), 1);
    assert_eq!(round.submit_guess('x'), GuessOutcome::Wrong);
    assert_eq!(round.tries_left(), 0);
    assert_eq!(round.status(), RoundStatus::Lost);
    // The figure for a lost round is the stage-0 art, the completed figure.
    assert_eq!(hangman_stage(0, 1), 0);
    assert_eq!(hangman_figure(0, 1), hangman_figure(0, 12));
}

#[test]
fn menu_accepts_only_the_four_choices() {
    assert_eq!(menu_action(Some(0)), MenuAction::Quit);
    assert_eq!(menu_action(Some(1)), MenuAction::Play(1));
    assert_eq!(menu_action(Some(2)), MenuAction::Play(2));
    assert_eq!(menu_action(Some(3)), MenuAction::Play(3));
    assert_eq!(menu_action(Some(4)), MenuAction::Invalid);
    assert_eq!(menu_action(Some(u64::MAX)), MenuAction::Invalid);
    assert_eq!(menu_action(None), MenuAction::Invalid);
}

#[test]
fn only_y_replays() {
    assert!(wants_replay("y"));
    assert!(!wants_replay("n"));
    assert!(!wants_replay("yes"));
    assert!(!wants_replay(""));
    assert!(!wants_replay("q"));
}

#[test]
fn accessors_report_the_round() {
    let round = GuessState::new("house".to_string(), 9);
    assert_eq!(round.word().as_str(), "house");
    assert_eq!(round.max_tries(), 9);
    assert_eq!(round.tries_left(), 9);
    assert!(round.guessed_letters().is_empty());
}
