use hangman::game::{GameState, GuessOutcome};

fn chars(s: &str) -> Vec<char> {
    s.chars().collect()
}

fn fresh(word: &str) -> GameState {
    GameState::new_game(&chars(word))
}

fn guess(game: &mut GameState, line: &str) -> GuessOutcome {
    game.submit_guess(&chars(line))
}

fn status(game: &GameState) -> String {
    game.render_status().iter().collect()
}

#[test]
fn fresh_game_is_running_and_masked() {
    let game = fresh("CAT");
    assert!(game.is_running());
    assert!(!game.is_won());
    assert!(!game.is_lost());
    assert_eq!(status(&game), "___");
    assert_eq!(game.gallows_stage(), 0);
    assert_eq!(game.misses(), Some(0));
    assert!(!game.is_solved());
}

#[test]
fn word_is_uppercased_on_entry() {
    let game = fresh("dog");
    assert_eq!(game.secret().unwrap().iter().collect::<String>(), "DOG");
}

#[test]
fn correct_guess_reveals_all_occurrences_without_a_miss() {
    let mut game = fresh("LLAMA");
    let out = guess(&mut game, "L");
    assert!(matches!(out, GuessOutcome::Continuing));
    assert_eq!(status(&game), "LL___");
    assert_eq!(game.misses(), Some(0));
    let out = guess(&mut game, "A");
    assert!(matches!(out, GuessOutcome::Continuing));
    assert_eq!(status(&game), "LLA_A");
    assert_eq!(game.misses(), Some(0));
}

#[test]
fn wrong_guess_counts_one_miss_and_changes_no_position() {
    let mut game = fresh("CAT");
    guess(&mut game, "C");
    let before = status(&game);
    let out = guess(&mut game, "Z");
    assert!(matches!(out, GuessOutcome::Continuing));
    assert_eq!(status(&game), before);
    assert_eq!(game.misses(), Some(1));
    assert_eq!(game.gallows_stage(), 1);
}

#[test]
fn resubmitting_a_correct_letter_changes_nothing() {
    let mut game = fresh("CAT");
    guess(&mut game, "C");
    let grid = game.render_guessed_grid();
    let out = guess(&mut game, "C");
    assert!(matches!(out, GuessOutcome::NoChange));
    assert_eq!(status(&game), "C__");
    assert_eq!(game.misses(), Some(0));
    assert_eq!(game.render_guessed_grid(), grid);
}

#[test]
fn resubmitting_a_wrong_letter_changes_nothing() {
    let mut game = fresh("CAT");
    guess(&mut game, "Z");
    let grid = game.render_guessed_grid();
    let out = guess(&mut game, "Z");
    assert!(matches!(out, GuessOutcome::NoChange));
    assert_eq!(game.misses(), Some(1));
    assert_eq!(game.render_guessed_grid(), grid);
}

#[test]
fn invalid_inputs_change_no_state() {
    let mut game = fresh("CAT");
    for line in ["", "ab", "1", "$", " x$ ", "  ", "a b"] {
        let out = guess(&mut game, line);
        assert!(matches!(out, GuessOutcome::NoChange));
        assert!(game.is_running());
        assert_eq!(status(&game), "___");
        assert_eq!(game.misses(), Some(0));
    }
}

#[test]
fn guesses_are_trimmed_and_uppercased() {
    let mut game = fresh("CAT");
    let out = guess(&mut game, "  c\n");
    assert!(matches!(out, GuessOutcome::Continuing));
    assert_eq!(status(&game), "C__");
    let out = guess(&mut game, "\ta ");
    assert!(matches!(out, GuessOutcome::Continuing));
    assert_eq!(status(&game), "CA_");
}

#[test]
fn sixth_wrong_guess_loses_and_reports_the_secret() {
    let mut game = fresh("DOG");
    for (i, line) in ["X", "Y", "Z", "Q", "W", "V"].iter().enumerate() {
        assert!(game.is_running());
        if i < 5 {
            assert_eq!(game.gallows_stage(), i);
        }
        let out = guess(&mut game, line);
        if i < 5 {
            assert!(matches!(out, GuessOutcome::Continuing));
            assert_eq!(game.misses(), Some(i + 1));
        } else {
            match out {
                GuessOutcome::Finished { won, secret } => {
                    assert!(!won);
                    assert_eq!(secret.iter().collect::<String>(), "DOG");
                },
                _ => panic!("sixth wrong guess must finish the game"),
            }
        }
    }
    assert!(game.is_lost());
    assert!(!game.is_running());
    assert!(!game.is_won());
}

#[test]
fn completing_the_word_wins_even_with_misses() {
    let mut game = fresh("CAT");
    guess(&mut game, "Z");
    guess(&mut game, "Q");
    guess(&mut game, "C");
    guess(&mut game, "A");
    assert!(game.is_running());
    let out = guess(&mut game, "T");
    match out {
        GuessOutcome::Finished { won, secret } => {
            assert!(won);
            assert_eq!(secret.iter().collect::<String>(), "CAT");
        },
        _ => panic!("the completing guess must finish the game"),
    }
    assert!(game.is_won());
    assert!(!game.is_running());
}

#[test]
fn winning_with_zero_misses() {
    let mut game = fresh("AB");
    guess(&mut game, "A");
    let out = guess(&mut game, "B");
    assert!(matches!(out, GuessOutcome::Finished { won: true, .. }));
    assert!(game.is_won());
}

#[test]
fn cat_scenario_step_by_step() {
    let mut game = fresh("CAT");
    guess(&mut game, "C");
    assert_eq!(status(&game), "C__");
    assert_eq!(game.gallows_stage(), 0);
    guess(&mut game, "Z");
    assert_eq!(status(&game), "C__");
    assert_eq!(game.misses(), Some(1));
    assert_eq!(game.gallows_stage(), 1);
    guess(&mut game, "A");
    assert_eq!(status(&game), "CA_");
    assert_eq!(game.misses(), Some(1));
    let out = guess(&mut game, "T");
    assert!(matches!(out, GuessOutcome::Finished { won: true, .. }));
    assert!(game.is_won());
}

#[test]
fn gallows_stage_tracks_misses() {
    let mut game = fresh("HANGMAN");
    let wrong = ["B", "C", "D", "E", "F"];
    for (i, line) in wrong.iter().enumerate() {
        assert_eq!(game.gallows_stage(), i);
        guess(&mut game, line);
        assert_eq!(game.gallows_stage(), i + 1);
        assert_eq!(game.misses(), Some(i + 1));
    }
}

#[test]
fn grid_lists_all_letters_in_order_with_flags() {
    let mut game = fresh("CAT");
    guess(&mut game, "C");
    guess(&mut game, "Z");
    let grid = game.render_guessed_grid();
    assert_eq!(grid.len(), 26);
    for (i, (letter, guessed)) in grid.iter().enumerate() {
        assert_eq!(*letter, (b'A' + i as u8) as char);
        assert_eq!(*guessed, *letter == 'C' || *letter == 'Z');
    }
}

#[test]
fn grid_is_identical_across_repeated_renderings() {
    let mut game = fresh("CAT");
    guess(&mut game, "C");
    let first = game.render_guessed_grid();
    let second = game.render_guessed_grid();
    let third = game.render_guessed_grid();
    assert_eq!(first, second);
    assert_eq!(second, third);
}

#[test]
fn is_solved_flips_exactly_when_the_word_is_complete() {
    let mut game = fresh("ABBA");
    assert!(!game.is_solved());
    guess(&mut game, "A");
    assert!(!game.is_solved());
    // B completes the word, so the phase moves to Won on that guess.
    let out = guess(&mut game, "B");
    assert!(matches!(out, GuessOutcome::Finished { won: true, .. }));
}

#[test]
fn getters_answer_only_while_running() {
    let mut game = fresh("AB");
    assert!(game.secret().is_some());
    assert!(game.misses().is_some());
    assert!(game.guesses().is_some());
    guess(&mut game, "A");
    guess(&mut game, "B");
    assert!(game.secret().is_none());
    assert!(game.misses().is_none());
    assert!(game.guesses().is_none());
}
