use spotle::engine::App;
use spotle::engine::valid_guess;
use spotle::mask::Mask;
use spotle::row::Row;
use spotle::row::chars_equal;
use spotle::row::clone_chars;
use spotle::row::contains_char;
use spotle::state::CharacterState;
use spotle::state::GameState;
use spotle::state::InputSignal;
use spotle::state::to_lower;
use spotle::text::formatted_cell_text;

fn chars(s: &str) -> Vec<char> {
    s.chars().collect()
}

fn all_false_mask(attempts: usize, word_len: usize) -> Mask {
    let mut rows: Vec<Vec<bool>> = Vec::new();
    for _ in 0..attempts {
        rows.push(std::iter::repeat(false).take(word_len).collect());
    }
    Mask::from_rows(rows)
}

fn type_word(app: &mut App, word: &str) {
    for c in word.chars() {
        app.handle_signal(InputSignal::CharacterInput(c));
    }
}

#[test]
fn wordl_against_world_shifts_two_letters() {
    // Word length 5, max attempts 6, all-false mask, secret "world".
    let mut app = App::new(chars("world"), 6, all_false_mask(6, 5));
    type_word(&mut app, "wordl");
    app.handle_signal(InputSignal::Submit);
    assert_eq!(
        app.guesses[0].char_states,
        vec![
            CharacterState::Correct,
            CharacterState::Correct,
            CharacterState::Correct,
            CharacterState::WrongPlace,
            CharacterState::WrongPlace,
        ]
    );
    assert_eq!(app.state, GameState::InProgress);
    assert_eq!(app.current_guess, 1);
}

#[test]
fn guessing_the_secret_wins() {
    let mut app = App::new(chars("world"), 6, all_false_mask(6, 5));
    type_word(&mut app, "world");
    app.handle_signal(InputSignal::Submit);
    assert_eq!(
        app.guesses[0].char_states,
        vec![CharacterState::Correct; 5]
    );
    assert_eq!(app.state, GameState::Won);
}

#[test]
fn guessing_the_secret_wins_on_the_last_attempt() {
    let mut app = App::new(chars("world"), 6, all_false_mask(6, 5));
    for _ in 0..5 {
        type_word(&mut app, "crane");
        app.handle_signal(InputSignal::Submit);
    }
    assert_eq!(app.state, GameState::InProgress);
    type_word(&mut app, "world");
    app.handle_signal(InputSignal::Submit);
    assert_eq!(app.state, GameState::Won);
}

#[test]
fn six_misses_lose_and_reveal_the_secret() {
    let mut app = App::new(chars("world"), 6, all_false_mask(6, 5));
    for _ in 0..6 {
        type_word(&mut app, "crane");
        app.handle_signal(InputSignal::Submit);
    }
    assert_eq!(app.state, GameState::Lost(chars("world")));
    assert_eq!(app.current_guess, 6);
}

#[test]
fn equal_guess_under_all_false_mask_is_all_correct() {
    let mut app = App::new(chars("crane"), 6, all_false_mask(6, 5));
    type_word(&mut app, "crane");
    app.handle_signal(InputSignal::Submit);
    assert_eq!(
        app.guesses[0].char_states,
        vec![CharacterState::Correct; 5]
    );
    assert_eq!(app.state, GameState::Won);
}

#[test]
fn masked_position_stays_masked_and_skips_keyboard() {
    // The default mask pre-reveals position 2 on attempt 0. A letter that
    // appears only there must leave its keyboard entry untouched.
    let mut app = App::default();
    type_word(&mut app, "abzba");
    app.handle_signal(InputSignal::Submit);
    assert_eq!(app.guesses[0].char_states[2], CharacterState::Masked);
    assert_eq!(app.get_letter_state('z'), CharacterState::Unknown);
    // The unmasked letters were scored: 'a' is not in "world", 'b' is not
    // in "world".
    assert_eq!(app.get_letter_state('a'), CharacterState::NotInWord);
    assert_eq!(app.get_letter_state('b'), CharacterState::NotInWord);
}

#[test]
fn masked_cell_is_masked_whatever_the_guess_holds() {
    let mut app = App::default();
    type_word(&mut app, "world");
    app.handle_signal(InputSignal::Submit);
    // Position 2 holds the correct letter 'r', yet stays Masked.
    assert_eq!(app.guesses[0].char_states[2], CharacterState::Masked);
    assert_eq!(app.state, GameState::Won);
}

#[test]
fn short_submission_changes_nothing() {
    let mut app = App::new(chars("world"), 6, all_false_mask(6, 5));
    type_word(&mut app, "wor");
    let keys_before = app.key_status.clone();
    app.handle_signal(InputSignal::Submit);
    assert_eq!(app.current_guess, 0);
    assert_eq!(app.key_status, keys_before);
    assert_eq!(app.input, chars("wor"));
    assert_eq!(app.state, GameState::InProgress);
}

#[test]
fn lost_game_ignores_further_input() {
    let mut app = App::new(chars("world"), 6, all_false_mask(6, 5));
    for _ in 0..6 {
        type_word(&mut app, "crane");
        app.handle_signal(InputSignal::Submit);
    }
    let snapshot = (
        app.input.clone(),
        app.guesses.clone(),
        app.current_guess,
        app.key_status.clone(),
        app.state.clone(),
    );
    assert!(!app.handle_signal(InputSignal::CharacterInput('x')));
    assert!(!app.handle_signal(InputSignal::Backspace));
    assert!(!app.handle_signal(InputSignal::Submit));
    assert_eq!(app.input, snapshot.0);
    assert_eq!(app.guesses, snapshot.1);
    assert_eq!(app.current_guess, snapshot.2);
    assert_eq!(app.key_status, snapshot.3);
    assert_eq!(app.state, snapshot.4);
    // Quit ends the session only now that the game is over; cancel always
    // does.
    assert!(app.handle_signal(InputSignal::Quit));
    assert!(app.handle_signal(InputSignal::Cancel));
}

#[test]
fn quit_is_ignored_while_in_progress() {
    let mut app = App::new(chars("world"), 6, all_false_mask(6, 5));
    assert!(!app.handle_signal(InputSignal::Quit));
    assert_eq!(app.state, GameState::InProgress);
    assert!(app.handle_signal(InputSignal::Cancel));
}

#[test]
fn correct_keyboard_letter_is_never_downgraded() {
    let mut app = App::new(chars("world"), 6, all_false_mask(6, 5));
    type_word(&mut app, "wwwww");
    app.handle_signal(InputSignal::Submit);
    assert_eq!(app.get_letter_state('w'), CharacterState::Correct);
    // 'w' now appears only at wrong positions; it must stay Correct.
    type_word(&mut app, "awwww");
    app.handle_signal(InputSignal::Submit);
    assert_eq!(app.get_letter_state('w'), CharacterState::Correct);
}

#[test]
fn keyboard_upgrades_from_wrong_place_to_correct() {
    let mut app = App::new(chars("world"), 6, all_false_mask(6, 5));
    type_word(&mut app, "allow");
    app.handle_signal(InputSignal::Submit);
    assert_eq!(app.get_letter_state('w'), CharacterState::WrongPlace);
    type_word(&mut app, "world");
    app.handle_signal(InputSignal::Submit);
    assert_eq!(app.get_letter_state('w'), CharacterState::Correct);
}

#[test]
fn character_input_is_lowercased_and_space_rejected() {
    let mut app = App::new(chars("world"), 6, all_false_mask(6, 5));
    app.handle_signal(InputSignal::CharacterInput('W'));
    app.handle_signal(InputSignal::CharacterInput(' '));
    app.handle_signal(InputSignal::CharacterInput('o'));
    assert_eq!(app.input, chars("wo"));
}

#[test]
fn buffer_never_grows_past_word_length() {
    let mut app = App::new(chars("world"), 6, all_false_mask(6, 5));
    type_word(&mut app, "abcdefgh");
    assert_eq!(app.input, chars("abcde"));
}

#[test]
fn backspace_shrinks_the_buffer_and_is_a_no_op_when_empty() {
    let mut app = App::new(chars("world"), 6, all_false_mask(6, 5));
    app.handle_signal(InputSignal::Backspace);
    assert_eq!(app.input, chars(""));
    type_word(&mut app, "ab");
    app.handle_signal(InputSignal::Backspace);
    assert_eq!(app.input, chars("a"));
}

#[test]
fn submission_clears_the_buffer() {
    let mut app = App::new(chars("world"), 6, all_false_mask(6, 5));
    type_word(&mut app, "crane");
    app.handle_signal(InputSignal::Submit);
    assert_eq!(app.input, chars(""));
}

#[test]
fn duplicate_letters_each_register_wrong_place() {
    // Whole-word containment, not frequency-aware: both 'o's register
    // WrongPlace although "world" has a single 'o'.
    let mut app = App::new(chars("world"), 6, all_false_mask(6, 5));
    type_word(&mut app, "ooaoo");
    app.handle_signal(InputSignal::Submit);
    assert_eq!(
        app.guesses[0].char_states,
        vec![
            CharacterState::WrongPlace,
            CharacterState::Correct,
            CharacterState::NotInWord,
            CharacterState::WrongPlace,
            CharacterState::WrongPlace,
        ]
    );
}

#[test]
fn default_game_matches_the_shipped_configuration() {
    let app = App::default();
    assert_eq!(app.correct_word, chars("world"));
    assert_eq!(app.max_attempts, 6);
    assert_eq!(app.word_len, 5);
    assert_eq!(app.current_guess, 0);
    assert_eq!(app.state, GameState::InProgress);
    assert_eq!(app.input, chars(""));
    for c in 'a'..='z' {
        assert_eq!(app.get_letter_state(c), CharacterState::Unknown);
    }
    assert_eq!(app.guesses.len(), 6);
}

#[test]
fn default_mask_has_the_asymmetric_hint_schedule() {
    let mask = Mask::default();
    for row in 0..6 {
        for col in 0..5 {
            let expected = match row {
                0 | 3 | 4 => col == 2,
                1 | 2 => col == 1,
                _ => false,
            };
            assert_eq!(mask.get_mask(row, col), expected);
        }
    }
}

#[test]
fn new_row_is_unknown_except_masked_cells() {
    let mask = Mask::default();
    let row = Row::new(&mask, 0);
    assert_eq!(
        row.char_states,
        vec![
            CharacterState::Unknown,
            CharacterState::Unknown,
            CharacterState::Masked,
            CharacterState::Unknown,
            CharacterState::Unknown,
        ]
    );
    assert!(row.guess.is_empty());
    assert!(row.chars().is_empty());
}

#[test]
fn default_row_is_empty_and_unknown() {
    let row = Row::default();
    assert!(row.guess.is_empty());
    assert_eq!(row.char_states, vec![CharacterState::Unknown; 5]);
}

#[test]
fn evaluated_row_keeps_the_guessed_text() {
    let secret = chars("world");
    let mask_row = vec![false; 5];
    let row = Row::evaluated(&secret, chars("wordl"), &mask_row);
    assert_eq!(row.chars(), &chars("wordl"));
}

#[test]
fn valid_guess_checks_the_exact_length() {
    assert!(valid_guess(&chars("world"), 5));
    assert!(!valid_guess(&chars("worl"), 5));
    assert!(!valid_guess(&chars("worlds"), 5));
    assert!(valid_guess(&chars(""), 0));
}

#[test]
fn formatted_cell_text_centers_the_character() {
    assert_eq!(formatted_cell_text('a'), " a ");
    assert_eq!(formatted_cell_text(' '), "   ");
}

#[test]
fn letter_state_table_covers_exactly_the_alphabet() {
    let mut app = App::new(chars("world"), 6, all_false_mask(6, 5));
    app.set_letter_state('a', CharacterState::Correct);
    assert_eq!(app.get_letter_state('a'), CharacterState::Correct);
    app.set_letter_state('z', CharacterState::WrongPlace);
    assert_eq!(app.get_letter_state('z'), CharacterState::WrongPlace);
    // Non-alphabetic input is a no-op and reads back Unknown.
    app.set_letter_state('!', CharacterState::Correct);
    assert_eq!(app.get_letter_state('!'), CharacterState::Unknown);
    assert_eq!(app.get_letter_state('A'), CharacterState::Unknown);
}

#[test]
fn to_lower_maps_ascii_uppercase_only() {
    assert_eq!(to_lower('A'), 'a');
    assert_eq!(to_lower('Z'), 'z');
    assert_eq!(to_lower('a'), 'a');
    assert_eq!(to_lower('!'), '!');
}

#[test]
fn char_vector_helpers_behave_like_std() {
    let w = chars("world");
    assert_eq!(clone_chars(&w), w);
    assert!(chars_equal(&w, &chars("world")));
    assert!(!chars_equal(&w, &chars("worla")));
    assert!(!chars_equal(&w, &chars("worl")));
    assert!(contains_char(&w, 'd'));
    assert!(!contains_char(&w, 'z'));
}

#[test]
fn is_over_reports_terminal_outcomes() {
    let mut app = App::new(chars("world"), 6, all_false_mask(6, 5));
    assert!(!app.is_over());
    type_word(&mut app, "world");
    app.handle_signal(InputSignal::Submit);
    assert!(app.is_over());
}
