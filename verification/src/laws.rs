//! The game's laws: proofs that the evaluation, the keyboard aggregation
//! and the state machine behave as promised for every input, not only for
//! the scenarios the tests pin down.

use vstd::prelude::*;
use crate::engine::AppView;
use crate::engine::OutcomeView;
use crate::engine::after_signal;
use crate::engine::after_submit;
use crate::engine::submission_accepted;
use crate::engine::view_wf;
use crate::keyboard::letter_appears_unmasked;
use crate::keyboard::letter_correct_somewhere;
use crate::keyboard::updated_keyboard;
use crate::keyboard::updated_letter_state;
use crate::row::eval_states;
use crate::state::CharacterState;
use crate::state::InputSignal;

verus! {

/// Every step of the state machine leaves the model well-formed: in
/// particular, the attempt counter moves by exactly one on an accepted
/// submission and never passes the attempt budget, and while the game is in
/// progress the active attempt exists.
pub proof fn lemma_signal_preserves_wf(v: AppView, sig: InputSignal)
    requires
        view_wf(v),
    ensures
        view_wf(after_signal(v, sig)),
{
    crate::engine::lemma_submit_preserves_wf(v);
}

/// Submitting a guess equal to the secret under an all-false mask row marks
/// every position `Correct` and wins the game, whatever the attempt index.
pub proof fn lemma_correct_guess_wins(v: AppView)
    requires
        view_wf(v),
        submission_accepted(v),
        v.input == v.secret,
        forall|i: int|
            0 <= i < v.mask[v.current as int].len() ==> !(#[trigger] v.mask[v.current as int][i]),
    ensures
        after_submit(v).outcome is Won,
        forall|i: int|
            0 <= i < v.word_len ==> after_submit(v).guesses[v.current as int].states[i]
                == CharacterState::Correct,
{
}

/// A guess equal to the secret wins immediately, regardless of the attempt
/// index and of the mask: the win check is full-string equality, made before
/// the lost check.
pub proof fn lemma_equal_guess_always_wins(v: AppView)
    requires
        submission_accepted(v),
        v.input == v.secret,
    ensures
        after_submit(v).outcome is Won,
{
}

/// A masked position always evaluates to `Masked`, whatever the guess holds.
pub proof fn lemma_masked_position_state(
    secret: Seq<char>,
    guess: Seq<char>,
    mask_row: Seq<bool>,
    i: int,
)
    requires
        0 <= i < guess.len(),
        mask_row[i],
    ensures
        eval_states(secret, guess, mask_row)[i] == CharacterState::Masked,
{
}

/// A masked position never influences keyboard status: two guesses that
/// differ only at a masked position upgrade the keyboard identically.
pub proof fn lemma_masked_position_no_keyboard_influence(
    keys: Seq<CharacterState>,
    secret: Seq<char>,
    g1: Seq<char>,
    g2: Seq<char>,
    mask_row: Seq<bool>,
    p: int,
)
    requires
        0 <= p < mask_row.len(),
        mask_row[p],
        g1.len() == g2.len(),
        forall|i: int| 0 <= i < g1.len() && i != p ==> g1[i] == g2[i],
    ensures
        updated_keyboard(keys, secret, g1, mask_row) == updated_keyboard(
            keys,
            secret,
            g2,
            mask_row,
        ),
{
    assert forall|c: char|
        letter_correct_somewhere(secret, g1, mask_row, c) == letter_correct_somewhere(
            secret,
            g2,
            mask_row,
            c,
        ) by {
        if letter_correct_somewhere(secret, g1, mask_row, c) {
            let i = choose|i: int|
                0 <= i < g1.len() && !mask_row[i] && g1[i] == c && secret[i] == c;
            assert(g2[i] == c && !mask_row[i] && secret[i] == c);
            assert(letter_correct_somewhere(secret, g2, mask_row, c));
        }
        if letter_correct_somewhere(secret, g2, mask_row, c) {
            let i = choose|i: int|
                0 <= i < g2.len() && !mask_row[i] && g2[i] == c && secret[i] == c;
            assert(g1[i] == c && !mask_row[i] && secret[i] == c);
            assert(letter_correct_somewhere(secret, g1, mask_row, c));
        }
    }
    assert forall|c: char|
        letter_appears_unmasked(g1, mask_row, c) == letter_appears_unmasked(
            g2,
            mask_row,
            c,
        ) by {
        if letter_appears_unmasked(g1, mask_row, c) {
            let i = choose|i: int| 0 <= i < g1.len() && !mask_row[i] && g1[i] == c;
            assert(g2[i] == c && !mask_row[i]);
            assert(letter_appears_unmasked(g2, mask_row, c));
        }
        if letter_appears_unmasked(g2, mask_row, c) {
            let i = choose|i: int| 0 <= i < g2.len() && !mask_row[i] && g2[i] == c;
            assert(g1[i] == c && !mask_row[i]);
            assert(letter_appears_unmasked(g1, mask_row, c));
        }
    }
    assert forall|k: int| 0 <= k < keys.len() implies updated_letter_state(
        secret,
        g1,
        mask_row,
        crate::state::letter_of_index(k),
        keys[k],
    ) == updated_letter_state(
        secret,
        g2,
        mask_row,
        crate::state::letter_of_index(k),
        keys[k],
    ) by {
    }
    assert(updated_keyboard(keys, secret, g1, mask_row) =~= updated_keyboard(
        keys,
        secret,
        g2,
        mask_row,
    ));
}

/// Submitting a buffer shorter than the word length changes nothing: not
/// the attempt index, not the keyboard, not the buffer.
pub proof fn lemma_short_submission_ignored(v: AppView)
    requires
        v.input.len() < v.word_len,
    ensures
        after_submit(v) == v,
{
}

/// An accepted submission that misses the secret advances the attempt
/// counter by exactly one; on the last attempt it loses the game, revealing
/// the secret word, and otherwise the game stays in progress. Counting
/// attempts, after exactly `max_attempts` accepted unsuccessful submissions
/// the outcome is `Lost`.
pub proof fn lemma_unsuccessful_submission(v: AppView)
    requires
        view_wf(v),
        submission_accepted(v),
        v.input != v.secret,
    ensures
        after_submit(v).current == v.current + 1,
        v.current + 1 == v.max_attempts ==> after_submit(v).outcome == OutcomeView::Lost(v.secret),
        v.current + 1 < v.max_attempts ==> after_submit(v).outcome is InProgress,
{
}

/// Once the game is over, no signal changes the state at all: quit and
/// cancel only end the session, everything else is ignored.
pub proof fn lemma_terminal_state_ignores_input(v: AppView, sig: InputSignal)
    requires
        !(v.outcome is InProgress),
    ensures
        after_signal(v, sig) == v,
{
}

/// One keyboard update never downgrades a letter already `Correct`.
pub proof fn lemma_keyboard_correct_monotonic(
    keys: Seq<CharacterState>,
    secret: Seq<char>,
    guess: Seq<char>,
    mask_row: Seq<bool>,
    k: int,
)
    requires
        0 <= k < keys.len(),
        keys[k] == CharacterState::Correct,
    ensures
        updated_keyboard(keys, secret, guess, mask_row)[k] == CharacterState::Correct,
{
}

/// Keyboard-letter-state is monotonic across the whole game: no signal —
/// in particular no later guess holding the letter elsewhere — downgrades a
/// letter already `Correct`.
pub proof fn lemma_signal_keeps_correct_letters(v: AppView, sig: InputSignal, k: int)
    requires
        view_wf(v),
        0 <= k < 26,
        v.keys[k] == CharacterState::Correct,
    ensures
        after_signal(v, sig).keys[k] == CharacterState::Correct,
{
}

} // verus!
