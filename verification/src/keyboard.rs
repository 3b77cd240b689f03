//! The keyboard heat-map: a 26-entry table giving each lowercase letter the
//! aggregate feedback gathered over the whole game, upgraded monotonically
//! after every accepted submission.

use vstd::prelude::*;
use vstd::pervasive::VecAdditionalExecFns;
use crate::row::contains_char;
use crate::state::CharacterState;
use crate::state::letter_of_index;

verus! {

/// The keyboard state shown for character `c`: the table entry for a
/// lowercase ASCII letter, `Unknown` for anything else.
pub open spec fn spec_letter_state(keys: Seq<CharacterState>, c: char) -> CharacterState {
    if crate::state::is_lowercase_letter(c) {
        keys[crate::state::letter_index(c)]
    } else {
        CharacterState::Unknown
    }
}

/// The table after writing the entry of `c` to `s`, a no-op for any
/// character that is not a lowercase ASCII letter.
pub open spec fn spec_set_letter(
    keys: Seq<CharacterState>,
    c: char,
    s: CharacterState,
) -> Seq<CharacterState> {
    if crate::state::is_lowercase_letter(c) {
        keys.update(crate::state::letter_index(c), s)
    } else {
        keys
    }
}

/// Whether `c` stands at some unmasked position of the guess where it also
/// matches the secret.
pub open spec fn letter_correct_somewhere(
    secret: Seq<char>,
    guess: Seq<char>,
    mask_row: Seq<bool>,
    c: char,
) -> bool {
    exists|i: int| 0 <= i < guess.len() && !mask_row[i] && guess[i] == c && secret[i] == c
}

/// Whether `c` stands at some unmasked position of the guess.
pub open spec fn letter_appears_unmasked(guess: Seq<char>, mask_row: Seq<bool>, c: char) -> bool {
    exists|i: int| 0 <= i < guess.len() && !mask_row[i] && guess[i] == c
}

/// The keyboard state of letter `c` after one submission, given its previous
/// state `prev`. The same two passes as cell evaluation, applied per distinct
/// letter, with a precedence rule: a positional match at an unmasked position
/// upgrades to `Correct`; any other letter already decided keeps its state (a
/// `Correct` letter is never downgraded); an undecided letter appearing
/// unmasked becomes `WrongPlace` if the secret contains it anywhere, else
/// `NotInWord`. Masked positions never touch keyboard status.
pub open spec fn updated_letter_state(
    secret: Seq<char>,
    guess: Seq<char>,
    mask_row: Seq<bool>,
    c: char,
    prev: CharacterState,
) -> CharacterState {
    if letter_correct_somewhere(secret, guess, mask_row, c) {
        CharacterState::Correct
    } else if !(prev is Unknown) {
        prev
    } else if letter_appears_unmasked(guess, mask_row, c) {
        if secret.contains(c) {
            CharacterState::WrongPlace
        } else {
            CharacterState::NotInWord
        }
    } else {
        prev
    }
}

/// The whole keyboard table after one submission.
pub open spec fn updated_keyboard(
    keys: Seq<CharacterState>,
    secret: Seq<char>,
    guess: Seq<char>,
    mask_row: Seq<bool>,
) -> Seq<CharacterState> {
    Seq::new(keys.len(), |k: int| updated_letter_state(secret, guess, mask_row, letter_of_index(k), keys[k]))
}

/// Whether `c` has an unmasked positional match in `guess` against `secret`.
fn letter_correct_here(secret: &Vec<char>, guess: &Vec<char>, mask_row: &Vec<bool>, c: char) -> (b: bool)
    requires
        guess@.len() == secret@.len(),
        mask_row@.len() == secret@.len(),
    ensures
        b == letter_correct_somewhere(secret@, guess@, mask_row@, c),
{
    let mut i: usize = 0;
    while i < guess.len()
        invariant
            i <= guess@.len(),
            guess@.len() == secret@.len(),
            mask_row@.len() == secret@.len(),
            forall|j: int| 0 <= j < i ==> !(!mask_row@[j] && guess@[j] == c && secret@[j] == c),
        decreases guess@.len() - i,
    {
        if !mask_row[i] && guess[i] == c && secret[i] == c {
            return true;
        }
        i = i + 1;
    }
    false
}

/// Whether `c` appears at some unmasked position of `guess`.
fn letter_appears(guess: &Vec<char>, mask_row: &Vec<bool>, c: char) -> (b: bool)
    requires
        mask_row@.len() == guess@.len(),
    ensures
        b == letter_appears_unmasked(guess@, mask_row@, c),
{
    let mut i: usize = 0;
    while i < guess.len()
        invariant
            i <= guess@.len(),
            mask_row@.len() == guess@.len(),
            forall|j: int| 0 <= j < i ==> !(!mask_row@[j] && guess@[j] == c),
        decreases guess@.len() - i,
    {
        if !mask_row[i] && guess[i] == c {
            return true;
        }
        i = i + 1;
    }
    false
}

/// Applies one submission to the keyboard table, letter by letter.
pub fn update_keyboard(
    keys: &mut Vec<CharacterState>,
    secret: &Vec<char>,
    guess: &Vec<char>,
    mask_row: &Vec<bool>,
)
    requires
        old(keys)@.len() == 26,
        guess@.len() == secret@.len(),
        mask_row@.len() == secret@.len(),
    ensures
        final(keys)@ == updated_keyboard(old(keys)@, secret@, guess@, mask_row@),
{
    let mut k: usize = 0;
    while k < 26
        invariant
            k <= 26,
            keys@.len() == 26,
            guess@.len() == secret@.len(),
            mask_row@.len() == secret@.len(),
            forall|j: int| 0 <= j < k ==> keys@[j] == updated_letter_state(
                secret@,
                guess@,
                mask_row@,
                letter_of_index(j),
                old(keys)@[j],
            ),
            forall|j: int| k <= j < 26 ==> keys@[j] == old(keys)@[j],
        decreases 26 - k,
    {
        let c = ((k as u8) + 97) as char;
        assert(c == letter_of_index(k as int));
        let prev = keys[k];
        let st = if letter_correct_here(secret, guess, mask_row, c) {
            CharacterState::Correct
        } else if prev != CharacterState::Unknown {
            prev
        } else if letter_appears(guess, mask_row, c) {
            if contains_char(secret, c) {
                CharacterState::WrongPlace
            } else {
                CharacterState::NotInWord
            }
        } else {
            prev
        };
        keys.set(k, st);
        k = k + 1;
    }
    proof {
        assert(keys@ =~= updated_keyboard(old(keys)@, secret@, guess@, mask_row@));
    }
}

} // verus!
