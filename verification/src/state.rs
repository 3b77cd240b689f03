//! The small closed enumerations of the game: per-cell feedback states, the
//! overall game outcome, and the input signals a driver can feed the engine.

use vstd::prelude::*;

verus! {

/// Feedback for one letter cell. `Masked` is a terminal display state for
/// pre-revealed cells: a masked cell is never scored and never contributes
/// to the keyboard heat-map.
#[derive(Copy, Clone, Debug, PartialEq, Eq, Structural)]
pub enum CharacterState {
    WrongPlace,
    Correct,
    NotInWord,
    Unknown,
    Masked,
}

/// Overall game outcome. `Lost` carries the secret word so that a terminal
/// state and "reveal the answer" are inseparable.
#[derive(Clone, Debug, PartialEq)]
pub enum GameState {
    InProgress,
    Won,
    Lost(Vec<char>),
}

/// Input signals a driver feeds the engine, abstracted from any input device.
#[derive(Copy, Clone, Debug)]
pub enum InputSignal {
    CharacterInput(char),
    Backspace,
    Submit,
    Quit,
    Cancel,
}

/// Index of a lowercase ASCII letter in the 26-entry keyboard table.
pub open spec fn letter_index(c: char) -> int {
    c as int - 97
}

/// The lowercase ASCII letter at a keyboard-table index.
pub open spec fn letter_of_index(k: int) -> char {
    (k + 97) as char
}

pub open spec fn is_lowercase_letter(c: char) -> bool {
    97 <= c as int <= 122
}

/// Lowercasing as applied to typed input: ASCII uppercase letters map to
/// their lowercase forms, every other character is unchanged.
pub open spec fn spec_to_lower(c: char) -> char {
    if 65 <= c as int <= 90 {
        (c as int + 32) as char
    } else {
        c
    }
}

/// ASCII lowercasing of one character.
pub fn to_lower(c: char) -> (r: char)
    ensures
        r == spec_to_lower(c),
{
    let code: u32 = c as u32;
    if 65 <= code && code <= 90 {
        ((code + 32) as u8) as char
    } else {
        c
    }
}

} // verus!
