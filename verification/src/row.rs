//! One guess slot: the guessed text and the per-position feedback, together
//! with the specification of how a guess is evaluated against the secret.

use vstd::prelude::*;
use crate::state::CharacterState;

verus! {

/// Mathematical model of a row.
#[verifier::ext_equal]
pub ghost struct RowView {
    pub guess: Seq<char>,
    pub states: Seq<CharacterState>,
}

/// One completed or in-progress guess at a fixed attempt index: the raw
/// guessed text and one `CharacterState` per position.
#[derive(Clone, Debug, PartialEq)]
pub struct Row {
    pub guess: Vec<char>,
    pub char_states: Vec<CharacterState>,
}

impl View for Row {
    type V = RowView;

    open spec fn view(&self) -> RowView {
        RowView { guess: self.guess@, states: self.char_states@ }
    }
}

/// Feedback for position `i` of `guess` evaluated against `secret`, when the
/// mask at that position is `masked`. A masked position is never scored: its
/// state is `Masked` whatever the guess holds. Otherwise: `Correct` on a
/// positional match, else `WrongPlace` whenever the secret contains the
/// guessed letter anywhere (whole-word containment, not frequency-aware:
/// duplicate letters in the guess can each register `WrongPlace` even if the
/// secret has one occurrence), else `NotInWord`.
pub open spec fn pos_state(secret: Seq<char>, guess: Seq<char>, masked: bool, i: int) -> CharacterState {
    if masked {
        CharacterState::Masked
    } else if guess[i] == secret[i] {
        CharacterState::Correct
    } else if secret.contains(guess[i]) {
        CharacterState::WrongPlace
    } else {
        CharacterState::NotInWord
    }
}

/// The full evaluation of `guess` against `secret` under one mask row.
pub open spec fn eval_states(secret: Seq<char>, guess: Seq<char>, mask_row: Seq<bool>) -> Seq<CharacterState> {
    Seq::new(guess.len(), |i: int| pos_state(secret, guess, mask_row[i], i))
}

/// Whether `s` contains the character `c`.
pub fn contains_char(s: &Vec<char>, c: char) -> (b: bool)
    ensures
        b == s@.contains(c),
{
    let mut i: usize = 0;
    while i < s.len()
        invariant
            i <= s@.len(),
            forall|j: int| 0 <= j < i ==> s@[j] != c,
        decreases s@.len() - i,
    {
        if s[i] == c {
            return true;
        }
        i = i + 1;
    }
    false
}

/// An owned copy of a character vector.
pub fn clone_chars(v: &Vec<char>) -> (r: Vec<char>)
    ensures
        r@ == v@,
{
    let mut r: Vec<char> = Vec::new();
    let mut i: usize = 0;
    while i < v.len()
        invariant
            i <= v@.len(),
            r@ == v@.take(i as int),
        decreases v@.len() - i,
    {
        r.push(v[i]);
        proof {
            assert(r@ =~= v@.take(i + 1));
        }
        i = i + 1;
    }
    proof {
        assert(v@.take(v@.len() as int) =~= v@);
    }
    r
}

/// Whether two character vectors hold the same text.
pub fn chars_equal(a: &Vec<char>, b: &Vec<char>) -> (r: bool)
    ensures
        r == (a@ == b@),
{
    if a.len() != b.len() {
        return false;
    }
    let mut i: usize = 0;
    while i < a.len()
        invariant
            i <= a@.len(),
            a@.len() == b@.len(),
            forall|j: int| 0 <= j < i ==> a@[j] == b@[j],
        decreases a@.len() - i,
    {
        if a[i] != b[i] {
            return false;
        }
        i = i + 1;
    }
    proof {
        assert(a@ =~= b@);
    }
    true
}

impl Row {
    /// A fresh, not-yet-guessed row for attempt `row_idx`: empty text, every
    /// position `Unknown` except the pre-revealed ones, which are `Masked`.
    pub fn new(mask: &crate::mask::Mask, row_idx: usize) -> (r: Row)
        requires
            row_idx < mask@.len(),
        ensures
            r@.guess == Seq::<char>::empty(),
            r@.states.len() == mask@[row_idx as int].len(),
            forall|i: int| 0 <= i < r@.states.len() ==> r@.states[i] == (if mask@[row_idx as int][i] {
                CharacterState::Masked
            } else {
                CharacterState::Unknown
            }),
    {
        let ghost mask_row = mask@[row_idx as int];
        let width = mask.row_width(row_idx);
        let mut char_states: Vec<CharacterState> = Vec::new();
        let mut i: usize = 0;
        while i < width
            invariant
                i <= width,
                width == mask_row.len(),
                row_idx < mask@.len(),
                mask_row == mask@[row_idx as int],
                char_states@.len() == i,
                forall|j: int| 0 <= j < i ==> char_states@[j] == (if mask_row[j] {
                    CharacterState::Masked
                } else {
                    CharacterState::Unknown
                }),
            decreases width - i,
        {
            if mask.get_mask(row_idx, i) {
                char_states.push(CharacterState::Masked);
            } else {
                char_states.push(CharacterState::Unknown);
            }
            i = i + 1;
        }
        Row { guess: Vec::new(), char_states }
    }

    /// The characters of the guessed text, in order.
    pub fn chars(&self) -> (r: &Vec<char>)
        ensures
            r@ == self@.guess,
    {
        &self.guess
    }

    /// A row holding `guess` evaluated against `secret` under `mask_row`.
    pub fn evaluated(secret: &Vec<char>, guess: Vec<char>, mask_row: &Vec<bool>) -> (r: Row)
        requires
            guess@.len() == secret@.len(),
            mask_row@.len() == secret@.len(),
        ensures
            r@.guess == guess@,
            r@.states == eval_states(secret@, guess@, mask_row@),
    {
        let n = guess.len();
        let mut char_states: Vec<CharacterState> = Vec::new();
        let mut i: usize = 0;
        while i < n
            invariant
                i <= n,
                n == guess@.len(),
                guess@.len() == secret@.len(),
                mask_row@.len() == secret@.len(),
                char_states@.len() == i,
                forall|j: int| 0 <= j < i ==> char_states@[j] == pos_state(secret@, guess@, mask_row@[j], j),
            decreases n - i,
        {
            let st = if mask_row[i] {
                CharacterState::Masked
            } else if guess[i] == secret[i] {
                CharacterState::Correct
            } else if contains_char(secret, guess[i]) {
                CharacterState::WrongPlace
            } else {
                CharacterState::NotInWord
            };
            char_states.push(st);
            i = i + 1;
        }
        proof {
            assert(char_states@ =~= eval_states(secret@, guess@, mask_row@));
        }
        Row { guess, char_states }
    }
}

impl Default for Row {
    /// An empty row for the default word length: no text, five `Unknown`
    /// cells.
    fn default() -> (r: Row)
        ensures
            r@.guess == Seq::<char>::empty(),
            r@.states =~= seq![
                CharacterState::Unknown,
                CharacterState::Unknown,
                CharacterState::Unknown,
                CharacterState::Unknown,
                CharacterState::Unknown,
            ],
    {
        Row {
            guess: Vec::new(),
            char_states: vec![
                CharacterState::Unknown,
                CharacterState::Unknown,
                CharacterState::Unknown,
                CharacterState::Unknown,
                CharacterState::Unknown,
            ],
        }
    }
}

} // verus!
