//! The game engine: holds the secret word, the attempt history, the running
//! keyboard status and the outcome; evaluates submitted guesses and advances
//! or terminates the game. Every transition is specified over `AppView`, the
//! engine's mathematical model.

use vstd::prelude::*;
use vstd::pervasive::VecAdditionalExecFns;
use crate::keyboard::spec_letter_state;
use crate::keyboard::spec_set_letter;
use crate::keyboard::update_keyboard;
use crate::keyboard::updated_keyboard;
use crate::mask::Mask;
use crate::row::Row;
use crate::row::RowView;
use crate::row::chars_equal;
use crate::row::clone_chars;
use crate::row::eval_states;
use crate::state::CharacterState;
use crate::state::GameState;
use crate::state::InputSignal;
use crate::state::spec_to_lower;
use crate::state::to_lower;

verus! {

/// Mathematical model of the game outcome.
#[verifier::ext_equal]
pub ghost enum OutcomeView {
    InProgress,
    Won,
    Lost(Seq<char>),
}

pub open spec fn outcome_view(s: GameState) -> OutcomeView {
    match s {
        GameState::InProgress => OutcomeView::InProgress,
        GameState::Won => OutcomeView::Won,
        GameState::Lost(w) => OutcomeView::Lost(w@),
    }
}

/// Mathematical model of the whole engine state.
#[verifier::ext_equal]
pub ghost struct AppView {
    pub input: Seq<char>,
    pub guesses: Seq<RowView>,
    pub secret: Seq<char>,
    pub current: nat,
    pub keys: Seq<CharacterState>,
    pub outcome: OutcomeView,
    pub mask: Seq<Seq<bool>>,
    pub max_attempts: nat,
    pub word_len: nat,
}

/// Well-formedness of the model: the configuration is consistent, the
/// history has one row per attempt, the keyboard has one entry per letter,
/// the attempt counter never passes the attempt budget, and while the game
/// is in progress the active attempt exists.
pub open spec fn view_wf(v: AppView) -> bool {
    &&& v.word_len >= 1
    &&& v.secret.len() == v.word_len
    &&& v.guesses.len() == v.max_attempts
    &&& v.mask.len() == v.max_attempts
    &&& (forall|r: int| 0 <= r < v.max_attempts ==> (#[trigger] v.mask[r]).len() == v.word_len)
    &&& v.keys.len() == 26
    &&& v.current <= v.max_attempts
    &&& (v.outcome is InProgress ==> v.current < v.max_attempts)
    &&& v.input.len() <= v.word_len
    &&& (forall|r: int|
        0 <= r < v.guesses.len() ==> (#[trigger] v.guesses[r]).states.len() == v.word_len)
}

/// A submission is accepted only while the game is in progress and the
/// buffer holds exactly word-length characters; otherwise it is silently
/// ignored.
pub open spec fn submission_accepted(v: AppView) -> bool {
    &&& v.outcome is InProgress
    &&& v.input.len() == v.word_len
}

/// The state after a submit signal. An accepted submission evaluates the
/// buffer against the secret under the active mask row, locks the evaluated
/// row into the history, clears the buffer, upgrades the keyboard, and
/// advances the attempt counter; the game is won on full equality with the
/// secret, lost when the last attempt passes without a win, and otherwise
/// still in progress. A rejected submission changes nothing.
pub open spec fn after_submit(v: AppView) -> AppView {
    if submission_accepted(v) {
        AppView {
            input: Seq::<char>::empty(),
            guesses: v.guesses.update(
                v.current as int,
                RowView {
                    guess: v.input,
                    states: eval_states(v.secret, v.input, v.mask[v.current as int]),
                },
            ),
            current: (v.current + 1) as nat,
            keys: updated_keyboard(v.keys, v.secret, v.input, v.mask[v.current as int]),
            outcome: if v.input == v.secret {
                OutcomeView::Won
            } else if v.current + 1 == v.max_attempts {
                OutcomeView::Lost(v.secret)
            } else {
                OutcomeView::InProgress
            },
            ..v
        }
    } else {
        v
    }
}

/// The state after a character input: while the game is in progress, any
/// character but a space is lowercased and appended to a buffer that still
/// has room; everything else is ignored.
pub open spec fn after_character(v: AppView, c: char) -> AppView {
    if v.outcome is InProgress && c != ' ' && v.input.len() < v.word_len {
        AppView { input: v.input.push(spec_to_lower(c)), ..v }
    } else {
        v
    }
}

/// The state after a backspace: while the game is in progress the buffer
/// shrinks by one character, a no-op if it is empty.
pub open spec fn after_backspace(v: AppView) -> AppView {
    if v.outcome is InProgress && v.input.len() > 0 {
        AppView { input: v.input.drop_last(), ..v }
    } else {
        v
    }
}

/// The full input/submission state machine, one step per signal. Quit and
/// cancel never change the game state; they only decide termination.
pub open spec fn after_signal(v: AppView, sig: InputSignal) -> AppView {
    match sig {
        InputSignal::CharacterInput(c) => after_character(v, c),
        InputSignal::Backspace => after_backspace(v),
        InputSignal::Submit => after_submit(v),
        InputSignal::Quit => v,
        InputSignal::Cancel => v,
    }
}

/// Whether a signal ends the session: cancel always does, quit only once
/// the game is over.
pub open spec fn signal_quits(v: AppView, sig: InputSignal) -> bool {
    ||| sig is Cancel
    ||| (sig is Quit && !(v.outcome is InProgress))
}

/// Submission eligibility: the buffer must hold exactly `word_len`
/// characters.
pub fn valid_guess(s: &Vec<char>, word_len: usize) -> (b: bool)
    ensures
        b == (s@.len() == word_len),
{
    s.len() == word_len
}

/// The engine state: secret word, buffer, attempt history, keyboard status,
/// outcome and configuration.
#[derive(Clone, Debug)]
pub struct App {
    pub input: Vec<char>,
    pub guesses: Vec<Row>,
    pub correct_word: Vec<char>,
    pub current_guess: usize,
    pub key_status: Vec<CharacterState>,
    pub state: GameState,
    pub mask: Mask,
    pub max_attempts: usize,
    pub word_len: usize,
}

impl View for App {
    type V = AppView;

    open spec fn view(&self) -> AppView {
        AppView {
            input: self.input@,
            guesses: self.guesses@.map_values(|r: Row| r@),
            secret: self.correct_word@,
            current: self.current_guess as nat,
            keys: self.key_status@,
            outcome: outcome_view(self.state),
            mask: self.mask@,
            max_attempts: self.max_attempts as nat,
            word_len: self.word_len as nat,
        }
    }
}

impl App {
    pub open spec fn wf(&self) -> bool {
        view_wf(self@)
    }

    /// Whether the game has reached a terminal outcome.
    pub fn is_over(&self) -> (b: bool)
        ensures
            b == !(self@.outcome is InProgress),
    {
        match self.state {
            GameState::InProgress => false,
            _ => true,
        }
    }

    /// The aggregate keyboard state of letter `c`: the table entry for a
    /// lowercase ASCII letter, `Unknown` for anything else.
    pub fn get_letter_state(&self, c: char) -> (s: CharacterState)
        requires
            self.wf(),
        ensures
            s == spec_letter_state(self@.keys, c),
    {
        let code: u32 = c as u32;
        if 97 <= code && code <= 122 {
            self.key_status[(code - 97) as usize]
        } else {
            CharacterState::Unknown
        }
    }

    /// Writes the keyboard entry of a lowercase ASCII letter; a no-op for
    /// any other character.
    pub fn set_letter_state(&mut self, c: char, state: CharacterState)
        requires
            old(self).wf(),
        ensures
            final(self).wf(),
            final(self)@ == (AppView {
                keys: spec_set_letter(old(self)@.keys, c, state),
                ..old(self)@
            }),
    {
        let code: u32 = c as u32;
        if 97 <= code && code <= 122 {
            self.key_status.set((code - 97) as usize, state);
        }
        proof {
            assert(self@ =~~= (AppView {
                keys: spec_set_letter(old(self)@.keys, c, state),
                ..old(self)@
            }));
        }
    }

    /// A fresh game: empty buffer, one pending row per attempt with the
    /// pre-revealed cells already `Masked`, every keyboard letter `Unknown`,
    /// attempt counter zero, game in progress, and the given configuration
    /// fixed for the whole game.
    pub fn new(correct_word: Vec<char>, max_attempts: usize, mask: Mask) -> (app: App)
        requires
            correct_word@.len() >= 1,
            max_attempts >= 1,
            mask.wf(max_attempts as nat, correct_word@.len()),
        ensures
            app.wf(),
            app@.secret == correct_word@,
            app@.word_len == correct_word@.len(),
            app@.max_attempts == max_attempts,
            app@.mask == mask@,
            app@.input == Seq::<char>::empty(),
            app@.current == 0,
            app@.outcome is InProgress,
            forall|k: int| 0 <= k < 26 ==> app@.keys[k] == CharacterState::Unknown,
            forall|r: int| 0 <= r < max_attempts ==> (#[trigger] app@.guesses[r]).guess
                == Seq::<char>::empty(),
            forall|r: int, i: int|
                0 <= r < max_attempts && 0 <= i < correct_word@.len() ==> (
                #[trigger] app@.guesses[r].states[i]) == (if mask@[r][i] {
                    CharacterState::Masked
                } else {
                    CharacterState::Unknown
                }),
    {
        let word_len = correct_word.len();
        let mut guesses: Vec<Row> = Vec::new();
        let mut r: usize = 0;
        while r < max_attempts
            invariant
                r <= max_attempts,
                mask.wf(max_attempts as nat, correct_word@.len()),
                guesses@.len() == r,
                forall|j: int| 0 <= j < r ==> (#[trigger] guesses@[j]@).guess
                    == Seq::<char>::empty(),
                forall|j: int| 0 <= j < r ==> (#[trigger] guesses@[j]@).states.len()
                    == correct_word@.len(),
                forall|j: int, i: int|
                    0 <= j < r && 0 <= i < correct_word@.len() ==> (
                    #[trigger] guesses@[j]@.states[i]) == (if mask@[j][i] {
                        CharacterState::Masked
                    } else {
                        CharacterState::Unknown
                    }),
            decreases max_attempts - r,
        {
            guesses.push(Row::new(&mask, r));
            r = r + 1;
        }
        let mut key_status: Vec<CharacterState> = Vec::new();
        let mut k: usize = 0;
        while k < 26
            invariant
                k <= 26,
                key_status@.len() == k,
                forall|j: int| 0 <= j < k ==> key_status@[j] == CharacterState::Unknown,
            decreases 26 - k,
        {
            key_status.push(CharacterState::Unknown);
            k = k + 1;
        }
        App {
            input: Vec::new(),
            guesses,
            correct_word,
            current_guess: 0,
            key_status,
            state: GameState::InProgress,
            mask,
            max_attempts,
            word_len,
        }
    }

    /// Applies a submit signal: evaluates the buffer if it is eligible,
    /// silently ignores it otherwise.
    pub fn submit(&mut self)
        requires
            old(self).wf(),
        ensures
            final(self).wf(),
            final(self)@ == after_submit(old(self)@),
    {
        let ghost pre = self@;
        if self.is_over() {
            return;
        }
        if !valid_guess(&self.input, self.word_len) {
            return;
        }
        let guess = clone_chars(&self.input);
        self.input = Vec::new();
        let mask_row = self.mask.mask_row(self.current_guess);
        update_keyboard(&mut self.key_status, &self.correct_word, &guess, mask_row);
        let won = chars_equal(&guess, &self.correct_word);
        let row = Row::evaluated(&self.correct_word, guess, mask_row);
        self.guesses.set(self.current_guess, row);
        self.current_guess = self.current_guess + 1;
        if won {
            self.state = GameState::Won;
        } else if self.current_guess == self.max_attempts {
            self.state = GameState::Lost(clone_chars(&self.correct_word));
        }
        proof {
            assert(self@.guesses =~~= after_submit(pre).guesses);
            assert(self@ =~~= after_submit(pre));
            lemma_submit_preserves_wf(pre);
        }
    }

    /// Feeds one input signal to the state machine and reports whether the
    /// session should end.
    pub fn handle_signal(&mut self, sig: InputSignal) -> (quit: bool)
        requires
            old(self).wf(),
        ensures
            final(self).wf(),
            final(self)@ == after_signal(old(self)@, sig),
            quit == signal_quits(old(self)@, sig),
    {
        match sig {
            InputSignal::CharacterInput(c) => {
                if !self.is_over() && c != ' ' && self.input.len() < self.word_len {
                    let lc = to_lower(c);
                    self.input.push(lc);
                }
                proof {
                    assert(self@ =~~= after_signal(old(self)@, sig));
                }
                false
            },
            InputSignal::Backspace => {
                if !self.is_over() && self.input.len() > 0 {
                    self.input.pop();
                }
                proof {
                    assert(self@ =~~= after_signal(old(self)@, sig));
                }
                false
            },
            InputSignal::Submit => {
                self.submit();
                false
            },
            InputSignal::Quit => self.is_over(),
            InputSignal::Cancel => true,
        }
    }
}

impl Default for App {
    /// The shipped game: secret "world", six attempts over five positions,
    /// the default mask.
    fn default() -> (app: App)
        ensures
            app.wf(),
            app@.secret =~= seq!['w', 'o', 'r', 'l', 'd'],
            app@.word_len == 5,
            app@.max_attempts == 6,
            forall|r: int| 0 <= r < 6 ==> #[trigger] app@.mask[r] == crate::mask::default_mask_row(
                r,
            ),
            app@.input == Seq::<char>::empty(),
            app@.current == 0,
            app@.outcome is InProgress,
            forall|k: int| 0 <= k < 26 ==> app@.keys[k] == CharacterState::Unknown,
            forall|r: int| 0 <= r < 6 ==> (#[trigger] app@.guesses[r]).guess == Seq::<
                char,
            >::empty(),
            forall|r: int, i: int|
                0 <= r < 6 && 0 <= i < 5 ==> (#[trigger] app@.guesses[r].states[i]) == (
                if crate::mask::default_mask_row(r)[i] {
                    CharacterState::Masked
                } else {
                    CharacterState::Unknown
                }),
    {
        let word = vec!['w', 'o', 'r', 'l', 'd'];
        let mask = Mask::default();
        App::new(word, 6, mask)
    }
}

/// An accepted or rejected submission leaves the model well-formed.
pub proof fn lemma_submit_preserves_wf(v: AppView)
    requires
        view_wf(v),
    ensures
        view_wf(after_submit(v)),
{
}

} // verus!
