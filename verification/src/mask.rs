//! The mask: an immutable per-(attempt, position) boolean table declaring
//! which letter cells are pre-revealed and thus exempt from guess
//! evaluation and from keyboard aggregation.

use vstd::prelude::*;

verus! {

/// Immutable table of pre-revealed cells, one row of booleans per attempt.
#[derive(Clone, Debug, PartialEq)]
pub struct Mask {
    rows: Vec<Vec<bool>>,
}

impl View for Mask {
    type V = Seq<Seq<bool>>;

    closed spec fn view(&self) -> Seq<Seq<bool>> {
        self.rows@.map_values(|r: Vec<bool>| r@)
    }
}

impl Mask {
    /// Well-formed for a game of `attempts` rows of `word_len` cells each.
    pub open spec fn wf(&self, attempts: nat, word_len: nat) -> bool {
        &&& self@.len() == attempts
        &&& forall|r: int| 0 <= r < attempts ==> (#[trigger] self@[r]).len() == word_len
    }

    /// Builds a mask from an explicit table of rows.
    pub fn from_rows(rows: Vec<Vec<bool>>) -> (m: Mask)
        ensures
            m@.len() == rows@.len(),
            forall|r: int| 0 <= r < rows@.len() ==> #[trigger] m@[r] == rows@[r]@,
    {
        let m = Mask { rows };
        assert forall|r: int| 0 <= r < m.rows@.len() implies #[trigger] m@[r] == m.rows@[r]@ by {
        }
        m
    }

    /// The mask row for attempt `row_idx`.
    pub fn mask_row(&self, row_idx: usize) -> (r: &Vec<bool>)
        requires
            row_idx < self@.len(),
        ensures
            r@ == self@[row_idx as int],
    {
        &self.rows[row_idx]
    }

    /// Number of cells in the mask row for attempt `row_idx`.
    pub fn row_width(&self, row_idx: usize) -> (w: usize)
        requires
            row_idx < self@.len(),
        ensures
            w == self@[row_idx as int].len(),
    {
        self.rows[row_idx].len()
    }

    /// Whether the cell at (attempt `row_idx`, position `char_idx`) is
    /// pre-revealed. Pure lookup; out-of-range access is excluded by the
    /// precondition.
    pub fn get_mask(&self, row_idx: usize, char_idx: usize) -> (b: bool)
        requires
            row_idx < self@.len(),
            char_idx < self@[row_idx as int].len(),
        ensures
            b == self@[row_idx as int][char_idx as int],
    {
        self.rows[row_idx][char_idx]
    }
}

/// The shipped default pattern for 6 attempts over 5 positions: position 2
/// is pre-revealed on attempts 0, 3 and 4, position 1 on attempts 1 and 2,
/// and the last attempt has no pre-revealed cell. Configuration data, not
/// derived logic.
pub open spec fn default_mask_row(r: int) -> Seq<bool> {
    if r == 0 || r == 3 || r == 4 {
        seq![false, false, true, false, false]
    } else if r == 1 || r == 2 {
        seq![false, true, false, false, false]
    } else {
        seq![false, false, false, false, false]
    }
}

impl Default for Mask {
    /// The default asymmetric hint schedule described above.
    fn default() -> (m: Mask)
        ensures
            m.wf(6, 5),
            forall|r: int| 0 <= r < 6 ==> #[trigger] m@[r] == default_mask_row(r),
    {
        let mut rows: Vec<Vec<bool>> = Vec::new();
        rows.push(vec![false, false, true, false, false]);
        rows.push(vec![false, true, false, false, false]);
        rows.push(vec![false, true, false, false, false]);
        rows.push(vec![false, false, true, false, false]);
        rows.push(vec![false, false, true, false, false]);
        rows.push(vec![false, false, false, false, false]);
        let m = Mask { rows };
        assert forall|r: int| 0 <= r < 6 implies #[trigger] m@[r] == default_mask_row(r) by {
            assert(m@[r] == m.rows@[r]@);
        }
        m
    }
}

} // verus!
