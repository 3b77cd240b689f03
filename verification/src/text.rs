//! Cell text formatting: the one piece of presentation that is pure
//! computation — the text drawn inside a letter cell.

use vstd::prelude::*;

verus! {

/// Relies on String::push: appends the given character to the end of the
/// string.
#[verifier::external_body]
fn push_char(s: &mut String, c: char)
    ensures
        final(s)@ == old(s)@.push(c),
{
    s.push(c)
}

/// The text drawn inside one cell: the character centered in the cell's
/// interior width of three columns — one space on either side — and, at the
/// shipped cell height, no extra pad lines.
pub fn formatted_cell_text(text: char) -> (r: String)
    ensures
        r@ =~= seq![' ', text, ' '],
{
    let mut r = String::new();
    push_char(&mut r, ' ');
    push_char(&mut r, text);
    push_char(&mut r, ' ');
    proof {
        assert(r@ =~= seq![' ', text, ' ']);
    }
    r
}

} // verus!
