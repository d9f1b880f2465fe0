// Word wrapping of text for the terminal interface, by the textwrap crate, and what the
// interface derives from wrapped lines.
use vstd::prelude::*;
use crate::text::{string_views, lines_from, split_lines};

verus! {

/// The lines `textwrap::wrap` breaks a text into at a width.
pub uninterp spec fn wrapped_lines(text: Seq<char>, width: nat) -> Seq<Seq<char>>;

/// The number of characters in all the lines together.
pub open spec fn total_chars(lines: Seq<Seq<char>>) -> int
    decreases lines.len(),
{
    if lines.len() == 0 {
        0
    } else {
        total_chars(lines.drop_last()) + lines.last().len()
    }
}

/// `textwrap::wrap(text, width)`, each line taken as an owned string. With the default
/// options each line is a piece of the text (split at line ends, trailing spaces and the
/// whitespace where a line breaks left out, no indent or hyphen added), so the lines hold
/// no more characters in all than the text.
#[verifier::external_body]
pub(crate) fn wrap_text(text: &str, width: usize) -> (r: Vec<String>)
    ensures
        string_views(r@) == wrapped_lines(text@, width as nat),
        total_chars(string_views(r@)) <= text@.len(),
{
    textwrap::wrap(text, width).iter().map(|s| s.to_string()).collect()
}

/// The text `textwrap::fill` makes of a text at a width.
pub uninterp spec fn filled_text(text: Seq<char>, width: nat) -> Seq<char>;

/// `textwrap::fill(text, width)`: the text wrapped at a width, as one string.
#[verifier::external_body]
pub(crate) fn fill_text(text: &str, width: usize) -> (r: String)
    ensures
        r@ == filled_text(text@, width as nat),
{
    textwrap::fill(text, width)
}

/// The lines of a filled text as `str::lines` reads them.
pub open spec fn filled_lines(text: Seq<char>, width: nat) -> Seq<Seq<char>> {
    lines_from(filled_text(text, width), seq![])
}

/// The lines of a filled text (see `filled_lines`).
pub fn fill_lines(text: &str, width: usize) -> (r: Vec<String>)
    ensures
        string_views(r@) == filled_lines(text@, width as nat),
{
    let filled = fill_text(text, width);
    split_lines(filled.as_str())
}

} // verus!
