//! Terminal styling of diagnostic text.

use vstd::prelude::*;

verus! {

/// `text` between two runs of characters.
pub open spec fn framed(before: Seq<char>, text: Seq<char>, after: Seq<char>) -> Seq<char> {
    before + text + after
}

/// Whether `painted` is `text` with something, possibly nothing, written
/// before and after it.
pub open spec fn dressed(painted: Seq<char>, text: Seq<char>) -> bool {
    exists|before: Seq<char>, after: Seq<char>| painted == #[trigger] framed(before, text, after)
}

/// Styles `text` for a terminal with `console::Style::from_dotted_str` and
/// `console::Style::apply_to`, and formats the styled value.
///
/// `style` is a dotted list of style names, such as `red.underlined`. The
/// crate writes the escape sequences of the style before the text and a
/// reset sequence after it, or nothing at all when it finds that the
/// terminal takes no colours. Which of the two happens depends on the
/// terminal and the environment, so the contract only claims that the text
/// itself stands in the result.
#[verifier::external_body]
pub(crate) fn styled(text: &str, style: &str) -> (painted: String)
    ensures
        dressed(painted@, text@),
{
    console::Style::from_dotted_str(style).apply_to(text).to_string()
}

} // verus!
