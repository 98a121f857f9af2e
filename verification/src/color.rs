//! Terminal colour codes, taken from the `chroma_print` crate.

use vstd::prelude::*;

verus! {

/// The colours that the library's own text uses.
#[derive(Clone, Copy, Debug, PartialEq, Eq, Structural)]
pub enum Tone {
    Yellow,
    Reset,
}

/// The ANSI escape sequence of a tone.
pub open spec fn ansi_code(tone: Tone) -> Seq<char> {
    match tone {
        Tone::Yellow => "\x1b[33m"@,
        Tone::Reset => "\x1b[0m"@,
    }
}

/// Calls `chroma_print::Color::value` on the colour of the same name. Trusted:
/// the result is the escape sequence that the crate's `value` gives for that
/// variant, `ESC [ 33 m` for yellow and `ESC [ 0 m` for reset.
#[verifier::external_body]
pub(crate) fn color_value(tone: Tone) -> (r: &'static str)
    ensures
        r@ == ansi_code(tone),
{
    let color: chroma_print::Color = match tone {
        Tone::Yellow => chroma_print::Color::Yellow,
        Tone::Reset => chroma_print::Color::Reset,
    };
    color.value()
}

} // verus!
