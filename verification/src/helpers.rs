//! Text for the line that tells the user to wait.

use vstd::prelude::*;
use vstd::string::*;
use crate::color::{ansi_code, color_value, Tone};

verus! {

/// The escape sequence that returns to the start of the line and clears it.
pub const CLEAR_LINE: &'static str = "\r\x1b[2K";

/// The waiting line: the message, or `Loading...` where none is given, in
/// yellow.
pub open spec fn loading_line(message: Option<Seq<char>>) -> Seq<char> {
    ansi_code(Tone::Yellow) + (match message {
        Some(message) => message,
        None => "Loading..."@,
    }) + ansi_code(Tone::Reset)
}

/// What an optional message holds.
pub open spec fn message_view(message: Option<&str>) -> Option<Seq<char>> {
    match message {
        Some(message) => Some(message@),
        None => None,
    }
}

/// Builds the waiting line.
pub fn loading_text(message: Option<&str>) -> (r: String)
    ensures
        r@ == loading_line(message_view(message)),
{
    let mut out: String = String::from_str(color_value(Tone::Yellow));
    match message {
        Some(message) => out.append(message),
        None => out.append("Loading..."),
    }
    out.append(color_value(Tone::Reset));
    out
}

} // verus!
