//! Escape sequences and the zero-width wrapper understood by the shell.

use vstd::prelude::*;
use vstd::string::*;

verus! {

/// Opens a run of characters that the shell does not count when it measures
/// the prompt.
pub const ZERO_WIDTH_BEGIN: &'static str = "%{";

/// Closes what `ZERO_WIDTH_BEGIN` opened.
pub const ZERO_WIDTH_END: &'static str = "%}";

pub const SGR_RESET: &'static str = "\x1b[0m";

pub const FG_RED: &'static str = "\x1b[31m";

pub const FG_GREEN: &'static str = "\x1b[32m";

pub const FG_YELLOW: &'static str = "\x1b[33m";

pub const FG_BLUE: &'static str = "\x1b[34m";

pub const FG_MAGENTA: &'static str = "\x1b[35m";

pub const FG_WHITE: &'static str = "\x1b[37m";

pub const FG_GRAY: &'static str = "\x1b[90m";

pub const FG_BOLD_BLUE: &'static str = "\x1b[1;34m";

pub const BOLD_OFF: &'static str = "\x1b[22m";

pub const BG_SHADOWENV: &'static str = "\x1b[48;5;238m";

/// The ten superscript digits, zero first.
pub const SUPERSCRIPT_CHARS: &'static str =
    "\u{2070}\u{b9}\u{b2}\u{b3}\u{2074}\u{2075}\u{2076}\u{2077}\u{2078}\u{2079}";

/// The text `s` between the two zero-width markers.
pub open spec fn zero_width(s: Seq<char>) -> Seq<char> {
    ZERO_WIDTH_BEGIN@ + s + ZERO_WIDTH_END@
}

/// Wraps `s` so that the shell does not count it when it measures the line.
pub fn zw(s: &str) -> (r: String)
    ensures
        r@ == zero_width(s@),
{
    let mut out = String::from_str(ZERO_WIDTH_BEGIN);
    out.append(s);
    out.append(ZERO_WIDTH_END);
    out
}

} // verus!
