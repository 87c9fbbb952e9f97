//! The exit status of the last command.

use vstd::prelude::*;
use vstd::string::*;

use crate::formatting::{zero_width, zw, FG_RED, SGR_RESET};
use crate::text::{chars_of, range_is, str_of};

verus! {

/// The variable in which the shell hands over the exit status of the last
/// command.
pub const EXIT_STATUS_VAR: &'static str = "EXIT_STATUS";

/// What stands for a status that the shell did not hand over.
pub const UNKNOWN_STATUS: &'static str = "?";

/// The status to speak of: `exit_status`, or `?` where there is none.
pub open spec fn status_text(exit_status: Option<Seq<char>>) -> Seq<char> {
    match exit_status {
        Some(status) => status,
        None => UNKNOWN_STATUS@,
    }
}

/// What is shown of the exit status: nothing for an empty one and for `0`,
/// any other in red.
pub open spec fn exit_text(exit_status: Option<Seq<char>>) -> Seq<char> {
    let status = status_text(exit_status);
    if status.len() > 0 && status != "0"@ {
        zero_width(FG_RED@) + status + zero_width(SGR_RESET@)
    } else {
        Seq::empty()
    }
}

/// Shows the exit status of the last command, as the shell handed it over
/// (`None` where it did not), unless it is success.
pub fn generate(exit_status: Option<&str>) -> (r: String)
    ensures
        r@ == exit_text(str_of(exit_status)),
{
    let status: &str = match exit_status {
        Some(status) => status,
        None => UNKNOWN_STATUS,
    };
    let chars = chars_of(status);
    proof {
        assert(chars@.subrange(0, chars.len() as int) == chars@);
    }
    if chars.len() > 0 && !range_is(&chars, 0, chars.len(), "0") {
        let mut out = zw(FG_RED);
        out.append(status);
        let reset = zw(SGR_RESET);
        out.append(reset.as_str());
        out
    } else {
        String::new()
    }
}

} // verus!
