//! The prompt character, and the count of background jobs.

use vstd::prelude::*;
use vstd::string::*;

use crate::formatting::{zero_width, zw, FG_YELLOW, SGR_RESET};

verus! {

/// What the shell expands to `#` for the superuser and to `%` for others.
pub const PROMPT_CHAR: &'static str = "%#";

/// What the shell expands to the number of its jobs, if it has any.
pub const JOBS: &'static str = "%(1j.%j.)";

/// The prompt character in yellow.
pub fn generate() -> (r: String)
    ensures
        r@ == zero_width(FG_YELLOW@) + PROMPT_CHAR@ + zero_width(SGR_RESET@),
{
    let mut out = zw(FG_YELLOW);
    out.append(PROMPT_CHAR);
    let reset = zw(SGR_RESET);
    out.append(reset.as_str());
    out
}

/// The number of background jobs, which the shell fills in.
pub fn gen_jobs() -> (r: String)
    ensures
        r@ == JOBS@,
{
    String::from_str(JOBS)
}

} // verus!
