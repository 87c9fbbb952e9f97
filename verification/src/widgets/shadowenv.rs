//! Whether the environment of the shell is overlaid by the directory.

use vstd::prelude::*;
use vstd::string::*;

use crate::formatting::{zero_width, zw, FG_GRAY, SGR_RESET};
use crate::text::{has_prefix, starts_with, str_of};

verus! {

/// The variable that holds the overlay data.
pub const DATA_VAR: &'static str = "__shadowenv_data";

/// What the overlay data begins with while no overlay is in force.
pub const INACTIVE_PREFIX: &'static str = "0000";

/// The sign of an overlay that is in force.
pub const ACTIVE_MARK: &'static str = "\u{2591}";

/// Whether the overlay data `data` tells of an overlay in force: it is
/// there, not empty, and does not begin with four zeros.
pub open spec fn is_active(data: Option<Seq<char>>) -> bool {
    match data {
        Some(data) => data.len() > 0 && !has_prefix(data, INACTIVE_PREFIX@),
        None => false,
    }
}

/// Whether the overlay data of the shell, if it has any, tells of an
/// overlay in force.
pub fn shadowenv_active(data: Option<&str>) -> (r: bool)
    ensures
        r == is_active(str_of(data)),
{
    match data {
        Some(data) => data.unicode_len() > 0 && !starts_with(data, INACTIVE_PREFIX),
        None => false,
    }
}

/// A grey mark while an overlay is in force, else a space.
pub fn generate(data: Option<&str>) -> (r: String)
    ensures
        r@ == if is_active(str_of(data)) {
            zero_width(FG_GRAY@) + ACTIVE_MARK@ + zero_width(SGR_RESET@)
        } else {
            seq![' ']
        },
{
    if shadowenv_active(data) {
        let mut out = zw(FG_GRAY);
        out.append(ACTIVE_MARK);
        let reset = zw(SGR_RESET);
        out.append(reset.as_str());
        out
    } else {
        let mut out = String::new();
        out.push(' ');
        out
    }
}

} // verus!
