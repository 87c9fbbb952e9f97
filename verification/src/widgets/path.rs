//! The name of the working directory.

use vstd::prelude::*;
use vstd::string::*;

use crate::formatting::{zero_width, zw, BG_SHADOWENV, FG_BLUE, FG_GREEN, SGR_RESET};
use crate::text::str_of;
use crate::widgets::shadowenv::{is_active, shadowenv_active};

verus! {

/// The variable that is set while the shell runs over a remote connection.
pub const REMOTE_VAR: &'static str = "SSH_CONNECTION";

/// The variable that asks for the helper program of the world tree in
/// place of this piece.
pub const HELPER_VAR: &'static str = "USE_PWWD";

/// The directory of the world tree, inside the home directory.
pub const WORLD_DIR: &'static str = "world";

/// The sign of a directory inside the world tree.
pub const WORLD_MARK: &'static str = "\u{2295}";

/// The colour of the directory name: green on a remote machine, else
/// blue, on a grey ground while an overlay is in force.
pub open spec fn path_color(remote: bool, shadowenv_data: Option<Seq<char>>) -> Seq<char> {
    let foreground = if remote {
        FG_GREEN@
    } else {
        FG_BLUE@
    };
    if is_active(shadowenv_data) {
        foreground + BG_SHADOWENV@
    } else {
        foreground
    }
}

/// What is shown of the working directory: a green mark if it lies in the
/// world tree, and then its name in its colour.
pub open spec fn path_text(
    remote: bool,
    shadowenv_data: Option<Seq<char>>,
    basename: Seq<char>,
    in_world: bool,
) -> Seq<char> {
    let mark = if in_world {
        zero_width(FG_GREEN@) + WORLD_MARK@
    } else {
        Seq::empty()
    };
    mark + zero_width(path_color(remote, shadowenv_data)) + basename + zero_width(SGR_RESET@)
}

/// Shows the working directory by its last component `basename`. `remote`
/// says whether the shell runs over a remote connection, `shadowenv_data`
/// is the overlay data of the shell if it has any, and `in_world` says
/// whether the directory lies in the world tree of the home directory.
pub fn gen_path(remote: bool, shadowenv_data: Option<&str>, basename: &str, in_world: bool) -> (r:
    String)
    ensures
        r@ == path_text(remote, str_of(shadowenv_data), basename@, in_world),
{
    let mut color = String::from_str(
        if remote {
            FG_GREEN
        } else {
            FG_BLUE
        },
    );
    if shadowenv_active(shadowenv_data) {
        color.append(BG_SHADOWENV);
    }
    let mut out = String::new();
    if in_world {
        let green = zw(FG_GREEN);
        out.append(green.as_str());
        out.append(WORLD_MARK);
    }
    let colored = zw(color.as_str());
    out.append(colored.as_str());
    out.append(basename);
    let reset = zw(SGR_RESET);
    out.append(reset.as_str());
    proof {
        assert(out@ =~= path_text(remote, str_of(shadowenv_data), basename@, in_world));
    }
    out
}

} // verus!
