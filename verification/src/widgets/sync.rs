//! Whether the branch and its copy on the remote agree.

use vstd::prelude::*;
use vstd::string::*;

use crate::context::Context;
use crate::formatting::{zero_width, zw, FG_RED, FG_YELLOW};
use crate::text::{str_of, trim_end, trimmed_end};
use crate::widgets::ref_info::{branch, branch_of};

verus! {

// Where the commit of a branch is recorded, and where that of its copy on
// the remote, as paths from the directory of the repository; the short
// name of the branch follows.
pub const LOCAL_REFS_DIR: &'static str = ".git/refs/heads/";

pub const REMOTE_REFS_DIR: &'static str = ".git/refs/remotes/origin/";

/// The sign of a branch that differs from its copy on the remote.
pub const DIVERGED_MARK: &'static str = " \u{2260}";

/// The sign of a branch that has no copy on the remote.
pub const UNTRACKED_MARK: &'static str = " \u{225f}";

/// The commit that a ref file records: its content without the white space
/// at its end, and the empty text where there is no file.
pub open spec fn recorded(reference: Option<Seq<char>>) -> Seq<char> {
    match reference {
        Some(content) => trimmed_end(content),
        None => Seq::empty(),
    }
}

/// What is shown of the branch `branch` with the ref files `local` and
/// `remote`: nothing without a branch; a yellow sign where the remote has
/// no copy; a red sign where the two record different commits; nothing
/// where they agree.
pub open spec fn sync_text(
    branch: Option<Seq<char>>,
    local: Option<Seq<char>>,
    remote: Option<Seq<char>>,
) -> Seq<char> {
    if branch is Some {
        match remote {
            Some(content) => if recorded(local) == trimmed_end(content) {
                Seq::empty()
            } else {
                zero_width(FG_RED@) + DIVERGED_MARK@
            },
            None => zero_width(FG_YELLOW@) + UNTRACKED_MARK@,
        }
    } else {
        Seq::empty()
    }
}

/// Shows whether the branch that is checked out agrees with its copy on
/// the remote. `local` and `remote` are the contents of the two ref files
/// of that branch, each `None` where the file could not be read.
pub fn generate(context: &Context, local: Option<&str>, remote: Option<&str>) -> (r: String)
    ensures
        r@ == sync_text(branch_of(context@.git_head), str_of(local), str_of(remote)),
{
    if branch(context).is_none() {
        return String::new();
    }
    let local_commit = match local {
        Some(content) => trim_end(content),
        None => String::new(),
    };
    match remote {
        Some(content) => {
            let remote_commit = trim_end(content);
            if local_commit == remote_commit {
                String::new()
            } else {
                let mut out = zw(FG_RED);
                out.append(DIVERGED_MARK);
                out
            }
        },
        None => {
            let mut out = zw(FG_YELLOW);
            out.append(UNTRACKED_MARK);
            out
        },
    }
}

} // verus!
