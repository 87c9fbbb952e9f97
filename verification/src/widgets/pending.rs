//! The operations that the repository is in the middle of.

use vstd::prelude::*;
use vstd::string::*;

use crate::context::Context;
use crate::formatting::{zero_width, zw, FG_RED};

verus! {

// The files whose presence in the repository tells of an operation that has
// not come to its end, by their paths from the directory of the repository.
pub const CHERRY_PICK_FILE: &'static str = ".git/CHERRY_PICK_HEAD";

pub const MERGE_FILE: &'static str = ".git/MERGE_HEAD";

pub const BISECT_FILE: &'static str = ".git/BISECT_LOG";

pub const REBASE_APPLY_FILE: &'static str = ".git/rebase-apply";

pub const REBASE_MERGE_FILE: &'static str = ".git/rebase-merge";

// The letters that stand for the operations.
pub const CHERRY_PICK_MARK: &'static str = "\u{1d3e}";

pub const MERGE_MARK: &'static str = "\u{1d39}";

pub const BISECT_MARK: &'static str = "\u{1d2e}";

pub const REBASE_APPLY_MARK: &'static str = "\u{1d3f}";

pub const REBASE_MERGE_MARK: &'static str = "\u{2b3}";

/// Which operations the repository is in the middle of: for each whether
/// its file is there.
#[derive(Debug, Clone, Copy, PartialEq, Eq)]
pub struct PendingOperations {
    pub cherry_pick: bool,
    pub merge: bool,
    pub bisect: bool,
    pub rebase_apply: bool,
    pub rebase_merge: bool,
}

/// `mark` if `present`, else nothing.
pub open spec fn mark_if(present: bool, mark: Seq<char>) -> Seq<char> {
    if present {
        mark
    } else {
        Seq::empty()
    }
}

/// The letters of the operations that are under way, in their fixed order.
pub open spec fn marks(operations: PendingOperations) -> Seq<char> {
    mark_if(operations.cherry_pick, CHERRY_PICK_MARK@) + mark_if(operations.merge, MERGE_MARK@)
        + mark_if(operations.bisect, BISECT_MARK@) + mark_if(
        operations.rebase_apply,
        REBASE_APPLY_MARK@,
    ) + mark_if(operations.rebase_merge, REBASE_MERGE_MARK@)
}

/// Whether any operation is under way.
pub open spec fn any(operations: PendingOperations) -> bool {
    operations.cherry_pick || operations.merge || operations.bisect || operations.rebase_apply
        || operations.rebase_merge
}

/// What is shown of the operations: their letters in red, and nothing if
/// there is no repository or no operation.
pub open spec fn pending_text(in_repository: bool, operations: PendingOperations) -> Seq<char> {
    if in_repository && any(operations) {
        zero_width(FG_RED@) + marks(operations)
    } else {
        Seq::empty()
    }
}

/// Shows the operations that the repository is in the middle of.
pub fn generate(context: &Context, operations: PendingOperations) -> (r: String)
    ensures
        r@ == pending_text(context@.git_root is Some, operations),
{
    if !context.in_repository() {
        return String::new();
    }
    if !(operations.cherry_pick || operations.merge || operations.bisect
        || operations.rebase_apply || operations.rebase_merge) {
        return String::new();
    }
    let mut out = zw(FG_RED);
    if operations.cherry_pick {
        out.append(CHERRY_PICK_MARK);
    }
    if operations.merge {
        out.append(MERGE_MARK);
    }
    if operations.bisect {
        out.append(BISECT_MARK);
    }
    if operations.rebase_apply {
        out.append(REBASE_APPLY_MARK);
    }
    if operations.rebase_merge {
        out.append(REBASE_MERGE_MARK);
    }
    proof {
        assert(out@ =~= zero_width(FG_RED@) + marks(operations));
    }
    out
}

} // verus!
