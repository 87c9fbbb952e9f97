//! The branch or commit that is checked out.

use vstd::prelude::*;
use vstd::string::*;

use crate::context::Context;
use crate::text::{
    chars_of, has_prefix, range_is, skip_leading, starts_with_at, string_of_range, text_of,
    without_leading,
};

verus! {

/// What a `HEAD` that names a branch begins with.
pub const REF_PREFIX: &'static str = "ref: ";

/// What the full name of a branch begins with.
pub const HEADS_PREFIX: &'static str = "refs/heads/";

/// What is shown for the branches `master` and `main`.
pub const MAIN_MARK: &'static str = "\u{1d48e}";

/// What is shown for a `HEAD` that is neither a branch nor long enough for
/// a commit.
pub const UNKNOWN_REF: &'static str = "???";

/// How many characters of a commit are shown.
pub const COMMIT_CHARS: usize = 8;

/// Whether `head` names a branch.
pub open spec fn names_branch(head: Seq<char>) -> bool {
    has_prefix(head, REF_PREFIX@)
}

/// The short name of the branch that `head` names: `head` without `ref: `
/// and then without `refs/heads/` at its beginning, each as often as it
/// stands there.
pub open spec fn branch_name(head: Seq<char>) -> Seq<char> {
    without_leading(without_leading(head, REF_PREFIX@), HEADS_PREFIX@)
}

/// The branch that `head` names, if it names one.
pub open spec fn branch_of(head: Option<Seq<char>>) -> Option<Seq<char>> {
    match head {
        Some(head) => if names_branch(head) {
            Some(branch_name(head))
        } else {
            None
        },
        None => None,
    }
}

/// What is shown of `head`: the short name of its branch, or the mark for
/// it if that is `master` or `main`; for a `HEAD` without a branch its
/// first eight characters, or `???` if it has fewer; nothing without a
/// `HEAD`.
pub open spec fn ref_text(head: Option<Seq<char>>) -> Seq<char> {
    match head {
        Some(head) => if names_branch(head) {
            let name = branch_name(head);
            if name == "master"@ || name == "main"@ {
                MAIN_MARK@
            } else {
                name
            }
        } else if head.len() >= 8 {
            head.take(8)
        } else {
            UNKNOWN_REF@
        },
        None => Seq::empty(),
    }
}

/// The short name of the branch that the repository has checked out, if it
/// has one checked out.
pub fn branch(context: &Context) -> (r: Option<String>)
    ensures
        text_of(r) == branch_of(context@.git_head),
{
    match context.git_head() {
        Some(head) => {
            let chars = chars_of(head.as_str());
            let ref_prefix = chars_of(REF_PREFIX);
            let heads_prefix = chars_of(HEADS_PREFIX);
            proof {
                assert(chars@.skip(0) == chars@);
            }
            if starts_with_at(&chars, 0, &ref_prefix) {
                let after_ref = skip_leading(&chars, 0, &ref_prefix);
                let after_heads = skip_leading(&chars, after_ref, &heads_prefix);
                proof {
                    assert(chars@.subrange(after_heads as int, chars.len() as int) == chars@.skip(
                        after_heads as int,
                    ));
                }
                Some(string_of_range(&chars, after_heads, chars.len()))
            } else {
                None
            }
        },
        None => None,
    }
}

/// Shows what the repository has checked out.
pub fn generate(context: &Context) -> (r: String)
    ensures
        r@ == ref_text(context@.git_head),
{
    match context.git_head() {
        Some(head) => match branch(context) {
            Some(name) => {
                let chars = chars_of(name.as_str());
                proof {
                    assert(chars@.subrange(0, chars.len() as int) == chars@);
                }
                if range_is(&chars, 0, chars.len(), "master") || range_is(
                    &chars,
                    0,
                    chars.len(),
                    "main",
                ) {
                    String::from_str(MAIN_MARK)
                } else {
                    name
                }
            },
            None => {
                let chars = chars_of(head.as_str());
                if chars.len() >= COMMIT_CHARS {
                    proof {
                        assert(chars@.subrange(0, 8) == chars@.take(8));
                    }
                    string_of_range(&chars, 0, COMMIT_CHARS)
                } else {
                    String::from_str(UNKNOWN_REF)
                }
            },
        },
        None => String::new(),
    }
}

} // verus!
