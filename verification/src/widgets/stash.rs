//! The number of stashed changes.

use vstd::prelude::*;
use vstd::string::*;

use crate::context::Context;
use crate::formatting::{zero_width, zw, FG_WHITE, SGR_RESET, SUPERSCRIPT_CHARS};
use crate::text::{chars_of, str_of};

verus! {

/// The log of the stash, by its path from the directory of the repository.
pub const STASH_LOG_FILE: &'static str = ".git/logs/refs/stash";

/// The highest count that is shown.
pub const MAX_SHOWN: usize = 9;

/// How many line feeds `text` holds.
pub open spec fn line_feeds(text: Seq<char>) -> nat
    decreases text.len(),
{
    if text.len() == 0 {
        0
    } else {
        line_feeds(text.drop_last()) + if text.last() == '\n' {
            1nat
        } else {
            0nat
        }
    }
}

/// How many lines `text` has: one for each line feed, and one more for
/// what follows the last of them, if anything does.
pub open spec fn line_count(text: Seq<char>) -> nat {
    line_feeds(text) + if text.len() > 0 && text.last() != '\n' {
        1nat
    } else {
        0nat
    }
}

/// The number that is shown for a stash with the log `log`: the number of
/// its lines, but nine for more than nine, and zero without a log.
pub open spec fn shown_count(log: Option<Seq<char>>) -> nat {
    match log {
        Some(text) => if line_count(text) > 9 {
            9
        } else {
            line_count(text)
        },
        None => 0,
    }
}

/// What is shown of the stash: the number of its entries as a white
/// superscript digit, and nothing if there is no repository or no entry.
pub open spec fn stash_text(in_repository: bool, log: Option<Seq<char>>) -> Seq<char> {
    if in_repository && shown_count(log) > 0 {
        zero_width(FG_WHITE@) + seq![SUPERSCRIPT_CHARS@[shown_count(log) as int]] + zero_width(
            SGR_RESET@,
        )
    } else {
        Seq::empty()
    }
}

/// A text has no more line feeds than characters.
proof fn lemma_line_feeds_bound(text: Seq<char>)
    ensures
        line_feeds(text) <= text.len(),
    decreases text.len(),
{
    if text.len() > 0 {
        lemma_line_feeds_bound(text.drop_last());
    }
}

/// The number of lines of `text`.
pub fn count_lines(text: &str) -> (r: usize)
    ensures
        r == line_count(text@),
{
    let chars = chars_of(text);
    let mut feeds: usize = 0;
    let mut i: usize = 0;
    while i < chars.len()
        invariant
            i <= chars.len(),
            feeds <= i,
            feeds == line_feeds(chars@.take(i as int)),
        decreases chars.len() - i,
    {
        proof {
            assert(chars@.take(i + 1).drop_last() == chars@.take(i as int));
        }
        if chars[i] == '\n' {
            feeds += 1;
        }
        i += 1;
    }
    proof {
        assert(chars@.take(i as int) == chars@);
    }
    if chars.len() > 0 && chars[chars.len() - 1] != '\n' {
        proof {
            lemma_line_feeds_bound(chars@.drop_last());
        }
        feeds + 1
    } else {
        feeds
    }
}

/// Shows how many changes are stashed, given the log of the stash where
/// the repository has one.
pub fn gen_stash(context: &Context, stash_log: Option<&str>) -> (r: String)
    ensures
        r@ == stash_text(context@.git_root is Some, str_of(stash_log)),
{
    if !context.in_repository() {
        return String::new();
    }
    let lines: usize = match stash_log {
        Some(text) => count_lines(text),
        None => 0,
    };
    let shown: usize = if lines > MAX_SHOWN {
        MAX_SHOWN
    } else {
        lines
    };
    if shown == 0 {
        return String::new();
    }
    proof {
        reveal_strlit("\u{2070}\u{b9}\u{b2}\u{b3}\u{2074}\u{2075}\u{2076}\u{2077}\u{2078}\u{2079}");
    }
    let digit = SUPERSCRIPT_CHARS.get_char(shown);
    let mut out = zw(FG_WHITE);
    out.push(digit);
    let reset = zw(SGR_RESET);
    out.append(reset.as_str());
    out
}

} // verus!
