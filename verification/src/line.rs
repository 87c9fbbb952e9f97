//! The whole prompt, and the pieces that can be asked for by themselves.

use vstd::prelude::*;
use vstd::string::*;

verus! {

/// A piece of the prompt that can be asked for by itself.
#[derive(Debug, Clone, Copy, PartialEq, Eq)]
pub enum Widget {
    Path,
    Stash,
    AsyncData,
    RefInfo,
    Pending,
    Sync,
    Exit,
    Prompt,
    Jobs,
}

/// The pieces in the order in which they are printed.
pub open spec fn all_widgets() -> Seq<Widget> {
    seq![
        Widget::Path,
        Widget::Stash,
        Widget::AsyncData,
        Widget::RefInfo,
        Widget::Pending,
        Widget::Sync,
        Widget::Exit,
        Widget::Prompt,
        Widget::Jobs,
    ]
}

/// The letter of the option that asks for `widget`.
pub open spec fn flag_of(widget: Widget) -> Seq<char> {
    match widget {
        Widget::Path => "p"@,
        Widget::Stash => "s"@,
        Widget::AsyncData => "a"@,
        Widget::RefInfo => "r"@,
        Widget::Pending => "n"@,
        Widget::Sync => "y"@,
        Widget::Exit => "e"@,
        Widget::Prompt => "P"@,
        Widget::Jobs => "j"@,
    }
}

/// The pieces in the order in which they are printed.
pub fn widgets() -> (r: Vec<Widget>)
    ensures
        r@ == all_widgets(),
{
    let mut all: Vec<Widget> = Vec::new();
    all.push(Widget::Path);
    all.push(Widget::Stash);
    all.push(Widget::AsyncData);
    all.push(Widget::RefInfo);
    all.push(Widget::Pending);
    all.push(Widget::Sync);
    all.push(Widget::Exit);
    all.push(Widget::Prompt);
    all.push(Widget::Jobs);
    all
}

impl Widget {
    /// The letter of the option that asks for this piece.
    pub fn flag(&self) -> (r: &'static str)
        ensures
            r@ == flag_of(*self),
    {
        match self {
            Widget::Path => "p",
            Widget::Stash => "s",
            Widget::AsyncData => "a",
            Widget::RefInfo => "r",
            Widget::Pending => "n",
            Widget::Sync => "y",
            Widget::Exit => "e",
            Widget::Prompt => "P",
            Widget::Jobs => "j",
        }
    }

    /// What the option that asks for this piece does, in words.
    pub fn description(&self) -> (r: &'static str)
        ensures
            r@ == match self {
                Widget::Path => "print path info"@,
                Widget::Stash => "print stash info"@,
                Widget::AsyncData => "print async data"@,
                Widget::RefInfo => "print ref info"@,
                Widget::Pending => "print git pending"@,
                Widget::Sync => "print git sync status"@,
                Widget::Exit => "print exit status"@,
                Widget::Prompt => "print prompt char"@,
                Widget::Jobs => "print jobs"@,
            },
    {
        match self {
            Widget::Path => "print path info",
            Widget::Stash => "print stash info",
            Widget::AsyncData => "print async data",
            Widget::RefInfo => "print ref info",
            Widget::Pending => "print git pending",
            Widget::Sync => "print git sync status",
            Widget::Exit => "print exit status",
            Widget::Prompt => "print prompt char",
            Widget::Jobs => "print jobs",
        }
    }
}

/// The texts of the pieces of one prompt.
#[derive(Debug, PartialEq, Eq)]
pub struct Pieces {
    pub path: String,
    /// The gap after the path: a space inside a repository.
    pub gap: String,
    pub stash: String,
    pub async_data: String,
    pub ref_info: String,
    pub pending: String,
    pub sync: String,
    pub exit: String,
    pub prompt: String,
    pub jobs: String,
}

/// The whole prompt: the pieces about the directory and its repository, a
/// space, the pieces about the shell, and a space.
pub open spec fn prompt_line(pieces: Pieces) -> Seq<char> {
    pieces.path@ + pieces.gap@ + pieces.stash@ + pieces.async_data@ + pieces.ref_info@
        + pieces.pending@ + pieces.sync@ + seq![' '] + pieces.exit@ + pieces.prompt@
        + pieces.jobs@ + seq![' ']
}

/// Puts the pieces together to the whole prompt.
pub fn print_all(pieces: &Pieces) -> (r: String)
    ensures
        r@ == prompt_line(*pieces),
{
    let mut out = String::new();
    out.append(pieces.path.as_str());
    out.append(pieces.gap.as_str());
    out.append(pieces.stash.as_str());
    out.append(pieces.async_data.as_str());
    out.append(pieces.ref_info.as_str());
    out.append(pieces.pending.as_str());
    out.append(pieces.sync.as_str());
    out.push(' ');
    out.append(pieces.exit.as_str());
    out.append(pieces.prompt.as_str());
    out.append(pieces.jobs.as_str());
    out.push(' ');
    proof {
        assert(out@ =~= prompt_line(*pieces));
    }
    out
}

} // verus!
