//! What is known of the repository around the working directory, and how
//! it is found out.

use vstd::prelude::*;
use vstd::string::*;

use crate::text::{
    chars_of, has_prefix, join_path, joined, starts_with_at, str_of, string_of_range, text_of,
    trim_end, trimmed_end,
};

verus! {

/// The repository as mathematical values.
pub struct ContextView {
    /// The directory that holds the repository, if there is one.
    pub git_root: Option<Seq<char>>,
    /// What the repository has checked out, if that could be read.
    pub git_head: Option<Seq<char>>,
}

/// The repository around the working directory, looked up once for one
/// drawing of the prompt.
#[derive(Debug, PartialEq, Eq)]
pub struct Context {
    git_root: Option<String>,
    git_head: Option<String>,
}

impl View for Context {
    type V = ContextView;

    closed spec fn view(&self) -> ContextView {
        ContextView {
            git_root: text_of(self.git_root),
            git_head: text_of(self.git_head),
        }
    }
}

impl Context {
    /// Without a repository nothing is checked out.
    #[verifier::type_invariant]
    pub open spec fn well_formed(self) -> bool {
        self@.git_head is Some ==> self@.git_root is Some
    }

    /// The context of a working directory whose repository lies in
    /// `git_root` and has `git_head` checked out. Without a repository
    /// `git_head` counts for nothing.
    pub fn new(git_root: Option<String>, git_head: Option<String>) -> (r: Context)
        ensures
            r@.git_root == text_of(git_root),
            r@.git_head == if git_root is Some {
                text_of(git_head)
            } else {
                None
            },
    {
        match git_root {
            Some(root) => Context { git_root: Some(root), git_head },
            None => Context { git_root: None, git_head: None },
        }
    }

    /// The directory that holds the repository, if there is one.
    pub fn git_root(&self) -> (r: Option<String>)
        ensures
            text_of(r) == self@.git_root,
    {
        match &self.git_root {
            Some(root) => Some(root.clone()),
            None => None,
        }
    }

    /// What the repository has checked out, as its `HEAD` file says it.
    pub fn git_head(&self) -> (r: Option<String>)
        ensures
            text_of(r) == self@.git_head,
            r is Some ==> self@.git_root is Some,
    {
        proof {
            use_type_invariant(self);
        }
        match &self.git_head {
            Some(head) => Some(head.clone()),
            None => None,
        }
    }

    /// Whether the working directory lies in a repository.
    pub fn in_repository(&self) -> (r: bool)
        ensures
            r == self@.git_root is Some,
    {
        self.git_root.is_some()
    }
}

/// Where the search for the repository goes after one directory.
#[derive(Debug, PartialEq, Eq)]
pub enum RootSearch {
    /// The repository lies in this directory.
    Found(String),
    /// Look in this directory next.
    Ascend(String),
    /// There is no directory left to look in.
    GaveUp,
}

/// The name that marks a directory as holding a repository.
pub const GIT_MARKER: &'static str = ".git";

/// The path whose presence marks `dir` as holding a repository.
pub fn git_marker(dir: &str) -> (r: String)
    ensures
        r@ == joined(dir@, GIT_MARKER@),
{
    join_path(dir, GIT_MARKER)
}

/// One step of the search for the repository, upwards from the working
/// directory: `dir` holds it if its marker is there (`has_marker`); else
/// the search goes on in `parent`, the directory above `dir`, and ends
/// where there is none.
pub fn find_git_root(dir: String, has_marker: bool, parent: Option<String>) -> (r: RootSearch)
    ensures
        match r {
            RootSearch::Found(root) => has_marker && root@ == dir@,
            RootSearch::Ascend(next) => !has_marker && text_of(parent) == Some(next@),
            RootSearch::GaveUp => !has_marker && parent is None,
        },
{
    if has_marker {
        RootSearch::Found(dir)
    } else {
        match parent {
            Some(next) => RootSearch::Ascend(next),
            None => RootSearch::GaveUp,
        }
    }
}

/// The directory that the file `.git` of a linked working tree points to:
/// what follows `gitdir: ` in `git_file`, without the white space at its
/// end. `None` where the file does not begin so.
pub open spec fn gitdir_of(git_file: Seq<char>) -> Option<Seq<char>> {
    if has_prefix(git_file, "gitdir: "@) {
        Some(trimmed_end(git_file.skip(8)))
    } else {
        None
    }
}

/// The path of the `HEAD` file of the repository in `root`. `git_file` is
/// what the marker of `root` holds where it is a file, and `None` where it
/// is a directory, which then holds `HEAD` itself. A file points to the
/// directory to look in, by a path that counts from `root` unless it
/// begins at the root of the file system.
pub open spec fn head_path(root: Seq<char>, git_file: Option<Seq<char>>) -> Option<Seq<char>> {
    match git_file {
        Some(content) => match gitdir_of(content) {
            Some(dir) => if dir.len() > 0 && dir[0] == '/' {
                Some(joined(dir, "HEAD"@))
            } else {
                Some(joined(joined(root, dir), "HEAD"@))
            },
            None => None,
        },
        None => Some(joined(joined(root, GIT_MARKER@), "HEAD"@)),
    }
}

/// The path of the file that says what the repository in `root` has checked
/// out, if the marker of `root` leads to one.
pub fn find_git_head(root: &str, git_file: Option<&str>) -> (r: Option<String>)
    ensures
        text_of(r) == head_path(root@, str_of(git_file)),
{
    match git_file {
        Some(content) => {
            let chars = chars_of(content);
            let prefix = chars_of("gitdir: ");
            proof {
                reveal_strlit("gitdir: ");
                assert(chars@.skip(0) == chars@);
            }
            if !starts_with_at(&chars, 0, &prefix) {
                return None;
            }
            let rest = string_of_range(&chars, 8, chars.len());
            proof {
                assert(chars@.subrange(8, chars.len() as int) == chars@.skip(8));
            }
            let dir = trim_end(rest.as_str());
            let count = dir.as_str().unicode_len();
            if count > 0 && dir.as_str().get_char(0) == '/' {
                Some(join_path(dir.as_str(), "HEAD"))
            } else {
                let inside = join_path(root, dir.as_str());
                Some(join_path(inside.as_str(), "HEAD"))
            }
        },
        None => {
            let inside = git_marker(root);
            Some(join_path(inside.as_str(), "HEAD"))
        },
    }
}

/// What a `HEAD` file says: its content without the white space at its
/// end, where the file could be read.
pub fn read_head_file(content: Option<&str>) -> (r: Option<String>)
    ensures
        text_of(r) == match content {
            Some(text) => Some(trimmed_end(text@)),
            None => None,
        },
{
    match content {
        Some(text) => Some(trim_end(text)),
        None => None,
    }
}

} // verus!
