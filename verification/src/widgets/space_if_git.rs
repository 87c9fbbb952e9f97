//! The gap between the path and what is shown of the repository.

use vstd::prelude::*;
use vstd::string::*;

use crate::context::Context;

verus! {

/// One space inside a repository, nothing outside.
pub fn generate(context: &Context) -> (r: String)
    ensures
        r@ == if context@.git_root is Some {
            seq![' ']
        } else {
            Seq::<char>::empty()
        },
{
    let mut out = String::new();
    if context.in_repository() {
        out.push(' ');
    }
    out
}

} // verus!
