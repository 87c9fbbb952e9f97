//! The pieces of the prompt, one module each.

pub mod async_data;
pub mod exit;
pub mod path;
pub mod pending;
pub mod prompt;
pub mod ref_info;
pub mod shadowenv;
pub mod space_if_git;
pub mod stash;
pub mod sync;
pub mod world_path;
