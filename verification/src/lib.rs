//! Building blocks of an interactive shell prompt whose slow status indicator
//! is computed by a detached background worker.

pub mod context;
pub mod formatting;
pub mod line;
pub mod text;
pub mod widgets;
