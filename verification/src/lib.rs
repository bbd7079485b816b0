//! A personal task list: timestamped tasks kept in insertion order, the
//! operations that change them, the listing with its filter and sort order,
//! and the command language that drives it all.

pub mod clock;
pub mod command;
pub mod dispatch;
pub mod instant;
pub mod listing;
pub mod report;
pub mod store;
pub mod task;
pub mod text;
pub mod words;
