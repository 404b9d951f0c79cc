//! A minimal in-memory task list: an ordered, index-addressable sequence of
//! two-field records (title, description) with append, update-by-index,
//! delete-by-index, and single or full reads.
//!
//! Deletion uses ordered removal: records after the deleted index shift down
//! by one, so the relative order of the remaining records is preserved.

pub mod laws;
pub mod store;

pub use store::Task;
pub use store::TaskList;
pub use store::TaskListView;
