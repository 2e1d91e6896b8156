//! Generic history managers that act as building blocks for transactional state and
//! reversible computations.
//!
//! - [`HistoryStack`] keeps a LIFO stack of saved values beside a live current value.
//! - [`UndoStack`] keeps a linear timeline with a cursor, supporting undo and redo; a new
//!   write after an undo discards the abandoned future.
//!
//! Both wrappers compare like their current value alone.

mod history;
mod undo;

pub use history::{HistoryStack, SavedStack};
pub use undo::{Timeline, UndoStack};
