//! Session state machine of an interactive terminal calculator.
//!
//! The session owns the input buffer, the history with its selection
//! cursor, the variables of the evaluator, and the help and quit flags. It
//! is driven by events and does no input or output of its own: what has to
//! be copied or persisted is handed back to the caller.

pub mod app;
pub mod command;
pub mod evaluator;
pub mod history;
pub mod keys;
pub mod laws;
pub mod session;
pub mod text;

pub use app::App;
pub use history::{AppState, HistoryItem};
