//! A paged, multi-select button UI driver for chat-platform messages.
//!
//! Given a list of candidate items, the engine partitions them into pages of
//! toggle buttons, tracks which items are currently selected, and resolves to
//! a final selection when the operator confirms, aborts, or the per-step
//! inactivity timeout fires.  Everything here is pure bookkeeping over plain
//! values: the platform binding (message edits, event streams, timers) drives
//! the engine from outside by feeding it one event at a time.

pub mod button;
pub mod config;
pub mod engine;
pub mod layout;
pub mod render;
pub mod selection;
pub mod text;

pub use button::Button;
pub use button::ButtonParseError;
