//! A small terminal-control library with a verified command buffer.
//!
//! Operations such as moving the cursor, clearing the screen or printing
//! text are queued in an explicit buffer and handed to the terminal only
//! when `execute` flushes them.  The buffer's behaviour — what each
//! operation queues, that queued work stays invisible until a flush, and
//! what a flush emits — is stated in contracts and proved.  The control
//! sequences themselves are produced and written by the `crossterm` crate
//! behind a handful of trusted wrappers.

pub mod command;
pub mod screen;
pub mod terminal;

pub use terminal::Position;
pub use terminal::Size;
pub use terminal::Terminal;
