//! A line editor front end whose suspend key stops the process instead of
//! being swallowed by the editing engine.
//!
//! The suspend chord is bound to a host command that carries a reserved
//! marker text. One read of a line is then a short dialogue between this
//! library, which decides, and its driver, which blocks on the terminal and
//! raises the stop signal.

pub mod editor;
pub mod keymap;
pub mod repl;
pub mod session;
