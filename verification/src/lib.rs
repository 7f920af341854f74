//! A virtual terminal session: key events are translated to single-byte
//! keycodes, applied to a terminal state machine and rendered as frames.
//! The input pump and the session driver are given as transition functions,
//! so that the loops around them hold no decision of their own.

pub mod ansi;
mod codes;
pub mod driver;
pub mod keycode;
pub mod pump;
pub mod terminal;
