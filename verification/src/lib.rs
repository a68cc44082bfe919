//! Event vocabulary of a terminal chat client: a closed tagged union over
//! every stimulus the UI loop reacts to, a parser from key-chord strings
//! such as `ctrl+shift+a`, and a display formatter for diagnostics.

pub mod display;
pub mod equality;
pub mod error;
pub mod event;
pub mod keys;
pub mod laws;
pub mod payload;
pub mod text;
