//! A small modal text editor core: a line buffer with a cursor, a two-mode
//! key interpreter, line splicing for newline and backspace, and bounded
//! word motions.

pub mod keys;
pub mod buffer;
pub mod viewport;
pub mod edit;
pub mod motion;
pub mod interp;
pub mod laws;
pub mod render;
