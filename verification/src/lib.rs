//! Positional cursors over a borrowed `Vec`.
//!
//! A cursor pairs a borrow of a vector with one index. The index either
//! denotes an element (a valid position) or equals the vector's length (the
//! ghost position, which sits between the last and the first element of a
//! circular arrangement).

pub mod position;
pub mod cursor;
pub mod cursor_mut;

pub use cursor::Cursor;
pub use cursor_mut::CursorMut;
