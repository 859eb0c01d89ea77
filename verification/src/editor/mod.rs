//! The editing core: buffer, cursor and document.
pub mod buffer;
pub mod cursor;
pub mod document;
