//! Pagination and rendering engine of a terminal reader for a web magazine.
//!
//! The crate assembles the lines of an article into a document, classifies
//! each line for styling, keeps the scroll position of a viewport over the
//! document, and computes what the terminal shows for a given state. All of
//! it is plain computation on values; drawing and reading keys are left to
//! the caller.

pub mod document;
pub mod input;
pub mod line;
pub mod screen;
pub mod text;
pub mod width;
