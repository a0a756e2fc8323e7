//! Bulk file-rename preview: an ordered pipeline of text mutations applied to
//! the names of the entries a user has marked in a directory listing.

pub mod components;
pub mod form;
pub mod preview;
pub mod text;
pub mod utilities;
