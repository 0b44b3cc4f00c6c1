//! Column layout and rendering logic of a small `ls` replacement.
//!
//! The library lists directory entries as rows of named columns, works out
//! how wide each column must be, pads and colours each cell, and renders the
//! rows. Reading the file system, parsing arguments and printing are left to
//! the program around the library.

pub mod consts;
pub mod error;
pub mod laws;
pub mod listing;
pub mod padding;
pub mod render;
pub mod rows;
pub mod text;
