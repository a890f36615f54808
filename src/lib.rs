//! Pages of a book held as plain text, and the previous / next navigation
//! links that stitch an ordered run of pages together.
pub mod config;
pub mod links;
pub mod page;
pub mod paths;
