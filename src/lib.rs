//! Conversion of a small dialect of Markdown to HTML.
//!
//! `parser::parse_markdown` reads a whole document into blocks, following the
//! grammar stated in `grammar`; `translator::translate` renders the blocks as
//! HTML. Both are verified against those spec functions, and `laws` proves
//! properties of the grammar as a whole.
pub mod chars;
pub mod entity;
pub mod grammar;
pub mod laws;
pub mod parser;
pub mod translator;
