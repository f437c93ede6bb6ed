//! Building LaTeX documents from a tree of content nodes.
//!
//! A document is assembled bottom-up from [`content::Core`] values and
//! rendered in one depth-first pass. Every type has a mathematical view
//! (see [`model`]), and the text a value renders to is a spec function of
//! that view (see [`render`]).

pub mod bloc;
pub mod content;
pub mod content_from_file;
pub mod decimal;
pub mod displays;
pub mod equations;
pub mod error;
pub mod expressions;
pub mod into_tab;
pub mod latex_file;
pub mod math_mode;
pub mod model;
pub mod operators;
pub mod render;
pub mod sections;
pub mod str_or_string;
pub mod symbols;
pub mod tabular;
pub mod tag;
pub mod writable;
