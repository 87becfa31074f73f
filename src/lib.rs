//! Compiles a document tree into HTML for a slide-based presentation
//! framework, and turns a colour theme into a stylesheet for highlighted code.

pub mod ast;
pub mod attrs;
pub mod compiler;
pub mod highlight;
pub mod laws;
pub mod rendering;
pub mod text;
pub mod theme;
