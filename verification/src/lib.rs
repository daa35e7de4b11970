//! A syntax tree and a printer that lays it out as indented, styled text.

pub mod ast;
pub mod ast_printer;
pub mod render;
pub mod style;
