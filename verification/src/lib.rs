//! Lexer and syntax-tree types for the SysML v2 / KerML textual notation.

pub mod ast;
pub mod lexer;
pub mod position;
pub mod text;
pub mod token;
pub mod unicode;
