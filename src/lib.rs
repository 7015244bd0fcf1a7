//! Syntax tree, evaluation order and source formatting for a Lua-family
//! scripting language with gradual structural type annotations.
pub mod ast;
pub mod evaluation;
pub mod format;
pub mod lexer;
