//! Front end of a small shader language: tokens are parsed into a syntax
//! tree, untyped bindings receive a type by a single forward pass, and the
//! tree is lowered to GLSL text together with a line-accurate source map
//! that lets a backend's line-numbered diagnostics be anchored in the
//! shader source.
//!
//! Every executable function of the crate is verified against a
//! specification over mathematical views of the data: token sequences,
//! trees with `Seq` fields, and character sequences.

pub mod diagnostics;
pub mod error;
pub mod fresh;
pub mod generate;
pub mod generator;
pub mod glsl;
pub mod grammar;
pub mod lexer;
pub mod number;
pub mod parser;
pub mod parser_stmt;
pub mod progress;
pub mod resolve;
pub mod resolver;
pub mod shader;
pub mod span;
pub mod text;
pub mod token;
pub mod yasl_block;
pub mod yasl_expr;
pub mod yasl_file;
pub mod yasl_ident;
pub mod yasl_item;
pub mod yasl_stmt;
pub mod yasl_type;

pub use crate::shader::Shader;
