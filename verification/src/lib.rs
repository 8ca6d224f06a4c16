//! A small source-to-source compiler front end: it lexes, parses,
//! semantically checks, and translates a little statically typed language
//! (primitives, variables, functions, classes) into C source/header pairs.
//!
//! The heart of the crate is the semantic checker: it resolves every
//! identifier to a declaration through lexical and class scoping, infers and
//! validates types, enforces the language's static rules (no shadowing, no
//! reassigning constants, arity-checked calls, context-restricted
//! statements), and produces a rewritten, type-annotated tree for code
//! generation.

pub mod position;
pub mod file;
pub mod text;
pub mod token;
pub mod lexer;
pub mod parser;
pub mod translator;
pub mod types;
pub mod node;
pub mod symbols;
pub mod scope;
pub mod checkspec;
pub mod checker;
pub mod laws;
