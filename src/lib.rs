//! Front end and evaluator of a small dynamically typed expression language:
//! a scanner from text to tokens, a recursive-descent parser from tokens to a
//! syntax tree, and a tree-walking evaluator over a small value model.
use vstd::prelude::*;

pub mod token;
pub mod text;
pub mod error_reporter;
pub mod lexical;
pub mod scanner;
pub mod ast;
pub mod grammar;
pub mod parser;
pub mod ast_printer;
pub mod value;
pub mod semantics;
pub mod interpreter;
pub mod laws;
pub mod lox;
