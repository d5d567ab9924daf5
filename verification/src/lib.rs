//! An interpreter for a line-oriented, assembly-like language: typed scalar
//! values in named variables, a local and a global scope, blocks entered by
//! `GOTO`, loops by `GO_BACK`, forward skips, and functions with output
//! bindings.
//!
//! The library never computes on floating-point numbers and never runs host
//! code. It carries a float by its bit pattern, and where a program needs
//! float arithmetic or a native function it hands the request out and is
//! resumed with the answer.
pub mod data_type;
pub mod parser;
pub mod runtime;
pub mod text;
pub mod tokeniser;
