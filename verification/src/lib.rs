//! Code emitter for a block-delimited scripting target.
//!
//! The crate takes an already-parsed syntax tree — statements, expressions,
//! `if` chains and function literals — and renders it as source text for a
//! statement-oriented target language.  The source language treats blocks and
//! `if` as value-producing expressions; the target has no expression-level
//! control flow, so the emitter threads each value out of its block by
//! rewriting the tail position into an explicit `return` or assignment.

pub mod ast;
pub mod codegen;
pub mod laws;
pub mod render;
pub mod text;
