//! Front end for a small C-like teaching language: a lexical scanner and a
//! table-driven LL(1) parser that builds a parse tree and recovers from
//! syntax errors with a panic-mode strategy.
//!
//! The grammar table is a fixed, hand-authored artifact for one grammar; the
//! parse engine drives a derivation stack and an open-node stack in lock-step
//! while consuming a forward-only token cursor.

pub mod engine;
pub mod grammar;
pub mod laws;
pub mod lexer;
pub mod measure;
pub mod sentence;
pub mod token;
pub mod tree;
