//! A miniature arithmetic-expression toolkit: a character-level tokenizer,
//! an expression tree with checked integer evaluation, a precedence-aware
//! text renderer, and an indented tree diagram.

pub mod analisador;
pub mod arvore_sintatica;
