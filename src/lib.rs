//! A lexical scanner for an Elixir-like language.
//!
//! The scanner turns source text into a flat sequence of tokens, each tagged
//! with a kind and holding the exact text it was read from. `scan` states
//! what it does as mathematics, `lexer` does it, and `laws` proves properties
//! of the whole.
pub mod chars;
pub mod token;
pub mod scan;
pub mod lexer;
pub mod laws;

pub use lexer::{tokenize, Lexer};
pub use token::{Token, TokenType};
