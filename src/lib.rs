//! Canonification of one line of ABC music code: a PEG grammar for ABC
//! music-code lines, a walker that rewrites equivalent spellings onto one
//! canonical form, and a diagnostic for lines that do not parse.

pub mod fragment;
pub mod peg;
pub mod grammar;
pub mod text;
pub mod walk;
pub mod diag;
pub mod canon;
pub mod nesting;
pub mod soundness;
pub mod laws;
pub mod shape;
pub mod escapes;

pub use canon::{canonify_music_code, canonify_line, LineResult, ParseResult};
pub use walk::canonify_abc_visitor;
