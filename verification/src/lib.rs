//! A small language front-end: a recursive-descent parser that turns source
//! text of the expression-oriented Dolomite language into a token tree, a
//! pretty-printer for that tree, and a translator that lowers the tree into
//! target-language source text.
//!
//! Every grammar rule and every pass is specified by a spec-level function
//! over `Seq<char>` views; the executable code is proved to agree with those
//! functions exactly.

pub mod token;
pub mod text;
pub mod literals;
pub mod parser;
pub mod translate;
pub mod display;
pub mod compiler;
pub mod collector;
