//! Parser and serializer for GenCAD, a line-oriented text format that
//! describes printed circuit boards.
//!
//! * [`types`] holds the primitive values of the format and their grammar.
//! * [`parser`] splits a file into sections and lines and assembles the
//!   document.
//! * [`sections`] turns the lines of each section into typed records.
//! * [`serialization`] renders the typed model back to text.
//! * [`interpreter`] makes the records of a parsed file ready to be looked up
//!   by their names.

pub mod error;
pub mod interpreter;
pub mod lex;
pub mod parser;
pub mod sections;
pub mod serialization;
pub mod types;
