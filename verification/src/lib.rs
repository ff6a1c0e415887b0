//! A small interpreter for a Meson-like build description language.
//!
//! The crate holds the language front end (lexer and parser), the runtime
//! value model with its operators, the builtin functions and objects, the
//! compiler probing rules and the reader of machine description files.
//! Everything that touches the outside world goes through the [`os::Os`] and
//! [`steps::BuildSteps`] traits, which the embedding program implements.

pub mod assoc;
pub mod builder;
pub mod path;
pub mod steps;
pub mod text;
pub mod versions;
pub mod lexer;
pub mod machine_file;
pub mod os;
pub mod parser;
pub mod interpreter;

pub use builder::Meson;
