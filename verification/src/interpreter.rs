//! The interpreter: values, operators, builtins and the evaluation of the
//! syntax tree.

pub mod builtins;
pub mod effects;
pub mod equality;
pub mod error;
pub mod eval;
pub mod methods;
pub mod object_methods;
pub mod objects;
pub mod ops;
pub mod plain;
pub mod semantics;
pub mod state;
pub mod tables;
pub mod value;

pub use error::InterpreterError;
pub use value::{Value, ValueView};
pub use state::{Interpreter, Meson};
pub use eval::run_interpreter;
