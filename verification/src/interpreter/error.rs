//! What the interpreter reports.

use vstd::prelude::*;
use crate::text::concat;

verus! {

/// The failures of the interpreter.
#[derive(Debug, PartialEq, Eq)]
pub enum InterpreterError {
    /// A name that is bound to nothing.
    UndefinedVariable(String),
    /// A function that the language does not have.
    UndefinedFunction(String),
    /// A value of the wrong kind.
    TypeError(String),
    /// Everything else that goes wrong while a script runs.
    RuntimeError(String),
}

/// An error as a mathematical value.
pub enum ErrorView {
    UndefinedVariable(Seq<char>),
    UndefinedFunction(Seq<char>),
    TypeError(Seq<char>),
    RuntimeError(Seq<char>),
}

impl View for InterpreterError {
    type V = ErrorView;

    open spec fn view(&self) -> ErrorView {
        match self {
            InterpreterError::UndefinedVariable(s) => ErrorView::UndefinedVariable(s@),
            InterpreterError::UndefinedFunction(s) => ErrorView::UndefinedFunction(s@),
            InterpreterError::TypeError(s) => ErrorView::TypeError(s@),
            InterpreterError::RuntimeError(s) => ErrorView::RuntimeError(s@),
        }
    }
}

/// The text of an error: what kind it is, and its message.
pub open spec fn error_text(e: ErrorView) -> Seq<char> {
    match e {
        ErrorView::UndefinedVariable(name) => "Undefined variable: "@ + name,
        ErrorView::UndefinedFunction(name) => "Undefined function: "@ + name,
        ErrorView::TypeError(msg) => "Type error: "@ + msg,
        ErrorView::RuntimeError(msg) => "Runtime error: "@ + msg,
    }
}

/// The type error with the message `msg`.
pub fn type_error(msg: &str) -> (r: InterpreterError)
    ensures
        r@ == ErrorView::TypeError(msg@),
{
    InterpreterError::TypeError(String::from_str(msg))
}

/// The runtime error with the message `msg`.
pub fn runtime_error(msg: &str) -> (r: InterpreterError)
    ensures
        r@ == ErrorView::RuntimeError(msg@),
{
    InterpreterError::RuntimeError(String::from_str(msg))
}

impl InterpreterError {
    /// The text of the error.
    pub fn to_string(&self) -> (r: String)
        ensures
            r@ == error_text(self@),
    {
        match self {
            InterpreterError::UndefinedVariable(name) => concat(
                "Undefined variable: ",
                name.as_str(),
            ),
            InterpreterError::UndefinedFunction(name) => concat(
                "Undefined function: ",
                name.as_str(),
            ),
            InterpreterError::TypeError(msg) => concat("Type error: ", msg.as_str()),
            InterpreterError::RuntimeError(msg) => concat("Runtime error: ", msg.as_str()),
        }
    }

    /// A copy of the error.
    pub fn cloned(&self) -> (r: InterpreterError)
        ensures
            r@ == self@,
    {
        match self {
            InterpreterError::UndefinedVariable(s) => InterpreterError::UndefinedVariable(
                s.clone(),
            ),
            InterpreterError::UndefinedFunction(s) => InterpreterError::UndefinedFunction(
                s.clone(),
            ),
            InterpreterError::TypeError(s) => InterpreterError::TypeError(s.clone()),
            InterpreterError::RuntimeError(s) => InterpreterError::RuntimeError(s.clone()),
        }
    }
}

/// Whether a result is the value or error that `expected` tells.
pub open spec fn same_result<T: View>(
    r: Result<T, InterpreterError>,
    expected: Result<T::V, ErrorView>,
) -> bool {
    match r {
        Ok(v) => expected == Ok::<T::V, ErrorView>(v@),
        Err(e) => expected == Err::<T::V, ErrorView>(e@),
    }
}

/// The message of a failure with its cause: the message, a colon and a
/// blank, and the words of the cause.
pub open spec fn caused(msg: Seq<char>, cause: Seq<char>) -> Seq<char> {
    msg + ": "@ + cause
}

/// Whether `e` is the runtime error of a step that the system failed:
/// its message is `msg` with some cause.
pub open spec fn system_failed(e: ErrorView, msg: Seq<char>) -> bool {
    exists|cause: Seq<char>| e == ErrorView::RuntimeError(#[trigger] caused(msg, cause))
}

/// Turning what may be missing or failed into a result of the interpreter,
/// with a message that tells what was expected.
pub trait ErrorContext: Sized {
    /// What the value holds where nothing is missing.
    type Good;

    /// What the value holds, where it holds anything.
    spec fn good(self) -> Option<Self::Good>;

    /// The message of the error that is made of the value with the
    /// message `msg`.
    spec fn failure(self, msg: Seq<char>) -> Seq<char>;

    /// What the value holds, or a type error.
    fn context_type(self, msg: &str) -> (r: Result<Self::Good, InterpreterError>)
        ensures
            match r {
                Ok(v) => self.good() == Some(v),
                Err(e) => self.good() is None && e@ == ErrorView::TypeError(self.failure(msg@)),
            },
    ;

    /// What the value holds, or a runtime error.
    fn context_runtime(self, msg: &str) -> (r: Result<Self::Good, InterpreterError>)
        ensures
            match r {
                Ok(v) => self.good() == Some(v),
                Err(e) => self.good() is None && e@ == ErrorView::RuntimeError(
                    self.failure(msg@),
                ),
            },
    ;

    /// What the value holds, or the error of a variable that is not
    /// defined.
    fn context_undef_variable(self, msg: &str) -> (r: Result<Self::Good, InterpreterError>)
        ensures
            match r {
                Ok(v) => self.good() == Some(v),
                Err(e) => self.good() is None && e@ == ErrorView::UndefinedVariable(
                    self.failure(msg@),
                ),
            },
    ;
}

impl<T> ErrorContext for Option<T> {
    type Good = T;

    open spec fn good(self) -> Option<T> {
        self
    }

    /// The message as it is.
    open spec fn failure(self, msg: Seq<char>) -> Seq<char> {
        msg
    }

    fn context_type(self, msg: &str) -> (r: Result<T, InterpreterError>) {
        match self {
            Some(v) => Ok(v),
            None => Err(InterpreterError::TypeError(String::from_str(msg))),
        }
    }

    fn context_runtime(self, msg: &str) -> (r: Result<T, InterpreterError>) {
        match self {
            Some(v) => Ok(v),
            None => Err(InterpreterError::RuntimeError(String::from_str(msg))),
        }
    }

    fn context_undef_variable(self, msg: &str) -> (r: Result<T, InterpreterError>) {
        match self {
            Some(v) => Ok(v),
            None => Err(InterpreterError::UndefinedVariable(String::from_str(msg))),
        }
    }
}

impl<T> ErrorContext for Result<T, String> {
    type Good = T;

    open spec fn good(self) -> Option<T> {
        match self {
            Ok(v) => Some(v),
            Err(_) => None,
        }
    }

    /// The message, a colon, and the text of the failure.
    open spec fn failure(self, msg: Seq<char>) -> Seq<char> {
        match self {
            Ok(_) => msg,
            Err(e) => caused(msg, e@),
        }
    }

    fn context_type(self, msg: &str) -> (r: Result<T, InterpreterError>) {
        match self {
            Ok(v) => Ok(v),
            Err(e) => Err(InterpreterError::TypeError(crate::text::concat3(msg, ": ", e.as_str()))),
        }
    }

    fn context_runtime(self, msg: &str) -> (r: Result<T, InterpreterError>) {
        match self {
            Ok(v) => Ok(v),
            Err(e) => Err(
                InterpreterError::RuntimeError(crate::text::concat3(msg, ": ", e.as_str())),
            ),
        }
    }

    fn context_undef_variable(self, msg: &str) -> (r: Result<T, InterpreterError>) {
        match self {
            Ok(v) => Ok(v),
            Err(e) => Err(
                InterpreterError::UndefinedVariable(crate::text::concat3(msg, ": ", e.as_str())),
            ),
        }
    }
}

} // verus!
