//! Version numbers and the requirements they are held against.

use vstd::prelude::*;
use crate::interpreter::error::{InterpreterError, ErrorView, type_error, same_result};
use crate::interpreter::objects::VersionNumber;
use crate::interpreter::value::{Value, ValueView, value_views};
use crate::text::concat3;
use crate::versions::{
    parsed_version, parsed_requirement, requirement_admits, parse_version, parse_requirement,
    requirement_matches,
};

verus! {

/// The message for a text that is no version.
pub open spec fn bad_version(text: Seq<char>) -> ErrorView {
    ErrorView::RuntimeError("Invalid version string '"@ + text + "'"@)
}

/// The message for a text that is no requirement.
pub open spec fn bad_requirement(text: Seq<char>) -> ErrorView {
    ErrorView::RuntimeError("Invalid version requirement string '"@ + text + "'"@)
}

/// Whether the requirement `req` admits the version `version`: `None`
/// where the one text is no requirement or the other no version.
pub open spec fn admitted(req: Seq<char>, version: Seq<char>) -> Option<Result<bool, ()>> {
    match parsed_requirement(req) {
        Err(_) => None,
        Ok(r) => match parsed_version(version) {
            Err(_) => Some(Err(())),
            Ok(v) => Some(Ok(requirement_admits(r, v))),
        },
    }
}

/// What `v.version_compare(req)` gives once the requirement has been held
/// against the version: `outcome` is `None` where the requirement could
/// not be read, an error where the version could not, and else whether
/// the version is admitted.
pub open spec fn compare_result(
    version: Seq<char>,
    req: Seq<char>,
    outcome: Option<Result<bool, ()>>,
) -> Result<ValueView, ErrorView> {
    match outcome {
        None => Err(bad_requirement(req)),
        Some(Err(_)) => Err(bad_version(version)),
        Some(Ok(b)) => Ok(ValueView::Boolean(b)),
    }
}

/// Makes the answer of `version_compare` from the outcome of the
/// comparison.
pub fn compare_answer(version: &str, req: &str, outcome: Option<Result<bool, ()>>) -> (r: Result<
    Value,
    InterpreterError,
>)
    ensures
        same_result(r, compare_result(version@, req@, outcome)),
{
    match outcome {
        None => Err(
            InterpreterError::RuntimeError(
                concat3("Invalid version requirement string '", req, "'"),
            ),
        ),
        Some(Err(_)) => Err(
            InterpreterError::RuntimeError(concat3("Invalid version string '", version, "'")),
        ),
        Some(Ok(b)) => Ok(Value::Boolean(b)),
    }
}

/// Holds the requirement `req` against the version `version`.
pub fn check_requirement(req: &str, version: &str) -> (r: Option<Result<bool, ()>>)
    ensures
        r == admitted(req@, version@),
{
    match parse_requirement(req) {
        Err(_) => None,
        Ok(r) => match parse_version(version) {
            Err(_) => Some(Err(())),
            Ok(v) => Some(Ok(requirement_matches(&r, &v))),
        },
    }
}

/// The version that `text` writes; a runtime error where it writes none.
pub fn version(text: &str) -> (r: Result<VersionNumber, InterpreterError>)
    ensures
        match r {
            Ok(v) => parsed_version(text@) is Ok && v.text@ == text@,
            Err(e) => parsed_version(text@) is Err && e@ == bad_version(text@),
        },
{
    match parse_version(text) {
        Ok(_) => Ok(VersionNumber { text: String::from_str(text) }),
        Err(_) => Err(
            InterpreterError::RuntimeError(concat3("Invalid version string '", text, "'")),
        ),
    }
}

/// What `v.version_compare(req)` gives.
pub open spec fn version_compare_result(version: Seq<char>, args: Seq<ValueView>) -> Result<
    ValueView,
    ErrorView,
> {
    if args.len() == 0 || !(args[0] is String) {
        Err(ErrorView::TypeError("Expected a string as the first argument"@))
    } else {
        compare_result(version, args[0]->String_0, admitted(args[0]->String_0, version))
    }
}

impl VersionNumber {
    /// `v.version_compare(req)`: whether the requirement admits the
    /// version.
    pub fn version_compare(&self, args: &Vec<Value>) -> (r: Result<Value, InterpreterError>)
        ensures
            same_result(r, version_compare_result(self.text@, value_views(args@))),
    {
        if args.len() == 0 {
            return Err(type_error("Expected a string as the first argument"));
        }
        let req = match &args[0] {
            Value::String(s) => s,
            _ => return Err(type_error("Expected a string as the first argument")),
        };
        let outcome = check_requirement(req.as_str(), self.text.as_str());
        compare_answer(self.text.as_str(), req.as_str(), outcome)
    }
}

} // verus!
