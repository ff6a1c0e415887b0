//! `import()`.

use vstd::prelude::*;
use crate::interpreter::error::{InterpreterError, ErrorView, type_error};
use crate::interpreter::objects::FileSystem;
use crate::interpreter::value::{Value, ValueView, value_views};
use crate::text::{concat3, str_eq};

verus! {

/// What `import(name)` gives: the module `fs`, or a runtime error that
/// names the module where there is no such module.
pub open spec fn import_result(args: Seq<ValueView>) -> Result<(), ErrorView> {
    if args.len() == 0 || !(args[0] is String) {
        Err(ErrorView::TypeError("import requires a string argument"@))
    } else if args[0]->String_0 == "fs"@ {
        Ok(())
    } else {
        Err(ErrorView::RuntimeError("No module named '"@ + args[0]->String_0 + "'"@))
    }
}

/// `import(name)`: the module of that name.
pub fn import(args: &Vec<Value>) -> (r: Result<FileSystem, InterpreterError>)
    ensures
        match r {
            Ok(_) => import_result(value_views(args@)) is Ok,
            Err(e) => import_result(value_views(args@)) == Err::<(), ErrorView>(e@),
        },
{
    if args.len() == 0 {
        return Err(type_error("import requires a string argument"));
    }
    match &args[0] {
        Value::String(name) => {
            if str_eq(name.as_str(), "fs") {
                Ok(FileSystem)
            } else {
                Err(
                    InterpreterError::RuntimeError(
                        concat3("No module named '", name.as_str(), "'"),
                    ),
                )
            }
        },
        _ => Err(type_error("import requires a string argument")),
    }
}

} // verus!
