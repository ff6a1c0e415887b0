//! Method calls: which function answers which method of which receiver.

use vstd::prelude::*;
use crate::assoc::upsert;
use crate::interpreter::builtins::{array, dict, string};
use crate::interpreter::builtins::build_target::output_name;
use crate::interpreter::builtins::compiler::{option_flags, compiler_asked, compiler_asked_for};
use crate::interpreter::builtins::config_data::{
    get_result, dict_entries, merged_from, set_entry, set10_args, with_entry,
};
use crate::interpreter::builtins::env::prepended;
use crate::interpreter::builtins::filesystem::{replace_suffix_result, path_asked, PathQuestion};
use crate::interpreter::builtins::option::BuildOption;
use crate::interpreter::builtins::string::first_string;
use crate::interpreter::builtins::version::{version_compare_result, bad_version};
use crate::interpreter::error::{InterpreterError, ErrorView, same_result};
use crate::interpreter::objects::{
    Object, ObjectView, ConfigEntryView, Compiler, object_views, kind_name, object_text,
};
use crate::versions::parsed_version;
use crate::interpreter::state::{Interpreter, Meson};
use crate::interpreter::value::{
    Value, ValueView, value_views, pair_views, formatted, value_texts,
};
use crate::os::Os;
use crate::path::joined;
use crate::steps::BuildSteps;
use crate::text::{str_eq, join_text, trimmed, uppercase_text, lowercase_text};

verus! {

/// The error for a method that the receiver does not have.
pub open spec fn unknown_method(method: Seq<char>, receiver: Seq<char>) -> ErrorView {
    ErrorView::RuntimeError("Unknown method '"@ + method + "' for "@ + receiver)
}

/// Makes the error for a method that the receiver does not have.
pub fn unknown_method_error(method: &str, receiver: &str) -> (r: InterpreterError)
    ensures
        r@ == unknown_method(method@, receiver@),
{
    let mut msg = String::from_str("Unknown method '");
    msg.append(method);
    msg.append("' for ");
    msg.append(receiver);
    InterpreterError::RuntimeError(msg)
}

/// What the method `method` of the string `s` gives.
pub open spec fn string_method(
    s: Seq<char>,
    method: Seq<char>,
    args: Seq<ValueView>,
    objs: Seq<ObjectView>,
) -> Result<ValueView, ErrorView> {
    if method == "format"@ {
        Ok(ValueView::String(formatted(s, args, objs)))
    } else if method == "split"@ {
        string::split_result(s, args)
    } else if method == "join"@ {
        Ok(ValueView::String(join_text(value_texts(args, objs), s)))
    } else if method == "strip"@ {
        Ok(ValueView::String(trimmed(s)))
    } else if method == "startswith"@ {
        string::startswith_result(s, args)
    } else if method == "endswith"@ {
        string::endswith_result(s, args)
    } else if method == "substring"@ {
        string::substring_result(s, args)
    } else if method == "contains"@ {
        string::contains_result(s, args)
    } else if method == "underscorify"@ {
        Ok(ValueView::String(string::underscored(s)))
    } else if method == "to_upper"@ {
        Ok(ValueView::String(uppercase_text(s)))
    } else if method == "to_lower"@ {
        Ok(ValueView::String(lowercase_text(s)))
    } else {
        Err(unknown_method(method, "string"@))
    }
}

/// Calls the method `method` of the string `s`.
pub fn call_string_method(s: &String, method: &str, args: &Vec<Value>, objects: &Vec<Object>) -> (r:
    Result<Value, InterpreterError>)
    ensures
        same_result(r, string_method(s@, method@, value_views(args@), object_views(objects@))),
{
    if str_eq(method, "format") {
        string::format(s, args, objects)
    } else if str_eq(method, "split") {
        string::split(s, args)
    } else if str_eq(method, "join") {
        string::join(s, args, objects)
    } else if str_eq(method, "strip") {
        string::strip(s)
    } else if str_eq(method, "startswith") {
        string::startswith(s, args)
    } else if str_eq(method, "endswith") {
        string::endswith(s, args)
    } else if str_eq(method, "substring") {
        string::substring(s, args)
    } else if str_eq(method, "contains") {
        string::contains(s, args)
    } else if str_eq(method, "underscorify") {
        string::underscorify(s)
    } else if str_eq(method, "to_upper") {
        string::to_upper(s)
    } else if str_eq(method, "to_lower") {
        string::to_lower(s)
    } else {
        Err(unknown_method_error(method, "string"))
    }
}

/// What the method `method` of the array `items` gives. The length of an
/// array is a number of 64 bits.
pub open spec fn array_method(
    items: Seq<ValueView>,
    method: Seq<char>,
    args: Seq<ValueView>,
    objs: Seq<ObjectView>,
) -> Result<ValueView, ErrorView> {
    if method == "get"@ {
        array::get_result(items, args)
    } else if method == "contains"@ {
        array::contains_result(items, args, objs)
    } else if method == "length"@ {
        if items.len() <= i64::MAX {
            Ok(ValueView::Integer(items.len() as i64))
        } else {
            Err(ErrorView::TypeError("Array length exceeds i64"@))
        }
    } else {
        Err(unknown_method(method, "array"@))
    }
}

/// Calls the method `method` of the array `items`.
pub fn call_array_method(
    items: &Vec<Value>,
    method: &str,
    args: &Vec<Value>,
    objects: &Vec<Object>,
) -> (r: Result<Value, InterpreterError>)
    ensures
        same_result(
            r,
            array_method(
                value_views(items@),
                method@,
                value_views(args@),
                object_views(objects@),
            ),
        ),
{
    if str_eq(method, "get") {
        array::get(items, args)
    } else if str_eq(method, "contains") {
        array::contains(items, args, objects)
    } else if str_eq(method, "length") {
        array::length(items)
    } else {
        Err(unknown_method_error(method, "array"))
    }
}

/// What the method `method` of the dict `entries` gives.
pub open spec fn dict_method(
    entries: Seq<(Seq<char>, ValueView)>,
    method: Seq<char>,
    args: Seq<ValueView>,
) -> Result<ValueView, ErrorView> {
    if method == "get"@ {
        dict::get_result(entries, args)
    } else if method == "has_key"@ {
        dict::has_key_result(entries, args)
    } else if method == "keys"@ {
        Ok(ValueView::Array(dict::key_values(entries)))
    } else if method == "values"@ {
        Ok(ValueView::Array(dict::entry_values(entries)))
    } else {
        Err(unknown_method(method, "dict"@))
    }
}

/// Calls the method `method` of the dict `entries`.
pub fn call_dict_method(entries: &Vec<(String, Value)>, method: &str, args: &Vec<Value>) -> (r:
    Result<Value, InterpreterError>)
    ensures
        same_result(r, dict_method(pair_views(entries@), method@, value_views(args@))),
{
    if str_eq(method, "get") {
        dict::get(entries, args)
    } else if str_eq(method, "has_key") {
        dict::has_key(entries, args)
    } else if str_eq(method, "keys") {
        dict::keys(entries)
    } else if str_eq(method, "values") {
        dict::values(entries)
    } else {
        Err(unknown_method_error(method, "dict"))
    }
}

/// What the methods give that read an object and nothing else: `None`
/// for a method that asks the system or changes something, and for one
/// that the object does not have.
pub open spec fn reading_method(o: ObjectView, method: Seq<char>, args: Seq<ValueView>) -> Option<
    Result<ValueView, ErrorView>,
> {
    if method == "to_string"@ {
        Some(Ok(ValueView::String(object_text(o))))
    } else {
        match o {
            ObjectView::Machine { system, cpu_family, cpu, endian } => if method == "system"@ {
                Some(Ok(ValueView::String(system)))
            } else if method == "cpu_family"@ {
                Some(Ok(ValueView::String(cpu_family)))
            } else if method == "cpu"@ {
                Some(Ok(ValueView::String(cpu)))
            } else if method == "endian"@ {
                Some(Ok(ValueView::String(endian)))
            } else {
                None
            },
            ObjectView::RunResult { stdout, stderr, returncode } => if method == "stdout"@ {
                Some(Ok(ValueView::String(stdout)))
            } else if method == "stderr"@ {
                Some(Ok(ValueView::String(stderr)))
            } else if method == "returncode"@ {
                Some(Ok(ValueView::Integer(returncode)))
            } else {
                None
            },
            ObjectView::ExternalProgram { full_path } => if method == "found"@ {
                Some(Ok(ValueView::Boolean(full_path is Some)))
            } else if method == "full_path"@ {
                Some(
                    Ok(
                        match full_path {
                            Some(p) => ValueView::String(p),
                            None => ValueView::Nothing,
                        },
                    ),
                )
            } else {
                None
            },
            ObjectView::ConfigData { data } => if method == "get"@ {
                Some(get_result(data, args))
            } else {
                None
            },
            ObjectView::VersionNumber { text } => if method == "version_compare"@ {
                Some(version_compare_result(text, args))
            } else {
                None
            },
            ObjectView::FileSystem => if method == "replace_suffix"@ {
                Some(replace_suffix_result(args))
            } else {
                None
            },
            ObjectView::Compiler { lang, command, flags } => if method == "get_linker_id"@ {
                Some(Ok(ValueView::String("ld.lld"@)))
            } else if method == "get_id"@ {
                None
            } else if method == "cmd_array"@ {
                Some(
                    Ok(
                        ValueView::Array(
                            crate::interpreter::builtins::utils::string_values(
                                seq![command] + flags,
                            ),
                        ),
                    ),
                )
            } else {
                None
            },
            _ => None,
        }
    }
}

/// Whether an object of the kind of `o` has the method `method`.
pub open spec fn has_method(o: ObjectView, method: Seq<char>) -> bool {
    method == "to_string"@ || match o {
        ObjectView::Meson => method == "version"@ || method == "is_subproject"@ || method
            == "get_compiler"@ || method == "get_cross_property"@ || method == "project_version"@
            || method == "current_build_dir"@ || method == "current_source_dir"@,
        ObjectView::Machine { .. } => method == "system"@ || method == "cpu_family"@ || method
            == "cpu"@ || method == "endian"@,
        ObjectView::Compiler { .. } => method == "get_id"@ || method == "get_linker_id"@ || method
            == "cmd_array"@ || method == "has_argument"@ || method == "get_supported_arguments"@
            || method == "has_function"@ || method == "has_link_argument"@ || method
            == "has_multi_link_arguments"@ || method == "symbols_have_underscore_prefix"@
            || method == "compiles"@ || method == "links"@,
        ObjectView::BuildTarget(_) => method == "extract_objects"@ || method
            == "extract_all_objects"@ || method == "full_path"@,
        ObjectView::ConfigData { .. } => method == "get"@ || method == "set"@ || method
            == "set10"@ || method == "merge_from"@,
        ObjectView::Env { .. } => method == "prepend"@,
        ObjectView::ExternalProgram { .. } => method == "found"@ || method == "full_path"@,
        ObjectView::RunResult { .. } => method == "stdout"@ || method == "stderr"@ || method
            == "returncode"@,
        ObjectView::VersionNumber { .. } => method == "version_compare"@,
        ObjectView::FileSystem => method == "replace_suffix"@ || method == "exists"@ || method
            == "is_file"@ || method == "is_dir"@,
        _ => false,
    }
}

/// The entries that `merge_from(other)` takes in: those of other
/// configuration data, or those of a dict, each without a description.
pub open spec fn merge_entries(args: Seq<ValueView>, objs: Seq<ObjectView>) -> Result<
    Seq<ConfigEntryView>,
    ErrorView,
> {
    if args.len() == 0 {
        Err(
            ErrorView::TypeError(
                "merge_from requires a ConfigData object or a dict as the first argument"@,
            ),
        )
    } else {
        match args[0] {
            ValueView::Object(h) => if h < objs.len() && objs[h as int] is ConfigData {
                Ok(objs[h as int]->ConfigData_data)
            } else {
                Err(ErrorView::TypeError("merge_from requires a ConfigData object or a dict"@))
            },
            ValueView::Dict(entries) => Ok(dict_entries(entries)),
            _ => Err(ErrorView::TypeError("merge_from requires a ConfigData object or a dict"@)),
        }
    }
}

/// What the methods make of an object that change it: the object in its
/// new state, or the failure that leaves it as it was. `None` for every
/// other method.
pub open spec fn changing_method(
    o: ObjectView,
    method: Seq<char>,
    args: Seq<ValueView>,
    kwargs: Seq<(Seq<char>, ValueView)>,
    objs: Seq<ObjectView>,
) -> Option<Result<ObjectView, ErrorView>> {
    if method == "to_string"@ {
        None
    } else {
        match o {
            ObjectView::ConfigData { data } => if method == "get"@ {
                None
            } else if method == "set"@ {
                match set_entry(args, kwargs) {
                    Ok(e) => Some(Ok(ObjectView::ConfigData { data: with_entry(data, e) })),
                    Err(x) => Some(Err(x)),
                }
            } else if method == "set10"@ {
                match set10_args(args) {
                    Err(x) => Some(Err(x)),
                    Ok(a) => match set_entry(a, kwargs) {
                        Ok(e) => Some(Ok(ObjectView::ConfigData { data: with_entry(data, e) })),
                        Err(x) => Some(Err(x)),
                    },
                }
            } else if method == "merge_from"@ {
                match merge_entries(args, objs) {
                    Ok(more) => Some(
                        Ok(ObjectView::ConfigData { data: merged_from(data, more, 0) }),
                    ),
                    Err(x) => Some(Err(x)),
                }
            } else {
                None
            },
            ObjectView::Env { vars } => if method == "prepend"@ {
                match prepended(vars, args, kwargs) {
                    Ok(b) => Some(Ok(ObjectView::Env { vars: upsert(vars, b.0, b.1) })),
                    Err(x) => Some(Err(x)),
                }
            } else {
                None
            },
            _ => None,
        }
    }
}

/// The object that a method makes from its receiver alone: the objects
/// that are extracted from a target.
pub open spec fn creating_method(o: ObjectView, method: Seq<char>) -> Option<ObjectView> {
    if method == "to_string"@ {
        None
    } else {
        match o {
            ObjectView::BuildTarget(t) => if method == "extract_objects"@ || method
                == "extract_all_objects"@ {
                Some(ObjectView::ExtractedObjects { sources: t.sources })
            } else {
                None
            },
            _ => None,
        }
    }
}

/// Whether `made` is an object that the method `method` of the object `o`
/// may make: the version of the build system, the compiler for a
/// language, whose flags begin with those of the option `<lang>_args`, or
/// what `creating_method` tells.
pub open spec fn made_by(
    o: ObjectView,
    method: Seq<char>,
    args: Seq<ValueView>,
    opts: Map<Seq<char>, BuildOption>,
    made: ObjectView,
) -> bool {
    if method == "to_string"@ {
        false
    } else {
        match o {
            ObjectView::Meson => if method == "version"@ {
                parsed_version("1.3.0"@) is Ok && made == (ObjectView::VersionNumber {
                    text: "1.3.0"@,
                })
            } else if method == "get_compiler"@ {
                match first_string(args, "Expected a string as the first argument"@) {
                    Ok(wanted) => made matches ObjectView::Compiler { lang, command, flags }
                        && lang == wanted && (option_flags(opts, wanted) matches Ok(first)
                        && first.is_prefix_of(flags)),
                    Err(_) => false,
                }
            } else {
                false
            },
            _ => creating_method(o, method) == Some(made),
        }
    }
}

/// What a method gives that asks the system, or that makes an object of
/// what the version grammar or the system tells, where it gives an answer
/// and makes no object: whatever the system answered, the answer is one
/// that the method may give. A compiler answers as `compiler_asked` tells,
/// the module `fs` as `path_asked` tells. `meson.version()` answers only
/// where the version of the build system is no version, and
/// `meson.get_compiler()` only with one of its errors. Of the other
/// methods nothing is said here.
pub open spec fn asking_method(
    o: ObjectView,
    method: Seq<char>,
    args: Seq<ValueView>,
    kwargs: Seq<(Seq<char>, ValueView)>,
    opts: Map<Seq<char>, BuildOption>,
    r: Result<Value, InterpreterError>,
) -> bool {
    if method == "to_string"@ {
        true
    } else {
        match o {
            ObjectView::Compiler { lang, command, flags } => compiler_asked(
                lang,
                method,
                args,
                kwargs,
                r,
            ),
            ObjectView::Meson => if method == "version"@ {
                r matches Err(e) && parsed_version("1.3.0"@) is Err && e@ == bad_version(
                    "1.3.0"@,
                )
            } else if method == "is_subproject"@ {
                true
            } else if method == "get_compiler"@ {
                r matches Err(e) && compiler_asked_for(
                    args,
                    opts,
                    Err::<Compiler, InterpreterError>(e),
                )
            } else {
                true
            },
            ObjectView::FileSystem => if method == "replace_suffix"@ {
                true
            } else if method == "exists"@ {
                path_asked(PathQuestion::Exists, args, r)
            } else if method == "is_file"@ {
                path_asked(PathQuestion::IsFile, args, r)
            } else if method == "is_dir"@ {
                path_asked(PathQuestion::IsDir, args, r)
            } else {
                true
            },
            _ => true,
        }
    }
}

/// Whether a method call on the object at `handle` left the objects in
/// order: all as they were; or one more at the end, for which the result
/// stands; or the receiver changed and no other, the result being
/// nothing.
pub open spec fn touched_in_order(
    before: Seq<ObjectView>,
    after: Seq<ObjectView>,
    handle: int,
    r: Result<Value, InterpreterError>,
) -> bool {
    ||| after == before
    ||| r matches Ok(v) && v@ == ValueView::Object(before.len() as usize) && after.len()
        == before.len() + 1 && after.drop_last() == before
    ||| r matches Ok(v) && v@ == ValueView::Nothing && after.len() == before.len() && forall|
        i: int,
    |
        0 <= i < before.len() && i != handle ==> #[trigger] after[i] == before[i]
}

/// What the methods give that read the receiver and the project: those of
/// the project itself, and the path of a target.
pub open spec fn project_method(
    o: ObjectView,
    meson: Meson,
    method: Seq<char>,
    args: Seq<ValueView>,
) -> Option<Result<ValueView, ErrorView>> {
    if method == "to_string"@ {
        None
    } else {
        match o {
            ObjectView::Meson => if method == "version"@ {
                None
            } else if method == "is_subproject"@ {
                Some(Ok(ValueView::Boolean(false)))
            } else if method == "get_compiler"@ {
                None
            } else if method == "get_cross_property"@ {
                Some(
                    Ok(
                        if args.len() > 1 {
                            args[1]
                        } else {
                            ValueView::Nothing
                        },
                    ),
                )
            } else if method == "project_version"@ {
                Some(Ok(ValueView::String(meson.project_version@)))
            } else if method == "current_build_dir"@ {
                Some(Ok(ValueView::String(meson.build_dir@)))
            } else if method == "current_source_dir"@ {
                Some(Ok(ValueView::String(meson.source_dir@)))
            } else {
                None
            },
            ObjectView::BuildTarget(t) => if method == "extract_objects"@ || method
                == "extract_all_objects"@ {
                None
            } else if method == "full_path"@ {
                Some(Ok(ValueView::String(joined(meson.build_dir@, output_name(t)))))
            } else {
                None
            },
            _ => None,
        }
    }
}

/// What a method call on an object promises: a method that only reads
/// gives what `reading_method` or `project_method` tells and leaves the
/// objects as they were; a method that changes its receiver leaves it in
/// the state that `changing_method` tells, and the other objects as they
/// were; a method that makes an object adds it to the objects; a method
/// that the object does not have gives the error that names it and the
/// kind of the object. Whatever the method, the objects are left in
/// order, one that was added is one that the method may make, and where
/// none was added the result is one that `asking_method` admits.
pub open spec fn method_contract<O: Os, S: BuildSteps>(
    before: &Interpreter<O, S>,
    after: &Interpreter<O, S>,
    handle: usize,
    method: Seq<char>,
    args: Seq<ValueView>,
    kwargs: Seq<(Seq<char>, ValueView)>,
    r: Result<Value, InterpreterError>,
) -> bool {
    if handle >= before.objects@.len() {
        r matches Err(e) && e@ == ErrorView::RuntimeError("No such object"@) && after.objects
            == before.objects
    } else {
        let o = before.objs()[handle as int];
        &&& !has_method(o, method) ==> (r matches Err(e) && e@ == unknown_method(
            method,
            kind_name(o) + " object"@,
        ) && after.objects == before.objects)
        &&& reading_method(o, method, args) matches Some(res) ==> (same_result(r, res)
            && after.objects == before.objects)
        &&& project_method(o, before.meson, method, args) matches Some(res) ==> (same_result(
            r,
            res,
        ) && after.objects == before.objects)
        &&& changing_method(o, method, args, kwargs, before.objs()) matches Some(res) ==> (
        match res {
            Ok(changed) => r matches Ok(v) && v@ == ValueView::Nothing && after.objs()
                == before.objs().update(handle as int, changed),
            Err(e) => r matches Err(f) && f@ == e && after.objects == before.objects,
        })
        &&& creating_method(o, method) matches Some(made) ==> (r matches Ok(v) && v@
            == ValueView::Object(before.objects@.len() as usize) && after.objs()
            == before.objs().push(made))
        &&& touched_in_order(before.objs(), after.objs(), handle as int, r)
        &&& after.objs().len() == before.objs().len() ==> asking_method(
            o,
            method,
            args,
            kwargs,
            before.opts(),
            r,
        )
        &&& after.objs().len() > before.objs().len() ==> made_by(
            o,
            method,
            args,
            before.opts(),
            after.objs().last(),
        )
    }
}

} // verus!
