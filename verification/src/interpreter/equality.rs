//! Equality of values and of objects.

use vstd::prelude::*;
use crate::assoc::{names, string_names, find_key};
use crate::interpreter::objects::{
    Object, object_views, same_strings, same_paths, ConfigEntry, config_views, text_pairs,
};
use crate::interpreter::value::{
    Value, value_views, pair_views, value_eq, entry_matches, handles_equal, holds_value,
};

verus! {

/// Whether two rows of values are the same, element by element.
pub fn same_values(a: &Vec<Value>, b: &Vec<Value>) -> (r: bool)
    ensures
        r == (value_views(a@) == value_views(b@)),
    decreases a,
{
    if a.len() != b.len() {
        assert(value_views(a@).len() != value_views(b@).len());
        return false;
    }
    let mut i: usize = 0;
    while i < a.len()
        invariant
            i <= a.len(),
            a.len() == b.len(),
            forall|j: int| 0 <= j < i ==> a@[j]@ == b@[j]@,
        decreases a.len() - i,
    {
        if !same_value(&a[i], &b[i]) {
            assert(value_views(a@)[i as int] != value_views(b@)[i as int]);
            return false;
        }
        i += 1;
    }
    assert(value_views(a@) =~= value_views(b@));
    true
}

/// Whether two rows of named values are the same, entry by entry.
pub fn same_pairs(a: &Vec<(String, Value)>, b: &Vec<(String, Value)>) -> (r: bool)
    ensures
        r == (pair_views(a@) == pair_views(b@)),
    decreases a,
{
    if a.len() != b.len() {
        assert(pair_views(a@).len() != pair_views(b@).len());
        return false;
    }
    let mut i: usize = 0;
    while i < a.len()
        invariant
            i <= a.len(),
            a.len() == b.len(),
            forall|j: int| 0 <= j < i ==> a@[j].0@ == b@[j].0@ && a@[j].1@ == b@[j].1@,
        decreases a.len() - i,
    {
        if !(a[i].0 == b[i].0) || !same_value(&a[i].1, &b[i].1) {
            assert(pair_views(a@)[i as int] != pair_views(b@)[i as int]);
            return false;
        }
        i += 1;
    }
    assert(pair_views(a@) =~= pair_views(b@));
    true
}

/// Whether two values are the same value: of one kind, and holding the
/// same in the same order. Objects are the same where their handles are.
pub fn same_value(a: &Value, b: &Value) -> (r: bool)
    ensures
        r == (a@ == b@),
    decreases a,
{
    match a {
        Value::String(x) => match b {
            Value::String(y) => *x == *y,
            _ => false,
        },
        Value::Integer(x) => match b {
            Value::Integer(y) => *x == *y,
            _ => false,
        },
        Value::Boolean(x) => match b {
            Value::Boolean(y) => *x == *y,
            _ => false,
        },
        Value::Array(x) => match b {
            Value::Array(y) => same_values(x, y),
            _ => false,
        },
        Value::Dict(x) => match b {
            Value::Dict(y) => same_pairs(x, y),
            _ => false,
        },
        Value::Nothing => match b {
            Value::Nothing => true,
            _ => false,
        },
        Value::Object(x) => match b {
            Value::Object(y) => *x == *y,
            _ => false,
        },
    }
}

/// Whether two rows of configuration entries are the same.
pub fn same_entries(a: &Vec<ConfigEntry>, b: &Vec<ConfigEntry>) -> (r: bool)
    ensures
        r == (config_views(a@) == config_views(b@)),
{
    if a.len() != b.len() {
        assert(config_views(a@).len() != config_views(b@).len());
        return false;
    }
    let mut i: usize = 0;
    while i < a.len()
        invariant
            i <= a.len(),
            a.len() == b.len(),
            forall|j: int| 0 <= j < i ==> a@[j]@ == b@[j]@,
        decreases a.len() - i,
    {
        if !(a[i].key == b[i].key) || !same_value(&a[i].value, &b[i].value) || !(
        a[i].description == b[i].description) {
            assert(config_views(a@)[i as int] != config_views(b@)[i as int]);
            return false;
        }
        i += 1;
    }
    assert(config_views(a@) =~= config_views(b@));
    true
}

/// Whether two rows of pairs of strings are the same.
pub fn same_text_pairs(a: &Vec<(String, String)>, b: &Vec<(String, String)>) -> (r: bool)
    ensures
        r == (text_pairs(a@) == text_pairs(b@)),
{
    if a.len() != b.len() {
        assert(text_pairs(a@).len() != text_pairs(b@).len());
        return false;
    }
    let mut i: usize = 0;
    while i < a.len()
        invariant
            i <= a.len(),
            a.len() == b.len(),
            forall|j: int| 0 <= j < i ==> a@[j].0@ == b@[j].0@ && a@[j].1@ == b@[j].1@,
        decreases a.len() - i,
    {
        if !(a[i].0 == b[i].0) || !(a[i].1 == b[i].1) {
            assert(text_pairs(a@)[i as int] != text_pairs(b@)[i as int]);
            return false;
        }
        i += 1;
    }
    assert(text_pairs(a@) =~= text_pairs(b@));
    true
}

/// Whether two objects are of one kind and hold the same.
pub fn same_object(a: &Object, b: &Object) -> (r: bool)
    ensures
        r == (a@ == b@),
{
    match a {
        Object::Meson => match b {
            Object::Meson => true,
            _ => false,
        },
        Object::Machine(x) => match b {
            Object::Machine(y) => x.system == y.system && x.cpu_family == y.cpu_family && x.cpu
                == y.cpu && x.endian == y.endian,
            _ => false,
        },
        Object::Compiler(x) => match b {
            Object::Compiler(y) => x.lang == y.lang && x.command.same(&y.command)
                && same_strings(&x.flags, &y.flags),
            _ => false,
        },
        Object::BuildTarget(x) => match b {
            Object::BuildTarget(y) => x.name == y.name && x.target_type == y.target_type
                && same_paths(&x.sources, &y.sources) && x.install == y.install && same_paths(
                &x.include_dirs,
                &y.include_dirs,
            ) && x.install_dir.same(&y.install_dir) && same_strings(&x.flags, &y.flags),
            _ => false,
        },
        Object::ExtractedObjects(x) => match b {
            Object::ExtractedObjects(y) => same_paths(&x.sources, &y.sources),
            _ => false,
        },
        Object::ConfigData(x) => match b {
            Object::ConfigData(y) => same_entries(&x.data, &y.data),
            _ => false,
        },
        Object::Env(x) => match b {
            Object::Env(y) => same_text_pairs(&x.vars, &y.vars),
            _ => false,
        },
        Object::ExternalProgram(x) => match b {
            Object::ExternalProgram(y) => match (&x.full_path, &y.full_path) {
                (Some(p), Some(q)) => *p == *q,
                (None, None) => true,
                _ => false,
            },
            _ => false,
        },
        Object::RunResult(x) => match b {
            Object::RunResult(y) => x.stdout == y.stdout && x.stderr == y.stderr && x.returncode
                == y.returncode,
            _ => false,
        },
        Object::VersionNumber(x) => match b {
            Object::VersionNumber(y) => x.text == y.text,
            _ => false,
        },
        Object::File(x) => match b {
            Object::File(y) => x.path.same(&y.path),
            _ => false,
        },
        Object::IncludeDirectories(x) => match b {
            Object::IncludeDirectories(y) => same_paths(&x.dirs, &y.dirs),
            _ => false,
        },
        Object::FileSystem(_) => match b {
            Object::FileSystem(_) => true,
            _ => false,
        },
    }
}

/// Whether the objects with the handles `a` and `b` are equal.
pub fn equal_handles(a: usize, b: usize, objects: &Vec<Object>) -> (r: bool)
    ensures
        r == handles_equal(a, b, object_views(objects@)),
{
    if a < objects.len() && b < objects.len() {
        same_object(&objects[a], &objects[b])
    } else {
        a == b
    }
}

/// Whether two values are equal, as the operator `==` of the language
/// tells it.
#[verifier::loop_isolation(false)]
pub fn values_equal(a: &Value, b: &Value, objects: &Vec<Object>) -> (r: bool)
    ensures
        r == value_eq(a@, b@, object_views(objects@)),
    decreases a,
{
    let ghost objs = object_views(objects@);
    match a {
        Value::String(x) => match b {
            Value::String(y) => *x == *y,
            _ => {
                let text = b.coerce_string(objects);
                *x == text
            },
        },
        Value::Array(x) => match b {
            Value::Array(y) => {
                if x.len() != y.len() {
                    return false;
                }
                let ghost xv = value_views(x@);
                let ghost yv = value_views(y@);
                let mut i: usize = 0;
                while i < x.len()
                    invariant
                        i <= x.len(),
                        forall|j: int| 0 <= j < i ==> value_eq(#[trigger] xv[j], yv[j], objs),
                    decreases x.len() - i,
                {
                    if !values_equal(&x[i], &y[i], objects) {
                        assert(!value_eq(xv[i as int], yv[i as int], objs));
                        return false;
                    }
                    i += 1;
                }
                true
            },
            Value::String(y) => {
                let text = a.coerce_string(objects);
                text == *y
            },
            _ => false,
        },
        Value::Dict(x) => match b {
            Value::Dict(y) => {
                if x.len() != y.len() {
                    return false;
                }
                let ghost xv = pair_views(x@);
                let ghost yv = pair_views(y@);
                assert(names(yv) =~= string_names(y@));
                let mut i: usize = 0;
                while i < x.len()
                    invariant
                        i <= x.len(),
                        forall|j: int| 0 <= j < i ==> entry_matches(#[trigger] xv[j], yv, objs),
                    decreases x.len() - i,
                {
                    let found = match find_key(y, x[i].0.as_str()) {
                        Some(k) => values_equal(&x[i].1, &y[k].1, objects),
                        None => false,
                    };
                    if !found {
                        assert(!entry_matches(xv[i as int], yv, objs));
                        return false;
                    }
                    i += 1;
                }
                true
            },
            Value::String(y) => {
                let text = a.coerce_string(objects);
                text == *y
            },
            _ => false,
        },
        Value::Integer(x) => match b {
            Value::Integer(y) => *x == *y,
            Value::String(y) => {
                let text = a.coerce_string(objects);
                text == *y
            },
            _ => false,
        },
        Value::Boolean(x) => match b {
            Value::Boolean(y) => *x == *y,
            Value::String(y) => {
                let text = a.coerce_string(objects);
                text == *y
            },
            _ => false,
        },
        Value::Nothing => match b {
            Value::Nothing => true,
            Value::String(y) => {
                let text = a.coerce_string(objects);
                text == *y
            },
            _ => false,
        },
        Value::Object(x) => match b {
            Value::Object(y) => equal_handles(*x, *y, objects),
            Value::String(y) => {
                let text = a.coerce_string(objects);
                text == *y
            },
            _ => false,
        },
    }
}

/// Whether the array `items` holds a value equal to `needle`.
pub fn array_holds(items: &Vec<Value>, needle: &Value, objects: &Vec<Object>) -> (r: bool)
    ensures
        r == holds_value(value_views(items@), needle@, object_views(objects@)),
{
    let ghost objs = object_views(objects@);
    let ghost iv = value_views(items@);
    let mut i: usize = 0;
    while i < items.len()
        invariant
            i <= items.len(),
            objs == object_views(objects@),
            iv == value_views(items@),
            forall|j: int| 0 <= j < i ==> !value_eq(#[trigger] iv[j], needle@, objs),
        decreases items.len() - i,
    {
        if values_equal(&items[i], needle, objects) {
            assert(value_eq(iv[i as int], needle@, objs));
            return true;
        }
        i += 1;
    }
    false
}

} // verus!
