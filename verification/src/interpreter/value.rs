//! The values that a script computes with.

use vstd::prelude::*;
use crate::interpreter::error::{InterpreterError, ErrorView, type_error};
use crate::interpreter::objects::{Object, ObjectView, object_text, object_views};
use crate::assoc::lookup;
use crate::text::{
    int_text, bool_text, join_text, char_rows, join_chars, chars_of, string_of, i64_to_chars,
    extend_chars, replace_all, replace_chars, nat_text, u64_to_chars,
};

verus! {

/// A value at run time. A dict keeps its entries in the order in which the
/// keys were first bound; an object is the index of its entry in the
/// interpreter's table of objects, so that two variables can hold the same
/// object.
#[derive(Debug, PartialEq)]
pub enum Value {
    String(String),
    Integer(i64),
    Boolean(bool),
    Array(Vec<Value>),
    Dict(Vec<(String, Value)>),
    /// The value of what has no value: `none` in a script.
    Nothing,
    Object(usize),
}

/// A value as a mathematical value.
pub enum ValueView {
    String(Seq<char>),
    Integer(i64),
    Boolean(bool),
    Array(Seq<ValueView>),
    Dict(Seq<(Seq<char>, ValueView)>),
    Nothing,
    Object(usize),
}

/// The view of a value.
pub open spec fn value_view(v: Value) -> ValueView
    decreases v,
{
    match v {
        Value::String(s) => ValueView::String(s@),
        Value::Integer(i) => ValueView::Integer(i),
        Value::Boolean(b) => ValueView::Boolean(b),
        Value::Array(items) => ValueView::Array(value_views(items@)),
        Value::Dict(entries) => ValueView::Dict(pair_views(entries@)),
        Value::Nothing => ValueView::Nothing,
        Value::Object(handle) => ValueView::Object(handle),
    }
}

/// The views of a row of values.
pub open spec fn value_views(items: Seq<Value>) -> Seq<ValueView>
    decreases items,
{
    Seq::new(
        items.len(),
        |i: int|
            if 0 <= i < items.len() {
                value_view(items[i])
            } else {
                ValueView::Nothing
            },
    )
}

/// The views of a row of named values.
pub open spec fn pair_views(entries: Seq<(String, Value)>) -> Seq<(Seq<char>, ValueView)>
    decreases entries,
{
    Seq::new(
        entries.len(),
        |i: int|
            if 0 <= i < entries.len() {
                (entries[i].0@, value_view(entries[i].1))
            } else {
                (Seq::empty(), ValueView::Nothing)
            },
    )
}

impl View for Value {
    type V = ValueView;

    open spec fn view(&self) -> ValueView {
        value_view(*self)
    }
}

/// Whether a value counts as true: a boolean as itself, a number unless it
/// is zero, a string, array or dict unless it is empty, an object always,
/// `Nothing` never.
pub open spec fn truthy(v: ValueView) -> bool {
    match v {
        ValueView::Boolean(b) => b,
        ValueView::Integer(i) => i != 0,
        ValueView::String(s) => s.len() > 0,
        ValueView::Array(items) => items.len() > 0,
        ValueView::Dict(entries) => entries.len() > 0,
        ValueView::Nothing => false,
        ValueView::Object(_) => true,
    }
}

/// Copies a row of values.
pub fn clone_values(items: &Vec<Value>) -> (r: Vec<Value>)
    ensures
        value_views(r@) == value_views(items@),
        r@.len() == items@.len(),
    decreases items,
{
    let mut out: Vec<Value> = Vec::new();
    let mut i: usize = 0;
    while i < items.len()
        invariant
            i <= items.len(),
            out@.len() == i,
            forall|j: int| 0 <= j < i ==> out@[j]@ == items@[j]@,
        decreases items.len() - i,
    {
        out.push(items[i].cloned());
        i += 1;
    }
    assert(value_views(out@) =~= value_views(items@));
    out
}

/// Copies a row of named values.
pub fn clone_pairs(entries: &Vec<(String, Value)>) -> (r: Vec<(String, Value)>)
    ensures
        pair_views(r@) == pair_views(entries@),
        r@.len() == entries@.len(),
    decreases entries,
{
    let mut out: Vec<(String, Value)> = Vec::new();
    let mut i: usize = 0;
    while i < entries.len()
        invariant
            i <= entries.len(),
            out@.len() == i,
            forall|j: int|
                0 <= j < i ==> out@[j].0@ == entries@[j].0@ && out@[j].1@ == entries@[j].1@,
        decreases entries.len() - i,
    {
        out.push((entries[i].0.clone(), entries[i].1.cloned()));
        i += 1;
    }
    assert(pair_views(out@) =~= pair_views(entries@));
    out
}

impl Value {
    /// A copy of the value. The copy of an object is the same object.
    pub fn cloned(&self) -> (r: Value)
        ensures
            r@ == self@,
        decreases self,
    {
        match self {
            Value::String(s) => Value::String(s.clone()),
            Value::Integer(i) => Value::Integer(*i),
            Value::Boolean(b) => Value::Boolean(*b),
            Value::Array(items) => Value::Array(clone_values(items)),
            Value::Dict(entries) => Value::Dict(clone_pairs(entries)),
            Value::Nothing => Value::Nothing,
            Value::Object(handle) => Value::Object(*handle),
        }
    }

    /// The string `s` as a value.
    pub fn string(s: &str) -> (r: Value)
        ensures
            r@ == ValueView::String(s@),
    {
        Value::String(String::from_str(s))
    }

    /// Whether the value counts as true.
    pub fn coerce_bool(&self) -> (r: bool)
        ensures
            r == truthy(self@),
    {
        match self {
            Value::Boolean(b) => *b,
            Value::Integer(i) => *i != 0,
            Value::String(s) => s.as_str().unicode_len() > 0,
            Value::Array(items) => items.len() > 0,
            Value::Dict(entries) => entries.len() > 0,
            Value::Nothing => false,
            Value::Object(_) => true,
        }
    }

    /// The boolean that the value is.
    pub fn as_bool(&self) -> (r: Result<bool, InterpreterError>)
        ensures
            match r {
                Ok(b) => self@ == ValueView::Boolean(b),
                Err(e) => !(self@ is Boolean) && e@ == ErrorView::TypeError(
                    "Expected a boolean"@,
                ),
            },
    {
        match self {
            Value::Boolean(b) => Ok(*b),
            _ => Err(type_error("Expected a boolean")),
        }
    }

    /// The boolean that the value is.
    pub fn as_boolean(&self) -> (r: Result<bool, InterpreterError>)
        ensures
            match r {
                Ok(b) => self@ == ValueView::Boolean(b),
                Err(e) => !(self@ is Boolean) && e@ == ErrorView::TypeError(
                    "Expected a boolean"@,
                ),
            },
    {
        self.as_bool()
    }

    /// The string that the value is.
    pub fn as_string(&self) -> (r: Result<&str, InterpreterError>)
        ensures
            match r {
                Ok(s) => self@ == ValueView::String(s@),
                Err(e) => !(self@ is String) && e@ == ErrorView::TypeError("Expected a string"@),
            },
    {
        match self {
            Value::String(s) => Ok(s.as_str()),
            _ => Err(type_error("Expected a string")),
        }
    }

    /// The elements of the array that the value is.
    pub fn as_array(&self) -> (r: Result<&Vec<Value>, InterpreterError>)
        ensures
            match r {
                Ok(items) => self@ == ValueView::Array(value_views(items@)) && *self
                    == Value::Array(*items),
                Err(e) => !(self@ is Array) && e@ == ErrorView::TypeError("Expected an array"@),
            },
    {
        match self {
            Value::Array(items) => Ok(items),
            _ => Err(type_error("Expected an array")),
        }
    }

    /// The number that the value is.
    pub fn as_integer(&self) -> (r: Result<i64, InterpreterError>)
        ensures
            match r {
                Ok(i) => self@ == ValueView::Integer(i),
                Err(e) => !(self@ is Integer) && e@ == ErrorView::TypeError(
                    "Expected an integer"@,
                ),
            },
    {
        match self {
            Value::Integer(i) => Ok(*i),
            _ => Err(type_error("Expected an integer")),
        }
    }

    /// The entries of the dict that the value is.
    pub fn as_dict(&self) -> (r: Result<&Vec<(String, Value)>, InterpreterError>)
        ensures
            match r {
                Ok(entries) => self@ == ValueView::Dict(pair_views(entries@)) && *self
                    == Value::Dict(*entries),
                Err(e) => !(self@ is Dict) && e@ == ErrorView::TypeError("Expected a dict"@),
            },
    {
        match self {
            Value::Dict(entries) => Ok(entries),
            _ => Err(type_error("Expected a dict")),
        }
    }
}

/// The text of the object with the handle `handle`: that of the object in
/// the table, or `Object` for a handle that the table does not have.
pub open spec fn handle_text(handle: usize, objs: Seq<ObjectView>) -> Seq<char> {
    if handle < objs.len() {
        object_text(objs[handle as int])
    } else {
        "Object"@
    }
}

/// The text of a value: a string as it is, a number in decimal, `true` or
/// `false`, an array as `[a, b]`, a dict as `{k: v, l: w}`, `none`, and an
/// object by the text of its kind.
pub open spec fn value_text(v: ValueView, objs: Seq<ObjectView>) -> Seq<char>
    decreases v,
{
    match v {
        ValueView::String(s) => s,
        ValueView::Integer(i) => int_text(i as int),
        ValueView::Boolean(b) => bool_text(b),
        ValueView::Array(items) => "["@ + join_text(value_texts(items, objs), ", "@) + "]"@,
        ValueView::Dict(entries) => "{"@ + join_text(entry_texts(entries, objs), ", "@) + "}"@,
        ValueView::Nothing => "none"@,
        ValueView::Object(handle) => handle_text(handle, objs),
    }
}

/// The texts of a row of values.
pub open spec fn value_texts(items: Seq<ValueView>, objs: Seq<ObjectView>) -> Seq<Seq<char>>
    decreases items,
{
    Seq::new(
        items.len(),
        |i: int|
            if 0 <= i < items.len() {
                value_text(items[i], objs)
            } else {
                Seq::empty()
            },
    )
}

/// The texts of the entries of a dict, each as `key: value`.
pub open spec fn entry_texts(entries: Seq<(Seq<char>, ValueView)>, objs: Seq<ObjectView>) -> Seq<
    Seq<char>,
>
    decreases entries,
{
    Seq::new(
        entries.len(),
        |i: int|
            if 0 <= i < entries.len() {
                entries[i].0 + ": "@ + value_text(entries[i].1, objs)
            } else {
                Seq::empty()
            },
    )
}

/// Whether two objects are equal: they are of one kind and hold the same.
/// A handle that the table does not have equals itself alone.
pub open spec fn handles_equal(a: usize, b: usize, objs: Seq<ObjectView>) -> bool {
    if a < objs.len() && b < objs.len() {
        objs[a as int] == objs[b as int]
    } else {
        a == b
    }
}

/// Whether two values are equal. Values of one kind are equal where they
/// hold the same: arrays element by element, dicts key by key in whatever
/// order. A string equals any value whose text it is.
pub open spec fn value_eq(a: ValueView, b: ValueView, objs: Seq<ObjectView>) -> bool
    decreases a,
{
    match (a, b) {
        (ValueView::String(x), ValueView::String(y)) => x == y,
        (ValueView::Integer(x), ValueView::Integer(y)) => x == y,
        (ValueView::Boolean(x), ValueView::Boolean(y)) => x == y,
        (ValueView::Array(x), ValueView::Array(y)) => x.len() == y.len() && forall|i: int|
            0 <= i < x.len() ==> value_eq(#[trigger] x[i], y[i], objs),
        (ValueView::Dict(x), ValueView::Dict(y)) => x.len() == y.len() && forall|i: int|
            0 <= i < x.len() ==> entry_matches(#[trigger] x[i], y, objs),
        (ValueView::Nothing, ValueView::Nothing) => true,
        (ValueView::Object(x), ValueView::Object(y)) => handles_equal(x, y, objs),
        (ValueView::String(x), _) => x == value_text(b, objs),
        (_, ValueView::String(y)) => value_text(a, objs) == y,
        _ => false,
    }
}

/// Whether the dict `other` binds the key of `entry` to a value equal to
/// that of `entry`.
pub open spec fn entry_matches(
    entry: (Seq<char>, ValueView),
    other: Seq<(Seq<char>, ValueView)>,
    objs: Seq<ObjectView>,
) -> bool
    decreases entry,
{
    match lookup(other, entry.0) {
        Some(v) => value_eq(entry.1, v, objs),
        None => false,
    }
}

/// Whether the array `items` holds a value equal to `needle`.
pub open spec fn holds_value(items: Seq<ValueView>, needle: ValueView, objs: Seq<ObjectView>) -> bool {
    exists|i: int| 0 <= i < items.len() && value_eq(#[trigger] items[i], needle, objs)
}

/// The placeholder for the argument `i` of a format string: `@i@`.
pub open spec fn placeholder(i: nat) -> Seq<char> {
    "@"@ + nat_text(i) + "@"@
}

/// The text `s` with the placeholders of the arguments from `i` on
/// replaced by their texts, one argument after the other.
pub open spec fn formatted_from(s: Seq<char>, texts: Seq<Seq<char>>, i: int) -> Seq<char>
    decreases texts.len() - i,
{
    if i < 0 || i >= texts.len() {
        s
    } else {
        formatted_from(replace_all(s, placeholder(i as nat), texts[i]), texts, i + 1)
    }
}

/// The text `s` with each placeholder `@i@` replaced by the text of the
/// argument `i`.
pub open spec fn formatted(s: Seq<char>, args: Seq<ValueView>, objs: Seq<ObjectView>) -> Seq<
    char,
> {
    formatted_from(s, value_texts(args, objs), 0)
}

/// The text of every value of `items`.
pub fn texts_of(items: &Vec<Value>, objects: &Vec<Object>) -> (r: Vec<Vec<char>>)
    ensures
        char_rows(r@) == value_texts(value_views(items@), object_views(objects@)),
    decreases items,
{
    let mut out: Vec<Vec<char>> = Vec::new();
    let mut i: usize = 0;
    while i < items.len()
        invariant
            i <= items.len(),
            out@.len() == i,
            forall|j: int|
                0 <= j < i ==> out@[j]@ == value_text(items@[j]@, object_views(objects@)),
        decreases items.len() - i,
    {
        out.push(items[i].coerce_chars(objects));
        i += 1;
    }
    assert(char_rows(out@) =~= value_texts(value_views(items@), object_views(objects@)));
    out
}

impl Value {
    /// The text of the value, as characters.
    #[verifier::loop_isolation(false)]
    pub fn coerce_chars(&self, objects: &Vec<Object>) -> (r: Vec<char>)
        ensures
            r@ == value_text(self@, object_views(objects@)),
        decreases self,
    {
        match self {
            Value::String(s) => chars_of(s.as_str()),
            Value::Integer(i) => i64_to_chars(*i),
            Value::Boolean(b) => if *b {
                chars_of("true")
            } else {
                chars_of("false")
            },
            Value::Array(items) => {
                let parts = texts_of(items, objects);
                let sep = chars_of(", ");
                let body = join_chars(&parts, &sep);
                let mut out = chars_of("[");
                extend_chars(&mut out, &body);
                extend_chars(&mut out, &chars_of("]"));
                out
            },
            Value::Dict(entries) => {
                let ghost objs = object_views(objects@);
                let mut parts: Vec<Vec<char>> = Vec::new();
                let mut i: usize = 0;
                while i < entries.len()
                    invariant
                        i <= entries.len(),
                        objs == object_views(objects@),
                        parts@.len() == i,
                        forall|j: int|
                            0 <= j < i ==> parts@[j]@ == entries@[j].0@ + ": "@ + value_text(
                                entries@[j].1@,
                                objs,
                            ),
                    decreases entries.len() - i,
                {
                    let mut part = chars_of(entries[i].0.as_str());
                    extend_chars(&mut part, &chars_of(": "));
                    extend_chars(&mut part, &entries[i].1.coerce_chars(objects));
                    parts.push(part);
                    i += 1;
                }
                assert(char_rows(parts@) =~= entry_texts(pair_views(entries@), objs));
                let sep = chars_of(", ");
                let body = join_chars(&parts, &sep);
                let mut out = chars_of("{");
                extend_chars(&mut out, &body);
                extend_chars(&mut out, &chars_of("}"));
                out
            },
            Value::Nothing => chars_of("none"),
            Value::Object(handle) => {
                if *handle < objects.len() {
                    chars_of(objects[*handle].to_string().as_str())
                } else {
                    chars_of("Object")
                }
            },
        }
    }

    /// The text of the value.
    pub fn coerce_string(&self, objects: &Vec<Object>) -> (r: String)
        ensures
            r@ == value_text(self@, object_views(objects@)),
    {
        string_of(&self.coerce_chars(objects))
    }

    /// The text of the value with each placeholder `@i@` replaced by the
    /// text of the argument `i`.
    pub fn format_string(&self, args: &Vec<Value>, objects: &Vec<Object>) -> (r: String)
        ensures
            r@ == formatted(
                value_text(self@, object_views(objects@)),
                value_views(args@),
                object_views(objects@),
            ),
    {
        let ghost objs = object_views(objects@);
        let ghost texts = value_texts(value_views(args@), objs);
        let ghost start = value_text(self@, objs);
        let mut result = self.coerce_chars(objects);
        let at = chars_of("@");
        let mut i: usize = 0;
        while i < args.len()
            invariant
                i <= args.len(),
                at@ == "@"@,
                objs == object_views(objects@),
                texts == value_texts(value_views(args@), objs),
                texts.len() == args.len(),
                formatted_from(start, texts, 0) == formatted_from(result@, texts, i as int),
            decreases args.len() - i,
        {
            let mut pattern = chars_of("@");
            extend_chars(&mut pattern, &u64_to_chars(i as u64));
            extend_chars(&mut pattern, &at);
            let text = args[i].coerce_chars(objects);
            assert(text@ == texts[i as int]);
            result = replace_chars(&result, &pattern, &text);
            i += 1;
        }
        string_of(&result)
    }
}

} // verus!
