//! `environment()` and the methods of environments.

use vstd::prelude::*;
use crate::assoc::{lookup, upsert, names, string_names, find_key};
use crate::interpreter::builtins::args::{string_kwarg, take_string_kwarg};
use crate::interpreter::builtins::build_target::{tail, tail_of};
use crate::interpreter::builtins::string::{first_string, take_first_string};
use crate::interpreter::builtins::utils::{flat, flatten, all_strings, strings_of};
use crate::interpreter::error::{InterpreterError, ErrorView, type_error};
use crate::interpreter::objects::{Env, text_pairs, string_views};
use crate::interpreter::value::{Value, ValueView, value_views, pair_views};
use crate::text::{chars_of, string_of, join_chars, join_text, char_rows};

verus! {

/// The message for a variable name that is missing or no string.
pub open spec fn name_message() -> Seq<char> {
    "Expected the first argument to be a string representing the environment variable name"@
}

/// What `e.prepend(name, values..., separator: ...)` binds the variable to:
/// the values, flattened, and behind them the value that the variable had,
/// with the separator between each two, which is `:` where none is given.
pub open spec fn prepended(
    vars: Seq<(Seq<char>, Seq<char>)>,
    args: Seq<ValueView>,
    kwargs: Seq<(Seq<char>, ValueView)>,
) -> Result<(Seq<char>, Seq<char>), ErrorView> {
    match first_string(args, name_message()) {
        Err(e) => Err(e),
        Ok(name) => match string_kwarg(
            kwargs,
            "separator"@,
            "Expected 'separator' keyword argument to be a string"@,
        ) {
            Err(e) => Err(e),
            Ok(sep) => match all_strings(flat(tail(args))) {
                None => Err(ErrorView::TypeError("Expected a string"@)),
                Some(values) => Ok(
                    (
                        name,
                        join_text(
                            match lookup(vars, name) {
                                Some(old) => values.push(old),
                                None => values,
                            },
                            match sep {
                                Some(s) => s,
                                None => ":"@,
                            },
                        ),
                    ),
                ),
            },
        },
    }
}

impl Env {
    /// `e.prepend(name, values..., separator: ...)`: puts the values
    /// before the value of the variable.
    pub fn prepend(&mut self, args: &Vec<Value>, kwargs: &Vec<(String, Value)>) -> (r: Result<
        Value,
        InterpreterError,
    >)
        ensures
            match prepended(text_pairs(old(self).vars@), value_views(args@), pair_views(kwargs@)) {
                Ok(b) => r matches Ok(v) && v@ == ValueView::Nothing && text_pairs(
                    final(self).vars@,
                ) == upsert(text_pairs(old(self).vars@), b.0, b.1),
                Err(e) => r matches Err(f) && f@ == e && final(self).vars == old(self).vars,
            },
    {
        let ghost before = text_pairs(self.vars@);
        let name = match take_first_string(
            args,
            "Expected the first argument to be a string representing the environment variable name",
        ) {
            Ok(s) => s,
            Err(e) => return Err(e),
        };
        let sep = match take_string_kwarg(
            kwargs,
            "separator",
            "Expected 'separator' keyword argument to be a string",
        ) {
            Ok(Some(s)) => chars_of(s),
            Ok(None) => chars_of(":"),
            Err(e) => return Err(e),
        };
        let values = match strings_of(&flatten(&tail_of(args)), "Expected a string") {
            Ok(v) => v,
            Err(e) => return Err(e),
        };
        let mut rows: Vec<Vec<char>> = Vec::new();
        let mut i: usize = 0;
        while i < values.len()
            invariant
                i <= values.len(),
                rows@.len() == i,
                forall|j: int| 0 <= j < i ==> (#[trigger] rows@[j])@ == values@[j]@,
            decreases values.len() - i,
        {
            rows.push(chars_of(values[i].as_str()));
            i += 1;
        }
        assert(char_rows(rows@) =~= string_views(values@));
        assert(names(before) =~= string_names(self.vars@));
        let found = find_key(&self.vars, name);
        match found {
            Some(k) => {
                let ghost prev = char_rows(rows@);
                rows.push(chars_of(self.vars[k].1.as_str()));
                assert(char_rows(rows@) =~= prev.push(before[k as int].1));
            },
            None => {},
        }
        let value = string_of(&join_chars(&rows, &sep));
        match found {
            Some(k) => {
                self.vars.set(k, (String::from_str(name), value));
                assert(text_pairs(self.vars@) =~= before.update(k as int, (name@, value@)));
            },
            None => {
                self.vars.push((String::from_str(name), value));
                assert(text_pairs(self.vars@) =~= before.push((name@, value@)));
            },
        }
        Ok(Value::Nothing)
    }
}

/// The variables that `environment(dict)` starts with: the entries of the
/// dict, whose values must be strings; none where no dict is given.
pub open spec fn initial_vars(args: Seq<ValueView>) -> Result<
    Seq<(Seq<char>, Seq<char>)>,
    ErrorView,
> {
    if args.len() == 0 {
        Ok(Seq::empty())
    } else {
        match args[0] {
            ValueView::Dict(entries) => if forall|i: int|
                0 <= i < entries.len() ==> (#[trigger] entries[i]).1 is String {
                Ok(Seq::new(entries.len(), |i: int| (entries[i].0, entries[i].1->String_0)))
            } else {
                Err(ErrorView::TypeError("Expected environment values to be strings"@))
            },
            _ => Err(ErrorView::TypeError("Expected a dict object as the first argument"@)),
        }
    }
}

/// `environment(dict)`: a new environment.
pub fn environment(args: &Vec<Value>) -> (r: Result<Env, InterpreterError>)
    ensures
        match r {
            Ok(env) => initial_vars(value_views(args@)) == Ok::<
                Seq<(Seq<char>, Seq<char>)>,
                ErrorView,
            >(text_pairs(env.vars@)),
            Err(e) => initial_vars(value_views(args@)) == Err::<
                Seq<(Seq<char>, Seq<char>)>,
                ErrorView,
            >(e@),
        },
{
    let mut vars: Vec<(String, String)> = Vec::new();
    if args.len() == 0 {
        assert(text_pairs(vars@) =~= Seq::<(Seq<char>, Seq<char>)>::empty());
        return Ok(Env { vars });
    }
    match &args[0] {
        Value::Dict(entries) => {
            let ghost views = pair_views(entries@);
            let mut i: usize = 0;
            while i < entries.len()
                invariant
                    i <= entries.len(),
                    views == pair_views(entries@),
                    args@.len() > 0,
                    args@[0]@ == ValueView::Dict(views),
                    vars@.len() == i,
                    forall|j: int| 0 <= j < i ==> (#[trigger] views[j]).1 is String,
                    forall|j: int|
                        0 <= j < i ==> (#[trigger] vars@[j]).0@ == views[j].0 && vars@[j].1@
                            == views[j].1->String_0,
                decreases entries.len() - i,
            {
                match &entries[i].1 {
                    Value::String(s) => {
                        vars.push((entries[i].0.clone(), s.clone()));
                    },
                    _ => {
                        assert(!(views[i as int].1 is String));
                        return Err(type_error("Expected environment values to be strings"));
                    },
                }
                i += 1;
            }
            assert(text_pairs(vars@) =~= Seq::new(
                views.len(),
                |i: int| (views[i].0, views[i].1->String_0),
            ));
            Ok(Env { vars })
        },
        _ => Err(type_error("Expected a dict object as the first argument")),
    }
}

} // verus!
