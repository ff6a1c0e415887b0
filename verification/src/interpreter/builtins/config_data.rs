//! Configuration data and the files that are made from it.

use vstd::prelude::*;
use crate::assoc::{key_index, lemma_key_index_is, lemma_key_index_none};
use crate::interpreter::builtins::args::{string_kwarg, take_string_kwarg};
use crate::interpreter::error::{InterpreterError, ErrorView, type_error, same_result};
use crate::interpreter::objects::{
    ConfigData, ConfigEntry, ConfigEntryView, config_views,
};
use crate::interpreter::value::{Value, ValueView, value_views, pair_views};
use crate::path::Path;
use crate::text::{
    chars_of, string_of, extend_chars, concat, concat3, text_less, str_less, int_text,
    i64_to_chars, replace_all, replace_chars, split_text, split_chars, join_text, join_chars,
    char_rows, lemma_text_order_total,
};

verus! {

/// A file to be written from configuration data.
pub struct ConfigureFile {
    /// The directory of the build.
    pub build_dir: Path,
    /// The name of the file, within the directory of the build.
    pub filename: Path,
    /// What the file holds.
    pub content: String,
    /// Where the file is installed; empty where no place was given.
    pub install_dir: Path,
    /// Whether the file is installed at all.
    pub install: bool,
}

/// The keys of a row of entries.
pub open spec fn entry_keys(entries: Seq<ConfigEntryView>) -> Seq<Seq<char>> {
    Seq::new(entries.len(), |i: int| entries[i].key)
}

/// Whether the entries stand in the order of their keys, no key twice.
pub open spec fn sorted_entries(entries: Seq<ConfigEntryView>) -> bool {
    forall|i: int| 0 <= i < entries.len() - 1 ==> text_less(#[trigger] entries[i].key, entries[i + 1].key)
}

/// How many of the entries from `i` on, in a row, have a key before `key`,
/// added to `i`: the place at which `key` belongs.
pub open spec fn slot_from(entries: Seq<ConfigEntryView>, key: Seq<char>, i: int) -> int
    decreases entries.len() - i,
{
    if 0 <= i < entries.len() && text_less(entries[i].key, key) {
        slot_from(entries, key, i + 1)
    } else {
        i
    }
}

/// The entries with `e` among them: in the place of the entry that had its
/// key, or where its key belongs in the order.
pub open spec fn with_entry(entries: Seq<ConfigEntryView>, e: ConfigEntryView) -> Seq<
    ConfigEntryView,
> {
    let at = slot_from(entries, e.key, 0);
    if 0 <= at < entries.len() && entries[at].key == e.key {
        entries.update(at, e)
    } else if 0 <= at <= entries.len() {
        entries.insert(at, e)
    } else {
        entries
    }
}

/// The entries of `base` with those of `more` among them, one after the
/// other from the index `i` on.
pub open spec fn merged_from(base: Seq<ConfigEntryView>, more: Seq<ConfigEntryView>, i: int) -> Seq<
    ConfigEntryView,
>
    decreases more.len() - i,
{
    if i < 0 || i >= more.len() {
        base
    } else {
        merged_from(with_entry(base, more[i]), more, i + 1)
    }
}

/// The value of the entry with the key `key`.
pub open spec fn config_value(entries: Seq<ConfigEntryView>, key: Seq<char>) -> Option<ValueView> {
    match key_index(entry_keys(entries), key) {
        Some(i) => Some(entries[i].value),
        None => None,
    }
}

/// The place of an entry lies within the row or at its end; the keys
/// before it come before the key, and the key at it does not.
pub proof fn lemma_slot(entries: Seq<ConfigEntryView>, key: Seq<char>, i: int)
    requires
        0 <= i <= entries.len(),
    ensures
        i <= slot_from(entries, key, i) <= entries.len(),
        forall|j: int| i <= j < slot_from(entries, key, i) ==> text_less(entries[j].key, key),
        slot_from(entries, key, i) < entries.len() ==> !text_less(
            entries[slot_from(entries, key, i)].key,
            key,
        ),
    decreases entries.len() - i,
{
    if i < entries.len() && text_less(entries[i].key, key) {
        lemma_slot(entries, key, i + 1);
    }
}

/// Entries in order stay in order when an entry is put among them.
pub proof fn lemma_with_entry_sorted(entries: Seq<ConfigEntryView>, e: ConfigEntryView)
    requires
        sorted_entries(entries),
    ensures
        sorted_entries(with_entry(entries, e)),
{
    let at = slot_from(entries, e.key, 0);
    lemma_slot(entries, e.key, 0);
    let after = with_entry(entries, e);
    if at < entries.len() && entries[at].key == e.key {
        assert forall|i: int| 0 <= i < after.len() - 1 implies text_less(
            #[trigger] after[i].key,
            after[i + 1].key,
        ) by {
            assert(text_less(entries[i].key, entries[i + 1].key));
        }
    } else {
        if at < entries.len() {
            assert(entries[at].key.subrange(0, 0) =~= e.key.subrange(0, 0));
            lemma_text_order_total(entries[at].key, e.key, 0);
        }
        assert forall|i: int| 0 <= i < after.len() - 1 implies text_less(
            #[trigger] after[i].key,
            after[i + 1].key,
        ) by {
            if i + 1 < at {
                assert(text_less(entries[i].key, entries[i + 1].key));
            } else if i + 1 == at {
                assert(text_less(entries[at - 1].key, e.key));
            } else if i == at {
            } else {
                assert(text_less(entries[i - 1].key, entries[i].key));
            }
        }
    }
}

impl ConfigData {
    /// The entries stand in the order of their keys.
    pub open spec fn wf(&self) -> bool {
        sorted_entries(config_views(self.data@))
    }

    /// Configuration data without entries.
    pub fn new() -> (r: ConfigData)
        ensures
            config_views(r.data@) == Seq::<ConfigEntryView>::empty(),
            r.wf(),
    {
        let data: Vec<ConfigEntry> = Vec::new();
        assert(config_views(data@) =~= Seq::<ConfigEntryView>::empty());
        ConfigData { data }
    }

    /// A copy of the entries.
    pub fn entries(&self) -> (r: Vec<ConfigEntry>)
        ensures
            config_views(r@) == config_views(self.data@),
    {
        let mut out: Vec<ConfigEntry> = Vec::new();
        let mut i: usize = 0;
        while i < self.data.len()
            invariant
                i <= self.data.len(),
                out@.len() == i,
                forall|j: int| 0 <= j < i ==> out@[j]@ == self.data@[j]@,
            decreases self.data.len() - i,
        {
            let e = &self.data[i];
            out.push(
                ConfigEntry {
                    key: e.key.clone(),
                    value: e.value.cloned(),
                    description: e.description.clone(),
                },
            );
            i += 1;
        }
        assert(config_views(out@) =~= config_views(self.data@));
        out
    }

    /// Puts the entry `e` among the entries.
    pub fn put(&mut self, e: ConfigEntry)
        ensures
            config_views(final(self).data@) == with_entry(config_views(old(self).data@), e@),
            old(self).wf() ==> final(self).wf(),
    {
        let ghost before = config_views(self.data@);
        let mut at: usize = 0;
        while at < self.data.len() && str_less(self.data[at].key.as_str(), e.key.as_str())
            invariant
                at <= self.data.len(),
                *self == *old(self),
                before == config_views(self.data@),
                slot_from(before, e@.key, 0) == slot_from(before, e@.key, at as int),
            decreases self.data.len() - at,
        {
            at += 1;
        }
        proof {
            if sorted_entries(before) {
                lemma_with_entry_sorted(before, e@);
            }
        }
        if at < self.data.len() && self.data[at].key == e.key {
            self.data.set(at, e);
            assert(config_views(self.data@) =~= before.update(at as int, e@));
        } else {
            self.data.insert(at, e);
            assert(config_views(self.data@) =~= before.insert(at as int, e@));
        }
    }

    /// Puts every entry of `more` among the entries, one after the other.
    pub fn merge(&mut self, more: Vec<ConfigEntry>)
        ensures
            config_views(final(self).data@) == merged_from(
                config_views(old(self).data@),
                config_views(more@),
                0,
            ),
            old(self).wf() ==> final(self).wf(),
    {
        let ghost start = config_views(self.data@);
        let ghost views = config_views(more@);
        let mut more = more;
        let mut i: usize = 0;
        let n = more.len();
        let mut rest: Vec<ConfigEntry> = Vec::new();
        // Entries are moved out from the back; the row is turned first.
        while more.len() > 0
            invariant
                config_views(rest@).len() + more.len() == n,
                n == views.len(),
                forall|j: int| 0 <= j < more.len() ==> (#[trigger] more@[j])@ == views[j],
                forall|j: int|
                    0 <= j < rest.len() ==> (#[trigger] rest@[j])@ == views[n - 1 - j],
            decreases more.len(),
        {
            let e = more.pop().unwrap();
            rest.push(e);
        }
        while rest.len() > 0
            invariant
                i + rest.len() == n,
                n == views.len(),
                forall|j: int|
                    0 <= j < rest.len() ==> (#[trigger] rest@[j])@ == views[n - 1 - j],
                merged_from(start, views, 0) == merged_from(
                    config_views(self.data@),
                    views,
                    i as int,
                ),
                old(self).wf() ==> self.wf(),
            decreases rest.len(),
        {
            let e = rest.pop().unwrap();
            assert(e@ == views[i as int]);
            self.put(e);
            i += 1;
        }
    }

    /// The value of the entry with the key `key`.
    pub fn value_of(&self, key: &str) -> (r: Option<&Value>)
        ensures
            match r {
                Some(v) => config_value(config_views(self.data@), key@) == Some(v@),
                None => config_value(config_views(self.data@), key@) is None,
            },
    {
        let ghost keys = entry_keys(config_views(self.data@));
        let wanted = String::from_str(key);
        let mut i: usize = 0;
        while i < self.data.len()
            invariant
                i <= self.data.len(),
                wanted@ == key@,
                keys == entry_keys(config_views(self.data@)),
                forall|j: int| 0 <= j < i ==> keys[j] != key@,
            decreases self.data.len() - i,
        {
            if self.data[i].key == wanted {
                proof {
                    lemma_key_index_is(keys, key@, i as int);
                }
                return Some(&self.data[i].value);
            }
            i += 1;
        }
        proof {
            lemma_key_index_none(keys, key@);
        }
        None
    }
}

/// What `c.get(key)` gives.
pub open spec fn get_result(entries: Seq<ConfigEntryView>, args: Seq<ValueView>) -> Result<
    ValueView,
    ErrorView,
> {
    if args.len() == 0 || !(args[0] is String) {
        Err(ErrorView::TypeError("Expected a string as the first argument"@))
    } else {
        match config_value(entries, args[0]->String_0) {
            Some(v) => Ok(v),
            None => Err(
                ErrorView::RuntimeError(
                    "Key '"@ + args[0]->String_0 + "' not found in ConfigData"@,
                ),
            ),
        }
    }
}

/// The entry that `c.set(key, value, description: ...)` makes: the key
/// must be a string, the value a string, a number or a boolean, and the
/// description a string where one is given.
pub open spec fn set_entry(args: Seq<ValueView>, kwargs: Seq<(Seq<char>, ValueView)>) -> Result<
    ConfigEntryView,
    ErrorView,
> {
    if args.len() == 0 || !(args[0] is String) {
        Err(ErrorView::TypeError("Expected a string as the first argument"@))
    } else if args.len() < 2 || !(args[1] is String || args[1] is Integer || args[1] is Boolean) {
        Err(ErrorView::TypeError("Expected a str, int or bool as the second argument"@))
    } else {
        match string_kwarg(
            kwargs,
            "description"@,
            "Expected a string for the 'description' keyword argument"@,
        ) {
            Err(e) => Err(e),
            Ok(d) => Ok(
                ConfigEntryView {
                    key: args[0]->String_0,
                    value: args[1],
                    description: match d {
                        Some(text) => text,
                        None => Seq::empty(),
                    },
                },
            ),
        }
    }
}

/// The arguments of `set10` as `set` takes them: the value turned into 0
/// or 1. A number is 1 where it is positive and 0 otherwise; a boolean is
/// 1.
pub open spec fn set10_args(args: Seq<ValueView>) -> Result<Seq<ValueView>, ErrorView> {
    if args.len() < 2 {
        Err(ErrorView::TypeError("Expected int or bool as the second argument"@))
    } else {
        match args[1] {
            ValueView::Boolean(_) => Ok(args.update(1, ValueView::Integer(1))),
            ValueView::Integer(i) => Ok(
                args.update(
                    1,
                    ValueView::Integer(
                        if i <= 0 {
                            0
                        } else {
                            1
                        },
                    ),
                ),
            ),
            _ => Err(ErrorView::TypeError("Expected int or bool as the second argument"@)),
        }
    }
}

/// Makes the entry that `set` is called for.
pub fn make_entry(args: &Vec<Value>, kwargs: &Vec<(String, Value)>) -> (r: Result<
    ConfigEntry,
    InterpreterError,
>)
    ensures
        match r {
            Ok(e) => set_entry(value_views(args@), pair_views(kwargs@)) == Ok::<
                ConfigEntryView,
                ErrorView,
            >(e@),
            Err(e) => set_entry(value_views(args@), pair_views(kwargs@)) == Err::<
                ConfigEntryView,
                ErrorView,
            >(e@),
        },
{
    if args.len() == 0 {
        return Err(type_error("Expected a string as the first argument"));
    }
    let key = match &args[0] {
        Value::String(s) => s.clone(),
        _ => return Err(type_error("Expected a string as the first argument")),
    };
    if args.len() < 2 {
        return Err(type_error("Expected a str, int or bool as the second argument"));
    }
    let value = match &args[1] {
        Value::String(s) => Value::String(s.clone()),
        Value::Integer(i) => Value::Integer(*i),
        Value::Boolean(b) => Value::Boolean(*b),
        _ => return Err(type_error("Expected a str, int or bool as the second argument")),
    };
    let description = match take_string_kwarg(
        kwargs,
        "description",
        "Expected a string for the 'description' keyword argument",
    ) {
        Ok(Some(d)) => String::from_str(d),
        Ok(None) => String::new(),
        Err(e) => return Err(e),
    };
    Ok(ConfigEntry { key, value, description })
}

impl ConfigData {
    /// `c.get(key)`: the value of the key.
    pub fn get(&self, args: &Vec<Value>) -> (r: Result<Value, InterpreterError>)
        ensures
            same_result(r, get_result(config_views(self.data@), value_views(args@))),
    {
        if args.len() == 0 {
            return Err(type_error("Expected a string as the first argument"));
        }
        let key = match &args[0] {
            Value::String(s) => s,
            _ => return Err(type_error("Expected a string as the first argument")),
        };
        match self.value_of(key.as_str()) {
            Some(v) => Ok(v.cloned()),
            None => Err(
                InterpreterError::RuntimeError(
                    concat3("Key '", key.as_str(), "' not found in ConfigData"),
                ),
            ),
        }
    }

    /// `c.set(key, value, description: ...)`: binds the key.
    pub fn set(&mut self, args: &Vec<Value>, kwargs: &Vec<(String, Value)>) -> (r: Result<
        Value,
        InterpreterError,
    >)
        ensures
            old(self).wf() ==> final(self).wf(),
            match r {
                Ok(v) => v@ == ValueView::Nothing && set_entry(
                    value_views(args@),
                    pair_views(kwargs@),
                ) is Ok && config_views(final(self).data@) == with_entry(
                    config_views(old(self).data@),
                    set_entry(value_views(args@), pair_views(kwargs@))->Ok_0,
                ),
                Err(e) => set_entry(value_views(args@), pair_views(kwargs@)) == Err::<
                    ConfigEntryView,
                    ErrorView,
                >(e@) && final(self).data == old(self).data,
            },
    {
        let e = match make_entry(args, kwargs) {
            Ok(e) => e,
            Err(e) => return Err(e),
        };
        self.put(e);
        Ok(Value::Nothing)
    }

    /// `c.set10(key, value, description: ...)`: binds the key to 0 or 1.
    pub fn set10(&mut self, args: &Vec<Value>, kwargs: &Vec<(String, Value)>) -> (r: Result<
        Value,
        InterpreterError,
    >)
        ensures
            old(self).wf() ==> final(self).wf(),
            match r {
                Ok(v) => v@ == ValueView::Nothing && set10_args(value_views(args@)) is Ok
                    && set_entry(set10_args(value_views(args@))->Ok_0, pair_views(kwargs@)) is Ok
                    && config_views(final(self).data@) == with_entry(
                    config_views(old(self).data@),
                    set_entry(set10_args(value_views(args@))->Ok_0, pair_views(kwargs@))->Ok_0,
                ),
                Err(e) => final(self).data == old(self).data && match set10_args(
                    value_views(args@),
                ) {
                    Err(f) => e@ == f,
                    Ok(a) => set_entry(a, pair_views(kwargs@)) == Err::<
                        ConfigEntryView,
                        ErrorView,
                    >(e@),
                },
            },
    {
        if args.len() < 2 {
            return Err(type_error("Expected int or bool as the second argument"));
        }
        let flag: i64 = match &args[1] {
            Value::Boolean(_) => 1,
            Value::Integer(i) => if *i <= 0 {
                0
            } else {
                1
            },
            _ => return Err(type_error("Expected int or bool as the second argument")),
        };
        let mut changed: Vec<Value> = Vec::new();
        let mut i: usize = 0;
        while i < args.len()
            invariant
                i <= args.len(),
                args.len() >= 2,
                changed@.len() == i,
                forall|j: int|
                    0 <= j < i ==> (#[trigger] changed@[j])@ == value_views(args@).update(
                        1,
                        ValueView::Integer(flag),
                    )[j],
            decreases args.len() - i,
        {
            if i == 1 {
                changed.push(Value::Integer(flag));
            } else {
                changed.push(args[i].cloned());
            }
            i += 1;
        }
        assert(value_views(changed@) =~= value_views(args@).update(1, ValueView::Integer(flag)));
        self.set(&changed, kwargs)
    }
}

/// The entries that a dict gives to `merge_from`: each key with its value
/// and no description.
pub open spec fn dict_entries(entries: Seq<(Seq<char>, ValueView)>) -> Seq<ConfigEntryView> {
    Seq::new(
        entries.len(),
        |i: int|
            ConfigEntryView { key: entries[i].0, value: entries[i].1, description: Seq::empty() },
    )
}

/// Makes the entries that a dict gives to `merge_from`.
pub fn entries_of_dict(dict: &Vec<(String, Value)>) -> (r: Vec<ConfigEntry>)
    ensures
        config_views(r@) == dict_entries(pair_views(dict@)),
{
    let mut out: Vec<ConfigEntry> = Vec::new();
    let mut i: usize = 0;
    while i < dict.len()
        invariant
            i <= dict.len(),
            out@.len() == i,
            forall|j: int|
                0 <= j < i ==> (#[trigger] out@[j])@ == dict_entries(pair_views(dict@))[j],
        decreases dict.len() - i,
    {
        out.push(
            ConfigEntry {
                key: dict[i].0.clone(),
                value: dict[i].1.cloned(),
                description: String::new(),
            },
        );
        i += 1;
    }
    assert(config_views(out@) =~= dict_entries(pair_views(dict@)));
    out
}

/// The line of a header for one entry: `#define KEY` for true, `#undef
/// KEY` for false, `#define KEY value` for a number or a string. Values of
/// other kinds have no line.
pub open spec fn define_line(e: ConfigEntryView) -> Option<Seq<char>> {
    match e.value {
        ValueView::Boolean(true) => Some("#define "@ + e.key + "\n"@),
        ValueView::Boolean(false) => Some("#undef "@ + e.key + "\n"@),
        ValueView::Integer(i) => Some("#define "@ + e.key + " "@ + int_text(i as int) + "\n"@),
        ValueView::String(s) => Some("#define "@ + e.key + " "@ + s + "\n"@),
        _ => None,
    }
}

/// The lines of a header for one entry: the description as a comment,
/// where there is one, the line of the entry, and an empty line.
pub open spec fn entry_block(e: ConfigEntryView) -> Option<Seq<char>> {
    match define_line(e) {
        Some(line) => Some(
            (if e.description.len() > 0 {
                "// "@ + e.description + "\n"@
            } else {
                Seq::empty()
            }) + line + "\n"@,
        ),
        None => None,
    }
}

/// The header that the entries from `i` on make, behind the text `acc`: a
/// type error names the key of the first entry whose value has no line.
pub open spec fn header_from(entries: Seq<ConfigEntryView>, i: int, acc: Seq<char>) -> Result<
    Seq<char>,
    ErrorView,
>
    decreases entries.len() - i,
{
    if i < 0 || i >= entries.len() {
        Ok(acc)
    } else {
        match entry_block(entries[i]) {
            Some(block) => header_from(entries, i + 1, acc + block),
            None => Err(
                ErrorView::TypeError("Unsupported value type for key "@ + entries[i].key),
            ),
        }
    }
}

/// The header that the entries make, in their order: `#pragma once`, an
/// empty line, and the lines of each entry.
pub open spec fn header_text(entries: Seq<ConfigEntryView>) -> Result<Seq<char>, ErrorView> {
    header_from(entries, 0, "#pragma once\n\n"@)
}

/// Writes the header that the configuration data makes.
pub fn configure_no_template(configuration: &ConfigData) -> (r: Result<String, InterpreterError>)
    ensures
        match r {
            Ok(s) => header_text(config_views(configuration.data@)) == Ok::<
                Seq<char>,
                ErrorView,
            >(s@),
            Err(e) => header_text(config_views(configuration.data@)) == Err::<
                Seq<char>,
                ErrorView,
            >(e@),
        },
{
    let ghost entries = config_views(configuration.data@);
    let mut content = String::from_str("#pragma once\n\n");
    let mut i: usize = 0;
    while i < configuration.data.len()
        invariant
            i <= configuration.data.len(),
            entries == config_views(configuration.data@),
            header_text(entries) == header_from(entries, i as int, content@),
        decreases configuration.data.len() - i,
    {
        let e = &configuration.data[i];
        let ghost before = content@;
        let mut block = String::new();
        if e.description.as_str().unicode_len() > 0 {
            block.append("// ");
            block.append(e.description.as_str());
            block.append("\n");
        }
        match &e.value {
            Value::Boolean(b) => {
                if *b {
                    block.append("#define ");
                } else {
                    block.append("#undef ");
                }
                block.append(e.key.as_str());
                block.append("\n");
            },
            Value::Integer(n) => {
                block.append("#define ");
                block.append(e.key.as_str());
                block.append(" ");
                block.append(string_of(&i64_to_chars(*n)).as_str());
                block.append("\n");
            },
            Value::String(s) => {
                block.append("#define ");
                block.append(e.key.as_str());
                block.append(" ");
                block.append(s.as_str());
                block.append("\n");
            },
            _ => {
                return Err(
                    InterpreterError::TypeError(
                        concat("Unsupported value type for key ", e.key.as_str()),
                    ),
                );
            },
        }
        block.append("\n");
        assert(block@ =~= entry_block(entries[i as int])->0);
        content.append(block.as_str());
        i += 1;
    }
    Ok(content)
}

/// What stands in a template for the value of an entry: `1` for true, `0`
/// for false, a number in decimal, a string as it is. Values of other
/// kinds stand for nothing.
pub open spec fn replacement(v: ValueView) -> Option<Seq<char>> {
    match v {
        ValueView::Boolean(true) => Some("1"@),
        ValueView::Boolean(false) => Some("0"@),
        ValueView::Integer(i) => Some(int_text(i as int)),
        ValueView::String(s) => Some(s),
        _ => None,
    }
}

/// The template with the placeholder `@KEY@` of each entry from `i` on
/// replaced by what stands for its value, one entry after the other.
pub open spec fn substituted_from(template: Seq<char>, entries: Seq<ConfigEntryView>, i: int) -> Seq<
    char,
>
    decreases entries.len() - i,
{
    if i < 0 || i >= entries.len() {
        template
    } else {
        substituted_from(
            match replacement(entries[i].value) {
                Some(text) => replace_all(template, "@"@ + entries[i].key + "@"@, text),
                None => template,
            },
            entries,
            i + 1,
        )
    }
}

/// The pieces at the odd places of `pieces`, from the index `i` on, that
/// are not empty: with `pieces` the parts of a text between its `@` signs,
/// these are the names of the placeholders left in it.
pub open spec fn odd_pieces(pieces: Seq<Seq<char>>, i: int) -> Seq<Seq<char>>
    decreases pieces.len() - i,
{
    if i < 0 || i >= pieces.len() {
        Seq::empty()
    } else if i % 2 == 1 && pieces[i].len() > 0 {
        seq![pieces[i]] + odd_pieces(pieces, i + 1)
    } else {
        odd_pieces(pieces, i + 1)
    }
}

/// The names of the placeholders that are left in a text.
pub open spec fn leftover_names(text: Seq<char>) -> Seq<Seq<char>> {
    odd_pieces(split_text(text, "@"@), 0)
}

/// What a template becomes with the entries: the text with the
/// placeholders replaced, or a runtime error that lists the placeholders
/// that are left.
pub open spec fn template_text(template: Seq<char>, entries: Seq<ConfigEntryView>) -> Result<
    Seq<char>,
    ErrorView,
> {
    let text = substituted_from(template, entries, 0);
    if leftover_names(text).len() > 0 {
        Err(
            ErrorView::RuntimeError(
                "configure_file: The following placeholders were not replaced: "@ + join_text(
                    leftover_names(text),
                    ", "@,
                ),
            ),
        )
    } else {
        Ok(text)
    }
}

/// Fills a template with the configuration data.
pub fn configure_with_template(template: String, configuration: &ConfigData) -> (r: Result<
    String,
    InterpreterError,
>)
    ensures
        match r {
            Ok(s) => template_text(template@, config_views(configuration.data@)) == Ok::<
                Seq<char>,
                ErrorView,
            >(s@),
            Err(e) => template_text(template@, config_views(configuration.data@)) == Err::<
                Seq<char>,
                ErrorView,
            >(e@),
        },
{
    let ghost entries = config_views(configuration.data@);
    let mut text = chars_of(template.as_str());
    let at = chars_of("@");
    let mut i: usize = 0;
    while i < configuration.data.len()
        invariant
            i <= configuration.data.len(),
            at@ == "@"@,
            entries == config_views(configuration.data@),
            substituted_from(template@, entries, 0) == substituted_from(text@, entries, i as int),
        decreases configuration.data.len() - i,
    {
        let e = &configuration.data[i];
        let value: Option<Vec<char>> = match &e.value {
            Value::Boolean(b) => Some(
                if *b {
                    chars_of("1")
                } else {
                    chars_of("0")
                },
            ),
            Value::Integer(n) => Some(i64_to_chars(*n)),
            Value::String(s) => Some(chars_of(s.as_str())),
            _ => None,
        };
        match value {
            Some(v) => {
                let mut pattern = chars_of("@");
                extend_chars(&mut pattern, &chars_of(e.key.as_str()));
                extend_chars(&mut pattern, &at);
                text = replace_chars(&text, &pattern, &v);
            },
            None => {},
        }
        i += 1;
    }
    let pieces = split_chars(&text, &at);
    let ghost want = split_text(text@, "@"@);
    let mut left: Vec<Vec<char>> = Vec::new();
    let mut k: usize = pieces.len();
    assert(char_rows(left@) =~= odd_pieces(want, pieces.len() as int));
    while k > 0
        invariant
            k <= pieces.len(),
            pieces@.len() == want.len(),
            forall|j: int| 0 <= j < pieces@.len() ==> (#[trigger] pieces@[j])@ == want[j],
            char_rows(left@).reverse() == odd_pieces(want, k as int),
        decreases k,
    {
        k -= 1;
        if k % 2 == 1 && pieces[k].len() > 0 {
            let ghost before = char_rows(left@);
            left.push(crate::text::slice_chars(&pieces[k], 0, pieces[k].len()));
            assert(pieces@[k as int]@.subrange(0, pieces@[k as int]@.len() as int)
                =~= pieces@[k as int]@);
            assert(char_rows(left@) =~= before.push(want[k as int]));
            assert(char_rows(left@).reverse() =~= seq![want[k as int]] + before.reverse());
        }
    }
    if left.len() > 0 {
        let mut names: Vec<Vec<char>> = Vec::new();
        let mut j: usize = left.len();
        while j > 0
            invariant
                j <= left.len(),
                char_rows(names@) == char_rows(left@).reverse().take(left.len() - j),
            decreases j,
        {
            j -= 1;
            let ghost before = char_rows(names@);
            names.push(crate::text::slice_chars(&left[j], 0, left[j].len()));
            assert(left@[j as int]@.subrange(0, left@[j as int]@.len() as int) =~= left@[j as int]@);
            assert(char_rows(names@) =~= before.push(left@[j as int]@));
            assert(char_rows(names@) =~= char_rows(left@).reverse().take(left.len() - j));
        }
        assert(char_rows(names@) =~= char_rows(left@).reverse());
        let listed = join_chars(&names, &chars_of(", "));
        return Err(
            InterpreterError::RuntimeError(
                concat(
                    "configure_file: The following placeholders were not replaced: ",
                    string_of(&listed).as_str(),
                ),
            ),
        );
    }
    assert(char_rows(left@).reverse() =~= Seq::<Seq<char>>::empty());
    Ok(string_of(&text))
}

} // verus!
