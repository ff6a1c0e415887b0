//! Machine files: descriptions of a toolchain in sections of `key = value`
//! lines, the values being expressions of the build language.
//!
//! The section `constants` is read first, and what it binds can be used in
//! every section. Within a section a value may use the keys that stand
//! before it. Values are strings, numbers, booleans and arrays; strings
//! and arrays can be added, and two strings joined into a path with `/`.

use vstd::prelude::*;
use crate::assoc::{lookup, upsert, names, string_names, find_key};
use crate::parser::ast::{Value, Statement, ExprView, expr_views, stmt_views, BinaryOperator};
use crate::parser::error::ParseError;
use crate::parser::grammar::program;
use crate::parser::statements::parse_meson_file;
use crate::lexer::tokens_of;
use crate::text::{
    chars_of, string_of, slice_chars, extend_chars, split_chars, split_text, trim_chars, trimmed,
    find_from, first_occurrence, lemma_first_occurrence, concat, join_chars, join_text,
    char_rows, int_text, i64_to_chars, bool_text,
};

verus! {

/// A value of a machine file.
#[derive(Debug, PartialEq)]
pub enum MachineValue {
    String(String),
    Integer(i64),
    Boolean(bool),
    Array(Vec<MachineValue>),
}

/// A value of a machine file as a mathematical value.
pub enum MachineValueView {
    String(Seq<char>),
    Integer(i64),
    Boolean(bool),
    Array(Seq<MachineValueView>),
}

/// The view of a value.
pub open spec fn machine_view(v: MachineValue) -> MachineValueView
    decreases v,
{
    match v {
        MachineValue::String(s) => MachineValueView::String(s@),
        MachineValue::Integer(i) => MachineValueView::Integer(i),
        MachineValue::Boolean(b) => MachineValueView::Boolean(b),
        MachineValue::Array(items) => MachineValueView::Array(machine_views(items@)),
    }
}

/// The views of a row of values.
pub open spec fn machine_views(items: Seq<MachineValue>) -> Seq<MachineValueView>
    decreases items,
{
    Seq::new(
        items.len(),
        |i: int|
            if 0 <= i < items.len() {
                machine_view(items[i])
            } else {
                MachineValueView::Boolean(false)
            },
    )
}

impl View for MachineValue {
    type V = MachineValueView;

    open spec fn view(&self) -> MachineValueView {
        machine_view(*self)
    }
}

/// The text of a value: a string as it is, a number in decimal, `true` or
/// `false`, an array as the texts of its elements with commas between.
pub open spec fn machine_text(v: MachineValueView) -> Seq<char>
    decreases v,
{
    match v {
        MachineValueView::String(s) => s,
        MachineValueView::Integer(i) => int_text(i as int),
        MachineValueView::Boolean(b) => bool_text(b),
        MachineValueView::Array(items) => join_text(machine_texts(items), ","@),
    }
}

/// The texts of a row of values.
pub open spec fn machine_texts(items: Seq<MachineValueView>) -> Seq<Seq<char>>
    decreases items,
{
    Seq::new(
        items.len(),
        |i: int|
            if 0 <= i < items.len() {
                machine_text(items[i])
            } else {
                Seq::empty()
            },
    )
}

/// The value that a literal expression is; `None` for any other
/// expression.
pub open spec fn literal_value(e: ExprView) -> Option<MachineValueView>
    decreases e,
{
    match e {
        ExprView::String(s) => Some(MachineValueView::String(s)),
        ExprView::Integer(i) => Some(MachineValueView::Integer(i)),
        ExprView::Boolean(b) => Some(MachineValueView::Boolean(b)),
        ExprView::Array(items) => match literal_values(items) {
            Some(values) => Some(MachineValueView::Array(values)),
            None => None,
        },
        _ => None,
    }
}

/// The values that a row of literal expressions are.
pub open spec fn literal_values(items: Seq<ExprView>) -> Option<Seq<MachineValueView>>
    decreases items,
{
    if items.len() == 0 {
        Some(Seq::empty())
    } else {
        match literal_values(items.drop_last()) {
            None => None,
            Some(values) => match literal_value(items.last()) {
                None => None,
                Some(v) => Some(values.push(v)),
            },
        }
    }
}

/// Where a row of expressions are literals, so is every row that begins
/// it.
pub proof fn lemma_literal_prefix(items: Seq<ExprView>, k: int)
    requires
        0 <= k <= items.len(),
    ensures
        literal_values(items.take(k)) is None ==> literal_values(items) is None,
    decreases items.len() - k,
{
    if k < items.len() {
        lemma_literal_prefix(items, k + 1);
        assert(items.take(k + 1).drop_last() =~= items.take(k));
    } else {
        assert(items.take(k) =~= items);
    }
}

/// Copies a row of values.
pub fn clone_machine_values(items: &Vec<MachineValue>) -> (r: Vec<MachineValue>)
    ensures
        machine_views(r@) == machine_views(items@),
    decreases items,
{
    let mut out: Vec<MachineValue> = Vec::new();
    let mut i: usize = 0;
    while i < items.len()
        invariant
            i <= items.len(),
            out@.len() == i,
            forall|j: int| 0 <= j < i ==> out@[j]@ == items@[j]@,
        decreases items.len() - i,
    {
        out.push(items[i].cloned());
        i += 1;
    }
    assert(machine_views(out@) =~= machine_views(items@));
    out
}

impl MachineValue {
    /// A copy of the value.
    pub fn cloned(&self) -> (r: MachineValue)
        ensures
            r@ == self@,
        decreases self,
    {
        match self {
            MachineValue::String(s) => MachineValue::String(s.clone()),
            MachineValue::Integer(i) => MachineValue::Integer(*i),
            MachineValue::Boolean(b) => MachineValue::Boolean(*b),
            MachineValue::Array(items) => MachineValue::Array(clone_machine_values(items)),
        }
    }

    /// The string that the value is.
    pub fn as_string(&self) -> (r: Option<&str>)
        ensures
            match r {
                Some(s) => self@ == MachineValueView::String(s@),
                None => !(self@ is String),
            },
    {
        match self {
            MachineValue::String(s) => Some(s.as_str()),
            _ => None,
        }
    }

    /// The text of the value, as characters.
    #[verifier::loop_isolation(false)]
    pub fn coerce_chars(&self) -> (r: Vec<char>)
        ensures
            r@ == machine_text(self@),
        decreases self,
    {
        match self {
            MachineValue::String(s) => chars_of(s.as_str()),
            MachineValue::Integer(i) => i64_to_chars(*i),
            MachineValue::Boolean(b) => if *b {
                chars_of("true")
            } else {
                chars_of("false")
            },
            MachineValue::Array(items) => {
                let mut parts: Vec<Vec<char>> = Vec::new();
                let mut i: usize = 0;
                while i < items.len()
                    invariant
                        i <= items.len(),
                        parts@.len() == i,
                        forall|j: int| 0 <= j < i ==> parts@[j]@ == machine_text(items@[j]@),
                    decreases items.len() - i,
                {
                    parts.push(items[i].coerce_chars());
                    i += 1;
                }
                assert(char_rows(parts@) =~= machine_texts(machine_views(items@)));
                join_chars(&parts, &chars_of(","))
            },
        }
    }

    /// The text of the value.
    pub fn coerce_string(&self) -> (r: String)
        ensures
            r@ == machine_text(self@),
    {
        string_of(&self.coerce_chars())
    }

    /// The value that the literal expression `value` is; an error for any
    /// other expression.
    #[verifier::loop_isolation(false)]
    pub fn from_value(value: &Value) -> (r: Result<MachineValue, ParseError>)
        ensures
            match r {
                Ok(v) => literal_value(value@) == Some(v@),
                Err(_) => literal_value(value@) is None,
            },
        decreases value,
    {
        match value {
            Value::String(s) => Ok(MachineValue::String(s.clone())),
            Value::Integer(i) => Ok(MachineValue::Integer(*i)),
            Value::Boolean(b) => Ok(MachineValue::Boolean(*b)),
            Value::Array(items) => {
                let ghost views = expr_views(items@);
                let mut out: Vec<MachineValue> = Vec::new();
                let mut i: usize = 0;
                assert(views.take(0) =~= Seq::<ExprView>::empty());
                assert(machine_views(out@) =~= Seq::<MachineValueView>::empty());
                while i < items.len()
                    invariant
                        i <= items.len(),
                        literal_values(views.take(i as int)) == Some(machine_views(out@)),
                    decreases items.len() - i,
                {
                    proof {
                        lemma_literal_prefix(views, i as int + 1);
                        assert(views.take(i as int + 1).drop_last() =~= views.take(i as int));
                        assert(views.take(i as int + 1).last() == items@[i as int]@);
                    }
                    let ghost before = machine_views(out@);
                    match MachineValue::from_value(&items[i]) {
                        Ok(v) => {
                            out.push(v);
                            assert(machine_views(out@) =~= before.push(v@));
                        },
                        Err(e) => return Err(e),
                    }
                    i += 1;
                }
                assert(views.take(items.len() as int) =~= views);
                Ok(MachineValue::Array(out))
            },
            _ => Err(ParseError::UnexpectedToken),
        }
    }

    /// The literal expression that writes the value.
    #[verifier::loop_isolation(false)]
    pub fn to_value(&self) -> (r: Value)
        ensures
            literal_value(r@) == Some(self@),
        decreases self,
    {
        match self {
            MachineValue::String(s) => Value::String(s.clone()),
            MachineValue::Integer(i) => Value::Integer(*i),
            MachineValue::Boolean(b) => Value::Boolean(*b),
            MachineValue::Array(items) => {
                let mut out: Vec<Value> = Vec::new();
                let mut i: usize = 0;
                assert(expr_views(out@) =~= Seq::<ExprView>::empty());
                assert(machine_views(items@).take(0) =~= Seq::<MachineValueView>::empty());
                while i < items.len()
                    invariant
                        i <= items.len(),
                        out@.len() == i,
                        literal_values(expr_views(out@)) == Some(
                            machine_views(items@).take(i as int),
                        ),
                    decreases items.len() - i,
                {
                    let ghost before = expr_views(out@);
                    let v = items[i].to_value();
                    out.push(v);
                    assert(expr_views(out@) =~= before.push(v@));
                    assert(expr_views(out@).drop_last() =~= before);
                    assert(machine_views(items@).take(i as int + 1) =~= machine_views(
                        items@,
                    ).take(i as int).push(items@[i as int]@));
                    i += 1;
                }
                assert(machine_views(items@).take(items.len() as int) =~= machine_views(items@));
                Value::Array(out)
            },
        }
    }
}

/// The first character of `s` is `a` or `b`.
pub open spec fn begins_with_either(s: Seq<char>, a: char, b: char) -> bool {
    s.len() > 0 && (s[0] == a || s[0] == b)
}

/// The last character of `s` is `a` or `b`.
pub open spec fn ends_with_either(s: Seq<char>, a: char, b: char) -> bool {
    s.len() > 0 && (s.last() == a || s.last() == b)
}

/// The path `a` extended by `b`: one separator stands between them, which
/// is a slash where `a` does not end with a separator, and a separator at
/// the start of `b` is dropped.
pub open spec fn machine_path(a: Seq<char>, b: Seq<char>) -> Seq<char> {
    (if ends_with_either(a, '/', '\\') {
        a
    } else {
        a.push('/')
    }) + (if begins_with_either(b, '/', '\\') {
        b.drop_first()
    } else {
        b
    })
}

/// The sum of two values: two strings in a row, two arrays in a row, an
/// array with a string behind it, or a string before an array.
pub open spec fn machine_sum(l: MachineValueView, r: MachineValueView) -> Option<
    MachineValueView,
> {
    match (l, r) {
        (MachineValueView::String(a), MachineValueView::String(b)) => Some(
            MachineValueView::String(a + b),
        ),
        (MachineValueView::Array(a), MachineValueView::Array(b)) => Some(
            MachineValueView::Array(a + b),
        ),
        (MachineValueView::Array(a), MachineValueView::String(b)) => Some(
            MachineValueView::Array(a.push(r)),
        ),
        (MachineValueView::String(a), MachineValueView::Array(b)) => Some(
            MachineValueView::Array(seq![l] + b),
        ),
        _ => None,
    }
}

/// What `l / r` gives: the path of two strings.
pub open spec fn machine_quotient(l: MachineValueView, r: MachineValueView) -> Option<
    MachineValueView,
> {
    match (l, r) {
        (MachineValueView::String(a), MachineValueView::String(b)) => Some(
            MachineValueView::String(machine_path(a, b)),
        ),
        _ => None,
    }
}

/// The entries of a section.
pub type SectionView = Seq<(Seq<char>, MachineValueView)>;

/// The value of an expression in a section: a literal is itself, a name
/// is what the constants bind it to, or else what the section binds it
/// to, and strings and arrays can be added and two strings joined with
/// `/`. `None` for a name that is not bound and for every other
/// expression.
pub open spec fn evaluated(e: ExprView, constants: SectionView, section: SectionView) -> Option<
    MachineValueView,
>
    decreases e,
{
    match e {
        ExprView::String(s) => Some(MachineValueView::String(s)),
        ExprView::Integer(i) => Some(MachineValueView::Integer(i)),
        ExprView::Boolean(b) => Some(MachineValueView::Boolean(b)),
        ExprView::Array(items) => match evaluated_all(items, constants, section) {
            Some(values) => Some(MachineValueView::Array(values)),
            None => None,
        },
        ExprView::Identifier(name) => match lookup(constants, name) {
            Some(v) => Some(v),
            None => lookup(section, name),
        },
        ExprView::BinaryOp(left, op, right) => match evaluated(*left, constants, section) {
            None => None,
            Some(l) => match evaluated(*right, constants, section) {
                None => None,
                Some(r) => match op {
                    BinaryOperator::Add => machine_sum(l, r),
                    BinaryOperator::Div => machine_quotient(l, r),
                    _ => None,
                },
            },
        },
        _ => None,
    }
}

/// The values of a row of expressions in a section.
pub open spec fn evaluated_all(items: Seq<ExprView>, constants: SectionView, section: SectionView) -> Option<
    Seq<MachineValueView>,
>
    decreases items,
{
    if items.len() == 0 {
        Some(Seq::empty())
    } else {
        match evaluated_all(items.drop_last(), constants, section) {
            None => None,
            Some(values) => match evaluated(items.last(), constants, section) {
                None => None,
                Some(v) => Some(values.push(v)),
            },
        }
    }
}

/// Where a row of expressions have values, so has every row that begins
/// it.
pub proof fn lemma_evaluated_prefix(
    items: Seq<ExprView>,
    constants: SectionView,
    section: SectionView,
    k: int,
)
    requires
        0 <= k <= items.len(),
    ensures
        evaluated_all(items.take(k), constants, section) is None ==> evaluated_all(
            items,
            constants,
            section,
        ) is None,
    decreases items.len() - k,
{
    if k < items.len() {
        lemma_evaluated_prefix(items, constants, section, k + 1);
        assert(items.take(k + 1).drop_last() =~= items.take(k));
    } else {
        assert(items.take(k) =~= items);
    }
}

/// The views of the entries of a section.
pub open spec fn section_view(entries: Seq<(String, MachineValue)>) -> SectionView {
    Seq::new(entries.len(), |i: int| (entries[i].0@, entries[i].1@))
}

/// The sections of a machine file as mathematical values.
pub type FileView = Seq<(Seq<char>, SectionView)>;

/// The views of the sections of a machine file.
pub open spec fn file_view(sections: Seq<(String, Vec<(String, MachineValue)>)>) -> FileView {
    Seq::new(sections.len(), |i: int| (sections[i].0@, section_view(sections[i].1@)))
}

/// The entries of the section `name`; none where there is no such section.
pub open spec fn section_of(file: FileView, name: Seq<char>) -> SectionView {
    match lookup(file, name) {
        Some(s) => s,
        None => Seq::empty(),
    }
}

/// The file with `key` bound to `value` in the section `name`.
pub open spec fn file_with(
    file: FileView,
    name: Seq<char>,
    key: Seq<char>,
    value: MachineValueView,
) -> FileView {
    upsert(file, name, upsert(section_of(file, name), key, value))
}

/// A machine file: sections of keys and values.
#[derive(Debug, PartialEq)]
pub struct MachineFile {
    pub sections: Vec<(String, Vec<(String, MachineValue)>)>,
}

impl View for MachineFile {
    type V = FileView;

    open spec fn view(&self) -> FileView {
        file_view(self.sections@)
    }
}

/// Adds two values.
pub fn add_machine_values(l: &MachineValue, r: &MachineValue) -> (res: Option<MachineValue>)
    ensures
        match res {
            Some(v) => machine_sum(l@, r@) == Some(v@),
            None => machine_sum(l@, r@) is None,
        },
{
    match (l, r) {
        (MachineValue::String(a), MachineValue::String(b)) => Some(
            MachineValue::String(concat(a.as_str(), b.as_str())),
        ),
        (MachineValue::Array(a), MachineValue::Array(b)) => {
            let mut out = clone_machine_values(a);
            let ghost first = machine_views(out@);
            let mut i: usize = 0;
            assert(machine_views(b@).take(0) =~= Seq::<MachineValueView>::empty());
            assert(first + machine_views(b@).take(0) =~= first);
            while i < b.len()
                invariant
                    i <= b.len(),
                    machine_views(out@) == first + machine_views(b@).take(i as int),
                decreases b.len() - i,
            {
                let ghost before = machine_views(out@);
                out.push(b[i].cloned());
                assert(machine_views(out@) =~= before.push(b@[i as int]@));
                assert(machine_views(out@) =~= first + machine_views(b@).take(i as int + 1));
                i += 1;
            }
            assert(machine_views(b@).take(b.len() as int) =~= machine_views(b@));
            Some(MachineValue::Array(out))
        },
        (MachineValue::Array(a), MachineValue::String(b)) => {
            let mut out = clone_machine_values(a);
            let ghost before = machine_views(out@);
            out.push(MachineValue::String(b.clone()));
            assert(machine_views(out@) =~= before.push(r@));
            Some(MachineValue::Array(out))
        },
        (MachineValue::String(a), MachineValue::Array(b)) => {
            let mut out: Vec<MachineValue> = Vec::new();
            out.push(MachineValue::String(a.clone()));
            let ghost first = machine_views(out@);
            assert(first =~= seq![l@]);
            let mut i: usize = 0;
            assert(machine_views(b@).take(0) =~= Seq::<MachineValueView>::empty());
            assert(first + machine_views(b@).take(0) =~= first);
            while i < b.len()
                invariant
                    i <= b.len(),
                    machine_views(out@) == first + machine_views(b@).take(i as int),
                decreases b.len() - i,
            {
                let ghost before = machine_views(out@);
                out.push(b[i].cloned());
                assert(machine_views(out@) =~= before.push(b@[i as int]@));
                assert(machine_views(out@) =~= first + machine_views(b@).take(i as int + 1));
                i += 1;
            }
            assert(machine_views(b@).take(b.len() as int) =~= machine_views(b@));
            Some(MachineValue::Array(out))
        },
        _ => None,
    }
}

/// Joins two strings into a path.
pub fn join_machine_path(a: &str, b: &str) -> (r: String)
    ensures
        r@ == machine_path(a@, b@),
{
    let x = chars_of(a);
    let y = chars_of(b);
    let mut out = slice_chars(&x, 0, x.len());
    assert(out@ =~= a@);
    if !(x.len() > 0 && (x[x.len() - 1] == '/' || x[x.len() - 1] == '\\')) {
        out.push('/');
    }
    let rest = if y.len() > 0 && (y[0] == '/' || y[0] == '\\') {
        slice_chars(&y, 1, y.len())
    } else {
        slice_chars(&y, 0, y.len())
    };
    assert(y@.subrange(0, y@.len() as int) =~= y@);
    assert(y@.len() > 0 ==> y@.subrange(1, y@.len() as int) =~= y@.drop_first());
    extend_chars(&mut out, &rest);
    string_of(&out)
}

impl MachineFile {
    /// A machine file without sections.
    pub fn new() -> (r: MachineFile)
        ensures
            r@ == Seq::<(Seq<char>, SectionView)>::empty(),
    {
        let sections: Vec<(String, Vec<(String, MachineValue)>)> = Vec::new();
        assert(file_view(sections@) =~= Seq::<(Seq<char>, SectionView)>::empty());
        MachineFile { sections }
    }

    /// The entries of the section `section`.
    pub fn section(&self, section: &str) -> (r: Option<&Vec<(String, MachineValue)>>)
        ensures
            match r {
                Some(entries) => lookup(self@, section@) == Some(section_view(entries@)),
                None => lookup(self@, section@) is None,
            },
    {
        assert(names(self@) =~= string_names(self.sections@));
        match find_key(&self.sections, section) {
            Some(i) => Some(&self.sections[i].1),
            None => None,
        }
    }

    /// The value of the key `key` in the section `section`.
    pub fn get(&self, section: &str, key: &str) -> (r: Option<&MachineValue>)
        ensures
            match r {
                Some(v) => lookup(section_of(self@, section@), key@) == Some(v@),
                None => lookup(section_of(self@, section@), key@) is None,
            },
    {
        match self.section(section) {
            None => {
                assert(names(Seq::<(Seq<char>, MachineValueView)>::empty()) =~= Seq::<
                    Seq<char>,
                >::empty());
                None
            },
            Some(entries) => {
                assert(names(section_view(entries@)) =~= string_names(entries@));
                match find_key(entries, key) {
                    Some(i) => Some(&entries[i].1),
                    None => None,
                }
            },
        }
    }

    /// Binds `key` to `value` in the section `section`.
    pub fn set(&mut self, section: &str, key: &str, value: MachineValue)
        ensures
            final(self)@ == file_with(old(self)@, section@, key@, value@),
    {
        let ghost before = self@;
        assert(names(before) =~= string_names(self.sections@));
        let at = match find_key(&self.sections, section) {
            Some(i) => i,
            None => {
                let fresh: Vec<(String, MachineValue)> = Vec::new();
                assert(section_view(fresh@) =~= Seq::<(Seq<char>, MachineValueView)>::empty());
                self.sections.push((String::from_str(section), fresh));
                assert(self@ =~= before.push((section@, Seq::empty())));
                self.sections.len() - 1
            },
        };
        let ghost middle = self@;
        let mut entries: Vec<(String, MachineValue)> = Vec::new();
        let mut i: usize = 0;
        while i < self.sections[at].1.len()
            invariant
                at < self.sections.len(),
                self@ == middle,
                i <= self.sections[at as int].1.len(),
                entries@.len() == i,
                forall|j: int|
                    0 <= j < i ==> (#[trigger] entries@[j]).0@
                        == self.sections[at as int].1@[j].0@ && entries@[j].1@
                        == self.sections[at as int].1@[j].1@,
            decreases self.sections[at as int].1.len() - i,
        {
            entries.push((self.sections[at].1[i].0.clone(), self.sections[at].1[i].1.cloned()));
            i += 1;
        }
        assert(section_view(entries@) =~= section_view(self.sections[at as int].1@));
        let ghost old_entries = section_view(entries@);
        assert(old_entries == section_of(before, section@));
        assert(names(old_entries) =~= string_names(entries@));
        match find_key(&entries, key) {
            Some(k) => {
                entries.set(k, (String::from_str(key), value));
                assert(section_view(entries@) =~= old_entries.update(k as int, (key@, value@)));
            },
            None => {
                entries.push((String::from_str(key), value));
                assert(section_view(entries@) =~= old_entries.push((key@, value@)));
            },
        }
        let ghost new_entries = section_view(entries@);
        self.sections.set(at, (String::from_str(section), entries));
        assert(self@ =~= middle.update(at as int, (section@, new_entries)));
        assert(self@ =~= file_with(before, section@, key@, value@));
    }

    /// The value of the expression `value` in the section `section`.
    #[verifier::loop_isolation(false)]
    pub fn evaluate_value(&self, section: &str, value: &Value) -> (r: Result<
        MachineValue,
        ParseError,
    >)
        ensures
            match r {
                Ok(v) => evaluated(
                    value@,
                    section_of(self@, "constants"@),
                    section_of(self@, section@),
                ) == Some(v@),
                Err(_) => evaluated(
                    value@,
                    section_of(self@, "constants"@),
                    section_of(self@, section@),
                ) is None,
            },
        decreases value,
    {
        let ghost constants = section_of(self@, "constants"@);
        let ghost here = section_of(self@, section@);
        match value {
            Value::String(s) => Ok(MachineValue::String(s.clone())),
            Value::Integer(i) => Ok(MachineValue::Integer(*i)),
            Value::Boolean(b) => Ok(MachineValue::Boolean(*b)),
            Value::Array(items) => {
                let ghost views = expr_views(items@);
                let mut out: Vec<MachineValue> = Vec::new();
                let mut i: usize = 0;
                assert(views.take(0) =~= Seq::<ExprView>::empty());
                assert(machine_views(out@) =~= Seq::<MachineValueView>::empty());
                while i < items.len()
                    invariant
                        i <= items.len(),
                        evaluated_all(views.take(i as int), constants, here) == Some(
                            machine_views(out@),
                        ),
                    decreases items.len() - i,
                {
                    proof {
                        lemma_evaluated_prefix(views, constants, here, i as int + 1);
                        assert(views.take(i as int + 1).drop_last() =~= views.take(i as int));
                        assert(views.take(i as int + 1).last() == items@[i as int]@);
                    }
                    let ghost before = machine_views(out@);
                    match self.evaluate_value(section, &items[i]) {
                        Ok(v) => {
                            out.push(v);
                            assert(machine_views(out@) =~= before.push(v@));
                        },
                        Err(e) => return Err(e),
                    }
                    i += 1;
                }
                assert(views.take(items.len() as int) =~= views);
                Ok(MachineValue::Array(out))
            },
            Value::Identifier(name) => {
                match self.get("constants", name.as_str()) {
                    Some(v) => Ok(v.cloned()),
                    None => match self.get(section, name.as_str()) {
                        Some(v) => Ok(v.cloned()),
                        None => Err(ParseError::UnexpectedToken),
                    },
                }
            },
            Value::BinaryOp(left, op, right) => {
                let l = match self.evaluate_value(section, left) {
                    Ok(v) => v,
                    Err(e) => return Err(e),
                };
                let r = match self.evaluate_value(section, right) {
                    Ok(v) => v,
                    Err(e) => return Err(e),
                };
                match op {
                    BinaryOperator::Add => match add_machine_values(&l, &r) {
                        Some(v) => Ok(v),
                        None => Err(ParseError::UnexpectedToken),
                    },
                    BinaryOperator::Div => match (&l, &r) {
                        (MachineValue::String(a), MachineValue::String(b)) => Ok(
                            MachineValue::String(join_machine_path(a.as_str(), b.as_str())),
                        ),
                        _ => Err(ParseError::UnexpectedToken),
                    },
                    _ => Err(ParseError::UnexpectedToken),
                }
            },
            _ => Err(ParseError::UnexpectedToken),
        }
    }
}

/// The lines of a text, each without the white space at its ends.
pub open spec fn file_lines(content: Seq<char>) -> Seq<Seq<char>> {
    Seq::new(
        split_text(content, "\n"@).len(),
        |i: int| trimmed(split_text(content, "\n"@)[i]),
    )
}

/// Whether a line names a section: it begins with `[` and ends with `]`.
pub open spec fn is_header(line: Seq<char>) -> bool {
    line.len() >= 2 && line[0] == '[' && line.last() == ']'
}

/// An entry as it is read, before its value is worked out: the section,
/// the key and the expression.
pub struct PendingEntry {
    pub section: String,
    pub key: String,
    pub value: Value,
}

/// An entry as it is read, as a mathematical value.
pub struct PendingView {
    pub section: Seq<char>,
    pub key: Seq<char>,
    pub value: ExprView,
}

impl View for PendingEntry {
    type V = PendingView;

    open spec fn view(&self) -> PendingView {
        PendingView { section: self.section@, key: self.key@, value: self.value@ }
    }
}

/// The views of a row of entries.
pub open spec fn pending_views(entries: Seq<PendingEntry>) -> Seq<PendingView> {
    Seq::new(entries.len(), |i: int| entries[i]@)
}

/// The first index from `i` on of an entry of the section `section` with
/// the key `key`, or the length of the row.
pub open spec fn entry_slot(entries: Seq<PendingView>, section: Seq<char>, key: Seq<char>, i: int) -> int
    decreases entries.len() - i,
{
    if 0 <= i < entries.len() && !(entries[i].section == section && entries[i].key == key) {
        entry_slot(entries, section, key, i + 1)
    } else {
        i
    }
}

/// The entries with `e` among them: in the place of the entry of its
/// section and key, or at the end.
pub open spec fn pending_with(entries: Seq<PendingView>, e: PendingView) -> Seq<PendingView> {
    let at = entry_slot(entries, e.section, e.key, 0);
    if 0 <= at < entries.len() {
        entries.update(at, e)
    } else {
        entries.push(e)
    }
}

/// The text of a value and the line behind it: lines are added to the
/// text, a line feed before each, until the text is a whole piece of the
/// build language or the lines have run out.
pub open spec fn value_span(lines: Seq<Seq<char>>, i: int, text: Seq<char>) -> (Seq<char>, int)
    decreases lines.len() - i,
{
    if 0 <= i < lines.len() && program(tokens_of(text)) is None {
        value_span(lines, i + 1, text + seq!['\n'] + lines[i])
    } else {
        (text, i)
    }
}

/// The expression that a text is, where it is one expression and nothing
/// else.
pub open spec fn single_expression(text: Seq<char>) -> Option<ExprView> {
    match program(tokens_of(text)) {
        Some(statements) => if statements.len() == 1 && statements[0] is Expression {
            Some(statements[0]->Expression_0)
        } else {
            None
        },
        None => None,
    }
}

/// The entries that the lines from `i` on hold, added to those of `acc`,
/// `current` being the section that the last header named. Empty lines
/// and lines without `=` are passed over; the key is what stands before
/// the first `=` of its line. `None` where a value is no expression.
pub open spec fn collected(
    lines: Seq<Seq<char>>,
    i: int,
    current: Seq<char>,
    acc: Seq<PendingView>,
) -> Option<Seq<PendingView>>
    decreases lines.len() - i,
{
    if i < 0 || i >= lines.len() {
        Some(acc)
    } else {
        let line = lines[i];
        if line.len() == 0 {
            collected(lines, i + 1, current, acc)
        } else if is_header(line) {
            collected(lines, i + 1, line.subrange(1, line.len() - 1), acc)
        } else {
            match first_occurrence(line, "="@, 0) {
                None => collected(lines, i + 1, current, acc),
                Some(eq) => if !(0 <= eq < line.len()) {
                    None
                } else {
                    let span = value_span(
                        lines,
                        i + 1,
                        trimmed(line.subrange(eq + 1, line.len() as int)),
                    );
                    match single_expression(span.0) {
                        None => None,
                        Some(e) => if i < span.1 <= lines.len() {
                            collected(
                                lines,
                                span.1,
                                current,
                                pending_with(
                                    acc,
                                    PendingView {
                                        section: current,
                                        key: trimmed(line.subrange(0, eq)),
                                        value: e,
                                    },
                                ),
                            )
                        } else {
                            None
                        },
                    }
                },
            }
        }
    }
}

/// The file that the entries from `i` on make of `file`, each value worked
/// out with what the file holds by then; only the entries of the section
/// `constants` where `constants` is set, and only those of the other
/// sections where it is not. `None` where a value cannot be worked out.
pub open spec fn filled(file: FileView, entries: Seq<PendingView>, constants: bool, i: int) -> Option<
    FileView,
>
    decreases entries.len() - i,
{
    if i < 0 || i >= entries.len() {
        Some(file)
    } else if (entries[i].section == "constants"@) != constants {
        filled(file, entries, constants, i + 1)
    } else {
        match evaluated(
            entries[i].value,
            section_of(file, "constants"@),
            section_of(file, entries[i].section),
        ) {
            None => None,
            Some(v) => filled(
                file_with(file, entries[i].section, entries[i].key, v),
                entries,
                constants,
                i + 1,
            ),
        }
    }
}

/// The machine file that a text writes.
pub open spec fn machine_file_of(content: Seq<char>) -> Option<FileView> {
    match collected(file_lines(content), 0, Seq::empty(), Seq::empty()) {
        None => None,
        Some(entries) => match filled(Seq::empty(), entries, true, 0) {
            None => None,
            Some(file) => filled(file, entries, false, 0),
        },
    }
}

/// The reader of machine files: the lines, how far they have been read,
/// and the entries read so far.
pub struct MachineFileParser {
    pub lines: Vec<Vec<char>>,
    pub pos: usize,
    pub sections: Vec<PendingEntry>,
}

impl MachineFileParser {
    /// The lines as mathematical values.
    pub open spec fn line_views(&self) -> Seq<Seq<char>> {
        char_rows(self.lines@)
    }

    /// A reader at the start of `content`.
    pub fn new(content: &str) -> (r: MachineFileParser)
        ensures
            r.line_views() == file_lines(content@),
            r.pos == 0,
            pending_views(r.sections@) == Seq::<PendingView>::empty(),
    {
        let raw = split_chars(&chars_of(content), &chars_of("\n"));
        let ghost want = split_text(content@, "\n"@);
        let mut lines: Vec<Vec<char>> = Vec::new();
        let mut i: usize = 0;
        while i < raw.len()
            invariant
                i <= raw.len(),
                raw@.len() == want.len(),
                forall|j: int| 0 <= j < raw@.len() ==> (#[trigger] raw@[j])@ == want[j],
                lines@.len() == i,
                forall|j: int| 0 <= j < i ==> (#[trigger] lines@[j])@ == trimmed(want[j]),
            decreases raw.len() - i,
        {
            lines.push(trim_chars(&raw[i], false));
            i += 1;
        }
        assert(char_rows(lines@) =~= file_lines(content@));
        let sections: Vec<PendingEntry> = Vec::new();
        assert(pending_views(sections@) =~= Seq::<PendingView>::empty());
        MachineFileParser { lines, pos: 0, sections }
    }

    /// Puts an entry among those read so far.
    pub fn set(&mut self, section: &str, key: &str, value: Value)
        ensures
            final(self).lines == old(self).lines,
            final(self).pos == old(self).pos,
            pending_views(final(self).sections@) == pending_with(
                pending_views(old(self).sections@),
                PendingView { section: section@, key: key@, value: value@ },
            ),
    {
        let ghost before = pending_views(self.sections@);
        let s = String::from_str(section);
        let k = String::from_str(key);
        let mut at: usize = 0;
        while at < self.sections.len() && !(self.sections[at].section == s
            && self.sections[at].key == k)
            invariant
                at <= self.sections.len(),
                *self == *old(self),
                s@ == section@,
                k@ == key@,
                before == pending_views(self.sections@),
                entry_slot(before, section@, key@, 0) == entry_slot(
                    before,
                    section@,
                    key@,
                    at as int,
                ),
            decreases self.sections.len() - at,
        {
            at += 1;
        }
        let e = PendingEntry { section: s, key: k, value };
        if at < self.sections.len() {
            self.sections.set(at, e);
            assert(pending_views(self.sections@) =~= before.update(at as int, e@));
        } else {
            self.sections.push(e);
            assert(pending_views(self.sections@) =~= before.push(e@));
        }
    }

    /// Reads the value that begins with `first_line` and may go on over
    /// the lines that follow.
    pub fn parse_value(&mut self, first_line: &Vec<char>) -> (r: Result<Value, ParseError>)
        requires
            old(self).pos <= old(self).lines.len(),
        ensures
            final(self).lines == old(self).lines,
            final(self).sections == old(self).sections,
            old(self).pos <= final(self).pos <= final(self).lines.len(),
            final(self).pos == value_span(
                old(self).line_views(),
                old(self).pos as int,
                first_line@,
            ).1,
            match r {
                Ok(e) => single_expression(
                    value_span(old(self).line_views(), old(self).pos as int, first_line@).0,
                ) == Some(e@),
                Err(_) => single_expression(
                    value_span(old(self).line_views(), old(self).pos as int, first_line@).0,
                ) is None,
            },
    {
        let ghost lines = self.line_views();
        let ghost start = self.pos as int;
        let mut text = slice_chars(first_line, 0, first_line.len());
        assert(text@ =~= first_line@);
        let mut parsed = parse_meson_file(string_of(&text).as_str());
        while self.pos < self.lines.len() && parsed.is_err()
            invariant
                self.lines == old(self).lines,
                self.sections == old(self).sections,
                lines == self.line_views(),
                start <= self.pos <= self.lines.len(),
                value_span(lines, start, first_line@) == value_span(
                    lines,
                    self.pos as int,
                    text@,
                ),
                match parsed {
                    Ok(st) => program(tokens_of(text@)) == Some(stmt_views(st@)),
                    Err(_) => program(tokens_of(text@)) is None,
                },
            decreases self.lines.len() - self.pos,
        {
            let ghost before = text@;
            text.push('\n');
            extend_chars(&mut text, &self.lines[self.pos]);
            assert(text@ =~= before + seq!['\n'] + lines[self.pos as int]);
            self.pos += 1;
            parsed = parse_meson_file(string_of(&text).as_str());
        }
        let mut statements = match parsed {
            Ok(st) => st,
            Err(e) => return Err(e),
        };
        if statements.len() != 1 {
            return Err(ParseError::UnexpectedToken);
        }
        let ghost views = stmt_views(statements@);
        assert(views[0] == statements@[0]@);
        match statements.pop() {
            Some(Statement::Expression(e)) => Ok(e),
            _ => Err(ParseError::UnexpectedToken),
        }
    }

    /// Reads the lines into entries.
    pub fn read_entries(&mut self) -> (r: Result<(), ParseError>)
        requires
            old(self).pos == 0,
            pending_views(old(self).sections@) == Seq::<PendingView>::empty(),
        ensures
            final(self).lines == old(self).lines,
            match r {
                Ok(_) => collected(old(self).line_views(), 0, Seq::empty(), Seq::empty()) == Some(
                    pending_views(final(self).sections@),
                ),
                Err(_) => collected(old(self).line_views(), 0, Seq::empty(), Seq::empty())
                    is None,
            },
    {
        let ghost lines = self.line_views();
        let ghost whole = collected(lines, 0, Seq::empty(), Seq::empty());
        let mut current: Vec<char> = Vec::new();
        let eq_sign = chars_of("=");
        while self.pos < self.lines.len()
            invariant
                self.lines == old(self).lines,
                lines == self.line_views(),
                lines == old(self).line_views(),
                self.pos <= self.lines.len(),
                eq_sign@ == "="@,
                whole == collected(lines, 0, Seq::empty(), Seq::empty()),
                whole == collected(
                    lines,
                    self.pos as int,
                    current@,
                    pending_views(self.sections@),
                ),
            decreases self.lines.len() - self.pos,
        {
            let i = self.pos;
            let len = self.lines[i].len();
            self.pos += 1;
            if len == 0 {
                continue;
            }
            if len >= 2 && self.lines[i][0] == '[' && self.lines[i][len - 1] == ']' {
                current = slice_chars(&self.lines[i], 1, len - 1);
                continue;
            }
            proof {
                reveal_strlit("=");
                lemma_first_occurrence(lines[i as int], "="@, 0);
            }
            let found = find_from(&self.lines[i], &eq_sign, 0);
            match found {
                None => {},
                Some(eq) => {
                    let key = trim_chars(&slice_chars(&self.lines[i], 0, eq), false);
                    let first = trim_chars(&slice_chars(&self.lines[i], eq + 1, len), false);
                    let value = match self.parse_value(&first) {
                        Ok(v) => v,
                        Err(e) => return Err(e),
                    };
                    self.set(string_of(&current).as_str(), string_of(&key).as_str(), value);
                },
            }
        }
        Ok(())
    }

    /// Works out the values of the entries of the section `constants`,
    /// where `constants` is set, or of all the other sections, and puts
    /// them into `machine_file`.
    pub fn evaluate_section(&self, machine_file: &mut MachineFile, constants: bool) -> (r: Result<
        (),
        ParseError,
    >)
        ensures
            match r {
                Ok(_) => filled(
                    old(machine_file)@,
                    pending_views(self.sections@),
                    constants,
                    0,
                ) == Some(final(machine_file)@),
                Err(_) => filled(
                    old(machine_file)@,
                    pending_views(self.sections@),
                    constants,
                    0,
                ) is None,
            },
    {
        let ghost entries = pending_views(self.sections@);
        let ghost whole = filled(machine_file@, entries, constants, 0);
        let mut i: usize = 0;
        while i < self.sections.len()
            invariant
                i <= self.sections.len(),
                entries == pending_views(self.sections@),
                whole == filled(old(machine_file)@, entries, constants, 0),
                whole == filled(machine_file@, entries, constants, i as int),
            decreases self.sections.len() - i,
        {
            let e = &self.sections[i];
            assert(entries[i as int] == e@);
            if crate::text::str_eq(e.section.as_str(), "constants") == constants {
                let v = match machine_file.evaluate_value(e.section.as_str(), &e.value) {
                    Ok(v) => v,
                    Err(err) => return Err(err),
                };
                machine_file.set(e.section.as_str(), e.key.as_str(), v);
            }
            i += 1;
        }
        Ok(())
    }

    /// Reads the whole text into a machine file.
    pub fn parse(&mut self) -> (r: Result<MachineFile, ParseError>)
        requires
            old(self).pos == 0,
            pending_views(old(self).sections@) == Seq::<PendingView>::empty(),
        ensures
            match r {
                Ok(f) => match collected(old(self).line_views(), 0, Seq::empty(), Seq::empty()) {
                    Some(entries) => match filled(Seq::empty(), entries, true, 0) {
                        Some(file) => filled(file, entries, false, 0) == Some(f@),
                        None => false,
                    },
                    None => false,
                },
                Err(_) => match collected(old(self).line_views(), 0, Seq::empty(), Seq::empty()) {
                    Some(entries) => match filled(Seq::empty(), entries, true, 0) {
                        Some(file) => filled(file, entries, false, 0) is None,
                        None => true,
                    },
                    None => true,
                },
            },
    {
        match self.read_entries() {
            Ok(_) => {},
            Err(e) => return Err(e),
        }
        let mut machine_file = MachineFile::new();
        match self.evaluate_section(&mut machine_file, true) {
            Ok(_) => {},
            Err(e) => return Err(e),
        }
        match self.evaluate_section(&mut machine_file, false) {
            Ok(_) => {},
            Err(e) => return Err(e),
        }
        Ok(machine_file)
    }
}

impl MachineFile {
    /// Reads a machine file from its text.
    pub fn parse(content: &str) -> (r: Result<MachineFile, ParseError>)
        ensures
            match r {
                Ok(f) => machine_file_of(content@) == Some(f@),
                Err(_) => machine_file_of(content@) is None,
            },
    {
        let mut parser = MachineFileParser::new(content);
        parser.parse()
    }
}

} // verus!
