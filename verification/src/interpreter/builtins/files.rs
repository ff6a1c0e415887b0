//! `files()`, and the turning of arguments into paths that the other
//! builtins share.

use vstd::prelude::*;
use crate::interpreter::builtins::utils::{flat, flatten, all_strings};
use crate::interpreter::error::{InterpreterError, ErrorView, type_error};
use crate::interpreter::objects::{Object, ObjectView, object_views, File, path_views};
use crate::interpreter::state::{Interpreter, kept};
use crate::interpreter::value::{Value, ValueView, value_views};
use crate::os::Os;
use crate::path::{Path, joined, slashed};
use crate::steps::BuildSteps;

verus! {

impl File {
    /// The file at `path`.
    pub fn from_path(path: &str) -> (r: File)
        ensures
            r.path@ == slashed(path@),
    {
        File { path: Path::from(path) }
    }
}

/// What kinds of objects may stand for paths among the arguments.
#[derive(Clone, Copy, Debug, PartialEq, Eq, Structural)]
pub enum PathSource {
    /// Files alone.
    Files,
    /// Files, and the objects extracted from a target.
    Objects,
    /// Sets of include directories alone.
    Includes,
}

/// The path that the string `s` names in the directory `cwd`.
pub open spec fn in_dir(cwd: Seq<char>, s: Seq<char>) -> Seq<char> {
    slashed(joined(cwd, s))
}

/// The paths that the value `v` stands for: a string for the path it names
/// in the directory `cwd`, an object of a kind that `source` admits for
/// the paths it holds. `None` for any other value.
pub open spec fn paths_of(
    v: ValueView,
    cwd: Seq<char>,
    objs: Seq<ObjectView>,
    source: PathSource,
) -> Option<Seq<Seq<char>>> {
    match v {
        ValueView::String(s) => Some(seq![in_dir(cwd, s)]),
        ValueView::Object(h) => if h < objs.len() {
            match (objs[h as int], source) {
                (ObjectView::File { path }, PathSource::Files) => Some(seq![path]),
                (ObjectView::File { path }, PathSource::Objects) => Some(seq![path]),
                (ObjectView::ExtractedObjects { sources }, PathSource::Objects) => Some(sources),
                (ObjectView::IncludeDirectories { dirs }, PathSource::Includes) => Some(dirs),
                _ => None,
            }
        } else {
            None
        },
        _ => None,
    }
}

/// The paths that the values from the index `i` on stand for, behind those
/// of `acc`; `None` where one of them stands for none.
pub open spec fn paths_from(
    items: Seq<ValueView>,
    cwd: Seq<char>,
    objs: Seq<ObjectView>,
    source: PathSource,
    i: int,
    acc: Seq<Seq<char>>,
) -> Option<Seq<Seq<char>>>
    decreases items.len() - i,
{
    if i < 0 || i >= items.len() {
        Some(acc)
    } else {
        match paths_of(items[i], cwd, objs, source) {
            Some(more) => paths_from(items, cwd, objs, source, i + 1, acc + more),
            None => None,
        }
    }
}

/// The paths that the arguments stand for, once flattened.
pub open spec fn resolved(
    args: Seq<ValueView>,
    cwd: Seq<char>,
    objs: Seq<ObjectView>,
    source: PathSource,
) -> Option<Seq<Seq<char>>> {
    paths_from(flat(args), cwd, objs, source, 0, Seq::empty())
}

/// The paths that strings name in the directory `cwd`, in their order.
pub open spec fn named_in(cwd: Seq<char>, names: Seq<Seq<char>>) -> Seq<Seq<char>> {
    Seq::new(names.len(), |i: int| in_dir(cwd, names[i]))
}

proof fn lemma_paths_from_strings(
    items: Seq<ValueView>,
    names: Seq<Seq<char>>,
    cwd: Seq<char>,
    objs: Seq<ObjectView>,
    source: PathSource,
    i: int,
    acc: Seq<Seq<char>>,
)
    requires
        0 <= i <= items.len(),
        all_strings(items) == Some(names),
    ensures
        paths_from(items, cwd, objs, source, i, acc) == Some(
            acc + named_in(cwd, names).subrange(i, names.len() as int),
        ),
    decreases items.len() - i,
{
    let all = named_in(cwd, names);
    if i >= items.len() {
        assert(acc + all.subrange(i, names.len() as int) =~= acc);
    } else {
        assert(items[i] is String);
        assert(names[i] == items[i]->String_0);
        let more = seq![in_dir(cwd, names[i])];
        lemma_paths_from_strings(items, names, cwd, objs, source, i + 1, acc + more);
        assert(acc + more + all.subrange(i + 1, names.len() as int) =~= acc + all.subrange(
            i,
            names.len() as int,
        ));
    }
}

/// Arguments that flatten to strings alone stand for the paths that the
/// strings name in the current directory, in the order of the strings,
/// however the arguments were nested in arrays.
pub proof fn strings_resolve_in_order(
    args: Seq<ValueView>,
    cwd: Seq<char>,
    objs: Seq<ObjectView>,
    source: PathSource,
)
    requires
        all_strings(flat(args)) is Some,
    ensures
        resolved(args, cwd, objs, source) == Some(named_in(cwd, all_strings(flat(args))->0)),
{
    let names = all_strings(flat(args))->0;
    lemma_paths_from_strings(flat(args), names, cwd, objs, source, 0, Seq::empty());
    assert(Seq::<Seq<char>>::empty() + named_in(cwd, names).subrange(0, names.len() as int)
        =~= named_in(cwd, names));
}

/// Appends the paths of `more` to `out`.
fn append_paths(out: &mut Vec<Path>, more: &Vec<Path>)
    ensures
        path_views(final(out)@) == path_views(old(out)@) + path_views(more@),
{
    let ghost start = path_views(out@);
    let mut i: usize = 0;
    assert(path_views(more@).take(0) =~= Seq::<Seq<char>>::empty());
    assert(start + path_views(more@).take(0) =~= start);
    while i < more.len()
        invariant
            i <= more.len(),
            path_views(out@) == start + path_views(more@).take(i as int),
        decreases more.len() - i,
    {
        let ghost before = path_views(out@);
        out.push(more[i].cloned());
        assert(path_views(out@) =~= before.push(more@[i as int]@));
        assert(path_views(out@) =~= start + path_views(more@).take(i as int + 1));
        i += 1;
    }
    assert(path_views(more@).take(more.len() as int) =~= path_views(more@));
}

/// Turns the arguments, flattened, into the paths they stand for.
pub fn resolve_paths(args: &Vec<Value>, cwd: &Path, objects: &Vec<Object>, source: PathSource) -> (r:
    Option<Vec<Path>>)
    ensures
        match r {
            Some(paths) => resolved(value_views(args@), cwd@, object_views(objects@), source)
                == Some(path_views(paths@)),
            None => resolved(value_views(args@), cwd@, object_views(objects@), source) is None,
        },
{
    let items = flatten(args);
    let ghost views = value_views(items@);
    let ghost objs = object_views(objects@);
    let mut out: Vec<Path> = Vec::new();
    assert(path_views(out@) =~= Seq::<Seq<char>>::empty());
    let mut i: usize = 0;
    while i < items.len()
        invariant
            i <= items.len(),
            views == value_views(items@),
            views == flat(value_views(args@)),
            objs == object_views(objects@),
            paths_from(views, cwd@, objs, source, 0, Seq::empty()) == paths_from(
                views,
                cwd@,
                objs,
                source,
                i as int,
                path_views(out@),
            ),
        decreases items.len() - i,
    {
        let ghost before = path_views(out@);
        assert(views[i as int] == items@[i as int]@);
        match &items[i] {
            Value::String(s) => {
                let joined = cwd.join(s.as_str());
                out.push(Path::from(joined.as_str()));
                assert(path_views(out@) =~= before + seq![in_dir(cwd@, s@)]);
            },
            Value::Object(h) => {
                if *h >= objects.len() {
                    return None;
                }
                match &objects[*h] {
                    Object::File(f) => {
                        if source == PathSource::Includes {
                            return None;
                        }
                        out.push(f.path.cloned());
                        assert(path_views(out@) =~= before + seq![f.path@]);
                    },
                    Object::ExtractedObjects(e) => {
                        if source != PathSource::Objects {
                            return None;
                        }
                        append_paths(&mut out, &e.sources);
                    },
                    Object::IncludeDirectories(d) => {
                        if source != PathSource::Includes {
                            return None;
                        }
                        append_paths(&mut out, &d.dirs);
                    },
                    _ => {
                        return None;
                    },
                }
            },
            _ => {
                return None;
            },
        }
        i += 1;
    }
    Some(out)
}

/// Turns the arguments into files: a string is the file of that name in
/// the current directory, a file is itself.
pub fn files_impl<O: Os, S: BuildSteps>(args: &Vec<Value>, interp: &Interpreter<O, S>) -> (r:
    Result<Vec<Path>, InterpreterError>)
    ensures
        match r {
            Ok(paths) => resolved(
                value_views(args@),
                interp.current_dir@,
                interp.objs(),
                PathSource::Files,
            ) == Some(path_views(paths@)),
            Err(e) => resolved(
                value_views(args@),
                interp.current_dir@,
                interp.objs(),
                PathSource::Files,
            ) is None && e@ == ErrorView::TypeError(
                "Expected arguments to be strings or File objects"@,
            ),
        },
{
    match resolve_paths(args, &interp.current_dir, &interp.objects, PathSource::Files) {
        Some(paths) => Ok(paths),
        None => Err(type_error("Expected arguments to be strings or File objects")),
    }
}

/// Whether the objects of `after` from the index `start` on are the files
/// with the paths `paths`, those before being the objects of `before`.
pub open spec fn files_added(
    before: Seq<ObjectView>,
    after: Seq<ObjectView>,
    paths: Seq<Seq<char>>,
) -> bool {
    &&& after.len() == before.len() + paths.len()
    &&& forall|i: int| 0 <= i < before.len() ==> after[i] == before[i]
    &&& forall|i: int|
        0 <= i < paths.len() ==> #[trigger] after[before.len() + i] == (ObjectView::File {
            path: paths[i],
        })
}

/// The handles from `start` on, `n` of them.
pub open spec fn handles(start: int, n: int) -> Seq<ValueView> {
    Seq::new(n as nat, |i: int| ValueView::Object((start + i) as usize))
}

/// What `files(args...)` does: a file object is added for each argument,
/// once flattened, and the array of the values that stand for them is
/// returned; nothing else changes.
pub open spec fn files_effect<O: Os, S: BuildSteps>(
    before: &Interpreter<O, S>,
    after: &Interpreter<O, S>,
    args: Seq<ValueView>,
    r: Result<Value, InterpreterError>,
) -> bool {
    &&& after.variables == before.variables
    &&& after.options == before.options
    &&& after.meson == before.meson
    &&& after.break_flag == before.break_flag
    &&& after.continue_flag == before.continue_flag
    &&& match resolved(args, before.current_dir@, before.objs(), PathSource::Files) {
        Some(paths) => r matches Ok(v) && v@ == ValueView::Array(
            handles(before.objects@.len() as int, paths.len() as int),
        ) && files_added(before.objs(), after.objs(), paths),
        None => r matches Err(e) && e@ == ErrorView::TypeError(
            "Expected arguments to be strings or File objects"@,
        ) && after.objects == before.objects,
    }
}

/// `files(args...)`: an array of new file objects, one for each argument
/// once flattened.
pub fn files<O: Os, S: BuildSteps>(args: &Vec<Value>, interp: &mut Interpreter<O, S>) -> (r: Result<
    Value,
    InterpreterError,
>)
    ensures
        kept(old(interp), final(interp)),
        files_effect(old(interp), final(interp), value_views(args@), r),
{
    let paths = match files_impl(args, interp) {
        Ok(p) => p,
        Err(e) => return Err(e),
    };
    let ghost before = interp.objs();
    let ghost want = path_views(paths@);
    let ghost start = interp.objects@.len() as int;
    let mut out: Vec<Value> = Vec::new();
    let mut i: usize = 0;
    while i < paths.len()
        invariant
            i <= paths.len(),
            want == path_views(paths@),
            kept(old(interp), interp),
            interp.variables == old(interp).variables,
            interp.options == old(interp).options,
            interp.meson == old(interp).meson,
            interp.break_flag == old(interp).break_flag,
            interp.continue_flag == old(interp).continue_flag,
            interp.objects@.len() == start + i,
            start == before.len(),
            forall|j: int| 0 <= j < before.len() ==> interp.objs()[j] == before[j],
            forall|j: int|
                0 <= j < i ==> #[trigger] interp.objs()[start + j] == (ObjectView::File {
                    path: want[j],
                }),
            out@.len() == i,
            forall|j: int|
                0 <= j < i ==> (#[trigger] out@[j])@ == ValueView::Object((start + j) as usize),
        decreases paths.len() - i,
    {
        let ghost prev = interp.objs();
        let v = interp.add_object(Object::File(File { path: paths[i].cloned() }));
        assert forall|j: int| 0 <= j < i implies #[trigger] interp.objs()[start + j] == (
        ObjectView::File { path: want[j] }) by {
            assert(interp.objs()[start + j] == prev[start + j]);
        }
        out.push(v);
        i += 1;
    }
    assert(value_views(out@) =~= handles(start, want.len() as int));
    Ok(Value::Array(out))
}

} // verus!
