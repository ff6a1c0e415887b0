//! The objects of the language: what each kind holds, and the table in
//! which the interpreter keeps them.
//!
//! A value of the kind `Object` is an index into the table. Two variables
//! that hold the same index see the same object, and what a method changes
//! in it.

use vstd::prelude::*;
use crate::path::Path;
use crate::interpreter::value::{Value, ValueView};

verus! {

/// The views of a row of strings.
pub open spec fn string_views(items: Seq<String>) -> Seq<Seq<char>> {
    Seq::new(items.len(), |i: int| items[i]@)
}

/// The views of a row of paths.
pub open spec fn path_views(items: Seq<Path>) -> Seq<Seq<char>> {
    Seq::new(items.len(), |i: int| items[i]@)
}

/// Copies a row of strings.
pub fn clone_strings(items: &Vec<String>) -> (r: Vec<String>)
    ensures
        string_views(r@) == string_views(items@),
{
    let mut out: Vec<String> = Vec::new();
    let mut i: usize = 0;
    while i < items.len()
        invariant
            i <= items.len(),
            out@.len() == i,
            forall|j: int| 0 <= j < i ==> out@[j]@ == items@[j]@,
        decreases items.len() - i,
    {
        out.push(items[i].clone());
        i += 1;
    }
    assert(string_views(out@) =~= string_views(items@));
    out
}

/// Copies a row of paths.
pub fn clone_paths(items: &Vec<Path>) -> (r: Vec<Path>)
    ensures
        path_views(r@) == path_views(items@),
{
    let mut out: Vec<Path> = Vec::new();
    let mut i: usize = 0;
    while i < items.len()
        invariant
            i <= items.len(),
            out@.len() == i,
            forall|j: int| 0 <= j < i ==> out@[j]@ == items@[j]@,
        decreases items.len() - i,
    {
        out.push(items[i].cloned());
        i += 1;
    }
    assert(path_views(out@) =~= path_views(items@));
    out
}

/// Whether two rows of strings hold the same texts.
pub fn same_strings(a: &Vec<String>, b: &Vec<String>) -> (r: bool)
    ensures
        r == (string_views(a@) == string_views(b@)),
{
    if a.len() != b.len() {
        assert(string_views(a@).len() != string_views(b@).len());
        return false;
    }
    let mut i: usize = 0;
    while i < a.len()
        invariant
            i <= a.len(),
            a.len() == b.len(),
            forall|j: int| 0 <= j < i ==> a@[j]@ == b@[j]@,
        decreases a.len() - i,
    {
        if !(a[i] == b[i]) {
            assert(string_views(a@)[i as int] != string_views(b@)[i as int]);
            return false;
        }
        i += 1;
    }
    assert(string_views(a@) =~= string_views(b@));
    true
}

/// Whether two rows of paths hold the same texts.
pub fn same_paths(a: &Vec<Path>, b: &Vec<Path>) -> (r: bool)
    ensures
        r == (path_views(a@) == path_views(b@)),
{
    if a.len() != b.len() {
        assert(path_views(a@).len() != path_views(b@).len());
        return false;
    }
    let mut i: usize = 0;
    while i < a.len()
        invariant
            i <= a.len(),
            a.len() == b.len(),
            forall|j: int| 0 <= j < i ==> a@[j]@ == b@[j]@,
        decreases a.len() - i,
    {
        if !a[i].same(&b[i]) {
            assert(path_views(a@)[i as int] != path_views(b@)[i as int]);
            return false;
        }
        i += 1;
    }
    assert(path_views(a@) =~= path_views(b@));
    true
}

/// A machine: the system it runs, its processor and its byte order.
#[derive(Debug, PartialEq)]
pub struct Machine {
    pub system: String,
    pub cpu_family: String,
    pub cpu: String,
    pub endian: String,
}

/// A compiler: the language, the command that runs it, and the flags it
/// always gets.
#[derive(Debug, PartialEq)]
pub struct Compiler {
    pub lang: String,
    pub command: Path,
    pub flags: Vec<String>,
}

/// What a build target becomes.
#[derive(Clone, Copy, Debug, PartialEq, Eq, Structural)]
pub enum TargetType {
    StaticLibrary,
    Executable,
}

/// A build target: a library or a program with the sources and settings
/// from which it is built.
#[derive(Debug, PartialEq)]
pub struct BuildTarget {
    pub name: String,
    pub target_type: TargetType,
    pub sources: Vec<Path>,
    pub install: bool,
    pub include_dirs: Vec<Path>,
    pub install_dir: Path,
    pub flags: Vec<String>,
}

/// A build target as a mathematical value.
pub struct BuildTargetView {
    pub name: Seq<char>,
    pub target_type: TargetType,
    pub sources: Seq<Seq<char>>,
    pub install: bool,
    pub include_dirs: Seq<Seq<char>>,
    pub install_dir: Seq<char>,
    pub flags: Seq<Seq<char>>,
}

impl View for BuildTarget {
    type V = BuildTargetView;

    open spec fn view(&self) -> BuildTargetView {
        BuildTargetView {
            name: self.name@,
            target_type: self.target_type,
            sources: path_views(self.sources@),
            install: self.install,
            include_dirs: path_views(self.include_dirs@),
            install_dir: self.install_dir@,
            flags: string_views(self.flags@),
        }
    }
}

/// The objects that were compiled for a target, named by their sources.
#[derive(Debug, PartialEq)]
pub struct ExtractedObjects {
    pub sources: Vec<Path>,
}

/// A program outside the build: where it was found, or that it was not.
#[derive(Debug, PartialEq)]
pub struct ExternalProgram {
    pub full_path: Option<String>,
}

/// What a command left behind: its two output streams and its exit code.
#[derive(Debug, PartialEq)]
pub struct RunResult {
    pub stdout: String,
    pub stderr: String,
    pub returncode: i64,
}

/// A file, named by its path.
#[derive(Debug, PartialEq)]
pub struct File {
    pub path: Path,
}

/// A set of directories in which headers are searched.
#[derive(Debug, PartialEq)]
pub struct IncludeDirectories {
    pub dirs: Vec<Path>,
}

/// The module `fs`.
#[derive(Clone, Copy, Debug, PartialEq, Eq, Structural)]
pub struct FileSystem;

/// A version number. The text is one that the version grammar accepts.
#[derive(Debug, PartialEq)]
pub struct VersionNumber {
    pub text: String,
}

/// An environment: variables and their values, in the order in which the
/// variables were first set.
#[derive(Debug, PartialEq)]
pub struct Env {
    pub vars: Vec<(String, String)>,
}

/// One entry of a set of configuration data.
#[derive(Debug, PartialEq)]
pub struct ConfigEntry {
    pub key: String,
    pub value: Value,
    pub description: String,
}

/// An entry of configuration data as a mathematical value.
pub struct ConfigEntryView {
    pub key: Seq<char>,
    pub value: ValueView,
    pub description: Seq<char>,
}

impl View for ConfigEntry {
    type V = ConfigEntryView;

    open spec fn view(&self) -> ConfigEntryView {
        ConfigEntryView { key: self.key@, value: self.value@, description: self.description@ }
    }
}

/// The views of a row of entries.
pub open spec fn config_views(entries: Seq<ConfigEntry>) -> Seq<ConfigEntryView> {
    Seq::new(entries.len(), |i: int| entries[i]@)
}

/// Configuration data: keys with a value and a description each, kept in
/// the order of their keys.
#[derive(Debug, PartialEq)]
pub struct ConfigData {
    pub data: Vec<ConfigEntry>,
}

/// The views of a row of pairs of strings.
pub open spec fn text_pairs(entries: Seq<(String, String)>) -> Seq<(Seq<char>, Seq<char>)> {
    Seq::new(entries.len(), |i: int| (entries[i].0@, entries[i].1@))
}

/// An object of one of the kinds that the language has.
#[derive(Debug, PartialEq)]
pub enum Object {
    /// The project itself, which the interpreter holds.
    Meson,
    Machine(Machine),
    Compiler(Compiler),
    BuildTarget(BuildTarget),
    ExtractedObjects(ExtractedObjects),
    ConfigData(ConfigData),
    Env(Env),
    ExternalProgram(ExternalProgram),
    RunResult(RunResult),
    VersionNumber(VersionNumber),
    File(File),
    IncludeDirectories(IncludeDirectories),
    FileSystem(FileSystem),
}

/// An object as a mathematical value.
pub enum ObjectView {
    Meson,
    Machine { system: Seq<char>, cpu_family: Seq<char>, cpu: Seq<char>, endian: Seq<char> },
    Compiler { lang: Seq<char>, command: Seq<char>, flags: Seq<Seq<char>> },
    BuildTarget(BuildTargetView),
    ExtractedObjects { sources: Seq<Seq<char>> },
    ConfigData { data: Seq<ConfigEntryView> },
    Env { vars: Seq<(Seq<char>, Seq<char>)> },
    ExternalProgram { full_path: Option<Seq<char>> },
    RunResult { stdout: Seq<char>, stderr: Seq<char>, returncode: i64 },
    VersionNumber { text: Seq<char> },
    File { path: Seq<char> },
    IncludeDirectories { dirs: Seq<Seq<char>> },
    FileSystem,
}

impl View for Object {
    type V = ObjectView;

    open spec fn view(&self) -> ObjectView {
        match self {
            Object::Meson => ObjectView::Meson,
            Object::Machine(m) => ObjectView::Machine {
                system: m.system@,
                cpu_family: m.cpu_family@,
                cpu: m.cpu@,
                endian: m.endian@,
            },
            Object::Compiler(c) => ObjectView::Compiler {
                lang: c.lang@,
                command: c.command@,
                flags: string_views(c.flags@),
            },
            Object::BuildTarget(t) => ObjectView::BuildTarget(t@),
            Object::ExtractedObjects(e) => ObjectView::ExtractedObjects {
                sources: path_views(e.sources@),
            },
            Object::ConfigData(c) => ObjectView::ConfigData { data: config_views(c.data@) },
            Object::Env(e) => ObjectView::Env { vars: text_pairs(e.vars@) },
            Object::ExternalProgram(p) => ObjectView::ExternalProgram {
                full_path: match p.full_path {
                    Some(s) => Some(s@),
                    None => None,
                },
            },
            Object::RunResult(r) => ObjectView::RunResult {
                stdout: r.stdout@,
                stderr: r.stderr@,
                returncode: r.returncode,
            },
            Object::VersionNumber(v) => ObjectView::VersionNumber { text: v.text@ },
            Object::File(f) => ObjectView::File { path: f.path@ },
            Object::IncludeDirectories(d) => ObjectView::IncludeDirectories {
                dirs: path_views(d.dirs@),
            },
            Object::FileSystem(_) => ObjectView::FileSystem,
        }
    }
}

/// The views of the objects of a table.
pub open spec fn object_views(objects: Seq<Object>) -> Seq<ObjectView> {
    Seq::new(objects.len(), |i: int| objects[i]@)
}

/// The name of the kind of an object.
pub open spec fn kind_name(o: ObjectView) -> Seq<char> {
    match o {
        ObjectView::Meson => "Meson"@,
        ObjectView::Machine { .. } => "Machine"@,
        ObjectView::Compiler { .. } => "Compiler"@,
        ObjectView::BuildTarget(_) => "BuildTarget"@,
        ObjectView::ExtractedObjects { .. } => "ExtractedObjects"@,
        ObjectView::ConfigData { .. } => "ConfigData"@,
        ObjectView::Env { .. } => "Env"@,
        ObjectView::ExternalProgram { .. } => "ExternalProgram"@,
        ObjectView::RunResult { .. } => "RunResult"@,
        ObjectView::VersionNumber { .. } => "Version"@,
        ObjectView::File { .. } => "File"@,
        ObjectView::IncludeDirectories { .. } => "IncludeDirectories"@,
        ObjectView::FileSystem => "FileSystem"@,
    }
}

/// What an object shows of itself in its text: the name of a target, the
/// path of a file or of a program that was found, the text of a version,
/// the system of a machine, the language of a compiler; for the other
/// kinds nothing.
pub open spec fn object_detail(o: ObjectView) -> Seq<char> {
    match o {
        ObjectView::Machine { system, .. } => system,
        ObjectView::Compiler { lang, .. } => lang,
        ObjectView::BuildTarget(t) => t.name,
        ObjectView::ExternalProgram { full_path } => match full_path {
            Some(p) => p,
            None => Seq::empty(),
        },
        ObjectView::VersionNumber { text } => text,
        ObjectView::File { path } => path,
        _ => Seq::empty(),
    }
}

/// The text of an object: the name of its kind, and in parentheses what it
/// shows of itself.
pub open spec fn object_text(o: ObjectView) -> Seq<char> {
    kind_name(o) + "("@ + object_detail(o) + ")"@
}

impl Object {
    /// The name of the kind of the object.
    pub fn kind_name(&self) -> (r: &'static str)
        ensures
            r@ == kind_name(self@),
    {
        match self {
            Object::Meson => "Meson",
            Object::Machine(_) => "Machine",
            Object::Compiler(_) => "Compiler",
            Object::BuildTarget(_) => "BuildTarget",
            Object::ExtractedObjects(_) => "ExtractedObjects",
            Object::ConfigData(_) => "ConfigData",
            Object::Env(_) => "Env",
            Object::ExternalProgram(_) => "ExternalProgram",
            Object::RunResult(_) => "RunResult",
            Object::VersionNumber(_) => "Version",
            Object::File(_) => "File",
            Object::IncludeDirectories(_) => "IncludeDirectories",
            Object::FileSystem(_) => "FileSystem",
        }
    }

    /// The text of the object.
    pub fn to_string(&self) -> (r: String)
        ensures
            r@ == object_text(self@),
    {
        let detail: String = match self {
            Object::Machine(m) => m.system.clone(),
            Object::Compiler(c) => c.lang.clone(),
            Object::BuildTarget(t) => t.name.clone(),
            Object::ExternalProgram(p) => match &p.full_path {
                Some(s) => s.clone(),
                None => String::new(),
            },
            Object::VersionNumber(v) => v.text.clone(),
            Object::File(f) => f.path.to_string(),
            _ => String::new(),
        };
        let mut out = String::from_str(self.kind_name());
        out.append("(");
        out.append(detail.as_str());
        out.append(")");
        out
    }
}

} // verus!
