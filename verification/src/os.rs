//! What the interpreter asks of the system it runs on.
//!
//! The interpreter reads no file, starts no program and prints nothing by
//! itself. The program that embeds it implements [`Os`], and every such
//! step goes through that implementation. Nothing is promised of what the
//! methods return: the interpreter is written for every answer.

use vstd::prelude::*;
use crate::path::Path;

verus! {

/// A machine as the system describes it.
#[derive(Debug, Clone)]
pub struct MachineInfo {
    /// The name of the operating system, such as `linux`.
    pub system: String,
    /// The processor architecture, such as `x86_64`.
    pub cpu: String,
    /// The byte order: `little` or `big`.
    pub endian: String,
}

/// What reading a file gave: the bytes, or the words of the failure.
pub open spec fn outcome_of(read: Result<Vec<u8>, String>) -> Result<Seq<u8>, Seq<char>> {
    match read {
        Ok(bytes) => Ok(bytes@),
        Err(cause) => Err(cause@),
    }
}

/// What an attempt to compile a piece of source gave.
#[derive(Debug, Clone)]
pub struct TryCompileOutput {
    /// Whether the compiler ended with the exit code 0.
    pub success: bool,
    /// What the compiler wrote to the output path; empty where it wrote
    /// nothing.
    pub artifact: Vec<u8>,
}

/// What a command left behind.
#[derive(Debug, Clone)]
pub struct RunCommandOutput {
    /// What the command wrote to its standard output.
    pub stdout: String,
    /// What the command wrote to its standard error.
    pub stderr: String,
    /// The exit code of the command.
    pub returncode: i64,
}

/// A temporary directory. It lives as long as this value: `H` is whatever
/// the system needs to keep in order to remove the directory when the
/// value is dropped.
pub struct TempDir<H> {
    path: Path,
    _opaque: H,
}

impl<H> TempDir<H> {
    /// The temporary directory at `path`, kept alive by `opaque`.
    pub fn new(path: Path, opaque: H) -> (r: Self)
        ensures
            r.path_view() == path@,
    {
        TempDir { path, _opaque: opaque }
    }

    /// The text of the path of the directory.
    pub closed spec fn path_view(&self) -> Seq<char> {
        self.path@
    }

    /// The path of the directory.
    pub fn path(&self) -> (r: &Path)
        ensures
            r@ == self.path_view(),
    {
        &self.path
    }
}

/// A compiler as the system knows it.
pub struct CompilerInfo {
    /// The command that runs the compiler.
    pub bin: Path,
    /// The flags that the compiler gets on every call.
    pub flags: Vec<String>,
}

/// The system on which the interpreter runs. A method that can fail
/// returns the reason as text.
pub trait Os {
    /// What keeps a temporary directory alive.
    type TempHandle;

    /// Prints a message.
    fn print(&self, msg: &str);

    /// The value of a variable of the environment.
    fn get_env(&self, key: &str) -> Option<String>;

    /// The machine on which the build runs.
    fn build_machine(&self) -> Result<MachineInfo, String>;

    /// The machine on which what is built will run.
    fn host_machine(&self) -> Result<MachineInfo, String>;

    /// The directory under which things are installed by default.
    fn default_prefix(&self) -> Result<Path, String>;

    /// Whether `path` names a regular file.
    fn is_file(&self, path: &Path) -> Result<bool, String>;

    /// Whether `path` names a directory.
    fn is_dir(&self, path: &Path) -> Result<bool, String>;

    /// Whether `path` names anything.
    fn path_exists(&self, path: &Path) -> Result<bool, String>;

    /// The content of the file at `path`.
    fn read_file(&self, path: &Path) -> Result<Vec<u8>, String>;

    /// Writes `data` to the file at `path`, which is created or replaced.
    fn write_file(&self, path: &Path, data: &Vec<u8>) -> Result<(), String>;

    /// Makes a temporary directory.
    fn tempdir(&self) -> Result<TempDir<Self::TempHandle>, String>;

    /// The compiler for the language `lang`.
    fn get_compiler(&self, lang: &str) -> Result<CompilerInfo, String>;

    /// The full path of the program `name`, searched from `pwd`.
    fn find_program(&self, name: &Path, pwd: &Path) -> Result<Path, String>;

    /// Runs `cmd` with `args` and waits for it to end.
    fn run_command(&self, cmd: &Path, args: &Vec<String>) -> Result<RunCommandOutput, String>;
}

} // verus!
