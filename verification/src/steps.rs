//! What the interpreter tells the backend that makes the build rules.

use vstd::prelude::*;
use crate::path::Path;
pub use crate::interpreter::objects::BuildTarget;
pub use crate::interpreter::builtins::config_data::ConfigureFile;

verus! {

/// The backend: it is told of every target, configured file and set of
/// headers that the build description declares, in the order of the
/// script. Nothing comes back.
pub trait BuildSteps {
    /// A static library is to be built from `target`.
    fn build_static_library(&self, target: &BuildTarget);

    /// A program is to be built from `target`.
    fn build_executable(&self, target: &BuildTarget);

    /// The file that `file` describes is to be written.
    fn configure_file(&self, file: &ConfigureFile);

    /// The headers `headers` are to be installed under `install_dir`.
    fn install_headers(&self, install_dir: &Path, headers: &Vec<Path>);
}

} // verus!
