//! The functions and methods that the language has built in.

pub mod add_languages;
pub mod args;
pub mod array;
pub mod build_target;
pub mod compiler;
pub mod config_data;
pub mod configure_file;
pub mod debug;
pub mod dict;
pub mod env;
pub mod external_program;
pub mod files;
pub mod filesystem;
pub mod import;
pub mod include_directories;
pub mod install_headers;
pub mod join_paths;
pub mod machine;
pub mod option;
pub mod project;
pub mod run_result;
pub mod string;
pub mod test;
pub mod utils;
pub mod variable;
pub mod version;
