use vstd::prelude::*;
use std::path::{Path, PathBuf};

verus! {

/// Declares `std::path::PathBuf`, which configuration file paths are held in.
#[verifier::external_type_specification]
#[verifier::external_body]
pub struct ExPathBuf(PathBuf);

/// Name of the configuration file looked for in a directory.
pub const CONFIGURATION_FILE_NAME: &'static str = "configuration.toml";

/// `dir` joined with `name` by `std::path::Path::join`. Nothing is stated of the result: how a
/// path is joined depends on the platform's path conventions.
#[verifier::external_body]
fn join_path(dir: &PathBuf, name: &str) -> (res: PathBuf) {
    Path::join(dir, name)
}

/// The configuration file path in `dir`, when `is_file` reports that a file is there.
///
/// `is_file` is asked exactly once, about `dir` joined with [`CONFIGURATION_FILE_NAME`].
pub fn get_configuration_path<F: Fn(&PathBuf) -> bool>(dir: PathBuf, is_file: F) -> (res: Option<
    PathBuf,
>)
    requires
        forall|p: &PathBuf| is_file.requires((p,)),
    ensures
        res matches Some(p) ==> is_file.ensures((&p,), true),
        res is None ==> exists|p: &PathBuf| is_file.ensures((p,), false),
{
    let config_path = join_path(&dir, CONFIGURATION_FILE_NAME);
    if is_file(&config_path) {
        Some(config_path)
    } else {
        None
    }
}

/// The configuration file path in `dir`, when `is_file` reports that a file is there.
///
/// `is_file` is asked exactly once, about `dir` joined with [`CONFIGURATION_FILE_NAME`].
pub fn get_config_path_from_dir<F: Fn(&PathBuf) -> bool>(dir: PathBuf, is_file: F) -> (res: Option<
    PathBuf,
>)
    requires
        forall|p: &PathBuf| is_file.requires((p,)),
    ensures
        res matches Some(p) ==> is_file.ensures((&p,), true),
        res is None ==> exists|p: &PathBuf| is_file.ensures((p,), false),
{
    let config_path = join_path(&dir, CONFIGURATION_FILE_NAME);
    if is_file(&config_path) {
        Some(config_path)
    } else {
        None
    }
}

/// The configuration file to load: `file_path` when given; otherwise what `current_dir` finds;
/// otherwise what `config_dir` finds.
///
/// Each search runs only when every earlier choice came up empty.
pub fn find_config_file_path<F: FnOnce() -> Option<PathBuf>, G: FnOnce() -> Option<PathBuf>>(
    file_path: Option<PathBuf>,
    current_dir: F,
    config_dir: G,
) -> (res: Option<PathBuf>)
    requires
        current_dir.requires(()),
        config_dir.requires(()),
    ensures
        file_path is Some ==> res == file_path,
        file_path is None ==> (current_dir.ensures((), res) && res is Some) || (current_dir.ensures(
            (),
            None,
        ) && config_dir.ensures((), res)),
{
    match file_path {
        Some(path) => Some(path),
        None => match current_dir() {
            Some(path) => Some(path),
            None => config_dir(),
        },
    }
}

} // verus!
