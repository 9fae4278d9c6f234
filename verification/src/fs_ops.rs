use vstd::prelude::*;

verus! {

/// One immediate entry of a directory: its full path and its bare file name.
pub struct DirEntryItem {
    pub path: String,
    pub file_name: String,
}

/// Relies on `fs_err::read_to_string`: what a file holds depends on the
/// filesystem, so nothing is promised of the outcome.
#[verifier::external_body]
pub(crate) fn read_to_string_ext(path: &str) -> (r: Result<String, String>) {
    match fs_err::read_to_string(path) {
        Ok(s) => Ok(s),
        Err(e) => Err(format!("{e}")),
    }
}

/// Relies on `std::path::Path::is_dir`: whether the path names a directory
/// depends on the filesystem.
#[verifier::external_body]
pub(crate) fn is_dir_ext(path: &str) -> (r: bool) {
    std::path::Path::new(path).is_dir()
}

/// Relies on `std::path::Path::is_absolute`: on a given platform, whether a
/// path is absolute is decided by the path text; the rule differs between
/// platforms, so nothing is promised of the outcome.
#[verifier::external_body]
pub(crate) fn path_is_absolute_ext(path: &str) -> (r: bool) {
    std::path::Path::new(path).is_absolute()
}

/// Relies on `std::path::Path::parent`: the path without its final
/// component, where there is one.
#[verifier::external_body]
pub(crate) fn path_parent_ext(path: &str) -> (r: Option<String>) {
    match std::path::Path::new(path).parent() {
        Some(p) => p.to_str().map(|s| s.to_owned()),
        None => None,
    }
}

/// Relies on `fs_err::read_dir`: the immediate entries of a directory in
/// filesystem order, each converted to its full path and bare file name.
/// What comes back depends on the filesystem.
#[verifier::external_body]
pub(crate) fn read_dir_ext(path: &str) -> (r: Result<Vec<DirEntryItem>, String>) {
    match fs_err::read_dir(path) {
        Ok(rd) => rd
            .map(|entry| {
                entry
                    .map(|en| DirEntryItem {
                        path: en.path().to_string_lossy().into_owned(),
                        file_name: en.file_name().to_string_lossy().into_owned(),
                    })
                    .map_err(|e| format!("{e}"))
            })
            .collect(),
        Err(e) => Err(format!("{e}")),
    }
}

/// Relies on `fs_err::canonicalize`: the absolute, symlink-free, normalized
/// form of a path that exists; the result depends on the filesystem.
#[verifier::external_body]
pub(crate) fn canonicalize_ext(path: &str) -> (r: Result<String, String>) {
    match fs_err::canonicalize(path) {
        Ok(p) => Ok(p.to_string_lossy().into_owned()),
        Err(e) => Err(format!("{e}")),
    }
}

} // verus!
