//! What kind of file a name stands for.

use vstd::prelude::*;

use crate::path::file_name;
use crate::path::path_file_name;
use crate::text::chars_of;
use crate::text::same_text;
use crate::text::tail;
use crate::url::LspUrl;
use crate::url::LspUrlView;

verus! {

/// The kinds of file that the library tells apart.
#[derive(Clone, Copy, Debug, PartialEq, Eq, Structural)]
pub enum FileType {
    /// A build file: it declares the targets of its package.
    Build,
    /// A file that other files can load.
    Library,
    /// Any other file.
    Unknown,
}

/// The names under which a build file is looked for, in the order in which
/// they are tried.
pub open spec fn build_file_names() -> Seq<Seq<char>> {
    seq!["BUILD"@, "BUILD.bazel"@]
}

/// Whether a file of this name is a build file.
pub open spec fn is_build_file_name(name: Seq<char>) -> bool {
    name == "BUILD"@ || name == "BUILD.bazel"@
}

/// Whether a file of this name can be loaded: the name ends in `.bzl` and
/// has something before it.
pub open spec fn is_library_file_name(name: Seq<char>) -> bool {
    name.len() > 4 && tail(name, name.len() - 4) == seq!['.', 'b', 'z', 'l']
}

/// Whether a file of this name marks the root of a workspace.
pub open spec fn is_workspace_file_name(name: Seq<char>) -> bool {
    name == "WORKSPACE"@ || name == "WORKSPACE.bazel"@
}

/// The kind of a file, by its name.
pub open spec fn file_type_of_name(name: Seq<char>) -> FileType {
    if is_build_file_name(name) {
        FileType::Build
    } else if is_library_file_name(name) {
        FileType::Library
    } else {
        FileType::Unknown
    }
}

/// The kind of the file at `path`.
pub open spec fn file_type_of_path(path: Seq<char>) -> FileType {
    match path_file_name(path) {
        Some(name) => file_type_of_name(name),
        None => FileType::Unknown,
    }
}

/// The kind of the document at `url`; only files on disk have one.
pub open spec fn file_type_of_url(url: LspUrlView) -> FileType {
    match url {
        LspUrlView::File(path) => file_type_of_path(path),
        _ => FileType::Unknown,
    }
}

/// Whether `url` names a workspace file on disk.
pub open spec fn is_workspace_url(url: LspUrlView) -> bool {
    match url {
        LspUrlView::File(path) => match path_file_name(path) {
            Some(name) => is_workspace_file_name(name),
            None => false,
        },
        _ => false,
    }
}

/// Whether a lint of this short name is reported for a file: the lint about
/// a misplaced `load` is left out in workspace files, every other lint is
/// kept.
pub open spec fn keeps_lint(in_workspace_file: bool, short_name: Seq<char>) -> bool {
    !(in_workspace_file && short_name == "misplaced-load"@)
}

impl FileType {
    /// The names under which a build file is looked for, in the order in
    /// which they are tried.
    pub fn build_file_names() -> (names: Vec<String>)
        ensures
            names.deep_view() == build_file_names(),
    {
        let mut names: Vec<String> = Vec::new();
        names.push("BUILD".to_owned());
        names.push("BUILD.bazel".to_owned());
        assert(names.deep_view() =~= build_file_names());
        names
    }

    /// The kind of a file, by its name.
    pub fn from_file_name(name: &str) -> (kind: FileType)
        ensures
            kind == file_type_of_name(name@),
    {
        if same_text(name, "BUILD") || same_text(name, "BUILD.bazel") {
            return FileType::Build;
        }
        let chars = chars_of(name);
        let n: usize = chars.len();
        if n > 4 && chars[n - 4] == '.' && chars[n - 3] == 'b' && chars[n - 2] == 'z' && chars[n
            - 1] == 'l' {
            assert(tail(name@, n - 4) =~= seq!['.', 'b', 'z', 'l']);
            FileType::Library
        } else {
            proof {
                if n > 4 {
                    let ending = tail(name@, n - 4);
                    assert(ending[0] == name@[n - 4] && ending[1] == name@[n - 3] && ending[2]
                        == name@[n - 2] && ending[3] == name@[n - 1]);
                }
            }
            FileType::Unknown
        }
    }

    /// The kind of the file at `path`.
    pub fn from_path(path: &str) -> (kind: FileType)
        ensures
            kind == file_type_of_path(path@),
    {
        match file_name(path) {
            Some(name) => FileType::from_file_name(name.as_str()),
            None => FileType::Unknown,
        }
    }

    /// The kind of the document at `url`.
    pub fn from_lsp_url(url: &LspUrl) -> (kind: FileType)
        ensures
            kind == file_type_of_url(url@),
    {
        match url {
            LspUrl::File(path) => FileType::from_path(path.as_str()),
            _ => FileType::Unknown,
        }
    }
}

/// Whether `uri` names a workspace file on disk.
pub fn is_workspace_file(uri: &LspUrl) -> (r: bool)
    ensures
        r == is_workspace_url(uri@),
{
    match uri {
        LspUrl::File(path) => match file_name(path.as_str()) {
            Some(name) => same_text(name.as_str(), "WORKSPACE") || same_text(
                name.as_str(),
                "WORKSPACE.bazel",
            ),
            None => false,
        },
        LspUrl::Starlark(_) => false,
        LspUrl::Other(_) => false,
    }
}

/// Whether a lint of this short name is reported for the file at `uri`.
pub fn is_lint_reported(uri: &LspUrl, short_name: &str) -> (r: bool)
    ensures
        r == keeps_lint(is_workspace_url(uri@), short_name@),
{
    !(is_workspace_file(uri) && same_text(short_name, "misplaced-load"))
}

} // verus!
