//! From a file back to the label that names it.

use vstd::prelude::*;

use crate::error::result_view;
use crate::error::RenderLoadError;
use crate::error::RenderLoadErrorView;
use crate::path::file_name;
use crate::path::is_same_path;
use crate::path::parent;
use crate::path::path_file_name;
use crate::path::path_parent;
use crate::path::path_relative_to;
use crate::path::relative_to;
use crate::path::same_path;
use crate::text::appended;
use crate::url::LspUrl;
use crate::url::LspUrlView;
use crate::workspace::repository_for_path;
use crate::workspace::BazelWorkspace;
use crate::workspace::WorkspaceView;

verus! {

/// The label of a file of this name in the package of the current file:
/// `:name`.
pub open spec fn relative_label_text(name: Seq<char>) -> Seq<char> {
    seq![':'] + name
}

/// The label `@repository//package:name`.
pub open spec fn absolute_label_text(
    repository: Seq<char>,
    package: Seq<char>,
    name: Seq<char>,
) -> Seq<char> {
    seq!['@'] + repository + seq!['/', '/'] + package + seq![':'] + name
}

/// Whether two files lie in the same directory.
pub open spec fn same_directory(a: Seq<char>, b: Seq<char>) -> bool {
    match (path_parent(a), path_parent(b)) {
        (Some(dir), Some(other)) => same_path(dir, other),
        _ => false,
    }
}

/// Where the file at `path` lies: the repository that holds it, if the
/// workspace knows one, and the path as seen from there. Without such a
/// repository the path is seen from `workspace_root` where it lies below it,
/// and is taken as it stands otherwise.
pub open spec fn place_of_file(
    path: Seq<char>,
    workspace: Option<WorkspaceView>,
    workspace_root: Option<Seq<char>>,
) -> (Option<Seq<char>>, Seq<char>) {
    let in_repository = match workspace {
        Some(ws) => repository_for_path(ws.repositories, path),
        None => None,
    };
    match in_repository {
        Some((name, rest)) => (Some(name), rest),
        None => {
            let below_root = match workspace_root {
                Some(root) => path_relative_to(path, root),
                None => None,
            };
            match below_root {
                Some(rest) => (None, rest),
                None => (None, path),
            }
        },
    }
}

/// The label by which the file `current_file` names the file `target`.
///
/// Both must be files on disk. A file in the directory of the current file is
/// written `:name`. Any other file is written in full, with the repository
/// and the package that [`place_of_file`] finds; the repository is left empty
/// where there is none. A path that ends in no file name cannot be written.
pub open spec fn load_text(
    target: LspUrlView,
    current_file: LspUrlView,
    workspace: Option<WorkspaceView>,
    workspace_root: Option<Seq<char>>,
) -> Result<Seq<char>, RenderLoadErrorView> {
    match (target, current_file) {
        (LspUrlView::File(target_path), LspUrlView::File(current_path)) => {
            if same_directory(target_path, current_path) {
                match path_file_name(target_path) {
                    Some(name) => Ok(relative_label_text(name)),
                    None => Err(RenderLoadErrorView::MissingTargetFilename(target_path)),
                }
            } else {
                let (repository, rest) = place_of_file(target_path, workspace, workspace_root);
                match path_file_name(rest) {
                    Some(name) => Ok(
                        absolute_label_text(
                            match repository {
                                Some(repository) => repository,
                                None => Seq::empty(),
                            },
                            match path_parent(rest) {
                                Some(package) => package,
                                None => Seq::empty(),
                            },
                            name,
                        ),
                    ),
                    None => Err(RenderLoadErrorView::MissingTargetFilename(rest)),
                }
            }
        },
        _ => Err(RenderLoadErrorView::WrongScheme("file://"@, target, current_file)),
    }
}

/// Where the file at `path` lies: the repository that holds it, if any, and
/// the path as seen from there or from the workspace root.
pub fn locate_file(
    path: &str,
    workspace: Option<&BazelWorkspace>,
    workspace_root: Option<&str>,
) -> (r: (Option<String>, String))
    ensures
        (r.0.deep_view(), r.1@) == place_of_file(
            path@,
            workspace.deep_view(),
            workspace_root.deep_view(),
        ),
{
    let in_repository = match workspace {
        Some(ws) => ws.get_repository_for_path(path),
        None => None,
    };
    match in_repository {
        Some((name, rest)) => (Some(name), rest),
        None => {
            let below_root = match workspace_root {
                Some(root) => relative_to(path, root),
                None => None,
            };
            match below_root {
                Some(rest) => (None, rest),
                None => (None, path.to_owned()),
            }
        },
    }
}

/// The text `@repository//package:name`.
pub fn absolute_label(repository: &str, package: &str, name: &str) -> (text: String)
    ensures
        text@ == absolute_label_text(repository@, package@, name@),
{
    proof {
        reveal_strlit("@");
        reveal_strlit("//");
        reveal_strlit(":");
    }
    let mut text = appended("@", repository);
    text.append("//");
    text.append(package);
    text.append(":");
    text.append(name);
    assert(text@ =~= absolute_label_text(repository@, package@, name@));
    text
}

/// The text `:name`.
pub fn relative_label(name: &str) -> (text: String)
    ensures
        text@ == relative_label_text(name@),
{
    proof {
        reveal_strlit(":");
    }
    let text = appended(":", name);
    assert(text@ =~= relative_label_text(name@));
    text
}

/// The label by which the file `current_file` names the file `target`, given
/// what is known of the workspace.
pub fn render_as_load_with(
    target: &LspUrl,
    current_file: &LspUrl,
    workspace: Option<&BazelWorkspace>,
    workspace_root: Option<&str>,
) -> (r: Result<String, RenderLoadError>)
    ensures
        result_view(r) == load_text(
            target@,
            current_file@,
            workspace.deep_view(),
            workspace_root.deep_view(),
        ),
{
    match (target, current_file) {
        (LspUrl::File(target_path), LspUrl::File(current_path)) => {
            let target_dir = parent(target_path.as_str());
            let current_dir = parent(current_path.as_str());
            let beside = match (&target_dir, &current_dir) {
                (Some(a), Some(b)) => is_same_path(a.as_str(), b.as_str()),
                _ => false,
            };
            if beside {
                match file_name(target_path.as_str()) {
                    Some(name) => Ok(relative_label(name.as_str())),
                    None => Err(RenderLoadError::MissingTargetFilename(target_path.clone())),
                }
            } else {
                let (repository, rest) = locate_file(
                    target_path.as_str(),
                    workspace,
                    workspace_root,
                );
                match file_name(rest.as_str()) {
                    Some(name) => {
                        let repository = match repository {
                            Some(repository) => repository,
                            None => String::new(),
                        };
                        let package = match parent(rest.as_str()) {
                            Some(package) => package,
                            None => String::new(),
                        };
                        Ok(absolute_label(repository.as_str(), package.as_str(), name.as_str()))
                    },
                    None => Err(RenderLoadError::MissingTargetFilename(rest)),
                }
            }
        },
        _ => Err(
            RenderLoadError::WrongScheme(
                "file://".to_owned(),
                target.clone(),
                current_file.clone(),
            ),
        ),
    }
}

} // verus!
