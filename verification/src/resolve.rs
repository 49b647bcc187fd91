//! From a label to the directory it points into, and from there to a file.

use vstd::prelude::*;

use crate::error::result_deep_view;
use crate::error::result_view;
use crate::error::Error;
use crate::error::ErrorView;
use crate::error::ResolveLoadError;
use crate::error::ResolveLoadErrorView;
use crate::file_type::build_file_names;
use crate::file_type::FileType;
use crate::label::parse_label;
use crate::label::Label;
use crate::label::LabelView;
use crate::path::join;
use crate::path::parent;
use crate::path::path_join;
use crate::path::path_parent;
use crate::url::LspUrl;
use crate::url::LspUrlView;
use crate::workspace::repository_path;
use crate::workspace::canonical_repository;
use crate::workspace::BazelWorkspace;
use crate::workspace::RepoMapping;
use crate::workspace::WorkspaceView;

verus! {

/// Whether resolving `label` asks how repository names map: it does
/// where the label names a repository and a workspace is known.
pub open spec fn asks_for_mapping(label: LabelView, workspace: Option<WorkspaceView>) -> bool {
    label.repo is Some && workspace is Some
}

/// Whether the workspace knows a repository under the name `canonical`: it
/// is the workspace's own name, or the workspace keeps a directory for it.
/// Without a workspace no repository is known.
pub open spec fn knows_repository(workspace: Option<WorkspaceView>, canonical: Seq<char>) -> bool {
    match workspace {
        Some(ws) => ws.workspace_name == Some(canonical) || repository_path(
            ws.repositories,
            canonical,
        ) is Some,
        None => false,
    }
}

/// The directory that the package of `label` is counted from, if there is
/// one.
///
/// A label without a repository starts at the repository that holds the
/// current file, else at the root of the workspace. A label with a repository
/// has its name mapped by `mapping`; the workspace's own name leads to
/// its root, any other name to the directory that the workspace keeps for
/// it, and a name that it does not keep is an error.
pub open spec fn root_of_label(
    label: LabelView,
    current_file: LspUrlView,
    workspace: Option<WorkspaceView>,
    mapping: Seq<(Seq<char>, Seq<char>)>,
) -> Result<Option<Seq<char>>, ResolveLoadErrorView> {
    match label.repo {
        None => match workspace {
            Some(ws) => match ws.repository_of_url(current_file) {
                Some(repository) => Ok(Some(repository.path)),
                None => Ok(Some(ws.root)),
            },
            None => Ok(None),
        },
        Some(repo) => match workspace {
            Some(ws) => {
                let canonical = canonical_repository(mapping, repo);
                if ws.workspace_name == Some(canonical) {
                    Ok(Some(ws.root))
                } else {
                    match repository_path(ws.repositories, canonical) {
                        Some(path) => Ok(Some(path)),
                        None => Err(ResolveLoadErrorView::UnknownRepository(label, repo)),
                    }
                }
            },
            None => Err(ResolveLoadErrorView::UnknownRepository(label, repo)),
        },
    }
}

/// The directory that `label` points into.
///
/// With a package it is the package below the root of the label, and there
/// must be such a root. Without a package it is the directory of the current
/// file, whatever the workspace, and the current file must be a file on disk
/// that lies in a directory.
pub open spec fn folder_of_label(
    label: LabelView,
    current_file: LspUrlView,
    workspace: Option<WorkspaceView>,
    mapping: Seq<(Seq<char>, Seq<char>)>,
) -> Result<Seq<char>, ResolveLoadErrorView> {
    match root_of_label(label, current_file, workspace, mapping) {
        Err(e) => Err(e),
        Ok(root) => match label.package {
            Some(package) => match root {
                Some(root) => Ok(path_join(root, package)),
                None => Err(ResolveLoadErrorView::MissingWorkspaceRoot(label)),
            },
            None => match current_file.file_path() {
                Some(path) => match path_parent(path) {
                    Some(dir) => Ok(dir),
                    None => Err(ResolveLoadErrorView::MissingCurrentFilePath(label)),
                },
                None => Err(ResolveLoadErrorView::MissingCurrentFilePath(label)),
            },
        },
    }
}

/// The files that a label with this name may stand for in `folder`, in the
/// order in which they are tried: the file of that name, then the build files.
pub open spec fn load_candidates(folder: Seq<char>, name: Seq<char>) -> Seq<Seq<char>> {
    seq![path_join(folder, name)] + build_file_names().map_values(
        |build_file: Seq<char>| path_join(folder, build_file),
    )
}

/// The first of `candidates` of which `answers` says that it exists.
/// `answers` may stop early: a candidate without an answer was not asked for.
pub open spec fn first_existing(candidates: Seq<Seq<char>>, answers: Seq<bool>) -> Option<Seq<char>>
    decreases candidates.len(),
{
    if candidates.len() == 0 || answers.len() == 0 {
        None
    } else if answers[0] {
        Some(candidates[0])
    } else {
        first_existing(candidates.drop_first(), answers.drop_first())
    }
}

/// The file that `text` resolves to, given which of its candidates exist.
pub open spec fn load_target(
    candidates: Seq<Seq<char>>,
    answers: Seq<bool>,
    text: Seq<char>,
) -> Result<LspUrlView, ResolveLoadErrorView> {
    match first_existing(candidates, answers) {
        Some(path) => Ok(LspUrlView::File(path)),
        None => Err(ResolveLoadErrorView::TargetNotFound(text)),
    }
}

/// The file that the text `text` of a `load` resolves to, given what the
/// collaborators answer: the workspace, how repository names map, and
/// which of the candidates exist.
///
/// A text that is no label is an error, and so is a label that points into no
/// directory. Otherwise the first candidate that exists is the file, and it
/// is an error if none does.
pub open spec fn load_resolution(
    text: Seq<char>,
    current_file: LspUrlView,
    workspace: Option<WorkspaceView>,
    mapping: Seq<(Seq<char>, Seq<char>)>,
    answers: Seq<bool>,
) -> Result<LspUrlView, ErrorView> {
    match parse_label(text) {
        None => Err(ErrorView::InvalidLabel(text)),
        Some(label) => match folder_of_label(label, current_file, workspace, mapping) {
            Err(e) => Err(ErrorView::ResolveLoad(e)),
            Ok(folder) => match load_target(load_candidates(folder, label.name), answers, text) {
                Ok(url) => Ok(url),
                Err(e) => Err(ErrorView::ResolveLoad(e)),
            },
        },
    }
}

/// Whether resolving `label` asks how repository names map.
pub fn needs_repo_mapping(label: &Label, workspace: Option<&BazelWorkspace>) -> (r: bool)
    ensures
        r == asks_for_mapping(label@, workspace.deep_view()),
{
    label.repo.is_some() && workspace.is_some()
}

/// The directory that the package of `label` is counted from, if there is one.
pub fn resolve_root(
    label: &Label,
    current_file: &LspUrl,
    workspace: Option<&BazelWorkspace>,
    mapping: &RepoMapping,
) -> (r: Result<Option<String>, ResolveLoadError>)
    ensures
        result_deep_view(r) == root_of_label(
            label@,
            current_file@,
            workspace.deep_view(),
            mapping@,
        ),
{
    match &label.repo {
        None => match workspace {
            Some(ws) => match ws.find_repository_for_lspurl(current_file) {
                Some(repository) => Ok(Some(repository.path.clone())),
                None => Ok(Some(ws.root.clone())),
            },
            None => Ok(None),
        },
        Some(repo) => match workspace {
            Some(ws) => {
                let canonical = mapping.canonical_name(repo.as_str());
                let is_workspace = match &ws.workspace_name {
                    Some(name) => *name == canonical,
                    None => false,
                };
                if is_workspace {
                    Ok(Some(ws.root.clone()))
                } else {
                    match ws.get_repository_path(canonical.as_str()) {
                        Some(path) => Ok(Some(path.to_owned())),
                        None => Err(
                            ResolveLoadError::UnknownRepository(label.clone(), repo.clone()),
                        ),
                    }
                }
            },
            None => Err(ResolveLoadError::UnknownRepository(label.clone(), repo.clone())),
        },
    }
}

/// The directory that `label` points into, given how repository names
/// map.
pub fn resolve_folder_with(
    label: &Label,
    current_file: &LspUrl,
    workspace: Option<&BazelWorkspace>,
    mapping: &RepoMapping,
) -> (r: Result<String, ResolveLoadError>)
    ensures
        result_view(r) == folder_of_label(label@, current_file@, workspace.deep_view(), mapping@),
{
    let root = match resolve_root(label, current_file, workspace, mapping) {
        Ok(root) => root,
        Err(e) => {
            return Err(e);
        },
    };
    match &label.package {
        Some(package) => match root {
            Some(root) => Ok(join(root.as_str(), package.as_str())),
            None => Err(ResolveLoadError::MissingWorkspaceRoot(label.clone())),
        },
        None => match current_file {
            LspUrl::File(path) => match parent(path.as_str()) {
                Some(dir) => Ok(dir),
                None => Err(ResolveLoadError::MissingCurrentFilePath(label.clone())),
            },
            _ => Err(ResolveLoadError::MissingCurrentFilePath(label.clone())),
        },
    }
}

/// The files that a label with this name may stand for in `folder`, in the
/// order in which they are tried.
pub fn candidates_for_load(folder: &str, name: &str) -> (candidates: Vec<String>)
    ensures
        candidates.deep_view() == load_candidates(folder@, name@),
{
    let names = FileType::build_file_names();
    let mut candidates: Vec<String> = Vec::new();
    candidates.push(join(folder, name));
    let n: usize = names.len();
    let mut i: usize = 0;
    assert(candidates.deep_view() =~= seq![path_join(folder@, name@)]);
    while i < n
        invariant
            i <= n,
            n == names@.len(),
            names.deep_view() == build_file_names(),
            candidates.deep_view() == load_candidates(folder@, name@).subrange(0, i + 1),
        decreases n - i,
    {
        let ghost before = candidates.deep_view();
        let candidate = join(folder, names[i].as_str());
        assert(names.deep_view()[i as int] == names[i as int]@);
        candidates.push(candidate);
        assert(candidates.deep_view() =~= before.push(path_join(folder@, names[i as int]@)));
        assert(candidates.deep_view() =~= load_candidates(folder@, name@).subrange(0, i + 2));
        i += 1;
    }
    assert(candidates.deep_view() =~= load_candidates(folder@, name@));
    candidates
}

/// The file that `text` resolves to: the first of `candidates` of which
/// `answers` says that it exists.
pub fn select_load_target(candidates: &Vec<String>, answers: &Vec<bool>, text: &str) -> (r: Result<
    LspUrl,
    ResolveLoadError,
>)
    ensures
        result_view(r) == load_target(candidates.deep_view(), answers@, text@),
{
    let ghost all = candidates.deep_view();
    let n: usize = if candidates.len() < answers.len() {
        candidates.len()
    } else {
        answers.len()
    };
    let mut i: usize = 0;
    assert(all.subrange(0, all.len() as int) =~= all);
    assert(answers@.subrange(0, answers@.len() as int) =~= answers@);
    while i < n
        invariant
            i <= n,
            n <= candidates@.len(),
            n <= answers@.len(),
            n == candidates@.len() || n == answers@.len(),
            all == candidates.deep_view(),
            first_existing(all, answers@) == first_existing(
                all.subrange(i as int, all.len() as int),
                answers@.subrange(i as int, answers@.len() as int),
            ),
        decreases n - i,
    {
        assert(all.subrange(i as int, all.len() as int).drop_first() =~= all.subrange(
            i + 1,
            all.len() as int,
        ));
        assert(answers@.subrange(i as int, answers@.len() as int).drop_first()
            =~= answers@.subrange(i + 1, answers@.len() as int));
        if answers[i] {
            return Ok(LspUrl::File(candidates[i].clone()));
        }
        i += 1;
    }
    Err(ResolveLoadError::TargetNotFound(text.to_owned()))
}

/// The file that the text `text` of a `load` resolves to, given what the
/// collaborators answer.
pub fn resolve_load_with(
    text: &str,
    current_file: &LspUrl,
    workspace: Option<&BazelWorkspace>,
    mapping: &RepoMapping,
    answers: &Vec<bool>,
) -> (r: Result<LspUrl, Error>)
    ensures
        result_view(r) == load_resolution(
            text@,
            current_file@,
            workspace.deep_view(),
            mapping@,
            answers@,
        ),
{
    let label = match Label::parse(text) {
        Ok(label) => label,
        Err(e) => {
            return Err(Error::InvalidLabel(e));
        },
    };
    let folder = match resolve_folder_with(&label, current_file, workspace, mapping) {
        Ok(folder) => folder,
        Err(e) => {
            return Err(Error::ResolveLoad(e));
        },
    };
    let candidates = candidates_for_load(folder.as_str(), label.name.as_str());
    match select_load_target(&candidates, answers, text) {
        Ok(url) => Ok(url),
        Err(e) => Err(Error::ResolveLoad(e)),
    }
}

} // verus!
