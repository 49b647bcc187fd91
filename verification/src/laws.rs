//! What holds of the library as a whole, proved from the definitions that its
//! contracts use.

use vstd::prelude::*;

use crate::completion::completes_directories;
use crate::completion::completes_filenames;
use crate::completion::offers_repository_names;
use crate::completion::repository_candidate;
use crate::completion::repository_candidates;
use crate::completion::root_for;
use crate::completion::CompletionRootView;
use crate::completion::CompletionView;
use crate::error::ErrorView;
use crate::error::ResolveLoadErrorView;
use crate::label::parse_label;
use crate::label::LabelView;
use crate::path::is_plain;
use crate::path::path_file_name;
use crate::path::path_parent;
use crate::render::load_text;
use crate::render::relative_label_text;
use crate::render::same_directory;
use crate::resolve::folder_of_label;
use crate::resolve::knows_repository;
use crate::resolve::load_candidates;
use crate::resolve::load_resolution;
use crate::text::has_double_slash;
use crate::text::starts_with_char;
use crate::text::tail;
use crate::url::LspUrlView;
use crate::workspace::repository_names;
use crate::workspace::canonical_repository;
use crate::workspace::mapping_lookup;
use crate::workspace::WorkspaceView;

verus! {

/// A label without a package points into the directory of the current file,
/// whatever the workspace and whatever the names of repositories map
/// to: it is never read from the root of a workspace.
pub proof fn lemma_relative_label_stays_beside_current_file(
    name: Seq<char>,
    current_file: LspUrlView,
    workspace: Option<WorkspaceView>,
    mapping: Seq<(Seq<char>, Seq<char>)>,
)
    ensures
        folder_of_label(
            LabelView { repo: None, package: None, name },
            current_file,
            workspace,
            mapping,
        ) == (match current_file.file_path() {
            Some(path) => match path_parent(path) {
                Some(dir) => Ok::<Seq<char>, ResolveLoadErrorView>(dir),
                None => Err(
                    ResolveLoadErrorView::MissingCurrentFilePath(
                        LabelView { repo: None, package: None, name },
                    ),
                ),
            },
            None => Err(
                ResolveLoadErrorView::MissingCurrentFilePath(
                    LabelView { repo: None, package: None, name },
                ),
            ),
        }),
{
}

/// A file that lies beside the current file is written `:name`, and that
/// text, resolved from the same current file, leads back to the file if the
/// file exists. Neither step depends on the workspace.
///
/// The path of the file must be written plainly (see [`is_plain`]), and its
/// directory as that of the current file is: resolving gives a path below
/// the directory of the current file as that is written.
pub proof fn lemma_same_package_round_trip(
    target: Seq<char>,
    current: Seq<char>,
    render_workspace: Option<WorkspaceView>,
    workspace_root: Option<Seq<char>>,
    resolve_workspace: Option<WorkspaceView>,
    mapping: Seq<(Seq<char>, Seq<char>)>,
    answers: Seq<bool>,
)
    requires
        is_plain(target),
        path_parent(target) == path_parent(current),
        answers.len() > 0 && answers[0],
    ensures
        same_directory(target, current),
        path_file_name(target) matches Some(name) && load_text(
            LspUrlView::File(target),
            LspUrlView::File(current),
            render_workspace,
            workspace_root,
        ) == Ok::<Seq<char>, crate::error::RenderLoadErrorView>(relative_label_text(name))
            && load_resolution(
            relative_label_text(name),
            LspUrlView::File(current),
            resolve_workspace,
            mapping,
            answers,
        ) == Ok::<LspUrlView, ErrorView>(LspUrlView::File(target)),
{
    let name = path_file_name(target)->0;
    let text = relative_label_text(name);
    assert(text[0] == ':');
    assert(tail(text, 1) =~= name);
    let label = LabelView { repo: None, package: None, name };
    assert(parse_label(text) == Some(label));
    lemma_relative_label_stays_beside_current_file(
        name,
        LspUrlView::File(current),
        resolve_workspace,
        mapping,
    );
    let dir = path_parent(target)->0;
    let candidates = load_candidates(dir, name);
    assert(candidates[0] == target);
}

/// A label that names a repository which the workspace does not know under
/// the name it maps to is an error that names the label and the
/// repository as written. Whatever the current file is and whichever files
/// exist, it resolves to nothing: not to the root of the workspace, and not
/// to any file.
pub proof fn lemma_unknown_repository_is_rejected(
    text: Seq<char>,
    current_file: LspUrlView,
    workspace: Option<WorkspaceView>,
    mapping: Seq<(Seq<char>, Seq<char>)>,
    answers: Seq<bool>,
)
    requires
        parse_label(text) matches Some(label) && label.repo matches Some(repo) && !knows_repository(
            workspace,
            canonical_repository(mapping, repo),
        ),
    ensures
        parse_label(text) matches Some(label) && label.repo matches Some(repo) && folder_of_label(
            label,
            current_file,
            workspace,
            mapping,
        ) == Err::<Seq<char>, ResolveLoadErrorView>(
            ResolveLoadErrorView::UnknownRepository(label, repo),
        ) && load_resolution(text, current_file, workspace, mapping, answers) == Err::<
            LspUrlView,
            ErrorView,
        >(ErrorView::ResolveLoad(ResolveLoadErrorView::UnknownRepository(label, repo))),
{
}

/// A label resolves with the error of an unknown repository only if it names
/// a repository that the workspace does not know.
pub proof fn lemma_unknown_repository_only_if_unknown(
    label: LabelView,
    current_file: LspUrlView,
    workspace: Option<WorkspaceView>,
    mapping: Seq<(Seq<char>, Seq<char>)>,
)
    requires
        folder_of_label(label, current_file, workspace, mapping) matches Err(
            ResolveLoadErrorView::UnknownRepository(_, _),
        ),
    ensures
        label.repo matches Some(repo) && !knows_repository(
            workspace,
            canonical_repository(mapping, repo),
        ),
{
}

/// Text that is past the name of a repository, such as `@repo//`, is offered
/// no names of repositories, whatever the workspace holds.
pub proof fn lemma_past_repository_offers_no_names(
    text: Seq<char>,
    workspace: Option<WorkspaceView>,
    mapping: Option<Seq<(Seq<char>, Seq<char>)>>,
)
    requires
        starts_with_char(text, '@'),
        has_double_slash(text),
    ensures
        !offers_repository_names(text),
        repository_candidates(text, workspace, mapping) == Seq::<CompletionView>::empty(),
{
    let i = choose|i: int| 0 <= i && i + 1 < text.len() && #[trigger] text[i] == '/' && text[i + 1]
        == '/';
    assert(text.contains('/'));
    assert(text != seq!['@']) by {
        assert(seq!['@'].len() == 1);
    }
}

/// Where the build system cannot tell how repository names map, the
/// names that the workspace itself keeps are offered, each as a candidate;
/// without a workspace none is. Completion goes on either way.
pub proof fn lemma_mapping_failure_offers_kept_repositories(
    text: Seq<char>,
    workspace: Option<WorkspaceView>,
)
    requires
        offers_repository_names(text),
    ensures
        repository_candidates(text, workspace, None) == (match workspace {
            Some(ws) => repository_names(ws.repositories).map_values(
                |name: Seq<char>| repository_candidate(name),
            ),
            None => Seq::empty(),
        }),
{
    match workspace {
        Some(ws) => {},
        None => {
            assert(Seq::<Seq<char>>::empty().map_values(
                |name: Seq<char>| repository_candidate(name),
            ) =~= Seq::<CompletionView>::empty());
        },
    }
}

/// A name of a repository for which the mapping has no entry stands for
/// itself; so does every name where the mapping is empty.
pub proof fn lemma_unmapped_name_stands_for_itself(
    entries: Seq<(Seq<char>, Seq<char>)>,
    name: Seq<char>,
)
    ensures
        mapping_lookup(entries, name) is None ==> canonical_repository(entries, name) == name,
        canonical_repository(Seq::empty(), name) == name,
{
}

/// Where both directories and files are offered, the typed text is a bare
/// word: it holds neither `/` nor `:`, and the listing starts at the
/// directory of the document.
pub proof fn lemma_both_kinds_mean_bare_word(text: Seq<char>, document: LspUrlView)
    requires
        completes_directories(text),
        completes_filenames(text),
    ensures
        !text.contains('/'),
        !text.contains(':'),
        root_for(text, document) matches Some(root) ==> root is Path,
{
}

/// Where only directories or only files are offered, the listing starts at
/// typed text: the text up to and with its last `/` where directories are
/// offered, and up to and with its last `:` where files are.
pub proof fn lemma_one_kind_starts_at_typed_text(text: Seq<char>, document: LspUrlView)
    requires
        completes_directories(text) != completes_filenames(text),
    ensures
        root_for(text, document) matches Some(CompletionRootView::String(base)) && base.len() > 0
            && base.is_prefix_of(text) && base.last() == (if completes_directories(text) {
            '/'
        } else {
            ':'
        }),
{
    let separator = if completes_directories(text) {
        '/'
    } else {
        ':'
    };
    assert(text.contains(separator));
    text.index_of_last_ensures(separator);
}

} // verus!
