//! The engine: it asks the collaborators and hands their answers to the
//! functions that decide.

use vstd::prelude::*;

use crate::client::contents_from_read;
use crate::client::load_contents;
use crate::client::mapping_from_answer;
use crate::client::mapping_if_answered;
use crate::client::mapping_if_told;
use crate::client::mapping_of_answer;
use crate::client::marked_workspace_dir;
use crate::client::workspace_dir_from_marker;
use crate::client::pattern_for_targets;
use crate::client::targets_from_answer;
use crate::client::targets_of_answer;
use crate::client::BazelClient;
use crate::client::FileSystem;
use crate::completion::classify;
use crate::completion::completion_root;
use crate::completion::filesystem_options;
use crate::completion::is_listed;
use crate::completion::is_listing;
use crate::completion::is_listing_for;
use crate::completion::lemma_listing_names_no_repository;
use crate::completion::listing_candidates;
use crate::completion::offers_repository_names;
use crate::completion::push_entry_completions;
use crate::completion::repository_candidates;
use crate::completion::repository_completions;
use crate::completion::root_for;
use crate::completion::wants_targets;
use crate::completion::CompletionRootView;
use crate::completion::CompletionView;
use crate::completion::DirEntry;
use crate::completion::DirEntryView;
use crate::completion::FilesystemCompletionOptions;
use crate::completion::FilesystemCompletionRoot;
use crate::completion::StringCompletionResult;
use crate::completion::StringCompletionType;
use crate::error::result_deep_view;
use crate::error::result_view;
use crate::error::ContextError;
use crate::error::Error;
use crate::error::ErrorView;
use crate::error::FsErrorView;
use crate::error::ResolveLoadError;
use crate::label::parse_label;
use crate::label::Label;
use crate::path::ancestors;
use crate::path::file_name;
use crate::path::is_absolute;
use crate::path::is_same_path;
use crate::path::join;
use crate::path::path_ancestors;
use crate::path::path_file_name;
use crate::path::path_join;
use crate::path::same_path;
use crate::render::load_text;
use crate::render::render_as_load_with;
use crate::resolve::asks_for_mapping;
use crate::resolve::candidates_for_load;
use crate::laws::lemma_unknown_repository_is_rejected;
use crate::resolve::folder_of_label;
use crate::resolve::knows_repository;
use crate::resolve::load_resolution;
use crate::resolve::needs_repo_mapping;
use crate::resolve::resolve_folder_with;
use crate::resolve::select_load_target;
use crate::text::same_text;
use crate::url::LspUrl;
use crate::url::LspUrlView;
use crate::error::ResolveLoadErrorView;
use crate::workspace::canonical_repository;
use crate::workspace::BazelWorkspace;
use crate::workspace::RepoMapping;
use crate::workspace::WorkspaceView;

verus! {

/// The name of the file that marks a directory as standing for a workspace
/// elsewhere; the file holds the path of that workspace.
pub open spec fn workspace_marker() -> Seq<char> {
    "DO_NOT_BUILD_HERE"@
}

/// Where the marker file of the directory `dir` would lie.
pub fn workspace_marker_in(dir: &str) -> (path: String)
    ensures
        path@ == path_join(dir@, workspace_marker()),
{
    join(dir, "DO_NOT_BUILD_HERE")
}

/// The name of the repository whose way of writing names is asked for on
/// behalf of `current_file`: the repository that holds the file, and the one
/// with the empty name for a file that lies in none.
pub open spec fn repository_asking(workspace: WorkspaceView, current_file: LspUrlView) -> Seq<
    char,
> {
    match workspace.repository_name_of_url(current_file) {
        Some(name) => name,
        None => Seq::empty(),
    }
}

/// The name of the repository whose way of writing names is asked for on
/// behalf of `current_file`.
pub fn repository_to_ask(workspace: &BazelWorkspace, current_file: &LspUrl) -> (name: String)
    ensures
        name@ == repository_asking(workspace@, current_file@),
{
    match workspace.get_repository_for_lspurl(current_file) {
        Some(name) => name,
        None => String::new(),
    }
}

/// The directory that a listing starts at: the path where the root is one,
/// and else the directory that the typed text points into as a label, given
/// how repository names map.
pub open spec fn folder_of_root(
    from: CompletionRootView,
    current_file: LspUrlView,
    workspace: Option<WorkspaceView>,
    mapping: Seq<(Seq<char>, Seq<char>)>,
) -> Result<Seq<char>, ErrorView> {
    match from {
        CompletionRootView::Path(path) => Ok(path),
        CompletionRootView::String(text) => match parse_label(text) {
            None => Err(ErrorView::InvalidLabel(text)),
            Some(label) => match folder_of_label(label, current_file, workspace, mapping) {
                Ok(folder) => Ok(folder),
                Err(e) => Err(ErrorView::ResolveLoad(e)),
            },
        },
    }
}

/// Whether completing the typed text asks the file system: it does for a
/// listing, and for the markers of a workspace where no root is given and the
/// document is a file on disk.
pub open spec fn asks_file_system(
    text: Seq<char>,
    document: LspUrlView,
    workspace_root: Option<Seq<char>>,
) -> bool {
    root_for(text, document) is Some || (workspace_root is None && document is File)
}

/// The directory that is listed for the typed text, if the text asks for a
/// listing.
pub open spec fn listing_folder(
    text: Seq<char>,
    document: LspUrlView,
    workspace: Option<WorkspaceView>,
    mapping: Seq<(Seq<char>, Seq<char>)>,
) -> Result<Option<Seq<char>>, ErrorView> {
    match root_for(text, document) {
        Some(root) => match folder_of_root(root, document, workspace, mapping) {
            Ok(folder) => Ok(Some(folder)),
            Err(e) => Err(e),
        },
        None => Ok(None),
    }
}

/// The workspace that is kept under `dir` among `cached`: the one that was
/// asked for by a directory that names the same place.
pub open spec fn kept_under(cached: Seq<(Seq<char>, WorkspaceView)>, dir: Seq<char>) -> Option<
    WorkspaceView,
>
    decreases cached.len(),
{
    if cached.len() == 0 {
        None
    } else if same_path(cached.last().0, dir) {
        Some(cached.last().1)
    } else {
        kept_under(cached.drop_last(), dir)
    }
}

/// One workspace that was asked for, under the directory it was asked by.
struct CachedWorkspace {
    dir: String,
    workspace: BazelWorkspace,
}

/// What a string in a build file points at.
#[derive(Debug, PartialEq, Eq)]
pub struct StringLiteralResult {
    /// The file that the string resolves to.
    pub url: LspUrl,
    /// The name of the target to look for in that file, where the string
    /// names a target and not the file itself.
    pub target_name: Option<String>,
}

/// The name of the target to look for in the file at `url`, which the text
/// `literal` resolved to: none where both end in the same file name, so that
/// the text names the file itself, and none where the text is no label.
pub open spec fn target_to_find(literal: Seq<char>, url: LspUrlView) -> Option<Seq<char>> {
    if path_file_name(literal) == path_file_name(url.path()) {
        None
    } else {
        match parse_label(literal) {
            Some(label) => Some(label.name),
            None => None,
        }
    }
}

/// The name of the target to look for in the file at `url`, which the text
/// `literal` resolved to.
pub fn target_name_to_find(literal: &str, url: &LspUrl) -> (name: Option<String>)
    ensures
        name.deep_view() == target_to_find(literal@, url@),
{
    let written = file_name(literal);
    let found = file_name(url.path());
    let same = match (&written, &found) {
        (Some(a), Some(b)) => same_text(a.as_str(), b.as_str()),
        (None, None) => true,
        _ => false,
    };
    if same {
        None
    } else {
        match Label::parse(literal) {
            Ok(label) => Some(label.name),
            Err(_) => None,
        }
    }
}

/// The typed text that stays in front of what a listing inserts, where the
/// text asks for a listing.
spec fn root_for_listing(text: Seq<char>, document: LspUrlView) -> Option<Seq<char>> {
    match root_for(text, document) {
        Some(root) => Some(root.render_base()),
        None => None,
    }
}

/// The engine, with its two collaborators and the workspaces it has asked
/// about so far. A workspace that was asked about once is kept as it was
/// then.
pub struct BazelContext<Client, Files> {
    workspaces: Vec<CachedWorkspace>,
    query_output_base: Option<String>,
    client: Client,
    files: Files,
}

impl<Client, Files> BazelContext<Client, Files> {
    /// No place is kept twice: no two of the directories name the same place.
    #[verifier::type_invariant]
    spec fn no_directory_twice(&self) -> bool {
        forall|i: int, j: int|
            0 <= i < j < self.workspaces@.len() ==> !same_path(
                (#[trigger] self.workspaces@[i]).dir@,
                (#[trigger] self.workspaces@[j]).dir@,
            )
    }
}

impl<Client: BazelClient, Files: FileSystem> BazelContext<Client, Files> {
    /// The workspaces that are kept, each with the directory it was asked
    /// by, in the order in which they came.
    pub closed spec fn cached(&self) -> Seq<(Seq<char>, WorkspaceView)> {
        Seq::new(
            self.workspaces@.len(),
            |i: int| (self.workspaces@[i].dir@, self.workspaces@[i].workspace@),
        )
    }

    /// The directory that takes the place of the build system's own output
    /// base in every workspace, if one was named.
    pub closed spec fn output_base(&self) -> Option<Seq<char>> {
        self.query_output_base.deep_view()
    }

    /// The build system that the engine asks.
    pub closed spec fn asked_client(&self) -> Client {
        self.client
    }

    /// The file system that the engine asks.
    pub closed spec fn asked_files(&self) -> Files {
        self.files
    }

    /// The build system that the engine asks.
    pub fn client(&self) -> (client: &Client)
        ensures
            *client == self.asked_client(),
    {
        &self.client
    }

    /// The file system that the engine asks.
    pub fn files(&self) -> (files: &Files)
        ensures
            *files == self.asked_files(),
    {
        &self.files
    }

    /// Whether `workspace`, if it is one, is among those kept.
    pub open spec fn holds(&self, workspace: Option<WorkspaceView>) -> bool {
        workspace matches Some(ws) ==> exists|i: int|
            0 <= i < self.cached().len() && (#[trigger] self.cached()[i]).1 == ws
    }

    /// The workspace that is kept under `dir`, if one is.
    pub open spec fn workspace_kept(&self, dir: Seq<char>) -> Option<WorkspaceView> {
        kept_under(self.cached(), dir)
    }

    /// The workspace that is kept at the position `index`, if that is one
    /// and one is kept there.
    pub open spec fn kept_at(&self, index: Option<usize>) -> Option<WorkspaceView> {
        match index {
            Some(i) => if i < self.cached().len() {
                Some(self.cached()[i as int].1)
            } else {
                None
            },
            None => None,
        }
    }

    /// The workspace that is kept under the root, if there is a root and one
    /// is kept under it.
    pub open spec fn workspace_in_sight(&self, workspace_root: Option<Seq<char>>) -> Option<
        WorkspaceView,
    > {
        match workspace_root {
            Some(dir) => self.workspace_kept(dir),
            None => None,
        }
    }

    /// Whether a collaborator is asked when the workspace for `current_file`
    /// is looked for. With a root, the build system is asked unless a
    /// workspace is kept under the root. Without one, the file system is asked
    /// for markers if the document is a file on disk, and nobody otherwise.
    pub open spec fn asks_for_workspace(
        &self,
        workspace_root: Option<Seq<char>>,
        current_file: LspUrlView,
    ) -> bool {
        match workspace_root {
            Some(dir) => self.workspace_kept(dir) is None,
            None => current_file is File,
        }
    }

    /// Whether `workspace` is the one that a request with this root and this
    /// document works with, once the workspace has been looked for. With a
    /// root it is the workspace kept under the root, and none if none is kept
    /// there. Without a root it is none for a document that is no file on
    /// disk, and for a file it is one of those kept or none, as the markers
    /// on disk say.
    pub open spec fn governs(
        &self,
        workspace_root: Option<Seq<char>>,
        current_file: LspUrlView,
        workspace: Option<WorkspaceView>,
    ) -> bool {
        match workspace_root {
            Some(dir) => workspace == self.workspace_kept(dir),
            None => if current_file is File {
                self.holds(workspace)
            } else {
                workspace is None
            },
        }
    }

    /// An engine that has asked about no workspace yet.
    pub fn new(client: Client, files: Files, query_output_base: Option<String>) -> (r: Result<
        Self,
        Error,
    >)
        ensures
            r matches Ok(context) && context.cached().len() == 0
                && context.output_base() == query_output_base.deep_view()
                && context.asked_client() == client && context.asked_files() == files,
    {
        Ok(BazelContext { workspaces: Vec::new(), query_output_base, client, files })
    }

    /// The workspace that is kept at position `index`, if one is.
    pub fn workspace_at(&self, index: usize) -> (workspace: Option<&BazelWorkspace>)
        ensures
            self.holds(workspace.deep_view()),
            workspace.deep_view() == self.kept_at(Some(index)),
    {
        if index < self.workspaces.len() {
            let workspace = &self.workspaces[index].workspace;
            assert(self.cached()[index as int].1 == workspace@);
            Some(workspace)
        } else {
            None
        }
    }

    /// The workspace that is kept at the position `index`, if that is one
    /// and one is kept there.
    pub fn workspace_if_any(&self, index: Option<usize>) -> (workspace: Option<&BazelWorkspace>)
        ensures
            self.holds(workspace.deep_view()),
            workspace.deep_view() == self.kept_at(index),
    {
        match index {
            Some(i) => self.workspace_at(i),
            None => None,
        }
    }

    /// The position at which the workspace kept under `dir` stands.
    fn find_cached(&self, dir: &str) -> (r: Option<usize>)
        ensures
            match r {
                Some(i) => i < self.cached().len() && self.workspace_kept(dir@) == Some(
                    self.cached()[i as int].1,
                ),
                None => self.workspace_kept(dir@) is None && forall|i: int|
                    0 <= i < self.cached().len() ==> !same_path(
                        (#[trigger] self.cached()[i]).0,
                        dir@,
                    ),
            },
    {
        let ghost cached = self.cached();
        let n: usize = self.workspaces.len();
        let mut i: usize = n;
        assert(cached.subrange(0, n as int) =~= cached);
        while i > 0
            invariant
                i <= n,
                n == self.workspaces@.len(),
                cached == self.cached(),
                kept_under(cached, dir@) == kept_under(cached.subrange(0, i as int), dir@),
                forall|j: int| i <= j < n ==> !same_path((#[trigger] cached[j]).0, dir@),
            decreases i,
        {
            i -= 1;
            assert(cached.subrange(0, i + 1).drop_last() =~= cached.subrange(0, i as int));
            assert(cached.subrange(0, i + 1).last() == cached[i as int]);
            if is_same_path(self.workspaces[i].dir.as_str(), dir) {
                return Some(i);
            }
        }
        None
    }

    /// The directory of the workspace that governs `current_file`, as far as
    /// the file system tells: the nearest directory above the file that holds
    /// a marker file names it, in that file. A document that is no file on
    /// disk is governed by none.
    ///
    /// The markers of the directories above the file are asked for from the
    /// nearest on, and the first that exists is read. Whatever the file
    /// system answers, the result is what [`marked_workspace_dir`] says for
    /// those answers.
    pub fn infer_workspace_dir(&self, current_file: &LspUrl) -> (r: Result<Option<String>, Error>)
        ensures
            !(current_file@ is File) ==> r matches Ok(None),
            current_file@ matches LspUrlView::File(path) ==> exists|
                answers: Seq<bool>,
                read: Result<Seq<char>, FsErrorView>,
            |
                answers.len() <= path_ancestors(path).len() && result_deep_view(r)
                    == #[trigger] marked_workspace_dir(answers, read),
    {
        match current_file {
            LspUrl::File(path) => {
                let dirs = ancestors(path.as_str());
                let ghost mut answers: Seq<bool> = Seq::empty();
                let n: usize = dirs.len();
                let mut i: usize = 0;
                while i < n
                    invariant
                        i <= n,
                        n == dirs@.len(),
                        dirs.deep_view() == path_ancestors(path@),
                        current_file@ == LspUrlView::File(path@),
                        answers.len() == i,
                        !answers.contains(true),
                    decreases n - i,
                {
                    let marker = workspace_marker_in(dirs[i].as_str());
                    let found = self.files.path_exists(marker.as_str());
                    if found {
                        let read = self.files.read_to_string(marker.as_str());
                        let ghost answer = result_view(read);
                        let r = workspace_dir_from_marker(read);
                        proof {
                            let asked = answers.push(true);
                            assert(asked[i as int]);
                            assert(result_deep_view(r) == marked_workspace_dir(asked, answer));
                        }
                        return r;
                    }
                    proof {
                        let asked = answers.push(false);
                        assert forall|j: int| 0 <= j < asked.len() implies !asked[j] by {
                            if j < i {
                                assert(answers.contains(answers[j]));
                            }
                        }
                        answers = asked;
                    }
                    i += 1;
                }
                let r = Ok(None);
                assert(result_deep_view(r) == marked_workspace_dir(answers, Ok(Seq::empty())));
                r
            },
            _ => Ok(None),
        }
    }

    /// The workspace that governs `current_file`: the position at which it is
    /// kept. The workspace is asked for by `workspace_dir`, or else by the
    /// directory that [`Self::infer_workspace_dir`] finds. One that was asked
    /// for before is not asked for again; a new one is asked of the build
    /// system and kept.
    pub fn workspace(&mut self, workspace_dir: Option<&str>, current_file: &LspUrl) -> (r: Result<
        Option<usize>,
        Error,
    >)
        ensures
            final(self).output_base() == old(self).output_base(),
            old(self).cached().is_prefix_of(final(self).cached()),
            final(self).cached().len() <= old(self).cached().len() + 1,
            !old(self).asks_for_workspace(workspace_dir.deep_view(), current_file@) ==> r is Ok
                && final(self).cached() == old(self).cached(),
            match r {
                Ok(index) => {
                    &&& final(self).governs(
                        workspace_dir.deep_view(),
                        current_file@,
                        final(self).kept_at(index),
                    )
                    &&& index matches Some(i) ==> i < final(self).cached().len()
                    &&& index is None ==> workspace_dir is None
                    &&& index is None ==> final(self).cached() == old(self).cached()
                },
                Err(e) => {
                    &&& e@.is_collaborator_failure()
                    &&& final(self).cached() == old(self).cached()
                },
            },
            r matches Err(e) ==> e@ is Client || (e@ is FileSystem && workspace_dir is None
                && current_file@ is File),
            final(self).cached().len() > old(self).cached().len() && final(self).output_base()
                is Some ==> final(self).cached().last().1.output_base == final(self).output_base(),
    {
        let inferred: Option<String> = match workspace_dir {
            Some(_) => None,
            None => match self.infer_workspace_dir(current_file) {
                Ok(dir) => dir,
                Err(e) => {
                    return Err(e);
                },
            },
        };
        let dir: &str = match workspace_dir {
            Some(dir) => dir,
            None => match &inferred {
                Some(dir) => dir.as_str(),
                None => {
                    return Ok(None);
                },
            },
        };
        match self.find_cached(dir) {
            Some(i) => {
                assert(self.cached()[i as int].1 == self.kept_at(Some(i))->0);
                Ok(Some(i))
            },
            None => {
                let info = match self.client.info(dir) {
                    Ok(info) => info,
                    Err(e) => {
                        return Err(Error::Client(e));
                    },
                };
                let base: Option<&str> = match &self.query_output_base {
                    Some(base) => Some(base.as_str()),
                    None => None,
                };
                let workspace = BazelWorkspace::from_bazel_info(info, base);
                let ghost before = self.cached();
                let ghost added = (dir@, workspace@);
                proof {
                    use_type_invariant(&*self);
                }
                let mut kept: Vec<CachedWorkspace> = Vec::new();
                core::mem::swap(&mut self.workspaces, &mut kept);
                kept.push(CachedWorkspace { dir: dir.to_owned(), workspace });
                let index: usize = kept.len() - 1;
                assert forall|i: int, j: int| 0 <= i < j < kept@.len() implies !same_path(
                    (#[trigger] kept@[i]).dir@,
                    (#[trigger] kept@[j]).dir@,
                ) by {
                    if j < index {
                    } else {
                        assert(!same_path(before[i].0, dir@));
                    }
                }
                core::mem::swap(&mut self.workspaces, &mut kept);
                assert(self.cached() =~= before.push(added));
                assert(before =~= self.cached().subrange(0, before.len() as int));
                assert(self.cached().last() == added);
                assert(self.workspace_kept(dir@) == Some(added.1));
                assert(self.cached()[index as int] == added);
                Ok(Some(index))
            },
        }
    }

    /// How the repository that holds `current_file` writes the names of the
    /// others, as the build system tells it when asked for the repository
    /// that [`repository_to_ask`] names. A failure of the build system is no
    /// error: it gives the empty mapping, in which every name stands for
    /// itself. Whatever the build system answers, the result is what
    /// [`mapping_from_answer`] makes of the answer.
    pub fn repo_mapping_for_file(&self, workspace: &BazelWorkspace, current_file: &LspUrl) -> (r:
        Result<RepoMapping, Error>)
        ensures
            r matches Ok(mapping) && exists|
                answer: Result<Seq<(Seq<char>, Seq<char>)>, Seq<char>>,
            |
                mapping@ == #[trigger] mapping_of_answer(answer),
    {
        let current_repository = repository_to_ask(workspace, current_file);
        let answer = self.client.dump_repo_mapping(workspace, current_repository.as_str());
        let ghost answered = result_view(answer);
        let mapping = mapping_from_answer(answer);
        assert(mapping@ == mapping_of_answer(answered));
        Ok(mapping)
    }

    /// The same for a caller that tells a failure from an empty mapping: the
    /// build system is asked the same question, and where it fails, or there
    /// is no workspace to ask about, the result is `None`. Whatever the build
    /// system answers, the result is what [`mapping_if_answered`] makes of
    /// the answer.
    pub fn repo_mapping_if_any(
        &self,
        workspace: Option<&BazelWorkspace>,
        current_file: &LspUrl,
    ) -> (r: Option<RepoMapping>)
        ensures
            workspace is None ==> r is None,
            exists|answer: Result<Seq<(Seq<char>, Seq<char>)>, Seq<char>>|
                r.deep_view() == #[trigger] mapping_if_told(answer),
    {
        match workspace {
            Some(ws) => {
                let current_repository = repository_to_ask(ws, current_file);
                let answer = self.client.dump_repo_mapping(ws, current_repository.as_str());
                let ghost answered = result_view(answer);
                let r = mapping_if_answered(answer);
                assert(r.deep_view() == mapping_if_told(answered));
                r
            },
            None => {
                assert(mapping_if_told(Err(Seq::empty())) is None);
                None
            },
        }
    }

    /// The directory that `label` points into.
    ///
    /// How repository names map is asked of the build system only for
    /// a label with a repository in a known workspace, through
    /// [`Self::repo_mapping_for_file`]. Whatever it answers, the result is
    /// what [`folder_of_label`] says for that answer.
    pub fn resolve_folder(
        &self,
        label: &Label,
        current_file: &LspUrl,
        workspace: Option<&BazelWorkspace>,
    ) -> (r: Result<String, ResolveLoadError>)
        ensures
            exists|mapping: Seq<(Seq<char>, Seq<char>)>|
                result_view(r) == #[trigger] folder_of_label(
                    label@,
                    current_file@,
                    workspace.deep_view(),
                    mapping,
                ),
            !asks_for_mapping(label@, workspace.deep_view()) ==> result_view(r) == folder_of_label(
                label@,
                current_file@,
                workspace.deep_view(),
                Seq::empty(),
            ),
    {
        let mapping = match workspace {
            Some(ws) => if needs_repo_mapping(label, workspace) {
                match self.repo_mapping_for_file(ws, current_file) {
                    Ok(mapping) => mapping,
                    Err(_) => RepoMapping::new(),
                }
            } else {
                RepoMapping::new()
            },
            None => RepoMapping::new(),
        };
        let r = resolve_folder_with(label, current_file, workspace, &mapping);
        assert(result_view(r) == folder_of_label(
            label@,
            current_file@,
            workspace.deep_view(),
            mapping@,
        ));
        r
    }

    /// The names of the targets whose labels begin with `module`, as the
    /// build system lists them when asked with the pattern that
    /// [`pattern_for_targets`] gives. There are none to be had without a
    /// workspace. Whatever the build system answers, the result is what
    /// [`targets_from_answer`] makes of the answer.
    pub fn query_buildable_targets(&self, module: &str, workspace: Option<&BazelWorkspace>) -> (r:
        Option<Vec<String>>)
        ensures
            workspace is None ==> r is None,
            exists|answer: Result<Seq<char>, Seq<char>>|
                r.deep_view() == #[trigger] targets_of_answer(answer, module@),
    {
        let workspace = match workspace {
            Some(workspace) => workspace,
            None => {
                assert(targets_of_answer(Err(Seq::empty()), module@) is None);
                return None;
            },
        };
        let pattern = pattern_for_targets(module);
        let answer = self.client.query(workspace, pattern.as_str());
        let ghost answered = result_view(answer);
        let targets = targets_from_answer(answer, module);
        assert(targets.deep_view() == targets_of_answer(answered, module@));
        targets
    }

    /// Adds to `results` the candidates that the directory at `from` gives.
    ///
    /// The directory is the one that [`folder_of_root`] names; where that is
    /// an error, it is the error of the call. Each entry of the directory is
    /// then asked about, and the build system is asked for the targets whose
    /// labels begin with the typed text of the root, for each build file where
    /// [`wants_targets`] says so. Whatever they answer, what
    /// is added is the listing of those entries. The only other error is a
    /// failure of the file system, and on an error nothing is added.
    pub fn get_filesystem_entries(
        &self,
        from: &FilesystemCompletionRoot,
        current_file: &LspUrl,
        workspace: Option<&BazelWorkspace>,
        options: &FilesystemCompletionOptions,
        results: &mut Vec<StringCompletionResult>,
    ) -> (r: Result<(), Error>)
        ensures
            match r {
                Ok(()) => exists|listing: Seq<CompletionView>|
                    {
                        &&& #[trigger] is_listing(listing, *options, from@.render_base())
                        &&& final(results).deep_view() == old(results).deep_view() + listing
                    },
                Err(e) => final(results).deep_view() == old(results).deep_view(),
            },
            exists|mapping: Seq<(Seq<char>, Seq<char>)>|
                match #[trigger] folder_of_root(
                    from@,
                    current_file@,
                    workspace.deep_view(),
                    mapping,
                ) {
                    Ok(_) => r matches Err(e) ==> e@ is FileSystem,
                    Err(error) => r matches Err(e) && e@ == error,
                },
    {
        let ghost before = results.deep_view();
        let ghost mut mapping: Seq<(Seq<char>, Seq<char>)> = Seq::empty();
        let folder: String = match from {
            FilesystemCompletionRoot::Path(path) => path.clone(),
            FilesystemCompletionRoot::String(text) => {
                let label = match Label::parse(text.as_str()) {
                    Ok(label) => label,
                    Err(e) => {
                        let r = Err(Error::InvalidLabel(e));
                        assert(folder_of_root(
                            from@,
                            current_file@,
                            workspace.deep_view(),
                            Seq::empty(),
                        ) is Err);
                        return r;
                    },
                };
                let found = self.resolve_folder(&label, current_file, workspace);
                proof {
                    mapping = choose|mapping: Seq<(Seq<char>, Seq<char>)>|
                        result_view(found) == #[trigger] folder_of_label(
                            label@,
                            current_file@,
                            workspace.deep_view(),
                            mapping,
                        );
                }
                match found {
                    Ok(folder) => folder,
                    Err(e) => {
                        let r = Err(Error::ResolveLoad(e));
                        assert(folder_of_root(
                            from@,
                            current_file@,
                            workspace.deep_view(),
                            mapping,
                        ) is Err);
                        return r;
                    },
                }
            },
        };
        assert(folder_of_root(from@, current_file@, workspace.deep_view(), mapping) is Ok);
        let empty = String::new();
        let render_base: &str = match from {
            FilesystemCompletionRoot::Path(_) => empty.as_str(),
            FilesystemCompletionRoot::String(text) => text.as_str(),
        };
        assert(render_base@ =~= from@.render_base());
        let names = match self.files.read_dir(folder.as_str()) {
            Ok(names) => names,
            Err(e) => {
                return Err(Error::FileSystem(e));
            },
        };
        let ghost mut entries: Seq<DirEntryView> = Seq::empty();
        let ghost mut answers: Seq<Option<Seq<Seq<char>>>> = Seq::empty();
        let n: usize = names.len();
        let mut i: usize = 0;
        assert(results.deep_view() =~= before + listing_candidates(
            entries,
            answers,
            *options,
            render_base@,
        ));
        while i < n
            invariant
                i <= n,
                n == names@.len(),
                entries.len() == answers.len(),
                results.deep_view() == before + listing_candidates(
                    entries,
                    answers,
                    *options,
                    render_base@,
                ),
            decreases n - i,
        {
            let path = join(folder.as_str(), names[i].as_str());
            let entry = DirEntry {
                name: names[i].clone(),
                is_dir: self.files.is_dir(path.as_str()),
                is_file: self.files.is_file(path.as_str()),
            };
            let targets: Option<Vec<String>> = if wants_targets(&entry, options) {
                self.query_buildable_targets(render_base, workspace)
            } else {
                None
            };
            let ghost so_far = results.deep_view();
            push_entry_completions(&entry, options, render_base, targets.as_ref(), results);
            proof {
                let more_entries = entries.push(entry@);
                let more_answers = answers.push(targets.deep_view());
                assert(more_entries.drop_last() =~= entries);
                assert(more_answers.drop_last() =~= answers);
                assert(results.deep_view() =~= before + listing_candidates(
                    more_entries,
                    more_answers,
                    *options,
                    render_base@,
                ));
                entries = more_entries;
                answers = more_answers;
            }
            i += 1;
        }
        assert(is_listing(
            listing_candidates(entries, answers, *options, render_base@),
            *options,
            from@.render_base(),
        ));
        Ok(())
    }

    /// The file that the text `path` of a `load` resolves to.
    ///
    /// A text that is no label is an error at once, and nobody is asked.
    /// Otherwise the workspace is asked for first, then how repository names
    /// map if the label needs it, then which of the candidates exist, in
    /// their order and up to the first that does. A collaborator can fail the
    /// request only while the workspace is asked for, and only where
    /// [`Self::asks_for_workspace`] says that one is asked. In every other
    /// case the result is what [`load_resolution`] says for the workspace
    /// that [`Self::governs`] and for the answers.
    pub fn resolve_load(
        &mut self,
        path: &str,
        current_file: &LspUrl,
        workspace_root: Option<&str>,
    ) -> (r: Result<LspUrl, Error>)
        ensures
            old(self).cached().is_prefix_of(final(self).cached()),
            parse_label(path@) is None ==> (r matches Err(e) && e@ == ErrorView::InvalidLabel(
                path@,
            )) && final(self).cached() == old(self).cached(),
            !old(self).asks_for_workspace(workspace_root.deep_view(), current_file@)
                ==> final(self).cached() == old(self).cached(),
            (r matches Err(e) && e@.is_collaborator_failure() && parse_label(path@) is Some
                && old(self).asks_for_workspace(workspace_root.deep_view(), current_file@))
                || (exists|
                workspace: Option<WorkspaceView>,
                mapping: Seq<(Seq<char>, Seq<char>)>,
                answers: Seq<bool>,
            |
                final(self).governs(workspace_root.deep_view(), current_file@, workspace)
                    && result_view(r) == #[trigger] load_resolution(
                    path@,
                    current_file@,
                    workspace,
                    mapping,
                    answers,
                )),
            parse_label(path@) matches Some(label) ==> (label.repo matches Some(repo) ==> (r
                matches Err(e) && (e@.is_collaborator_failure() || e@ == ErrorView::ResolveLoad(
                ResolveLoadErrorView::UnknownRepository(label, repo),
            ))) || (exists|workspace: Option<WorkspaceView>, mapping: Seq<(Seq<char>, Seq<char>)>|
                final(self).governs(workspace_root.deep_view(), current_file@, workspace)
                    && #[trigger] knows_repository(
                    workspace,
                    canonical_repository(mapping, repo),
                ))),
    {
        let label = match Label::parse(path) {
            Ok(label) => label,
            Err(e) => {
                let r = Err(Error::InvalidLabel(e));
                let ghost workspace = self.workspace_in_sight(workspace_root.deep_view());
                assert(self.governs(workspace_root.deep_view(), current_file@, workspace));
                assert(result_view(r) == load_resolution(
                    path@,
                    current_file@,
                    workspace,
                    Seq::empty(),
                    Seq::empty(),
                ));
                return r;
            },
        };
        let index = match self.workspace(workspace_root, current_file) {
            Ok(index) => index,
            Err(e) => {
                return Err(e);
            },
        };
        let workspace = self.workspace_if_any(index);
        let found = self.resolve_folder(&label, current_file, workspace);
        let ghost mapping = choose|mapping: Seq<(Seq<char>, Seq<char>)>|
            result_view(found) == #[trigger] folder_of_label(
                label@,
                current_file@,
                workspace.deep_view(),
                mapping,
            );
        proof {
            if let Some(repo) = label@.repo {
                if !knows_repository(workspace.deep_view(), canonical_repository(mapping, repo)) {
                    lemma_unknown_repository_is_rejected(
                        path@,
                        current_file@,
                        workspace.deep_view(),
                        mapping,
                        Seq::empty(),
                    );
                }
            }
        }
        let folder = match found {
            Ok(folder) => folder,
            Err(e) => {
                let r = Err(Error::ResolveLoad(e));
                assert(result_view(r) == load_resolution(
                    path@,
                    current_file@,
                    workspace.deep_view(),
                    mapping,
                    Seq::empty(),
                ));
                return r;
            },
        };
        let candidates = candidates_for_load(folder.as_str(), label.name.as_str());
        let mut answers: Vec<bool> = Vec::new();
        let n: usize = candidates.len();
        let mut i: usize = 0;
        while i < n
            invariant
                i <= n,
                n == candidates@.len(),
            decreases n - i,
        {
            let found = self.files.path_exists(candidates[i].as_str());
            answers.push(found);
            if found {
                break ;
            }
            i += 1;
        }
        let r = match select_load_target(&candidates, &answers, path) {
            Ok(url) => Ok(url),
            Err(e) => Err(Error::ResolveLoad(e)),
        };
        assert(result_view(r) == load_resolution(
            path@,
            current_file@,
            workspace.deep_view(),
            mapping,
            answers@,
        ));
        r
    }

    /// The label by which the file `current_file` names the file `target`.
    ///
    /// The workspace is asked for first. A collaborator can fail the request
    /// only there, and only where [`Self::asks_for_workspace`] says that one
    /// is asked. In every other case the result is what [`load_text`] says
    /// for the workspace that [`Self::governs`].
    pub fn render_as_load(
        &mut self,
        target: &LspUrl,
        current_file: &LspUrl,
        workspace_root: Option<&str>,
    ) -> (r: Result<String, Error>)
        ensures
            old(self).cached().is_prefix_of(final(self).cached()),
            !old(self).asks_for_workspace(workspace_root.deep_view(), current_file@)
                ==> final(self).cached() == old(self).cached(),
            (r matches Err(e) && e@.is_collaborator_failure() && old(self).asks_for_workspace(
                workspace_root.deep_view(),
                current_file@,
            )) || (exists|workspace: Option<WorkspaceView>|
                final(self).governs(workspace_root.deep_view(), current_file@, workspace)
                    && match #[trigger] load_text(
                    target@,
                    current_file@,
                    workspace,
                    workspace_root.deep_view(),
                ) {
                    Ok(text) => r matches Ok(rendered) && rendered@ == text,
                    Err(error) => r matches Err(e) && e@ == ErrorView::RenderLoad(error),
                }),
    {
        let index = match self.workspace(workspace_root, current_file) {
            Ok(index) => index,
            Err(e) => {
                return Err(e);
            },
        };
        let workspace = self.workspace_if_any(index);
        let r = match render_as_load_with(target, current_file, workspace, workspace_root) {
            Ok(text) => Ok(text),
            Err(e) => Err(Error::RenderLoad(e)),
        };
        assert(self.governs(workspace_root.deep_view(), current_file@, workspace.deep_view()));
        assert(match load_text(
            target@,
            current_file@,
            workspace.deep_view(),
            workspace_root.deep_view(),
        ) {
            Ok(text) => r matches Ok(rendered) && rendered@ == text,
            Err(error) => r matches Err(e) && e@ == ErrorView::RenderLoad(error),
        });
        r
    }

    /// What the string `literal` of a build file points at: the file it
    /// resolves to as a `load` does, and the target to look for in it.
    ///
    /// The file and the error are those of [`Self::resolve_load`], under the
    /// same conditions, and the target is what [`target_to_find`] says for
    /// that file.
    pub fn resolve_string_literal(
        &mut self,
        literal: &str,
        current_file: &LspUrl,
        workspace_root: Option<&str>,
    ) -> (r: Result<Option<StringLiteralResult>, Error>)
        ensures
            old(self).cached().is_prefix_of(final(self).cached()),
            parse_label(literal@) is None ==> (r matches Err(e) && e@ == ErrorView::InvalidLabel(
                literal@,
            )) && final(self).cached() == old(self).cached(),
            !old(self).asks_for_workspace(workspace_root.deep_view(), current_file@)
                ==> final(self).cached() == old(self).cached(),
            (r matches Err(e) && e@.is_collaborator_failure() && parse_label(literal@) is Some
                && old(self).asks_for_workspace(workspace_root.deep_view(), current_file@))
                || (exists|
                workspace: Option<WorkspaceView>,
                mapping: Seq<(Seq<char>, Seq<char>)>,
                answers: Seq<bool>,
            |
                final(self).governs(workspace_root.deep_view(), current_file@, workspace)
                    && match #[trigger] load_resolution(
                    literal@,
                    current_file@,
                    workspace,
                    mapping,
                    answers,
                ) {
                    Ok(url) => r matches Ok(Some(found)) && found.url@ == url
                        && found.target_name.deep_view() == target_to_find(literal@, url),
                    Err(error) => r matches Err(e) && e@ == error,
                }),
    {
        let ghost asks = self.asks_for_workspace(workspace_root.deep_view(), current_file@);
        let resolved = self.resolve_load(literal, current_file, workspace_root);
        let ghost answer = result_view(resolved);
        let ghost failed = answer matches Err(e) && e.is_collaborator_failure() && parse_label(
            literal@,
        ) is Some && asks;
        match resolved {
            Ok(url) => {
                let target_name = target_name_to_find(literal, &url);
                let ghost address = url@;
                let r = Ok(Some(StringLiteralResult { url, target_name }));
                proof {
                    let (workspace, mapping, answers) = choose|
                        workspace: Option<WorkspaceView>,
                        mapping: Seq<(Seq<char>, Seq<char>)>,
                        answers: Seq<bool>,
                    |
                        self.governs(workspace_root.deep_view(), current_file@, workspace)
                            && result_view(resolved) == #[trigger] load_resolution(
                            literal@,
                            current_file@,
                            workspace,
                            mapping,
                            answers,
                        );
                    assert(load_resolution(literal@, current_file@, workspace, mapping, answers)
                        == Ok::<LspUrlView, ErrorView>(address));
                }
                r
            },
            Err(e) => {
                let ghost error = e@;
                let r = Err(e);
                proof {
                    if !failed {
                        let (workspace, mapping, answers) = choose|
                            workspace: Option<WorkspaceView>,
                            mapping: Seq<(Seq<char>, Seq<char>)>,
                            answers: Seq<bool>,
                        |
                            self.governs(workspace_root.deep_view(), current_file@, workspace)
                                && result_view(resolved) == #[trigger] load_resolution(
                                literal@,
                                current_file@,
                                workspace,
                                mapping,
                                answers,
                            );
                        assert(load_resolution(literal@, current_file@, workspace, mapping, answers)
                            == Err::<LspUrlView, ErrorView>(error));
                    }
                }
                r
            },
        }
    }

    /// The contents of the document at `uri`.
    ///
    /// Only a file with an absolute path is read. Whatever the file system
    /// answers, the result is what [`load_contents`] says for that answer.
    pub fn get_load_contents(&self, uri: &LspUrl) -> (r: Result<Option<String>, Error>)
        ensures
            exists|read: Result<Seq<char>, FsErrorView>|
                result_deep_view(r) == #[trigger] load_contents(uri@, read),
    {
        match uri {
            LspUrl::File(path) => {
                if is_absolute(path.as_str()) {
                    let read = self.files.read_to_string(path.as_str());
                    let ghost answer = result_view(read);
                    let r = contents_from_read(read);
                    assert(result_deep_view(r) == load_contents(uri@, answer));
                    r
                } else {
                    let r = Err(Error::Context(ContextError::NotAbsolute(uri.clone())));
                    assert(result_deep_view(r) == load_contents(uri@, Ok(Seq::empty())));
                    r
                }
            },
            LspUrl::Starlark(_) => {
                let r = Ok(None);
                assert(result_deep_view(r) == load_contents(uri@, Ok(Seq::empty())));
                r
            },
            LspUrl::Other(_) => {
                let r = Err(
                    Error::Context(ContextError::WrongScheme("file://".to_owned(), uri.clone())),
                );
                assert(result_deep_view(r) == load_contents(uri@, Ok(Seq::empty())));
                r
            },
        }
    }

    /// Where a global symbol is defined: nowhere that the engine knows.
    pub fn get_url_for_global_symbol(&self, current_file: &LspUrl, symbol: &str) -> (r: Result<
        Option<LspUrl>,
        Error,
    >)
        ensures
            r matches Ok(None),
    {
        Ok(None)
    }

    /// The rules of the build language for the workspace that governs `uri`,
    /// as the build system encodes them.
    pub fn get_build_language_proto(&mut self, uri: &LspUrl) -> (r: Result<Vec<u8>, Error>)
        ensures
            old(self).cached().is_prefix_of(final(self).cached()),
            !(uri@ is File) ==> (r matches Err(e) && e@ is WorkspaceNotFound),
            r matches Err(e) ==> e@ is WorkspaceNotFound || e@.is_collaborator_failure(),
    {
        let index = match self.workspace(None, uri) {
            Ok(index) => index,
            Err(e) => {
                return Err(e);
            },
        };
        match self.workspace_if_any(index) {
            Some(workspace) => match self.client.build_language(workspace) {
                Ok(proto) => Ok(proto),
                Err(e) => Err(Error::Client(e)),
            },
            None => Err(Error::WorkspaceNotFound),
        }
    }

    /// The candidates for what the typed text `current_value` may become.
    ///
    /// First come the names of repositories, where the text asks for them,
    /// then what the file system lists, where the text asks for that.
    ///
    /// No failure of the build system ends the request. Where it cannot tell
    /// about the workspace, completion goes on without one; where it cannot
    /// tell how repository names map, the names that the workspace
    /// keeps are offered; where it cannot list targets, none are offered.
    /// A failure of the file system is an error, and there is none where
    /// [`asks_file_system`] says that the file system is not asked. Apart from
    /// that the request fails exactly where the typed text asks for a listing
    /// whose directory [`listing_folder`] cannot name, and with that error.
    /// The workspace is the one that [`Self::governs`].
    pub fn get_string_completion_options(
        &mut self,
        document_uri: &LspUrl,
        kind: StringCompletionType,
        current_value: &str,
        workspace_root: Option<&str>,
    ) -> (r: Result<Vec<StringCompletionResult>, Error>)
        ensures
            old(self).cached().is_prefix_of(final(self).cached()),
            r matches Ok(candidates) ==> exists|
                workspace: Option<WorkspaceView>,
                mapping: Option<Seq<(Seq<char>, Seq<char>)>>,
                listing: Seq<CompletionView>,
            |
                #![trigger
                    repository_candidates(current_value@, workspace, mapping),
                    is_listing_for(listing, current_value@, kind, document_uri@)
                ]
                final(self).governs(workspace_root.deep_view(), document_uri@, workspace)
                    && is_listing_for(listing, current_value@, kind, document_uri@)
                    && candidates.deep_view() == repository_candidates(
                    current_value@,
                    workspace,
                    mapping,
                ) + listing,
            r matches Ok(candidates) ==> (!offers_repository_names(current_value@) ==> forall|
                i: int,
            |
                0 <= i < candidates.deep_view().len() ==> is_listed(
                    #[trigger] candidates.deep_view()[i],
                )),
            r matches Err(e) ==> !(e@ is Client),
            !old(self).asks_for_workspace(workspace_root.deep_view(), document_uri@)
                ==> final(self).cached() == old(self).cached(),
            (r matches Err(e) && e@ is FileSystem && asks_file_system(
                current_value@,
                document_uri@,
                workspace_root.deep_view(),
            )) || (exists|workspace: Option<WorkspaceView>, mapping: Seq<(Seq<char>, Seq<char>)>|
                final(self).governs(workspace_root.deep_view(), document_uri@, workspace)
                    && match #[trigger] listing_folder(
                    current_value@,
                    document_uri@,
                    workspace,
                    mapping,
                ) {
                    Ok(_) => r is Ok,
                    Err(error) => r matches Err(e) && e@ == error,
                }),
    {
        let index = match self.workspace(workspace_root, document_uri) {
            Ok(index) => index,
            Err(Error::Client(_)) => None,
            Err(e) => {
                return Err(e);
            },
        };
        let workspace = self.workspace_if_any(index);
        let repo_mapping = self.repo_mapping_if_any(workspace, document_uri);
        let mut names = repository_completions(current_value, workspace, repo_mapping.as_ref());
        let ghost repositories = names.deep_view();
        let plan = classify(current_value, kind);
        let options = filesystem_options(kind, plan);
        let root = completion_root(current_value, document_uri);
        let ghost mut mapping: Seq<(Seq<char>, Seq<char>)> = Seq::empty();
        match &root {
            Some(root) => {
                let listed = self.get_filesystem_entries(
                    root,
                    document_uri,
                    workspace,
                    &options,
                    &mut names,
                );
                proof {
                    mapping = choose|mapping: Seq<(Seq<char>, Seq<char>)>|
                        match #[trigger] folder_of_root(
                            root@,
                            document_uri@,
                            workspace.deep_view(),
                            mapping,
                        ) {
                            Ok(_) => listed matches Err(e) ==> e@ is FileSystem,
                            Err(error) => listed matches Err(e) && e@ == error,
                        };
                }
                match listed {
                    Ok(()) => {},
                    Err(e) => {
                        let ghost error = e@;
                        let r = Err(e);
                        proof {
                            if !(error is FileSystem) {
                                assert(listing_folder(
                                    current_value@,
                                    document_uri@,
                                    workspace.deep_view(),
                                    mapping,
                                ) == Err::<Option<Seq<char>>, ErrorView>(error));
                            }
                        }
                        return r;
                    },
                }
            },
            None => {
                assert(names.deep_view() =~= repositories + Seq::<CompletionView>::empty());
            },
        }
        assert(listing_folder(current_value@, document_uri@, workspace.deep_view(), mapping) is Ok);
        proof {
            let listing = names.deep_view().subrange(
                repositories.len() as int,
                names.deep_view().len() as int,
            );
            assert(names.deep_view() =~= repositories + listing);
            assert(is_listing_for(listing, current_value@, kind, document_uri@)) by {
                match root {
                    Some(root) => {
                        let added = choose|added: Seq<CompletionView>| #[trigger]
                            is_listing(added, options, root@.render_base()) && names.deep_view()
                                == repositories + added;
                        assert(added =~= listing);
                    },
                    None => {},
                }
            }
            assert(repositories == repository_candidates(
                current_value@,
                workspace.deep_view(),
                repo_mapping.deep_view(),
            ));
            if !offers_repository_names(current_value@) {
                assert(repositories.len() == 0);
                match root_for_listing(current_value@, document_uri@) {
                    Some(base) => {
                        let (entries, answers) = choose|
                            entries: Seq<DirEntryView>,
                            answers: Seq<Option<Seq<Seq<char>>>>,
                        |
                            listing == #[trigger] listing_candidates(
                                entries,
                                answers,
                                options,
                                base,
                            );
                        lemma_listing_names_no_repository(entries, answers, options, base);
                    },
                    None => {},
                }
            }
        }
        Ok(names)
    }
}

} // verus!
