//! What is known of one workspace: its root, its name, and where each of its
//! repositories lies on disk.

use vstd::prelude::*;

use crate::path::path_relative_to;
use crate::path::relative_to;
use crate::text::same_text;
use crate::url::LspUrl;
use crate::url::LspUrlView;

verus! {

/// One repository of a workspace: its name and the directory it lies in.
#[derive(Debug, PartialEq, Eq)]
pub struct Repository {
    pub name: String,
    pub path: String,
}

/// What a [`Repository`] stands for in contracts.
pub struct RepositoryView {
    pub name: Seq<char>,
    pub path: Seq<char>,
}

impl View for Repository {
    type V = RepositoryView;

    open spec fn view(&self) -> RepositoryView {
        RepositoryView { name: self.name@, path: self.path@ }
    }
}

impl DeepView for Repository {
    type V = RepositoryView;

    open spec fn deep_view(&self) -> RepositoryView {
        self@
    }
}

impl Clone for Repository {
    fn clone(&self) -> (copy: Self)
        ensures
            copy@ == self@,
    {
        Repository { name: self.name.clone(), path: self.path.clone() }
    }
}

/// What the build system tells about a workspace.
#[derive(Debug, PartialEq, Eq)]
pub struct BazelInfo {
    /// The root directory of the workspace.
    pub workspace: String,
    /// The name that the workspace gives itself, if it has one.
    pub workspace_name: Option<String>,
    /// The repositories that the workspace knows, each with its directory.
    pub repositories: Vec<Repository>,
    /// The directory below which the build system keeps what it builds.
    pub output_base: Option<String>,
}

/// One workspace, as it was when the build system was asked about it.
#[derive(Debug, PartialEq, Eq)]
pub struct BazelWorkspace {
    /// The root directory of the workspace.
    pub root: String,
    /// The name that the workspace gives itself, if it has one.
    pub workspace_name: Option<String>,
    /// The repositories that the workspace knows, each with its directory.
    /// Where a name stands twice, the first entry counts.
    pub repositories: Vec<Repository>,
    /// The directory below which the build system keeps what it builds.
    pub output_base: Option<String>,
}

/// What a [`BazelWorkspace`] stands for in contracts.
pub struct WorkspaceView {
    pub root: Seq<char>,
    pub workspace_name: Option<Seq<char>>,
    pub repositories: Seq<RepositoryView>,
    pub output_base: Option<Seq<char>>,
}

impl View for BazelWorkspace {
    type V = WorkspaceView;

    open spec fn view(&self) -> WorkspaceView {
        WorkspaceView {
            root: self.root@,
            workspace_name: self.workspace_name.deep_view(),
            repositories: self.repositories.deep_view(),
            output_base: self.output_base.deep_view(),
        }
    }
}

impl DeepView for BazelWorkspace {
    type V = WorkspaceView;

    open spec fn deep_view(&self) -> WorkspaceView {
        self@
    }
}

/// The workspace that the build system's answer describes. A base directory
/// that the caller names takes the place of the one in the answer.
pub open spec fn workspace_from_info(
    root: Seq<char>,
    workspace_name: Option<Seq<char>>,
    repositories: Seq<RepositoryView>,
    output_base: Option<Seq<char>>,
    query_output_base: Option<Seq<char>>,
) -> WorkspaceView {
    WorkspaceView {
        root,
        workspace_name,
        repositories,
        output_base: match query_output_base {
            Some(base) => Some(base),
            None => output_base,
        },
    }
}

/// The directory of the first repository of `table` that is called `name`.
pub open spec fn repository_path(table: Seq<RepositoryView>, name: Seq<char>) -> Option<Seq<char>>
    decreases table.len(),
{
    if table.len() == 0 {
        None
    } else if table[0].name == name {
        Some(table[0].path)
    } else {
        repository_path(table.drop_first(), name)
    }
}

/// The first repository of `table` at or below whose directory `path` lies.
pub open spec fn repository_holding(table: Seq<RepositoryView>, path: Seq<char>) -> Option<
    RepositoryView,
>
    decreases table.len(),
{
    if table.len() == 0 {
        None
    } else if path_relative_to(path, table[0].path) is Some {
        Some(table[0])
    } else {
        repository_holding(table.drop_first(), path)
    }
}

/// The repository that holds `path`: its name, and `path` as seen from the
/// directory of the repository.
pub open spec fn repository_for_path(table: Seq<RepositoryView>, path: Seq<char>) -> Option<
    (Seq<char>, Seq<char>),
> {
    match repository_holding(table, path) {
        Some(repository) => match path_relative_to(path, repository.path) {
            Some(rest) => Some((repository.name, rest)),
            None => None,
        },
        None => None,
    }
}

/// The names of the repositories of `table`, in its order.
pub open spec fn repository_names(table: Seq<RepositoryView>) -> Seq<Seq<char>> {
    table.map_values(|repository: RepositoryView| repository.name)
}

impl WorkspaceView {
    /// The repository that holds the document at `url`; only files on disk
    /// lie in one.
    pub open spec fn repository_of_url(self, url: LspUrlView) -> Option<RepositoryView> {
        match url {
            LspUrlView::File(path) => repository_holding(self.repositories, path),
            _ => None,
        }
    }

    /// The name of the repository that holds the document at `url`.
    pub open spec fn repository_name_of_url(self, url: LspUrlView) -> Option<Seq<char>> {
        match self.repository_of_url(url) {
            Some(repository) => Some(repository.name),
            None => None,
        }
    }
}

impl BazelWorkspace {
    /// The workspace that the build system's answer `info` describes.
    pub fn from_bazel_info(info: BazelInfo, query_output_base: Option<&str>) -> (workspace: Self)
        ensures
            workspace@ == workspace_from_info(
                info.workspace@,
                info.workspace_name.deep_view(),
                info.repositories.deep_view(),
                info.output_base.deep_view(),
                query_output_base.deep_view(),
            ),
    {
        let output_base = match query_output_base {
            Some(base) => Some(base.to_owned()),
            None => info.output_base,
        };
        BazelWorkspace {
            root: info.workspace,
            workspace_name: info.workspace_name,
            repositories: info.repositories,
            output_base,
        }
    }

    /// The directory of the repository called `name`.
    pub fn get_repository_path(&self, name: &str) -> (path: Option<&str>)
        ensures
            path.deep_view() == repository_path(self@.repositories, name@),
    {
        let ghost table = self@.repositories;
        let n: usize = self.repositories.len();
        let mut i: usize = 0;
        assert(table.subrange(0, n as int) =~= table);
        while i < n
            invariant
                i <= n,
                n == self.repositories@.len(),
                table == self@.repositories,
                repository_path(table, name@) == repository_path(
                    table.subrange(i as int, n as int),
                    name@,
                ),
            decreases n - i,
        {
            let repository = &self.repositories[i];
            assert(table.subrange(i as int, n as int).drop_first() =~= table.subrange(
                i + 1,
                n as int,
            ));
            if same_text(repository.name.as_str(), name) {
                return Some(repository.path.as_str());
            }
            i += 1;
        }
        None
    }

    /// The first repository of the table at or below whose directory `path`
    /// lies.
    pub fn find_repository(&self, path: &str) -> (found: Option<&Repository>)
        ensures
            found.deep_view() == repository_holding(self@.repositories, path@),
    {
        let ghost table = self@.repositories;
        let n: usize = self.repositories.len();
        let mut i: usize = 0;
        assert(table.subrange(0, n as int) =~= table);
        while i < n
            invariant
                i <= n,
                n == self.repositories@.len(),
                table == self@.repositories,
                repository_holding(table, path@) == repository_holding(
                    table.subrange(i as int, n as int),
                    path@,
                ),
            decreases n - i,
        {
            let repository = &self.repositories[i];
            assert(table.subrange(i as int, n as int).drop_first() =~= table.subrange(
                i + 1,
                n as int,
            ));
            if relative_to(path, repository.path.as_str()).is_some() {
                return Some(repository);
            }
            i += 1;
        }
        None
    }

    /// The repository that holds `path`: its name, and `path` as seen from
    /// the directory of the repository.
    pub fn get_repository_for_path(&self, path: &str) -> (found: Option<(String, String)>)
        ensures
            found.deep_view() == repository_for_path(self@.repositories, path@),
    {
        match self.find_repository(path) {
            Some(repository) => match relative_to(path, repository.path.as_str()) {
                Some(rest) => Some((repository.name.clone(), rest)),
                None => None,
            },
            None => None,
        }
    }

    /// The repository that holds the document at `url`.
    pub fn find_repository_for_lspurl(&self, url: &LspUrl) -> (found: Option<&Repository>)
        ensures
            found.deep_view() == self@.repository_of_url(url@),
    {
        match url {
            LspUrl::File(path) => self.find_repository(path.as_str()),
            _ => None,
        }
    }

    /// The name of the repository that holds the document at `url`.
    pub fn get_repository_for_lspurl(&self, url: &LspUrl) -> (name: Option<String>)
        ensures
            name.deep_view() == self@.repository_name_of_url(url@),
    {
        match self.find_repository_for_lspurl(url) {
            Some(repository) => Some(repository.name.clone()),
            None => None,
        }
    }

    /// The names of the repositories that the workspace knows, in the order
    /// of its table.
    pub fn get_repository_names(&self) -> (names: Vec<String>)
        ensures
            names.deep_view() == repository_names(self@.repositories),
    {
        let n: usize = self.repositories.len();
        let mut names: Vec<String> = Vec::new();
        let mut i: usize = 0;
        while i < n
            invariant
                i <= n,
                n == self.repositories@.len(),
                names.deep_view() == repository_names(self@.repositories).subrange(0, i as int),
            decreases n - i,
        {
            let ghost before = names.deep_view();
            names.push(self.repositories[i].name.clone());
            assert(names.deep_view() =~= before.push(self.repositories[i as int].name@));
            assert(names.deep_view() =~= repository_names(self@.repositories).subrange(0, i + 1));
            i += 1;
        }
        assert(names.deep_view() =~= repository_names(self@.repositories));
        names
    }
}

/// The names that one repository uses for the others, each with the name
/// under which the workspace keeps that repository. A name without an entry stands for
/// itself; where a name has two entries, the first counts.
#[derive(Debug, PartialEq, Eq)]
pub struct RepoMapping {
    /// The entries: the name as written, then the name it stands for.
    pub entries: Vec<(String, String)>,
}

impl View for RepoMapping {
    type V = Seq<(Seq<char>, Seq<char>)>;

    open spec fn view(&self) -> Seq<(Seq<char>, Seq<char>)> {
        self.entries.deep_view()
    }
}

impl DeepView for RepoMapping {
    type V = Seq<(Seq<char>, Seq<char>)>;

    open spec fn deep_view(&self) -> Seq<(Seq<char>, Seq<char>)> {
        self@
    }
}

/// The name that the first entry for `name` gives.
pub open spec fn mapping_lookup(entries: Seq<(Seq<char>, Seq<char>)>, name: Seq<char>) -> Option<
    Seq<char>,
>
    decreases entries.len(),
{
    if entries.len() == 0 {
        None
    } else if entries[0].0 == name {
        Some(entries[0].1)
    } else {
        mapping_lookup(entries.drop_first(), name)
    }
}

/// The name under which the workspace keeps the repository that is written
/// `name`.
pub open spec fn canonical_repository(entries: Seq<(Seq<char>, Seq<char>)>, name: Seq<char>) -> Seq<
    char,
> {
    match mapping_lookup(entries, name) {
        Some(canonical) => canonical,
        None => name,
    }
}

/// The names that `entries` maps, in order, but for the empty name.
pub open spec fn mapped_names(entries: Seq<(Seq<char>, Seq<char>)>) -> Seq<Seq<char>>
    decreases entries.len(),
{
    if entries.len() == 0 {
        Seq::empty()
    } else if entries.last().0.len() == 0 {
        mapped_names(entries.drop_last())
    } else {
        mapped_names(entries.drop_last()).push(entries.last().0)
    }
}

impl RepoMapping {
    /// A mapping without entries: every name stands for itself.
    pub fn new() -> (mapping: Self)
        ensures
            mapping@ == Seq::<(Seq<char>, Seq<char>)>::empty(),
    {
        let mapping = RepoMapping { entries: Vec::new() };
        assert(mapping@ =~= Seq::<(Seq<char>, Seq<char>)>::empty());
        mapping
    }

    /// The name that the mapping gives for `name`, if it has an entry.
    pub fn get(&self, name: &str) -> (canonical: Option<&str>)
        ensures
            canonical.deep_view() == mapping_lookup(self@, name@),
    {
        let ghost entries = self@;
        let n: usize = self.entries.len();
        let mut i: usize = 0;
        assert(entries.subrange(0, n as int) =~= entries);
        while i < n
            invariant
                i <= n,
                n == self.entries@.len(),
                entries == self@,
                mapping_lookup(entries, name@) == mapping_lookup(
                    entries.subrange(i as int, n as int),
                    name@,
                ),
            decreases n - i,
        {
            let entry = &self.entries[i];
            assert(entries.subrange(i as int, n as int).drop_first() =~= entries.subrange(
                i + 1,
                n as int,
            ));
            if same_text(entry.0.as_str(), name) {
                return Some(entry.1.as_str());
            }
            i += 1;
        }
        None
    }

    /// The name under which the workspace keeps the repository that is
    /// written `name`.
    pub fn canonical_name(&self, name: &str) -> (canonical: String)
        ensures
            canonical@ == canonical_repository(self@, name@),
    {
        match self.get(name) {
            Some(canonical) => canonical.to_owned(),
            None => name.to_owned(),
        }
    }

    /// The names that the mapping maps, in order, but for the empty
    /// name.
    pub fn names(&self) -> (names: Vec<String>)
        ensures
            names.deep_view() == mapped_names(self@),
    {
        let ghost entries = self@;
        let n: usize = self.entries.len();
        let mut names: Vec<String> = Vec::new();
        let mut i: usize = 0;
        assert(entries.subrange(0, 0) =~= Seq::empty());
        while i < n
            invariant
                i <= n,
                n == self.entries@.len(),
                entries == self@,
                names.deep_view() == mapped_names(entries.subrange(0, i as int)),
            decreases n - i,
        {
            let entry = &self.entries[i];
            assert(entries.subrange(0, i + 1).drop_last() =~= entries.subrange(0, i as int));
            assert(entries.subrange(0, i + 1).last() == entries[i as int]);
            if entry.0.as_str().unicode_len() > 0 {
                let ghost before = names.deep_view();
                names.push(entry.0.clone());
                assert(names.deep_view() =~= before.push(entry.0@));
            }
            i += 1;
        }
        assert(entries.subrange(0, n as int) =~= entries);
        names
    }
}

} // verus!
