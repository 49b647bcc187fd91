//! The two collaborators of the library, the build system and the file
//! system, and how their answers are read.
//!
//! The library never promises what a collaborator answers. Each function that
//! asks one says what it returns for every answer, and each function that
//! reads an answer takes it as a plain value.

use vstd::prelude::*;

use crate::error::result_deep_view;
use crate::error::result_view;
use crate::error::ClientError;
use crate::error::ContextErrorView;
use crate::error::Error;
use crate::error::ErrorView;
use crate::error::FsError;
use crate::error::FsErrorView;
use crate::text::chars_of;
use crate::text::appended;
use crate::text::find_first;
use crate::text::has_prefix;
use crate::text::lines;
use crate::text::piece;
use crate::text::starts_with_char;
use crate::text::tail;
use crate::text::without_carriage_return;
use crate::url::LspUrlView;
use crate::workspace::BazelInfo;
use crate::workspace::BazelWorkspace;
use crate::workspace::RepoMapping;

verus! {

/// The build system, as far as the library asks it.
pub trait BazelClient {
    /// What the build system knows of the workspace at `root`.
    fn info(&self, root: &str) -> Result<BazelInfo, ClientError>;

    /// The labels of the targets that match `pattern`, one on each line.
    fn query(&self, workspace: &BazelWorkspace, pattern: &str) -> Result<String, ClientError>;

    /// How the repository called `repository` writes the names of the others.
    fn dump_repo_mapping(&self, workspace: &BazelWorkspace, repository: &str) -> Result<
        RepoMapping,
        ClientError,
    >;

    /// The rules of the build language, as the build system encodes them.
    fn build_language(&self, workspace: &BazelWorkspace) -> Result<Vec<u8>, ClientError>;
}

/// The file system, as far as the library asks it.
pub trait FileSystem {
    /// Whether there is anything at `path`.
    fn path_exists(&self, path: &str) -> bool;

    /// Whether there is a directory at `path`.
    fn is_dir(&self, path: &str) -> bool;

    /// Whether there is a file at `path`.
    fn is_file(&self, path: &str) -> bool;

    /// The names of the entries of the directory at `path`.
    fn read_dir(&self, path: &str) -> Result<Vec<String>, FsError>;

    /// All that the file at `path` holds.
    fn read_to_string(&self, path: &str) -> Result<String, FsError>;
}

/// The pattern that matches every target whose label begins with `module`.
pub open spec fn targets_pattern(module: Seq<char>) -> Seq<char> {
    module + seq!['*']
}

/// Those of `texts` that begin with `prefix`, each without it.
pub open spec fn strip_prefixes(texts: Seq<Seq<char>>, prefix: Seq<char>) -> Seq<Seq<char>>
    decreases texts.len(),
{
    if texts.len() == 0 {
        Seq::empty()
    } else {
        let before = strip_prefixes(texts.drop_last(), prefix);
        if prefix.is_prefix_of(texts.last()) {
            before.push(tail(texts.last(), prefix.len() as int))
        } else {
            before
        }
    }
}

/// The names of the targets that the build system's answer `output` lists
/// for `module`: of each line that begins with `module`, what follows it.
pub open spec fn targets_of_output(output: Seq<char>, module: Seq<char>) -> Seq<Seq<char>> {
    strip_prefixes(lines(output), module)
}

/// What the build system's answer to a query for the targets of `module`
/// gives: the names that its output lists, and nothing where it failed.
pub open spec fn targets_of_answer(
    answer: Result<Seq<char>, Seq<char>>,
    module: Seq<char>,
) -> Option<Seq<Seq<char>>> {
    match answer {
        Ok(output) => Some(targets_of_output(output, module)),
        Err(_) => None,
    }
}

/// What the build system's answer about the names of repositories gives:
/// the mapping as it was told, and the empty mapping, in which every name
/// stands for itself, where the build system failed.
pub open spec fn mapping_of_answer(answer: Result<Seq<(Seq<char>, Seq<char>)>, Seq<char>>) -> Seq<
    (Seq<char>, Seq<char>),
> {
    match answer {
        Ok(entries) => entries,
        Err(_) => Seq::empty(),
    }
}

/// The same answer for a caller that tells a failure from an empty mapping:
/// the mapping as it was told, and nothing where the build system failed.
pub open spec fn mapping_if_told(answer: Result<Seq<(Seq<char>, Seq<char>)>, Seq<char>>) -> Option<
    Seq<(Seq<char>, Seq<char>)>,
> {
    match answer {
        Ok(entries) => Some(entries),
        Err(_) => None,
    }
}

/// What reading a file gives the caller: the contents of the file, nothing
/// where there is no such file, and the file system's error otherwise.
pub open spec fn contents_of_read(read: Result<Seq<char>, FsErrorView>) -> Result<
    Option<Seq<char>>,
    ErrorView,
> {
    match read {
        Ok(contents) => Ok(Some(contents)),
        Err(FsErrorView::NotFound) => Ok(None),
        Err(e) => Err(ErrorView::FileSystem(e)),
    }
}

/// The directory that a marker names, given what reading the marker gave:
/// all that the marker holds. A marker that cannot be read is an error.
pub open spec fn marker_contents(read: Result<Seq<char>, FsErrorView>) -> Result<
    Option<Seq<char>>,
    ErrorView,
> {
    match read {
        Ok(dir) => Ok(Some(dir)),
        Err(e) => Err(ErrorView::FileSystem(e)),
    }
}

/// What looking for the marker of a workspace gives: where `answers` says
/// that one of the markers that were asked for exists, what reading it gives,
/// and nothing where none does.
pub open spec fn marked_workspace_dir(
    answers: Seq<bool>,
    read: Result<Seq<char>, FsErrorView>,
) -> Result<Option<Seq<char>>, ErrorView> {
    if answers.contains(true) {
        marker_contents(read)
    } else {
        Ok(None)
    }
}

/// What asking for the contents of the document at `uri` gives, where `read`
/// is what the file system answers for a file with an absolute path. Only
/// such a file is read; a built-in document has no contents on disk.
pub open spec fn load_contents(uri: LspUrlView, read: Result<Seq<char>, FsErrorView>) -> Result<
    Option<Seq<char>>,
    ErrorView,
> {
    match uri {
        LspUrlView::File(path) => if starts_with_char(path, '/') {
            contents_of_read(read)
        } else {
            Err(ErrorView::Context(ContextErrorView::NotAbsolute(uri)))
        },
        LspUrlView::Starlark(_) => Ok(None),
        LspUrlView::Other(_) => Err(
            ErrorView::Context(ContextErrorView::WrongScheme("file://"@, uri)),
        ),
    }
}

/// The pattern that matches every target whose label begins with `module`.
pub fn pattern_for_targets(module: &str) -> (pattern: String)
    ensures
        pattern@ == targets_pattern(module@),
{
    proof {
        reveal_strlit("*");
        assert("*"@ =~= seq!['*']);
    }
    appended(module, "*")
}

/// The lines of `text`.
pub fn split_lines(text: &str) -> (found: Vec<String>)
    ensures
        found.deep_view() == lines(text@),
{
    let chars = chars_of(text);
    let n: usize = chars.len();
    let mut found: Vec<String> = Vec::new();
    let mut start: usize = 0;
    assert(tail(text@, 0) =~= text@);
    assert(found.deep_view() + lines(text@) =~= lines(text@));
    while start < n
        invariant
            start <= n,
            n == text@.len(),
            chars@ == text@,
            found.deep_view() + lines(tail(text@, start as int)) == lines(text@),
        decreases n - start,
    {
        let ghost rest = tail(text@, start as int);
        let ghost before = found.deep_view();
        proof {
            rest.index_of_first_ensures('\n');
        }
        match find_first(&chars, start, '\n') {
            Some(i) => {
                let end: usize = if i > start && chars[i - 1] == '\r' {
                    i - 1
                } else {
                    i
                };
                let ghost raw = rest.subrange(0, i - start);
                assert(raw =~= text@.subrange(start as int, i as int));
                assert(without_carriage_return(raw) =~= text@.subrange(start as int, end as int));
                assert(tail(rest, i - start + 1) =~= tail(text@, i + 1));
                let line = piece(text, start, end);
                found.push(line);
                assert(found.deep_view() =~= before.push(without_carriage_return(raw)));
                assert(found.deep_view() + lines(tail(text@, i + 1)) =~= before + (seq![
                    without_carriage_return(raw),
                ] + lines(tail(text@, i + 1))));
                start = i + 1;
            },
            None => {
                assert(rest =~= text@.subrange(start as int, n as int));
                let line = piece(text, start, n);
                found.push(line);
                assert(found.deep_view() =~= before.push(rest));
                assert(tail(text@, n as int) =~= Seq::<char>::empty());
                assert(found.deep_view() + lines(tail(text@, n as int)) =~= before + seq![rest]);
                start = n;
            },
        }
    }
    assert(tail(text@, n as int) =~= Seq::<char>::empty());
    assert(found.deep_view() + lines(tail(text@, n as int)) =~= found.deep_view());
    found
}

/// The names of the targets that the build system's answer `output` lists
/// for `module`.
pub fn targets_in_output(output: &str, module: &str) -> (targets: Vec<String>)
    ensures
        targets.deep_view() == targets_of_output(output@, module@),
{
    let all = split_lines(output);
    let prefix = chars_of(module);
    let ghost texts = all.deep_view();
    let n: usize = all.len();
    let mut targets: Vec<String> = Vec::new();
    let mut i: usize = 0;
    assert(texts.subrange(0, 0) =~= Seq::<Seq<char>>::empty());
    assert(targets.deep_view() =~= Seq::<Seq<char>>::empty());
    while i < n
        invariant
            i <= n,
            n == all@.len(),
            texts == all.deep_view(),
            prefix@ == module@,
            targets.deep_view() == strip_prefixes(texts.subrange(0, i as int), module@),
        decreases n - i,
    {
        let line = all[i].as_str();
        let chars = chars_of(line);
        assert(texts.subrange(0, i + 1).drop_last() =~= texts.subrange(0, i as int));
        assert(texts.subrange(0, i + 1).last() == line@);
        if has_prefix(&chars, &prefix) {
            let ghost before = targets.deep_view();
            let name = piece(line, prefix.len(), chars.len());
            targets.push(name);
            assert(targets.deep_view() =~= before.push(tail(line@, module@.len() as int)));
        }
        i += 1;
    }
    assert(texts.subrange(0, n as int) =~= texts);
    targets
}

/// The names of the targets of `module`, given what the build system
/// answered to the query for them.
pub fn targets_from_answer(answer: Result<String, ClientError>, module: &str) -> (targets: Option<
    Vec<String>,
>)
    ensures
        targets.deep_view() == targets_of_answer(result_view(answer), module@),
{
    match answer {
        Ok(output) => Some(targets_in_output(output.as_str(), module)),
        Err(_) => None,
    }
}

/// How repository names map, given what the build system answered when
/// asked: a failure gives the empty mapping.
pub fn mapping_from_answer(answer: Result<RepoMapping, ClientError>) -> (mapping: RepoMapping)
    ensures
        mapping@ == mapping_of_answer(result_view(answer)),
{
    match answer {
        Ok(mapping) => mapping,
        Err(_) => RepoMapping::new(),
    }
}

/// How repository names map, if the build system could tell.
pub fn mapping_if_answered(answer: Result<RepoMapping, ClientError>) -> (mapping: Option<
    RepoMapping,
>)
    ensures
        mapping.deep_view() == mapping_if_told(result_view(answer)),
{
    match answer {
        Ok(mapping) => Some(mapping),
        Err(_) => None,
    }
}

/// The directory that a marker names, given what reading the marker gave.
pub fn workspace_dir_from_marker(read: Result<String, FsError>) -> (r: Result<
    Option<String>,
    Error,
>)
    ensures
        result_deep_view(r) == marker_contents(result_view(read)),
{
    match read {
        Ok(dir) => Ok(Some(dir)),
        Err(e) => Err(Error::FileSystem(e)),
    }
}

/// What reading a file gives the caller.
pub fn contents_from_read(read: Result<String, FsError>) -> (r: Result<Option<String>, Error>)
    ensures
        result_deep_view(r) == contents_of_read(result_view(read)),
{
    match read {
        Ok(contents) => Ok(Some(contents)),
        Err(FsError::NotFound) => Ok(None),
        Err(e) => Err(Error::FileSystem(e)),
    }
}

} // verus!
