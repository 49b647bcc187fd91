//! Completion of a label that is still being typed: what kinds of thing may
//! come next, where to look for them, and what each find offers.

use vstd::prelude::*;

use crate::file_type::file_type_of_name;
use crate::file_type::FileType;
use crate::path::parent;
use crate::path::path_parent;
use crate::text::byte_len;
use crate::text::chars_of;
use crate::text::appended;
use crate::text::contains_double_slash;
use crate::text::ends_with_char;
use crate::text::find_last;
use crate::text::has_char;
use crate::text::has_double_slash;
use crate::text::piece;
use crate::text::starts_with_char;
use crate::url::LspUrl;
use crate::url::LspUrlView;
use crate::workspace::mapped_names;
use crate::workspace::repository_names;
use crate::workspace::BazelWorkspace;
use crate::workspace::RepoMapping;
use crate::workspace::WorkspaceView;

verus! {

/// What kind of string is being completed.
#[derive(Clone, Copy, Debug, PartialEq, Eq, Structural)]
pub enum StringCompletionType {
    /// Any string.
    String,
    /// The path of a `load` statement.
    LoadPath,
}

/// What a candidate is.
#[derive(Clone, Copy, Debug, PartialEq, Eq, Structural)]
pub enum CompletionKind {
    /// The name of a repository.
    Repository,
    /// A directory.
    Folder,
    /// A file.
    File,
    /// A target that a build file declares.
    Target,
}

/// One candidate for what the user may mean.
#[derive(Debug, PartialEq, Eq)]
pub struct StringCompletionResult {
    /// What is shown.
    pub value: String,
    /// What is put into the text.
    pub insert_text: Option<String>,
    /// Where it is put: the number of bytes of the typed text that stay in
    /// front of it.
    pub insert_text_offset: usize,
    /// What the candidate is.
    pub kind: CompletionKind,
}

/// What a [`StringCompletionResult`] stands for in contracts.
pub struct CompletionView {
    pub value: Seq<char>,
    pub insert_text: Option<Seq<char>>,
    pub insert_text_offset: usize,
    pub kind: CompletionKind,
}

impl View for StringCompletionResult {
    type V = CompletionView;

    open spec fn view(&self) -> CompletionView {
        CompletionView {
            value: self.value@,
            insert_text: self.insert_text.deep_view(),
            insert_text_offset: self.insert_text_offset,
            kind: self.kind,
        }
    }
}

impl DeepView for StringCompletionResult {
    type V = CompletionView;

    open spec fn deep_view(&self) -> CompletionView {
        self@
    }
}

impl Clone for StringCompletionResult {
    fn clone(&self) -> (copy: Self)
        ensures
            copy@ == self@,
    {
        StringCompletionResult {
            value: self.value.clone(),
            insert_text: match &self.insert_text {
                Some(text) => Some(text.clone()),
                None => None,
            },
            insert_text_offset: self.insert_text_offset,
            kind: self.kind,
        }
    }
}

/// Which files a listing offers.
#[derive(Clone, Copy, Debug, PartialEq, Eq, Structural)]
pub enum FilesystemFileCompletionOptions {
    /// Every file.
    All,
    /// Only files that can be loaded.
    OnlyLoadable,
    /// No file.
    Nothing,
}

/// What a listing of a directory offers.
#[derive(Clone, Copy, Debug, PartialEq, Eq, Structural)]
pub struct FilesystemCompletionOptions {
    /// Whether directories are offered.
    pub directories: bool,
    /// Which files are offered.
    pub files: FilesystemFileCompletionOptions,
    /// Whether the targets of build files are offered.
    pub targets: bool,
}

/// Where a listing starts.
#[derive(Debug, PartialEq, Eq)]
pub enum FilesystemCompletionRoot {
    /// At a directory that is already known, such as that of the document.
    Path(String),
    /// At the directory that the beginning of a label, as typed, points into.
    String(String),
}

/// What a [`FilesystemCompletionRoot`] stands for in contracts.
pub enum CompletionRootView {
    Path(Seq<char>),
    String(Seq<char>),
}

impl CompletionRootView {
    /// The typed text that stays in front of whatever is inserted.
    pub open spec fn render_base(self) -> Seq<char> {
        match self {
            CompletionRootView::Path(_) => Seq::empty(),
            CompletionRootView::String(text) => text,
        }
    }
}

impl View for FilesystemCompletionRoot {
    type V = CompletionRootView;

    open spec fn view(&self) -> CompletionRootView {
        match self {
            FilesystemCompletionRoot::Path(path) => CompletionRootView::Path(path@),
            FilesystemCompletionRoot::String(text) => CompletionRootView::String(text@),
        }
    }
}

impl DeepView for FilesystemCompletionRoot {
    type V = CompletionRootView;

    open spec fn deep_view(&self) -> CompletionRootView {
        self@
    }
}

/// What the typed text asks for.
#[derive(Clone, Copy, Debug, PartialEq, Eq, Structural)]
pub struct CompletionPlan {
    /// Whether the names of repositories are offered.
    pub offer_repository_names: bool,
    /// Whether directories are offered.
    pub complete_directories: bool,
    /// Whether files are offered.
    pub complete_filenames: bool,
    /// Whether the targets of build files are offered.
    pub complete_targets: bool,
}

/// One entry of a directory, with what the file system says of it.
#[derive(Debug, PartialEq, Eq)]
pub struct DirEntry {
    /// The name of the entry, without the directory.
    pub name: String,
    /// Whether the entry is a directory.
    pub is_dir: bool,
    /// Whether the entry is a file.
    pub is_file: bool,
}

/// What a [`DirEntry`] stands for in contracts.
pub struct DirEntryView {
    pub name: Seq<char>,
    pub is_dir: bool,
    pub is_file: bool,
}

impl View for DirEntry {
    type V = DirEntryView;

    open spec fn view(&self) -> DirEntryView {
        DirEntryView { name: self.name@, is_dir: self.is_dir, is_file: self.is_file }
    }
}

impl DeepView for DirEntry {
    type V = DirEntryView;

    open spec fn deep_view(&self) -> DirEntryView {
        self@
    }
}

/// Whether the names of repositories are offered for the typed text: for the
/// empty text, for a lone `@`, while a repository is being typed, and for a
/// bare word.
pub open spec fn offers_repository_names(text: Seq<char>) -> bool {
    text.len() == 0 || text == seq!['@'] || (starts_with_char(text, '@') && !text.contains('/'))
        || (!text.contains('/') && !text.contains(':'))
}

/// Whether the typed text is past the name of a repository, or names none.
pub open spec fn is_past_repository(text: Seq<char>) -> bool {
    !starts_with_char(text, '@') || has_double_slash(text)
}

/// Whether directories are offered for the typed text.
pub open spec fn completes_directories(text: Seq<char>) -> bool {
    is_past_repository(text) && !text.contains(':')
}

/// Whether files are offered for the typed text.
pub open spec fn completes_filenames(text: Seq<char>) -> bool {
    is_past_repository(text) && (!text.contains('/') || text.contains(':'))
}

/// Whether targets are offered for the typed text.
pub open spec fn completes_targets(text: Seq<char>, kind: StringCompletionType) -> bool {
    kind == StringCompletionType::String && completes_filenames(text)
}

/// What the typed text asks for.
pub open spec fn plan_for(text: Seq<char>, kind: StringCompletionType) -> CompletionPlan {
    CompletionPlan {
        offer_repository_names: offers_repository_names(text),
        complete_directories: completes_directories(text),
        complete_filenames: completes_filenames(text),
        complete_targets: completes_targets(text, kind),
    }
}

/// Where the listing for the typed text starts, if there is one.
///
/// A bare word, for which both directories and files are offered, is listed
/// from the directory of the document. Anything else is listed from the typed
/// text up to and with its last `/`, where directories are offered, or its
/// last `:`, where they are not.
pub open spec fn root_for(text: Seq<char>, document: LspUrlView) -> Option<CompletionRootView> {
    let directories = completes_directories(text);
    let filenames = completes_filenames(text);
    if !directories && !filenames {
        None
    } else if directories && filenames {
        match path_parent(document.path()) {
            Some(dir) => Some(CompletionRootView::Path(dir)),
            None => None,
        }
    } else {
        match text.index_of_last(
            if directories {
                '/'
            } else {
                ':'
            },
        ) {
            Some(i) => Some(CompletionRootView::String(text.subrange(0, i + 1))),
            None => None,
        }
    }
}

/// What a listing offers for this kind of string.
pub open spec fn options_for(
    kind: StringCompletionType,
    plan: CompletionPlan,
) -> FilesystemCompletionOptions {
    FilesystemCompletionOptions {
        directories: plan.complete_directories,
        files: match kind {
            StringCompletionType::LoadPath => FilesystemFileCompletionOptions::OnlyLoadable,
            StringCompletionType::String => if plan.complete_filenames {
                FilesystemFileCompletionOptions::All
            } else {
                FilesystemFileCompletionOptions::Nothing
            },
        },
        targets: plan.complete_targets,
    }
}

/// The separator to put in front of what is inserted after `base`: none
/// where `base` is empty or already ends in it.
pub open spec fn separator_after(base: Seq<char>, separator: char) -> Seq<char> {
    if base.len() == 0 || ends_with_char(base, separator) {
        Seq::empty()
    } else {
        seq![separator]
    }
}

/// The candidate for the repository called `name`.
pub open spec fn repository_candidate(name: Seq<char>) -> CompletionView {
    CompletionView {
        value: seq!['@'] + name,
        insert_text: Some(seq!['@'] + name + seq!['/', '/']),
        insert_text_offset: 0,
        kind: CompletionKind::Repository,
    }
}

/// The candidate for the directory called `name`, found from `base`.
pub open spec fn folder_candidate(name: Seq<char>, base: Seq<char>) -> CompletionView {
    CompletionView {
        value: name,
        insert_text: Some(separator_after(base, '/') + name),
        insert_text_offset: byte_len(base) as usize,
        kind: CompletionKind::Folder,
    }
}

/// The candidate for the file called `name`, found from `base`.
pub open spec fn file_candidate(name: Seq<char>, base: Seq<char>) -> CompletionView {
    CompletionView {
        value: name,
        insert_text: Some(separator_after(base, ':') + name),
        insert_text_offset: byte_len(base) as usize,
        kind: CompletionKind::File,
    }
}

/// The candidate for the target called `name`, found from `base`. The build
/// system is asked for the targets whose labels begin with `base`, and `name`
/// is what follows `base` in such a label.
pub open spec fn target_candidate(name: Seq<char>, base: Seq<char>) -> CompletionView {
    CompletionView {
        value: name,
        insert_text: Some(separator_after(base, ':') + name),
        insert_text_offset: byte_len(base) as usize,
        kind: CompletionKind::Target,
    }
}

/// Whether the build system is asked for the targets of this entry: it is for
/// a build file, where targets are offered and the entry is not offered as a
/// directory.
pub open spec fn asks_for_targets(
    entry: DirEntryView,
    options: FilesystemCompletionOptions,
) -> bool {
    !(entry.is_dir && options.directories) && entry.is_file && file_type_of_name(entry.name)
        == FileType::Build && options.targets
}

/// The candidates that one entry of a directory gives. `targets` holds what
/// the build system answered for the entry, if it was asked and answered.
pub open spec fn entry_candidates(
    entry: DirEntryView,
    options: FilesystemCompletionOptions,
    base: Seq<char>,
    targets: Option<Seq<Seq<char>>>,
) -> Seq<CompletionView> {
    if entry.is_dir && options.directories {
        seq![folder_candidate(entry.name, base)]
    } else if !entry.is_file {
        Seq::empty()
    } else if file_type_of_name(entry.name) == FileType::Build {
        match targets {
            Some(names) => if options.targets {
                names.map_values(|name: Seq<char>| target_candidate(name, base))
            } else {
                Seq::empty()
            },
            None => Seq::empty(),
        }
    } else if options.files == FilesystemFileCompletionOptions::Nothing {
        Seq::empty()
    } else if options.files == FilesystemFileCompletionOptions::OnlyLoadable && file_type_of_name(
        entry.name,
    ) != FileType::Library {
        Seq::empty()
    } else {
        seq![file_candidate(entry.name, base)]
    }
}

/// The candidates that the entries of a directory give, entry by entry.
/// `answers` holds for each entry what [`entry_candidates`] takes as targets.
pub open spec fn listing_candidates(
    entries: Seq<DirEntryView>,
    answers: Seq<Option<Seq<Seq<char>>>>,
    options: FilesystemCompletionOptions,
    base: Seq<char>,
) -> Seq<CompletionView>
    decreases entries.len(),
{
    if entries.len() == 0 || answers.len() != entries.len() {
        Seq::empty()
    } else {
        listing_candidates(entries.drop_last(), answers.drop_last(), options, base)
            + entry_candidates(entries.last(), options, base, answers.last())
    }
}

/// The names of the repositories that are offered. They are the names that
/// the mapping maps; where the mapping could not be had, the names that
/// the workspace keeps; and none without a workspace.
pub open spec fn offered_repository_names(
    workspace: Option<WorkspaceView>,
    mapping: Option<Seq<(Seq<char>, Seq<char>)>>,
) -> Seq<Seq<char>> {
    match workspace {
        Some(ws) => match mapping {
            Some(entries) => mapped_names(entries),
            None => repository_names(ws.repositories),
        },
        None => Seq::empty(),
    }
}

/// The candidates that name repositories, for the typed text.
pub open spec fn repository_candidates(
    text: Seq<char>,
    workspace: Option<WorkspaceView>,
    mapping: Option<Seq<(Seq<char>, Seq<char>)>>,
) -> Seq<CompletionView> {
    if offers_repository_names(text) {
        offered_repository_names(workspace, mapping).map_values(
            |name: Seq<char>| repository_candidate(name),
        )
    } else {
        Seq::empty()
    }
}

/// Whether a candidate comes from a listing: it is a directory, a file or a
/// target.
pub open spec fn is_listed(candidate: CompletionView) -> bool {
    candidate.kind != CompletionKind::Repository
}

/// Whether `listing` is what some directory gives: there are entries, and
/// answers of the build system for them, whose candidates it holds.
pub open spec fn is_listing(
    listing: Seq<CompletionView>,
    options: FilesystemCompletionOptions,
    base: Seq<char>,
) -> bool {
    exists|entries: Seq<DirEntryView>, answers: Seq<Option<Seq<Seq<char>>>>|
        listing == #[trigger] listing_candidates(entries, answers, options, base)
}

/// Whether `listing` is what completing the typed text from the file system
/// gives: nothing where nothing is listed, and else what some directory
/// gives, with the options and the insertion point that the text asks for.
pub open spec fn is_listing_for(
    listing: Seq<CompletionView>,
    text: Seq<char>,
    kind: StringCompletionType,
    document: LspUrlView,
) -> bool {
    match root_for(text, document) {
        Some(root) => is_listing(
            listing,
            options_for(kind, plan_for(text, kind)),
            root.render_base(),
        ),
        None => listing.len() == 0,
    }
}

/// Every candidate that a directory gives is a directory, a file or a
/// target, never the name of a repository.
pub proof fn lemma_listing_names_no_repository(
    entries: Seq<DirEntryView>,
    answers: Seq<Option<Seq<Seq<char>>>>,
    options: FilesystemCompletionOptions,
    base: Seq<char>,
)
    ensures
        forall|i: int|
            0 <= i < listing_candidates(entries, answers, options, base).len() ==> is_listed(
                #[trigger] listing_candidates(entries, answers, options, base)[i],
            ),
    decreases entries.len(),
{
    if entries.len() != 0 && answers.len() == entries.len() {
        let whole = listing_candidates(entries, answers, options, base);
        let before = listing_candidates(entries.drop_last(), answers.drop_last(), options, base);
        let added = entry_candidates(entries.last(), options, base, answers.last());
        lemma_listing_names_no_repository(entries.drop_last(), answers.drop_last(), options, base);
        assert forall|i: int| 0 <= i < whole.len() implies is_listed(#[trigger] whole[i]) by {
            if i < before.len() {
                assert(whole[i] == before[i]);
            } else {
                assert(whole[i] == added[i - before.len()]);
            }
        }
    }
}

/// What the typed text asks for.
pub fn classify(current_value: &str, kind: StringCompletionType) -> (plan: CompletionPlan)
    ensures
        plan == plan_for(current_value@, kind),
{
    let chars = chars_of(current_value);
    let starts_with_at = chars.len() > 0 && chars[0] == '@';
    let slash = has_char(&chars, '/');
    let colon = has_char(&chars, ':');
    let past_repository = !starts_with_at || contains_double_slash(&chars);
    let complete_filenames = past_repository && (!slash || colon);
    proof {
        if chars@.len() == 1 && chars@[0] == '@' {
            assert(chars@ =~= seq!['@']);
        }
        if chars@ == seq!['@'] {
            assert(chars@.len() == 1 && chars@[0] == '@');
            if chars@.contains('/') {
                let i = choose|i: int| 0 <= i < chars@.len() && chars@[i] == '/';
                assert(i == 0);
            }
        }
    }
    CompletionPlan {
        offer_repository_names: chars.len() == 0 || (starts_with_at && !slash) || (!slash
            && !colon),
        complete_directories: past_repository && !colon,
        complete_filenames,
        complete_targets: kind == StringCompletionType::String && complete_filenames,
    }
}

/// Where the listing for the typed text starts, if there is one.
pub fn completion_root(current_value: &str, document_uri: &LspUrl) -> (root: Option<
    FilesystemCompletionRoot,
>)
    ensures
        root.deep_view() == root_for(current_value@, document_uri@),
{
    let plan = classify(current_value, StringCompletionType::String);
    if !plan.complete_directories && !plan.complete_filenames {
        None
    } else if plan.complete_directories && plan.complete_filenames {
        match parent(document_uri.path()) {
            Some(dir) => Some(FilesystemCompletionRoot::Path(dir)),
            None => None,
        }
    } else {
        let chars = chars_of(current_value);
        let separator = if plan.complete_directories {
            '/'
        } else {
            ':'
        };
        assert(chars@.subrange(0, chars@.len() as int) =~= current_value@);
        match find_last(&chars, chars.len(), separator) {
            Some(i) => Some(FilesystemCompletionRoot::String(piece(current_value, 0, i + 1))),
            None => None,
        }
    }
}

/// What a listing offers for this kind of string.
pub fn filesystem_options(kind: StringCompletionType, plan: CompletionPlan) -> (options:
    FilesystemCompletionOptions)
    ensures
        options == options_for(kind, plan),
{
    FilesystemCompletionOptions {
        directories: plan.complete_directories,
        files: match kind {
            StringCompletionType::LoadPath => FilesystemFileCompletionOptions::OnlyLoadable,
            StringCompletionType::String => if plan.complete_filenames {
                FilesystemFileCompletionOptions::All
            } else {
                FilesystemFileCompletionOptions::Nothing
            },
        },
        targets: plan.complete_targets,
    }
}

/// `name` with the separator in front that [`separator_after`] asks for.
/// `written` is the separator as text.
fn with_separator(base: &str, separator: char, written: &str, name: &str) -> (text: String)
    requires
        written@ == seq![separator],
    ensures
        text@ == separator_after(base@, separator) + name@,
{
    let chars = chars_of(base);
    let n: usize = chars.len();
    if n == 0 || chars[n - 1] == separator {
        assert(name@ =~= Seq::<char>::empty() + name@);
        name.to_owned()
    } else {
        appended(written, name)
    }
}

/// The candidate for the repository called `name`.
pub fn repository_completion(name: &str) -> (candidate: StringCompletionResult)
    ensures
        candidate@ == repository_candidate(name@),
{
    proof {
        reveal_strlit("@");
        reveal_strlit("//");
    }
    let value = appended("@", name);
    let insert_text = appended(value.as_str(), "//");
    assert(value@ =~= seq!['@'] + name@);
    assert(insert_text@ =~= seq!['@'] + name@ + seq!['/', '/']);
    StringCompletionResult {
        value,
        insert_text: Some(insert_text),
        insert_text_offset: 0,
        kind: CompletionKind::Repository,
    }
}

/// The candidate for the directory called `name`, found from `base`.
pub fn folder_completion(name: &str, base: &str) -> (candidate: StringCompletionResult)
    ensures
        candidate@ == folder_candidate(name@, base@),
{
    proof {
        reveal_strlit("/");
        assert("/"@ =~= seq!['/']);
    }
    StringCompletionResult {
        value: name.to_owned(),
        insert_text: Some(with_separator(base, '/', "/", name)),
        insert_text_offset: base.len(),
        kind: CompletionKind::Folder,
    }
}

/// The candidate for the file called `name`, found from `base`.
pub fn file_completion(name: &str, base: &str) -> (candidate: StringCompletionResult)
    ensures
        candidate@ == file_candidate(name@, base@),
{
    proof {
        reveal_strlit(":");
        assert(":"@ =~= seq![':']);
    }
    StringCompletionResult {
        value: name.to_owned(),
        insert_text: Some(with_separator(base, ':', ":", name)),
        insert_text_offset: base.len(),
        kind: CompletionKind::File,
    }
}

/// The candidate for the target called `name`, found from `base`.
pub fn target_completion(name: &str, base: &str) -> (candidate: StringCompletionResult)
    ensures
        candidate@ == target_candidate(name@, base@),
{
    proof {
        reveal_strlit(":");
        assert(":"@ =~= seq![':']);
    }
    StringCompletionResult {
        value: name.to_owned(),
        insert_text: Some(with_separator(base, ':', ":", name)),
        insert_text_offset: base.len(),
        kind: CompletionKind::Target,
    }
}

/// Whether the build system is asked for the targets of `entry`.
pub fn wants_targets(entry: &DirEntry, options: &FilesystemCompletionOptions) -> (r: bool)
    ensures
        r == asks_for_targets(entry@, *options),
{
    !(entry.is_dir && options.directories) && entry.is_file && options.targets
        && FileType::from_file_name(entry.name.as_str()) == FileType::Build
}

/// Adds to `results` the candidates that `entry` gives.
pub fn push_entry_completions(
    entry: &DirEntry,
    options: &FilesystemCompletionOptions,
    base: &str,
    targets: Option<&Vec<String>>,
    results: &mut Vec<StringCompletionResult>,
)
    ensures
        final(results).deep_view() == old(results).deep_view() + entry_candidates(
            entry@,
            *options,
            base@,
            targets.deep_view(),
        ),
{
    let ghost before = results.deep_view();
    let ghost added = entry_candidates(entry@, *options, base@, targets.deep_view());
    if entry.is_dir && options.directories {
        results.push(folder_completion(entry.name.as_str(), base));
        assert(results.deep_view() =~= before + added);
        return ;
    }
    if !entry.is_file {
        assert(results.deep_view() =~= before + added);
        return ;
    }
    let file_type = FileType::from_file_name(entry.name.as_str());
    if file_type == FileType::Build {
        match targets {
            Some(names) => {
                if options.targets {
                    let n: usize = names.len();
                    let mut i: usize = 0;
                    assert(results.deep_view() =~= before + added.subrange(0, 0));
                    while i < n
                        invariant
                            i <= n,
                            n == names@.len(),
                            added == names.deep_view().map_values(
                                |name: Seq<char>| target_candidate(name, base@),
                            ),
                            results.deep_view() == before + added.subrange(0, i as int),
                        decreases n - i,
                    {
                        let ghost so_far = results.deep_view();
                        results.push(target_completion(names[i].as_str(), base));
                        assert(results.deep_view() =~= so_far.push(
                            target_candidate(names[i as int]@, base@),
                        ));
                        assert(results.deep_view() =~= before + added.subrange(0, i + 1));
                        i += 1;
                    }
                    assert(added.subrange(0, n as int) =~= added);
                } else {
                    assert(results.deep_view() =~= before + added);
                }
            },
            None => {
                assert(results.deep_view() =~= before + added);
            },
        }
        return ;
    }
    if options.files == FilesystemFileCompletionOptions::Nothing || (options.files
        == FilesystemFileCompletionOptions::OnlyLoadable && file_type != FileType::Library) {
        assert(results.deep_view() =~= before + added);
        return ;
    }
    results.push(file_completion(entry.name.as_str(), base));
    assert(results.deep_view() =~= before + added);
}

/// The names of the repositories that are offered.
pub fn repository_names_to_offer(
    workspace: Option<&BazelWorkspace>,
    mapping: Option<&RepoMapping>,
) -> (names: Vec<String>)
    ensures
        names.deep_view() == offered_repository_names(workspace.deep_view(), mapping.deep_view()),
{
    match workspace {
        Some(ws) => match mapping {
            Some(mapping) => mapping.names(),
            None => ws.get_repository_names(),
        },
        None => {
            let names: Vec<String> = Vec::new();
            assert(names.deep_view() =~= Seq::<Seq<char>>::empty());
            names
        },
    }
}

/// The candidates that name repositories, for the typed text.
pub fn repository_completions(
    current_value: &str,
    workspace: Option<&BazelWorkspace>,
    mapping: Option<&RepoMapping>,
) -> (candidates: Vec<StringCompletionResult>)
    ensures
        candidates.deep_view() == repository_candidates(
            current_value@,
            workspace.deep_view(),
            mapping.deep_view(),
        ),
{
    let mut candidates: Vec<StringCompletionResult> = Vec::new();
    let plan = classify(current_value, StringCompletionType::String);
    if !plan.offer_repository_names {
        assert(candidates.deep_view() =~= Seq::<CompletionView>::empty());
        return candidates;
    }
    let names = repository_names_to_offer(workspace, mapping);
    let ghost wanted = names.deep_view().map_values(|name: Seq<char>| repository_candidate(name));
    let n: usize = names.len();
    let mut i: usize = 0;
    assert(candidates.deep_view() =~= wanted.subrange(0, 0));
    while i < n
        invariant
            i <= n,
            n == names@.len(),
            wanted == names.deep_view().map_values(|name: Seq<char>| repository_candidate(name)),
            candidates.deep_view() == wanted.subrange(0, i as int),
        decreases n - i,
    {
        let ghost so_far = candidates.deep_view();
        candidates.push(repository_completion(names[i].as_str()));
        assert(candidates.deep_view() =~= so_far.push(repository_candidate(names[i as int]@)));
        assert(candidates.deep_view() =~= wanted.subrange(0, i + 1));
        i += 1;
    }
    assert(wanted.subrange(0, n as int) =~= wanted);
    candidates
}

} // verus!
