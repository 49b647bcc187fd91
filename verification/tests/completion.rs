use bazel_lsp::client::contents_from_read;
use bazel_lsp::client::mapping_from_answer;
use bazel_lsp::client::mapping_if_answered;
use bazel_lsp::client::pattern_for_targets;
use bazel_lsp::client::split_lines;
use bazel_lsp::client::targets_from_answer;
use bazel_lsp::client::targets_in_output;
use bazel_lsp::completion::classify;
use bazel_lsp::completion::completion_root;
use bazel_lsp::completion::file_completion;
use bazel_lsp::completion::filesystem_options;
use bazel_lsp::completion::folder_completion;
use bazel_lsp::completion::push_entry_completions;
use bazel_lsp::completion::repository_completion;
use bazel_lsp::completion::repository_completions;
use bazel_lsp::completion::repository_names_to_offer;
use bazel_lsp::completion::target_completion;
use bazel_lsp::completion::wants_targets;
use bazel_lsp::completion::CompletionKind;
use bazel_lsp::completion::CompletionPlan;
use bazel_lsp::completion::DirEntry;
use bazel_lsp::completion::FilesystemCompletionOptions;
use bazel_lsp::completion::FilesystemCompletionRoot;
use bazel_lsp::completion::FilesystemFileCompletionOptions;
use bazel_lsp::completion::StringCompletionResult;
use bazel_lsp::completion::StringCompletionType;
use bazel_lsp::context::target_name_to_find;
use bazel_lsp::error::ClientError;
use bazel_lsp::error::Error;
use bazel_lsp::error::FsError;
use bazel_lsp::error::RenderLoadError;
use bazel_lsp::error::ResolveLoadError;
use bazel_lsp::label::Label;
use bazel_lsp::render::absolute_label;
use bazel_lsp::render::locate_file;
use bazel_lsp::render::relative_label;
use bazel_lsp::render::render_as_load_with;
use bazel_lsp::resolve::candidates_for_load;
use bazel_lsp::resolve::needs_repo_mapping;
use bazel_lsp::resolve::resolve_folder_with;
use bazel_lsp::resolve::resolve_load_with;
use bazel_lsp::resolve::resolve_root;
use bazel_lsp::resolve::select_load_target;
use bazel_lsp::url::LspUrl;
use bazel_lsp::workspace::BazelWorkspace;
use bazel_lsp::workspace::RepoMapping;
use bazel_lsp::workspace::Repository;

fn plan(names: bool, directories: bool, filenames: bool, targets: bool) -> CompletionPlan {
    CompletionPlan {
        offer_repository_names: names,
        complete_directories: directories,
        complete_filenames: filenames,
        complete_targets: targets,
    }
}

fn workspace() -> BazelWorkspace {
    BazelWorkspace {
        root: "/ws".into(),
        workspace_name: Some("main".into()),
        repositories: vec![
            Repository { name: "repo".into(), path: "external/repo_dir".into() },
            Repository { name: "other~1.0".into(), path: "/out/external/other~1.0".into() },
        ],
        output_base: None,
    }
}

fn mapping(entries: &[(&str, &str)]) -> RepoMapping {
    RepoMapping {
        entries: entries.iter().map(|(from, to)| (from.to_string(), to.to_string())).collect(),
    }
}

fn build_file() -> LspUrl {
    LspUrl::File("/pkg/BUILD".into())
}

#[test]
fn classify_follows_the_typed_text() {
    let string = StringCompletionType::String;
    assert_eq!(classify("", string), plan(true, true, true, true));
    assert_eq!(classify("@", string), plan(true, false, false, false));
    assert_eq!(classify("@foo", string), plan(true, false, false, false));
    assert_eq!(classify("@foo/", string), plan(false, false, false, false));
    assert_eq!(classify("@foo//", string), plan(false, true, false, false));
    assert_eq!(classify("@foo//bar", string), plan(false, true, false, false));
    assert_eq!(classify("@foo//bar/baz", string), plan(false, true, false, false));
    assert_eq!(classify("@foo//bar:baz", string), plan(false, false, true, true));
    assert_eq!(classify("foo", string), plan(true, true, true, true));
    assert_eq!(classify("foo/bar", string), plan(false, true, false, false));
    assert_eq!(classify(":foo", string), plan(false, false, true, true));
    assert_eq!(classify("//foo:", string), plan(false, false, true, true));
    assert_eq!(classify("@foo:bar", string), plan(true, false, false, false));
    assert_eq!(classify("@foo:", string), plan(true, false, false, false));
}

#[test]
fn classify_offers_targets_only_for_plain_strings() {
    let load = StringCompletionType::LoadPath;
    assert_eq!(classify("", load), plan(true, true, true, false));
    assert_eq!(classify("//foo:", load), plan(false, false, true, false));
    assert_eq!(classify("@foo//bar", load), plan(false, true, false, false));
}

#[test]
fn completion_root_of_a_bare_word_is_the_document_directory() {
    assert_eq!(
        completion_root("", &build_file()),
        Some(FilesystemCompletionRoot::Path("/pkg".into()))
    );
    assert_eq!(
        completion_root("ma", &build_file()),
        Some(FilesystemCompletionRoot::Path("/pkg".into()))
    );
    assert_eq!(
        completion_root("ma", &LspUrl::Starlark("/native/x.bzl".into())),
        Some(FilesystemCompletionRoot::Path("/native".into()))
    );
    assert_eq!(completion_root("ma", &LspUrl::File("/".into())), None);
}

#[test]
fn completion_root_of_typed_text_ends_at_the_last_separator() {
    assert_eq!(
        completion_root("@repo//", &build_file()),
        Some(FilesystemCompletionRoot::String("@repo//".into()))
    );
    assert_eq!(
        completion_root("@repo//a/b", &build_file()),
        Some(FilesystemCompletionRoot::String("@repo//a/".into()))
    );
    assert_eq!(
        completion_root("//pkg:ma", &build_file()),
        Some(FilesystemCompletionRoot::String("//pkg:".into()))
    );
    assert_eq!(
        completion_root("//a:b:c", &build_file()),
        Some(FilesystemCompletionRoot::String("//a:b:".into()))
    );
    assert_eq!(
        completion_root(":ma", &build_file()),
        Some(FilesystemCompletionRoot::String(":".into()))
    );
    assert_eq!(
        completion_root("a/b", &build_file()),
        Some(FilesystemCompletionRoot::String("a/".into()))
    );
    assert_eq!(completion_root("@repo", &build_file()), None);
    assert_eq!(completion_root("@repo/", &build_file()), None);
    assert_eq!(completion_root("@", &build_file()), None);
}

#[test]
fn filesystem_options_by_kind() {
    let string = StringCompletionType::String;
    let load = StringCompletionType::LoadPath;
    assert_eq!(
        filesystem_options(string, classify("//foo:", string)),
        FilesystemCompletionOptions {
            directories: false,
            files: FilesystemFileCompletionOptions::All,
            targets: true
        }
    );
    assert_eq!(
        filesystem_options(string, classify("//foo/", string)),
        FilesystemCompletionOptions {
            directories: true,
            files: FilesystemFileCompletionOptions::Nothing,
            targets: false
        }
    );
    assert_eq!(
        filesystem_options(load, classify("//foo/", load)),
        FilesystemCompletionOptions {
            directories: true,
            files: FilesystemFileCompletionOptions::OnlyLoadable,
            targets: false
        }
    );
    assert_eq!(
        filesystem_options(load, classify("//foo:", load)),
        FilesystemCompletionOptions {
            directories: false,
            files: FilesystemFileCompletionOptions::OnlyLoadable,
            targets: false
        }
    );
}

fn candidate(value: &str, insert: &str, offset: usize, kind: CompletionKind) -> StringCompletionResult {
    StringCompletionResult {
        value: value.into(),
        insert_text: Some(insert.into()),
        insert_text_offset: offset,
        kind,
    }
}

#[test]
fn candidates_carry_separator_and_offset() {
    assert_eq!(
        repository_completion("rules_rust"),
        candidate("@rules_rust", "@rules_rust//", 0, CompletionKind::Repository)
    );
    assert_eq!(folder_completion("rust", "@r//"), candidate("rust", "rust", 4, CompletionKind::Folder));
    assert_eq!(folder_completion("rust", "@r//a"), candidate("rust", "/rust", 5, CompletionKind::Folder));
    assert_eq!(folder_completion("rust", ""), candidate("rust", "rust", 0, CompletionKind::Folder));
    assert_eq!(file_completion("main.cc", "//pkg:"), candidate("main.cc", "main.cc", 6, CompletionKind::File));
    assert_eq!(file_completion("main.cc", "//pkg"), candidate("main.cc", ":main.cc", 5, CompletionKind::File));
    assert_eq!(file_completion("main.cc", ""), candidate("main.cc", "main.cc", 0, CompletionKind::File));
    assert_eq!(target_completion("main", "//pkg:"), candidate("main", "main", 6, CompletionKind::Target));
    assert_eq!(target_completion("main", "//pkg"), candidate("main", ":main", 5, CompletionKind::Target));
    assert_eq!(target_completion("main", ""), candidate("main", "main", 0, CompletionKind::Target));
}

#[test]
fn insertion_offset_counts_bytes() {
    assert_eq!(file_completion("x", "//päck:").insert_text_offset, "//päck:".len());
    assert_eq!(file_completion("x", "//päck:").insert_text_offset, 8);
    assert_eq!(folder_completion("x", "//é/").insert_text_offset, 5);
}

#[test]
fn completion_result_clone_is_equal() {
    let first = candidate("a", "b", 3, CompletionKind::Target);
    assert_eq!(first.clone(), first);
    let bare = StringCompletionResult {
        value: "a".into(),
        insert_text: None,
        insert_text_offset: 0,
        kind: CompletionKind::File,
    };
    assert_eq!(bare.clone(), bare);
}

#[test]
fn pattern_for_targets_is_the_root_and_a_star() {
    assert_eq!(pattern_for_targets("//pkg:"), "//pkg:*");
    assert_eq!(pattern_for_targets("//pkg"), "//pkg*");
    assert_eq!(pattern_for_targets(""), "*");
}

fn entry(name: &str, is_dir: bool, is_file: bool) -> DirEntry {
    DirEntry { name: name.into(), is_dir, is_file }
}

const EVERYTHING: FilesystemCompletionOptions = FilesystemCompletionOptions {
    directories: true,
    files: FilesystemFileCompletionOptions::All,
    targets: true,
};

#[test]
fn targets_are_asked_for_build_files_only() {
    assert!(wants_targets(&entry("BUILD", false, true), &EVERYTHING));
    assert!(wants_targets(&entry("BUILD.bazel", false, true), &EVERYTHING));
    assert!(!wants_targets(&entry("BUILD", true, false), &EVERYTHING));
    assert!(!wants_targets(&entry("BUILD", false, false), &EVERYTHING));
    assert!(!wants_targets(&entry("main.cc", false, true), &EVERYTHING));
    let no_targets = FilesystemCompletionOptions { targets: false, ..EVERYTHING };
    assert!(!wants_targets(&entry("BUILD", false, true), &no_targets));
    let no_directories = FilesystemCompletionOptions { directories: false, ..EVERYTHING };
    assert!(wants_targets(&entry("BUILD", true, true), &no_directories));
    assert!(!wants_targets(&entry("BUILD", true, true), &EVERYTHING));
}

fn pushed(
    entry: &DirEntry,
    options: &FilesystemCompletionOptions,
    base: &str,
    targets: Option<&Vec<String>>,
) -> Vec<StringCompletionResult> {
    let mut results = Vec::new();
    push_entry_completions(entry, options, base, targets, &mut results);
    results
}

#[test]
fn entry_completions_by_kind_of_entry() {
    let targets = vec!["main".to_string(), "lib".to_string()];
    assert_eq!(
        pushed(&entry("sub", true, false), &EVERYTHING, "//pkg/", None),
        vec![candidate("sub", "sub", 6, CompletionKind::Folder)]
    );
    assert_eq!(
        pushed(&entry("main.cc", false, true), &EVERYTHING, "//pkg:", None),
        vec![candidate("main.cc", "main.cc", 6, CompletionKind::File)]
    );
    assert_eq!(
        pushed(&entry("BUILD", false, true), &EVERYTHING, "//pkg:", Some(&targets)),
        vec![
            candidate("main", "main", 6, CompletionKind::Target),
            candidate("lib", "lib", 6, CompletionKind::Target)
        ]
    );
    assert_eq!(pushed(&entry("BUILD", false, true), &EVERYTHING, "//pkg:", None), Vec::new());
    assert_eq!(pushed(&entry("socket", false, false), &EVERYTHING, "//pkg:", None), Vec::new());
    assert_eq!(
        pushed(&entry("main.cc", false, true), &EVERYTHING, "//pkg:", Some(&targets)),
        vec![candidate("main.cc", "main.cc", 6, CompletionKind::File)]
    );
}

#[test]
fn entry_completions_follow_the_options() {
    let targets = vec!["main".to_string()];
    let files_only = FilesystemCompletionOptions {
        directories: false,
        files: FilesystemFileCompletionOptions::All,
        targets: false,
    };
    assert_eq!(pushed(&entry("sub", true, false), &files_only, "", None), Vec::new());
    assert_eq!(pushed(&entry("BUILD", false, true), &files_only, "", Some(&targets)), Vec::new());
    assert_eq!(
        pushed(&entry("main.cc", false, true), &files_only, "", None),
        vec![candidate("main.cc", "main.cc", 0, CompletionKind::File)]
    );

    let loadable = FilesystemCompletionOptions {
        directories: true,
        files: FilesystemFileCompletionOptions::OnlyLoadable,
        targets: false,
    };
    assert_eq!(pushed(&entry("main.cc", false, true), &loadable, "//p:", None), Vec::new());
    assert_eq!(
        pushed(&entry("defs.bzl", false, true), &loadable, "//p:", None),
        vec![candidate("defs.bzl", "defs.bzl", 4, CompletionKind::File)]
    );

    let nothing = FilesystemCompletionOptions {
        directories: true,
        files: FilesystemFileCompletionOptions::Nothing,
        targets: false,
    };
    assert_eq!(pushed(&entry("defs.bzl", false, true), &nothing, "//p/", None), Vec::new());
    assert_eq!(
        pushed(&entry("sub", true, true), &nothing, "//p", None),
        vec![candidate("sub", "/sub", 3, CompletionKind::Folder)]
    );
}

#[test]
fn entry_completions_are_added_behind_what_is_there() {
    let mut results = vec![candidate("@r", "@r//", 0, CompletionKind::Repository)];
    push_entry_completions(&entry("a.bzl", false, true), &EVERYTHING, "", None, &mut results);
    assert_eq!(
        results,
        vec![
            candidate("@r", "@r//", 0, CompletionKind::Repository),
            candidate("a.bzl", "a.bzl", 0, CompletionKind::File)
        ]
    );
}

#[test]
fn repository_names_come_from_the_mapping_or_the_workspace() {
    let ws = workspace();
    let map = mapping(&[("", ""), ("rules_rust", "rules_rust~0.36.2")]);
    assert_eq!(repository_names_to_offer(Some(&ws), Some(&map)), vec!["rules_rust"]);
    assert_eq!(repository_names_to_offer(Some(&ws), None), vec!["repo", "other~1.0"]);
    assert_eq!(repository_names_to_offer(None, Some(&map)), Vec::<String>::new());
    assert_eq!(repository_names_to_offer(None, None), Vec::<String>::new());
}

#[test]
fn repository_completions_only_where_names_are_offered() {
    let ws = workspace();
    let map = mapping(&[("", ""), ("rules_rust", "rules_rust~0.36.2")]);
    assert_eq!(
        repository_completions("@rules_ru", Some(&ws), Some(&map)),
        vec![candidate("@rules_rust", "@rules_rust//", 0, CompletionKind::Repository)]
    );
    assert_eq!(
        repository_completions("", Some(&ws), None),
        vec![
            candidate("@repo", "@repo//", 0, CompletionKind::Repository),
            candidate("@other~1.0", "@other~1.0//", 0, CompletionKind::Repository)
        ]
    );
    assert_eq!(repository_completions("@repo//", Some(&ws), Some(&map)), Vec::new());
    assert_eq!(repository_completions("//pkg:", Some(&ws), None), Vec::new());
    assert_eq!(repository_completions("@", None, None), Vec::new());
}

#[test]
fn lines_split_at_line_feeds() {
    assert_eq!(split_lines(""), Vec::<String>::new());
    assert_eq!(split_lines("a"), vec!["a"]);
    assert_eq!(split_lines("a\n"), vec!["a"]);
    assert_eq!(split_lines("a\nb"), vec!["a", "b"]);
    assert_eq!(split_lines("a\r\nb\r\n"), vec!["a", "b"]);
    assert_eq!(split_lines("a\n\nb"), vec!["a", "", "b"]);
    assert_eq!(split_lines("\n"), vec![""]);
    assert_eq!(split_lines("a\r"), vec!["a\r"]);
    assert_eq!(split_lines("a\r\r\n"), vec!["a\r"]);
    assert_eq!(split_lines("\r\n"), vec![""]);
}

#[test]
fn targets_are_the_lines_that_begin_with_the_module() {
    assert_eq!(targets_in_output("//foo:main\n", "//foo:"), vec!["main"]);
    assert_eq!(
        targets_in_output("//foo:main\n//bar:x\n//foo:lib\n//foo\n", "//foo:"),
        vec!["main", "lib"]
    );
    assert_eq!(targets_in_output("", "//foo:"), Vec::<String>::new());
    assert_eq!(targets_in_output("//foo:main\n", ":"), Vec::<String>::new());
    assert_eq!(targets_in_output("a\nb\n", ""), vec!["a", "b"]);
}

#[test]
fn a_failed_query_lists_no_targets() {
    assert_eq!(
        targets_from_answer(Ok("//foo:main\n//bar:x\n//foo:lib".into()), "//foo:"),
        Some(vec!["main".to_string(), "lib".to_string()])
    );
    assert_eq!(targets_from_answer(Ok("".into()), "//foo:"), Some(Vec::new()));
    assert_eq!(
        targets_from_answer(Err(ClientError { message: "no bazel".into() }), "//foo:"),
        None
    );
}

#[test]
fn a_failed_mapping_is_the_empty_mapping() {
    let told = mapping(&[("rules_rust", "rules_rust~0.36.2")]);
    assert_eq!(mapping_from_answer(Ok(mapping(&[("rules_rust", "rules_rust~0.36.2")]))), told);
    assert_eq!(
        mapping_from_answer(Err(ClientError { message: "no bazel".into() })),
        RepoMapping::new()
    );
    assert_eq!(mapping_from_answer(Err(ClientError { message: "x".into() })).entries.len(), 0);
    assert_eq!(
        mapping_if_answered(Ok(mapping(&[("rules_rust", "rules_rust~0.36.2")]))),
        Some(told)
    );
    assert_eq!(mapping_if_answered(Ok(RepoMapping::new())), Some(RepoMapping::new()));
    assert_eq!(mapping_if_answered(Err(ClientError { message: "no bazel".into() })), None);
}

#[test]
fn reading_a_missing_file_is_no_error() {
    assert_eq!(contents_from_read(Ok("text".into())), Ok(Some("text".to_string())));
    assert_eq!(contents_from_read(Err(FsError::NotFound)), Ok(None));
    assert_eq!(
        contents_from_read(Err(FsError::Other("boom".into()))),
        Err(Error::FileSystem(FsError::Other("boom".into())))
    );
}

#[test]
fn resolve_root_by_precedence() {
    let ws = workspace();
    let identity = RepoMapping::new();
    let in_root = LspUrl::File("/ws/pkg/BUILD".into());
    let in_other = LspUrl::File("/out/external/other~1.0/pkg/BUILD".into());
    let plain = Label::parse("//a:b").unwrap();

    assert_eq!(resolve_root(&plain, &in_root, Some(&ws), &identity), Ok(Some("/ws".to_string())));
    assert_eq!(
        resolve_root(&plain, &in_other, Some(&ws), &identity),
        Ok(Some("/out/external/other~1.0".to_string()))
    );
    assert_eq!(
        resolve_root(&plain, &LspUrl::Starlark("/out/external/other~1.0/x".into()), Some(&ws), &identity),
        Ok(Some("/ws".to_string()))
    );
    assert_eq!(resolve_root(&plain, &in_root, None, &identity), Ok(None));

    let own = Label::parse("@main//a:b").unwrap();
    assert_eq!(resolve_root(&own, &in_other, Some(&ws), &identity), Ok(Some("/ws".to_string())));
    let kept = Label::parse("@repo//a:b").unwrap();
    assert_eq!(
        resolve_root(&kept, &in_root, Some(&ws), &identity),
        Ok(Some("external/repo_dir".to_string()))
    );
    let mapped = Label::parse("@other//a:b").unwrap();
    assert_eq!(
        resolve_root(&mapped, &in_root, Some(&ws), &mapping(&[("other", "other~1.0")])),
        Ok(Some("/out/external/other~1.0".to_string()))
    );
    assert_eq!(
        resolve_root(&mapped, &in_root, Some(&ws), &mapping(&[("other", "main")])),
        Ok(Some("/ws".to_string()))
    );
    assert_eq!(
        resolve_root(&mapped, &in_root, Some(&ws), &identity),
        Err(ResolveLoadError::UnknownRepository(mapped.clone(), "other".into()))
    );
    assert_eq!(
        resolve_root(&kept, &in_root, Some(&ws), &mapping(&[("repo", "gone")])),
        Err(ResolveLoadError::UnknownRepository(kept.clone(), "repo".into()))
    );
    assert_eq!(
        resolve_root(&kept, &in_root, None, &identity),
        Err(ResolveLoadError::UnknownRepository(kept.clone(), "repo".into()))
    );
}

#[test]
fn resolve_folder_with_and_without_package() {
    let ws = workspace();
    let identity = RepoMapping::new();
    let current = LspUrl::File("/ws/pkg/BUILD".into());

    assert_eq!(
        resolve_folder_with(&Label::parse("//a/b:c").unwrap(), &current, Some(&ws), &identity),
        Ok("/ws/a/b".to_string())
    );
    assert_eq!(
        resolve_folder_with(&Label::parse("@repo//").unwrap(), &current, Some(&ws), &identity),
        Ok("external/repo_dir/".to_string())
    );
    assert_eq!(
        resolve_folder_with(&Label::parse(":x").unwrap(), &current, Some(&ws), &identity),
        Ok("/ws/pkg".to_string())
    );
    assert_eq!(
        resolve_folder_with(&Label::parse("x").unwrap(), &current, None, &identity),
        Ok("/ws/pkg".to_string())
    );
    let absolute = Label::parse("//a:b").unwrap();
    assert_eq!(
        resolve_folder_with(&absolute, &current, None, &identity),
        Err(ResolveLoadError::MissingWorkspaceRoot(absolute.clone()))
    );
    let relative = Label::parse(":x").unwrap();
    assert_eq!(
        resolve_folder_with(&relative, &LspUrl::Other("/o".into()), Some(&ws), &identity),
        Err(ResolveLoadError::MissingCurrentFilePath(relative.clone()))
    );
    assert_eq!(
        resolve_folder_with(&relative, &LspUrl::File("".into()), Some(&ws), &identity),
        Err(ResolveLoadError::MissingCurrentFilePath(relative.clone()))
    );
    let odd = Label { repo: Some("nowhere".into()), package: None, name: "x".into() };
    assert_eq!(
        resolve_folder_with(&odd, &current, Some(&ws), &identity),
        Err(ResolveLoadError::UnknownRepository(odd.clone(), "nowhere".into()))
    );
}

#[test]
fn repo_mapping_is_needed_for_repositories_in_a_workspace() {
    let ws = workspace();
    assert!(needs_repo_mapping(&Label::parse("@repo//a").unwrap(), Some(&ws)));
    assert!(!needs_repo_mapping(&Label::parse("@repo//a").unwrap(), None));
    assert!(!needs_repo_mapping(&Label::parse("//a").unwrap(), Some(&ws)));
    assert!(!needs_repo_mapping(&Label::parse(":a").unwrap(), Some(&ws)));
}

#[test]
fn load_candidates_in_order() {
    assert_eq!(
        candidates_for_load("/ws/pkg", "x"),
        vec!["/ws/pkg/x", "/ws/pkg/BUILD", "/ws/pkg/BUILD.bazel"]
    );
    assert_eq!(candidates_for_load("/ws/", ""), vec!["/ws/", "/ws/BUILD", "/ws/BUILD.bazel"]);
}

#[test]
fn load_target_is_the_first_that_exists() {
    let candidates = candidates_for_load("/ws/pkg", "x");
    let file = |path: &str| Ok(LspUrl::File(path.to_string()));
    assert_eq!(select_load_target(&candidates, &vec![true], "t"), file("/ws/pkg/x"));
    assert_eq!(select_load_target(&candidates, &vec![true, true, true], "t"), file("/ws/pkg/x"));
    assert_eq!(select_load_target(&candidates, &vec![false, true], "t"), file("/ws/pkg/BUILD"));
    assert_eq!(
        select_load_target(&candidates, &vec![false, false, true], "t"),
        file("/ws/pkg/BUILD.bazel")
    );
    assert_eq!(
        select_load_target(&candidates, &vec![false, false, false], "t"),
        Err(ResolveLoadError::TargetNotFound("t".into()))
    );
    assert_eq!(
        select_load_target(&candidates, &vec![false, false, false, true], "t"),
        Err(ResolveLoadError::TargetNotFound("t".into()))
    );
    assert_eq!(
        select_load_target(&candidates, &Vec::new(), "t"),
        Err(ResolveLoadError::TargetNotFound("t".into()))
    );
    assert_eq!(
        select_load_target(&Vec::new(), &vec![true], "t"),
        Err(ResolveLoadError::TargetNotFound("t".into()))
    );
}

#[test]
fn relative_target_resolves_into_the_package_of_the_current_file() {
    let current = LspUrl::File("pkg/BUILD".into());
    assert_eq!(
        resolve_load_with("x", &current, None, &RepoMapping::new(), &vec![true]),
        Ok(LspUrl::File("pkg/x".into()))
    );
    assert_eq!(
        resolve_load_with("x", &current, Some(&workspace()), &RepoMapping::new(), &vec![true]),
        Ok(LspUrl::File("pkg/x".into()))
    );
    assert_eq!(
        resolve_load_with("x", &current, None, &RepoMapping::new(), &vec![false, false, false]),
        Err(Error::ResolveLoad(ResolveLoadError::TargetNotFound("x".into())))
    );
}

#[test]
fn unknown_repository_fails_whatever_exists() {
    let ws = workspace();
    let current = LspUrl::File("/ws/BUILD".into());
    let label = Label { repo: Some("unknown".into()), package: Some("".into()), name: "x".into() };
    for answers in [vec![], vec![true], vec![false, true], vec![true, true, true]] {
        assert_eq!(
            resolve_load_with("@unknown//:x", &current, Some(&ws), &RepoMapping::new(), &answers),
            Err(Error::ResolveLoad(ResolveLoadError::UnknownRepository(
                label.clone(),
                "unknown".into()
            )))
        );
        assert_eq!(
            resolve_load_with("@unknown//:x", &current, None, &RepoMapping::new(), &answers),
            Err(Error::ResolveLoad(ResolveLoadError::UnknownRepository(
                label.clone(),
                "unknown".into()
            )))
        );
    }
}

#[test]
fn render_beside_and_across() {
    let ws = workspace();
    let current = LspUrl::File("/ws/pkg/BUILD".into());
    let render = |target: &str, workspace: Option<&BazelWorkspace>, root: Option<&str>| {
        render_as_load_with(&LspUrl::File(target.into()), &current, workspace, root)
    };
    assert_eq!(render("/ws/pkg/bar.bzl", None, None), Ok(":bar.bzl".to_string()));
    assert_eq!(render("/ws/pkg/bar.bzl", Some(&ws), Some("/ws")), Ok(":bar.bzl".to_string()));
    assert_eq!(render("/ws/other/bar.bzl", Some(&ws), Some("/ws")), Ok("@//other:bar.bzl".to_string()));
    assert_eq!(render("/ws/bar.bzl", Some(&ws), Some("/ws")), Ok("@//:bar.bzl".to_string()));
    assert_eq!(
        render("/out/external/other~1.0/a/b/c.bzl", Some(&ws), Some("/ws")),
        Ok("@other~1.0//a/b:c.bzl".to_string())
    );
    assert_eq!(render("/ws/other/bar.bzl", None, None), Ok("@///ws/other:bar.bzl".to_string()));
    assert_eq!(
        render("/ws/other/bar.bzl", Some(&ws), Some("/elsewhere")),
        Ok("@///ws/other:bar.bzl".to_string())
    );
    assert_eq!(
        render("/ws/pkg/..", None, None),
        Err(RenderLoadError::MissingTargetFilename("/ws/pkg/..".into()))
    );
    assert_eq!(
        render("/ws", Some(&ws), Some("/ws")),
        Err(RenderLoadError::MissingTargetFilename("".into()))
    );
}

#[test]
fn locate_file_prefers_the_repository() {
    let ws = workspace();
    assert_eq!(
        locate_file("/out/external/other~1.0/a.bzl", Some(&ws), Some("/out")),
        (Some("other~1.0".to_string()), "a.bzl".to_string())
    );
    assert_eq!(
        locate_file("/out/x/a.bzl", Some(&ws), Some("/out")),
        (None, "x/a.bzl".to_string())
    );
    assert_eq!(locate_file("/out/x/a.bzl", Some(&ws), None), (None, "/out/x/a.bzl".to_string()));
    assert_eq!(locate_file("/out/x/a.bzl", None, Some("/ws")), (None, "/out/x/a.bzl".to_string()));
}

#[test]
fn label_texts() {
    assert_eq!(relative_label("bar.bzl"), ":bar.bzl");
    assert_eq!(absolute_label("repo", "a/b", "c.bzl"), "@repo//a/b:c.bzl");
    assert_eq!(absolute_label("", "", "c.bzl"), "@//:c.bzl");
}

#[test]
fn target_to_find_is_the_label_name_unless_the_file_is_meant() {
    let build = LspUrl::File("/ws/foo/BUILD".into());
    assert_eq!(target_name_to_find("//foo:main", &build), Some("main".to_string()));
    assert_eq!(target_name_to_find("//foo", &build), Some("foo".to_string()));
    assert_eq!(target_name_to_find("BUILD", &build), None);
    assert_eq!(target_name_to_find("foo/BUILD", &build), None);
    assert_eq!(target_name_to_find("@broken", &build), None);
    assert_eq!(target_name_to_find("", &LspUrl::File("/".into())), None);
}
