use bazel_lsp::client::split_lines;
use bazel_lsp::client::targets_in_output;
use bazel_lsp::completion::classify;
use bazel_lsp::completion::completion_root;
use bazel_lsp::completion::CompletionPlan;
use bazel_lsp::completion::FilesystemCompletionRoot;
use bazel_lsp::completion::StringCompletionType;
use bazel_lsp::url::LspUrl;

fn typed_texts() -> Vec<&'static str> {
    vec![
        "", "@", "@@", "@f", "@foo", "@foo/", "@foo//", "@foo//bar", "@foo//bar/", "@foo//bar/baz",
        "@foo//bar:", "@foo//bar:baz", "@foo:bar", "@foo:", "@/", "@//", "@//:", "foo", "foo/",
        "foo/bar", "foo:bar", ":", ":foo", ":foo/bar", "/", "//", "//foo", "//foo/", "//foo:",
        "//foo:bar", "//foo:bar/baz", "//foo:bar:baz", "///", "a//b", "a/b//", "päck", "@päck//é:",
        "//päck/é", "@a/b//c", "@a/b//c:d",
    ]
}

#[test]
fn classification_is_the_rule_as_written() {
    for text in typed_texts() {
        for kind in [StringCompletionType::String, StringCompletionType::LoadPath] {
            let past_repository = !text.starts_with('@') || text.contains("//");
            let filenames = past_repository && (!text.contains('/') || text.contains(':'));
            let expected = CompletionPlan {
                offer_repository_names: text.is_empty()
                    || text == "@"
                    || (text.starts_with('@') && !text.contains('/'))
                    || (!text.contains('/') && !text.contains(':')),
                complete_directories: past_repository && !text.contains(':'),
                complete_filenames: filenames,
                complete_targets: kind == StringCompletionType::String && filenames,
            };
            assert_eq!(classify(text, kind), expected, "{:?}", text);
        }
    }
}

#[test]
fn completion_root_ends_at_the_last_separator_of_the_text() {
    let document = LspUrl::File("/ws/pkg/BUILD".into());
    for text in typed_texts() {
        let plan = classify(text, StringCompletionType::String);
        let expected = if !plan.complete_directories && !plan.complete_filenames {
            None
        } else if plan.complete_directories && plan.complete_filenames {
            Some(FilesystemCompletionRoot::Path("/ws/pkg".into()))
        } else {
            text.rfind(if plan.complete_directories { '/' } else { ':' })
                .map(|pos| FilesystemCompletionRoot::String(text[..pos + 1].to_string()))
        };
        assert_eq!(completion_root(text, &document), expected, "{:?}", text);
    }
}

fn outputs() -> Vec<&'static str> {
    vec![
        "", "\n", "\r\n", "a", "a\n", "a\nb", "a\r\nb\r\n", "a\n\nb", "a\r", "a\r\r\n", "\n\n",
        "//foo:main\n", "//foo:main\n//foo:lib\n//bar:x\n", "//foo:main\r\n//foo:\r\n", "\r",
        "//päck:é\n//päck:ü", "x\ry\nz",
    ]
}

#[test]
fn lines_agree_with_std() {
    for output in outputs() {
        let theirs: Vec<String> = output.lines().map(|line| line.to_string()).collect();
        assert_eq!(split_lines(output), theirs, "{:?}", output);
    }
}

#[test]
fn targets_are_the_stripped_lines() {
    for output in outputs() {
        for module in ["//foo:", "//päck:", "", ":", "a", "//foo"] {
            let theirs: Vec<String> = output
                .lines()
                .filter_map(|line| line.strip_prefix(module).map(|rest| rest.to_owned()))
                .collect();
            assert_eq!(targets_in_output(output, module), theirs, "{:?} {:?}", output, module);
        }
    }
}
