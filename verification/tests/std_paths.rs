use std::path::Path;

use bazel_lsp::path::components;
use bazel_lsp::path::file_name;
use bazel_lsp::path::is_absolute;
use bazel_lsp::path::is_same_path;
use bazel_lsp::path::join;
use bazel_lsp::path::parent;
use bazel_lsp::path::relative_to;

fn text(path: &Path) -> String {
    path.to_string_lossy().into_owned()
}

/// Paths of every shape: empty and doubled separators, `.` and `..`, with and
/// without a root.
fn any_paths() -> Vec<&'static str> {
    vec![
        "", "/", "a", "b", ".", "..", "/a", "a/", "a/b", "/a/b", "a//b", "a/./b", "./a", "../a",
        "a/..", "a/.", "/.", "/..", "//", "//a", "a/b/", "a/b/.", "a/b/..", ".a", "a.", "a/.b",
        "/a/b/c.bzl", "./", "./.", "/a/", "a/b//", ".//a", "a/b/./", "/./a", "/a/./", "...",
        "a/...", "//a//b//", "/a/b/../c", "/ws/pkg/BUILD", "/out/external/foo~1.0/x.bzl",
        "/b", "/ab", "/a/bc", "/a/b/c", "a/b/c/d", "/ws", "/ws/pkg", "/ws/pkgs", "/ws//pkg/",
        "/out/external/foo", "/out/external/foobar", "/out/./external/foo/", "ws", "./ws/pkg",
    ]
}


#[test]
fn parent_agrees_with_std() {
    for path in any_paths() {
        assert_eq!(parent(path), Path::new(path).parent().map(text), "parent of {:?}", path);
    }
}

#[test]
fn file_name_agrees_with_std() {
    for path in any_paths() {
        assert_eq!(
            file_name(path),
            Path::new(path).file_name().map(|name| name.to_string_lossy().into_owned()),
            "file name of {:?}",
            path
        );
    }
}

#[test]
fn join_agrees_with_std() {
    for base in any_paths() {
        for rest in any_paths() {
            assert_eq!(
                join(base, rest),
                text(&Path::new(base).join(rest)),
                "{:?} joined with {:?}",
                base,
                rest
            );
        }
    }
}

#[test]
fn is_absolute_agrees_with_std() {
    for path in any_paths() {
        assert_eq!(is_absolute(path), Path::new(path).is_absolute(), "{:?}", path);
    }
}

#[test]
fn relative_to_agrees_with_std() {
    for path in any_paths() {
        for base in any_paths() {
            assert_eq!(
                relative_to(path, base),
                Path::new(path).strip_prefix(base).ok().map(text),
                "{:?} as seen from {:?}",
                path,
                base
            );
        }
    }
}

#[test]
fn same_path_agrees_with_std() {
    for a in any_paths() {
        for b in any_paths() {
            assert_eq!(is_same_path(a, b), Path::new(a) == Path::new(b), "{:?} and {:?}", a, b);
        }
    }
}

#[test]
fn components_agree_with_std() {
    for path in any_paths() {
        let theirs: Vec<String> = Path::new(path)
            .components()
            .map(|part| part.as_os_str().to_string_lossy().into_owned())
            .collect();
        assert_eq!(components(path), theirs, "parts of {:?}", path);
    }
}

#[test]
fn same_directory_agrees_with_std() {
    for a in any_paths() {
        for b in any_paths() {
            let ours = match (parent(a), parent(b)) {
                (Some(x), Some(y)) => is_same_path(&x, &y),
                _ => false,
            };
            let theirs = match (Path::new(a).parent(), Path::new(b).parent()) {
                (Some(x), Some(y)) => x == y,
                _ => false,
            };
            assert_eq!(ours, theirs, "{:?} beside {:?}", a, b);
        }
    }
}

#[test]
fn ancestors_agree_with_std() {
    for path in any_paths() {
        let theirs: Vec<String> = Path::new(path).ancestors().skip(1).map(text).collect();
        assert_eq!(bazel_lsp::path::ancestors(path), theirs, "above {:?}", path);
    }
}

#[test]
fn library_files_have_the_extension_bzl() {
    let names = [
        "defs.bzl", ".bzl", "..bzl", "a.bzl", "bzl", "a.bzl.txt", "a.BZL", "BUILD", "a.", "a.b.bzl",
        "", ".", "..", "x.bzlx", ".hidden.bzl",
    ];
    for name in names {
        let theirs = Path::new(name).extension().map(|e| e == "bzl").unwrap_or(false);
        let ours = bazel_lsp::file_type::FileType::from_file_name(name)
            == bazel_lsp::file_type::FileType::Library;
        assert_eq!(ours, theirs, "{:?}", name);
    }
}
