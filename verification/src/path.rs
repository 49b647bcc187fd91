//! Paths as text.
//!
//! A path is a sequence of characters in which `/` separates the segments. The
//! functions here work on the text alone and never look at a disk. A path
//! that begins with `/` is absolute. Empty segments do not count, and neither
//! do `.` segments but for one at the very beginning; `..` is kept as
//! written.

use vstd::prelude::*;
use vstd::string::StrSliceExecFns;

use crate::text::chars_of;
use crate::text::appended;
use crate::text::find_last;
use crate::text::piece;
use crate::text::starts_with_char;
use crate::text::tail;

verus! {

/// `path` without what does not count at its end: separators and `.`
/// segments. A lone `/` and a lone `.` stay.
pub open spec fn trim_end(path: Seq<char>) -> Seq<char>
    decreases path.len(),
{
    if path.len() >= 2 && path.last() == '/' {
        trim_end(path.drop_last())
    } else if path.len() >= 2 && path.last() == '.' && path[path.len() - 2] == '/' {
        trim_end(path.drop_last())
    } else {
        path
    }
}

/// What follows the last separator of `path`; all of `path` if it has none.
pub open spec fn last_segment(path: Seq<char>) -> Seq<char> {
    match path.index_of_last('/') {
        Some(i) => tail(path, i + 1),
        None => path,
    }
}

/// The name of the file or directory that `path` ends in. There is none where
/// the path is empty, is the root, or ends in `.` or `..`.
pub open spec fn path_file_name(path: Seq<char>) -> Option<Seq<char>> {
    let name = last_segment(trim_end(path));
    if name.len() == 0 || name == seq!['.'] || name == seq!['.', '.'] {
        None
    } else {
        Some(name)
    }
}

/// The directory that holds `path`: the path without its last segment. The
/// empty path and the root have none; a single relative segment has the empty
/// path.
pub open spec fn path_parent(path: Seq<char>) -> Option<Seq<char>> {
    let trimmed = trim_end(path);
    if trimmed.len() == 0 {
        None
    } else {
        match trimmed.index_of_last('/') {
            None => Some(Seq::empty()),
            Some(i) => if trimmed.len() == 1 {
                None
            } else {
                Some(trim_end(trimmed.subrange(0, i + 1)))
            },
        }
    }
}

/// `rest` put below `base`. An absolute `rest` stands for itself; otherwise a
/// separator is put between the two unless `base` is empty or ends in one.
pub open spec fn path_join(base: Seq<char>, rest: Seq<char>) -> Seq<char> {
    if starts_with_char(rest, '/') {
        rest
    } else if base.len() > 0 && base.last() != '/' {
        base + seq!['/'] + rest
    } else {
        base + rest
    }
}

/// The parts that `path` is made of: the root `/` where the path begins with
/// it, then the segments that count.
pub open spec fn path_components(path: Seq<char>) -> Seq<Seq<char>>
    decreases path.len(),
    via path_components_decreases
{
    match path_parent(path) {
        Some(dir) => path_components(dir).push(last_segment(trim_end(path))),
        None => if path.len() == 0 {
            Seq::empty()
        } else {
            seq![seq!['/']]
        },
    }
}

#[via_fn]
proof fn path_components_decreases(path: Seq<char>) {
    lemma_parent_is_shorter(path);
}

/// Whether two paths name the same place: they are made of the same parts.
pub open spec fn same_path(a: Seq<char>, b: Seq<char>) -> bool {
    path_components(a) == path_components(b)
}

/// `path` as seen from the directory `base`, where it lies at or below it:
/// what `path` holds from the first part on that it has beyond those of
/// `base`, up to the end of its last part. It is empty where the two name
/// the same place. There is none where `path` does not begin with the parts
/// of `base`.
pub open spec fn path_relative_to(path: Seq<char>, base: Seq<char>) -> Option<Seq<char>>
    decreases path.len(),
    via path_relative_to_decreases
{
    if path_components(base).len() == 0 {
        Some(trim_end(path))
    } else if same_path(path, base) {
        Some(Seq::empty())
    } else {
        match path_parent(path) {
            None => None,
            Some(dir) => if same_path(dir, base) {
                Some(last_segment(trim_end(path)))
            } else {
                match path_relative_to(dir, base) {
                    Some(rest) => Some(tail(trim_end(path), dir.len() - rest.len())),
                    None => None,
                }
            },
        }
    }
}

#[via_fn]
proof fn path_relative_to_decreases(path: Seq<char>, base: Seq<char>) {
    lemma_parent_is_shorter(path);
}

/// The directories above `path`, the nearest first.
pub open spec fn path_ancestors(path: Seq<char>) -> Seq<Seq<char>>
    decreases path.len(),
    via path_ancestors_decreases
{
    match path_parent(path) {
        Some(parent) => seq![parent] + path_ancestors(parent),
        None => Seq::empty(),
    }
}

#[via_fn]
proof fn path_ancestors_decreases(path: Seq<char>) {
    lemma_parent_is_shorter(path);
}

/// A path is written plainly when its directory and its file name, put
/// together again, give the very same text: nothing is doubled, skipped or
/// left hanging between and after them.
pub open spec fn is_plain(path: Seq<char>) -> bool {
    match (path_parent(path), path_file_name(path)) {
        (Some(parent), Some(name)) => path_join(parent, name) == path,
        _ => false,
    }
}

/// Trimming only takes characters away from the end, and leaves at least one
/// of a path that has any.
pub proof fn lemma_trim_end_is_prefix(path: Seq<char>)
    ensures
        trim_end(path).len() <= path.len(),
        trim_end(path) == path.subrange(0, trim_end(path).len() as int),
        path.len() > 0 ==> trim_end(path).len() > 0,
        trim_end(trim_end(path)) == trim_end(path),
    decreases path.len(),
{
    if path.len() >= 2 && (path.last() == '/' || (path.last() == '.' && path[path.len() - 2]
        == '/')) {
        let shorter = path.drop_last();
        lemma_trim_end_is_prefix(shorter);
        assert(shorter.subrange(0, trim_end(shorter).len() as int) =~= path.subrange(
            0,
            trim_end(shorter).len() as int,
        ));
    } else {
        assert(path =~= path.subrange(0, path.len() as int));
    }
}

/// A trimmed path of two or more characters ends neither in a separator nor
/// in a `.` segment.
pub proof fn lemma_trim_end_shape(path: Seq<char>)
    ensures
        trim_end(path).len() >= 2 ==> trim_end(path).last() != '/' && !(trim_end(path).last()
            == '.' && trim_end(path)[trim_end(path).len() - 2] == '/'),
    decreases path.len(),
{
    if path.len() >= 2 && (path.last() == '/' || (path.last() == '.' && path[path.len() - 2]
        == '/')) {
        lemma_trim_end_shape(path.drop_last());
    }
}

/// Every path lies at itself: seen from itself it is the empty path.
pub proof fn lemma_path_is_at_itself(path: Seq<char>)
    ensures
        path_relative_to(path, path) == Some(Seq::<char>::empty()),
{
    lemma_parent_is_shorter(path);
    if path_components(path).len() == 0 {
        assert(path.len() == 0);
    }
}

/// The parent of a path is a strictly shorter beginning of it, and is itself
/// trimmed.
pub proof fn lemma_parent_is_shorter(path: Seq<char>)
    ensures
        path_parent(path) matches Some(parent) ==> parent.len() < path.len() && parent.len()
            < trim_end(path).len() && parent.is_prefix_of(path) && trim_end(parent) == parent,
{
    let trimmed = trim_end(path);
    lemma_trim_end_is_prefix(path);
    lemma_trim_end_shape(path);
    if trimmed.len() > 0 {
        trimmed.index_of_last_ensures('/');
        match trimmed.index_of_last('/') {
            None => {
                assert(Seq::<char>::empty() =~= path.subrange(0, 0));
            },
            Some(i) => {
                if trimmed.len() > 1 {
                    let head = trimmed.subrange(0, i + 1);
                    lemma_trim_end_is_prefix(head);
                    let parent = trim_end(head);
                    assert(parent =~= path.subrange(0, parent.len() as int));
                }
            },
        }
    }
}

/// What a path is seen as from a directory is no longer than the path.
pub proof fn lemma_relative_is_shorter(path: Seq<char>, base: Seq<char>)
    ensures
        path_relative_to(path, base) matches Some(rest) ==> rest.len() <= trim_end(path).len(),
    decreases path.len(),
{
    let trimmed = trim_end(path);
    lemma_parent_is_shorter(path);
    if path_components(base).len() != 0 && !same_path(path, base) {
        match path_parent(path) {
            None => {},
            Some(dir) => {
                if same_path(dir, base) {
                    trimmed.index_of_last_ensures('/');
                } else {
                    lemma_relative_is_shorter(dir, base);
                }
            },
        }
    }
}

/// The number of characters that remain of the first `len` characters of
/// `chars` once the end is trimmed.
fn trimmed_len(chars: &Vec<char>, len: usize) -> (n: usize)
    requires
        len <= chars@.len(),
    ensures
        n <= len,
        trim_end(chars@.subrange(0, len as int)) == chars@.subrange(0, n as int),
{
    let mut n: usize = len;
    while n >= 2 && (chars[n - 1] == '/' || (chars[n - 1] == '.' && chars[n - 2] == '/'))
        invariant
            n <= len <= chars@.len(),
            trim_end(chars@.subrange(0, len as int)) == trim_end(chars@.subrange(0, n as int)),
        decreases n,
    {
        assert(chars@.subrange(0, n as int).drop_last() =~= chars@.subrange(0, n - 1));
        n -= 1;
    }
    n
}

/// Whether `path` is absolute: it begins with a separator.
pub fn is_absolute(path: &str) -> (r: bool)
    ensures
        r == starts_with_char(path@, '/'),
{
    let chars = chars_of(path);
    chars.len() > 0 && chars[0] == '/'
}

/// `path` without what does not count at its end.
pub fn trimmed(path: &str) -> (r: String)
    ensures
        r@ == trim_end(path@),
{
    let chars = chars_of(path);
    let n = trimmed_len(&chars, chars.len());
    assert(chars@.subrange(0, chars@.len() as int) =~= path@);
    piece(path, 0, n)
}

/// The last part of `path`: what follows the last separator of the trimmed
/// path.
pub fn last_part(path: &str) -> (r: String)
    ensures
        r@ == last_segment(trim_end(path@)),
{
    let chars = chars_of(path);
    let n = trimmed_len(&chars, chars.len());
    assert(chars@.subrange(0, chars@.len() as int) =~= path@);
    let start: usize = match find_last(&chars, n, '/') {
        Some(i) => i + 1,
        None => 0,
    };
    assert(last_segment(trim_end(path@)) =~= path@.subrange(start as int, n as int));
    piece(path, start, n)
}

/// The name of the file or directory that `path` ends in.
pub fn file_name(path: &str) -> (r: Option<String>)
    ensures
        r.deep_view() == path_file_name(path@),
{
    let name = last_part(path);
    let chars = chars_of(name.as_str());
    let n: usize = chars.len();
    if n == 0 {
        return None;
    }
    if n == 1 && chars[0] == '.' {
        assert(name@ =~= seq!['.']);
        return None;
    }
    if n == 2 && chars[0] == '.' && chars[1] == '.' {
        assert(name@ =~= seq!['.', '.']);
        return None;
    }
    proof {
        if name@ == seq!['.'] {
            assert(name@.len() == 1 && name@[0] == '.');
        }
        if name@ == seq!['.', '.'] {
            assert(name@.len() == 2 && name@[0] == '.' && name@[1] == '.');
        }
    }
    Some(name)
}

/// The directory that holds `path`.
pub fn parent(path: &str) -> (r: Option<String>)
    ensures
        r.deep_view() == path_parent(path@),
{
    let chars = chars_of(path);
    let n = trimmed_len(&chars, chars.len());
    assert(chars@.subrange(0, chars@.len() as int) =~= path@);
    if n == 0 {
        return None;
    }
    match find_last(&chars, n, '/') {
        None => {
            let empty = String::new();
            Some(empty)
        },
        Some(i) => {
            if n == 1 {
                None
            } else {
                let m = trimmed_len(&chars, i + 1);
                assert(trim_end(path@).subrange(0, i + 1) =~= chars@.subrange(0, i + 1));
                Some(piece(path, 0, m))
            }
        },
    }
}

/// `rest` put below `base`.
pub fn join(base: &str, rest: &str) -> (r: String)
    ensures
        r@ == path_join(base@, rest@),
{
    let rest_chars = chars_of(rest);
    if rest_chars.len() > 0 && rest_chars[0] == '/' {
        return rest.to_owned();
    }
    let base_chars = chars_of(base);
    if base_chars.len() > 0 && base_chars[base_chars.len() - 1] != '/' {
        let with_separator = appended(base, "/");
        proof {
            reveal_strlit("/");
            assert("/"@ =~= seq!['/']);
        }
        appended(with_separator.as_str(), rest)
    } else {
        appended(base, rest)
    }
}

/// The parts that `path` is made of.
pub fn components(path: &str) -> (parts: Vec<String>)
    ensures
        parts.deep_view() == path_components(path@),
    decreases path@.len(),
{
    match parent(path) {
        Some(dir) => {
            proof {
                lemma_parent_is_shorter(path@);
            }
            let mut parts = components(dir.as_str());
            let ghost before = parts.deep_view();
            parts.push(last_part(path));
            assert(parts.deep_view() =~= before.push(last_segment(trim_end(path@))));
            parts
        },
        None => {
            let mut parts: Vec<String> = Vec::new();
            if path.unicode_len() > 0 {
                proof {
                    reveal_strlit("/");
                }
                parts.push("/".to_owned());
                assert("/"@ =~= seq!['/']);
                assert(parts.deep_view() =~= seq![seq!['/']]);
            } else {
                assert(parts.deep_view() =~= Seq::<Seq<char>>::empty());
            }
            parts
        },
    }
}

/// Whether `a` and `b` hold the same parts.
fn same_parts(a: &Vec<String>, b: &Vec<String>) -> (same: bool)
    ensures
        same == (a.deep_view() == b.deep_view()),
{
    if a.len() != b.len() {
        assert(a.deep_view().len() != b.deep_view().len());
        return false;
    }
    let n: usize = a.len();
    let mut i: usize = 0;
    while i < n
        invariant
            i <= n,
            n == a@.len(),
            n == b@.len(),
            forall|j: int| 0 <= j < i ==> a.deep_view()[j] == b.deep_view()[j],
        decreases n - i,
    {
        if a[i] != b[i] {
            assert(a.deep_view()[i as int] != b.deep_view()[i as int]);
            return false;
        }
        i += 1;
    }
    assert(a.deep_view() =~= b.deep_view());
    true
}

/// Whether two paths name the same place.
pub fn is_same_path(a: &str, b: &str) -> (same: bool)
    ensures
        same == same_path(a@, b@),
{
    let left = components(a);
    let right = components(b);
    same_parts(&left, &right)
}

/// Whether the first `count` of `parts` are the parts `other`.
fn same_leading_parts(parts: &Vec<String>, count: usize, other: &Vec<String>) -> (same: bool)
    requires
        count <= parts@.len(),
    ensures
        same == (parts.deep_view().subrange(0, count as int) == other.deep_view()),
{
    let ghost leading = parts.deep_view().subrange(0, count as int);
    if count != other.len() {
        assert(leading.len() != other.deep_view().len());
        return false;
    }
    let mut i: usize = 0;
    while i < count
        invariant
            i <= count,
            count <= parts@.len(),
            count == other@.len(),
            leading == parts.deep_view().subrange(0, count as int),
            forall|j: int| 0 <= j < i ==> leading[j] == other.deep_view()[j],
        decreases count - i,
    {
        if parts[i] != other[i] {
            assert(leading[i as int] != other.deep_view()[i as int]);
            return false;
        }
        i += 1;
    }
    assert(leading =~= other.deep_view());
    true
}

/// `path` as seen from the directory `base`, where the first `count` of
/// `parts` are the parts of `path` and `base_parts` are those of `base`.
fn relative_from(
    path: &str,
    base: &str,
    parts: &Vec<String>,
    count: usize,
    base_parts: &Vec<String>,
) -> (r: Option<String>)
    requires
        count <= parts@.len(),
        parts.deep_view().subrange(0, count as int) == path_components(path@),
        base_parts.deep_view() == path_components(base@),
        base_parts@.len() > 0,
    ensures
        r.deep_view() == path_relative_to(path@, base@),
    decreases path@.len(),
{
    if same_leading_parts(parts, count, base_parts) {
        return Some(String::new());
    }
    match parent(path) {
        None => None,
        Some(dir) => {
            proof {
                lemma_parent_is_shorter(path@);
                lemma_relative_is_shorter(dir@, base@);
                let whole = path_components(path@);
                assert(whole == path_components(dir@).push(last_segment(trim_end(path@))));
                assert(whole.len() == count);
                assert(whole.drop_last() =~= path_components(dir@));
                assert(parts.deep_view().subrange(0, count - 1) =~= whole.drop_last());
            }
            if same_leading_parts(parts, count - 1, base_parts) {
                Some(last_part(path))
            } else {
                match relative_from(dir.as_str(), base, parts, count - 1, base_parts) {
                    Some(rest) => {
                        let whole = trimmed(path);
                        let from: usize = dir.as_str().unicode_len() - rest.as_str().unicode_len();
                        let to: usize = whole.as_str().unicode_len();
                        assert(tail(whole@, from as int) =~= whole@.subrange(
                            from as int,
                            to as int,
                        ));
                        Some(piece(whole.as_str(), from, to))
                    },
                    None => None,
                }
            }
        },
    }
}

/// `path` as seen from the directory `base`, if it lies at or below it.
pub fn relative_to(path: &str, base: &str) -> (r: Option<String>)
    ensures
        r.deep_view() == path_relative_to(path@, base@),
{
    let base_parts = components(base);
    if base_parts.len() == 0 {
        return Some(trimmed(path));
    }
    let parts = components(path);
    assert(parts.deep_view().subrange(0, parts@.len() as int) =~= parts.deep_view());
    relative_from(path, base, &parts, parts.len(), &base_parts)
}

/// The directories above `path`, the nearest first.
pub fn ancestors(path: &str) -> (r: Vec<String>)
    ensures
        r.deep_view() == path_ancestors(path@),
{
    let mut found: Vec<String> = Vec::new();
    let mut current: String = path.to_owned();
    loop
        invariant
            found.deep_view() + path_ancestors(current@) == path_ancestors(path@),
        decreases current@.len(),
    {
        match parent(current.as_str()) {
            None => {
                assert(found.deep_view() =~= found.deep_view() + Seq::<Seq<char>>::empty());
                return found;
            },
            Some(dir) => {
                proof {
                    lemma_parent_is_shorter(current@);
                    assert(found.deep_view().push(dir@) + path_ancestors(dir@) =~= found.deep_view()
                        + (seq![dir@] + path_ancestors(dir@)));
                }
                let ghost before = found.deep_view();
                found.push(dir.clone());
                assert(found.deep_view() =~= before.push(dir@));
                current = dir;
            },
        }
    }
}

} // verus!
