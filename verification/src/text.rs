//! Character-level helpers shared by the label, path and completion code.
//!
//! Every string of the library is modelled by its sequence of characters
//! (`Seq<char>`). The functions here scan such sequences and cut pieces out of
//! them; each says exactly which position or piece it returns.

use vstd::prelude::*;
use vstd::string::StrSliceExecFns;
use vstd::string::StringExecFns;

verus! {

/// Whether `text` begins with the character `c`.
pub open spec fn starts_with_char(text: Seq<char>, c: char) -> bool {
    text.len() > 0 && text[0] == c
}

/// Whether `text` ends with the character `c`.
pub open spec fn ends_with_char(text: Seq<char>, c: char) -> bool {
    text.len() > 0 && text.last() == c
}

/// Whether two slashes stand side by side somewhere in `text`.
pub open spec fn has_double_slash(text: Seq<char>) -> bool {
    exists|i: int| 0 <= i && i + 1 < text.len() && #[trigger] text[i] == '/' && text[i + 1] == '/'
}

/// `text` from position `from` to its end.
pub open spec fn tail(text: Seq<char>, from: int) -> Seq<char> {
    text.subrange(from, text.len() as int)
}

/// `text` without the carriage return that may end it.
pub open spec fn without_carriage_return(line: Seq<char>) -> Seq<char> {
    if ends_with_char(line, '\r') {
        line.drop_last()
    } else {
        line
    }
}

/// The lines of `text`: the pieces between line feeds, each without a final
/// carriage return. A line feed at the very end opens no further line, and
/// the empty text has no lines.
pub open spec fn lines(text: Seq<char>) -> Seq<Seq<char>>
    decreases text.len(),
{
    if text.len() == 0 {
        Seq::empty()
    } else {
        match text.index_of_first('\n') {
            Some(i) => if 0 <= i < text.len() {
                seq![without_carriage_return(text.subrange(0, i))] + lines(tail(text, i + 1))
            } else {
                seq![text]
            },
            None => seq![text],
        }
    }
}

/// The number of bytes that `text` takes in UTF-8.
pub open spec fn byte_len(text: Seq<char>) -> nat {
    vstd::utf8::encode_utf8(text).len()
}

/// `i` is the first position of `c` in `text`.
pub proof fn lemma_first_index(text: Seq<char>, c: char, i: int)
    requires
        0 <= i < text.len(),
        text[i] == c,
        forall|j: int| 0 <= j < i ==> text[j] != c,
    ensures
        text.index_of_first(c) == Some(i),
{
    text.index_of_first_ensures(c);
}

/// `i` is the last position of `c` in `text`.
pub proof fn lemma_last_index(text: Seq<char>, c: char, i: int)
    requires
        0 <= i < text.len(),
        text[i] == c,
        forall|j: int| i < j < text.len() ==> text[j] != c,
    ensures
        text.index_of_last(c) == Some(i),
{
    text.index_of_last_ensures(c);
}

/// A text without `c` has neither a first nor a last position of it.
pub proof fn lemma_no_index(text: Seq<char>, c: char)
    requires
        forall|j: int| 0 <= j < text.len() ==> text[j] != c,
    ensures
        text.index_of_first(c) is None,
        text.index_of_last(c) is None,
        !text.contains(c),
{
    text.index_of_first_ensures(c);
    text.index_of_last_ensures(c);
}

/// The characters of `s`, in order.
pub fn chars_of(s: &str) -> (chars: Vec<char>)
    ensures
        chars@ == s@,
{
    let mut chars: Vec<char> = Vec::new();
    for c in it: s.chars()
        invariant
            chars@ == it.seq().take(it.index()),
            it.seq() == s@,
    {
        chars.push(c);
    }
    chars
}

/// Whether `a` and `b` hold the same characters.
pub fn same_text(a: &str, b: &str) -> (same: bool)
    ensures
        same == (a@ == b@),
{
    let left = a.to_owned();
    let right = b.to_owned();
    left == right
}

/// The piece of `s` between the character positions `from` and `to`.
pub fn piece(s: &str, from: usize, to: usize) -> (r: String)
    requires
        from <= to <= s@.len(),
    ensures
        r@ == s@.subrange(from as int, to as int),
{
    s.substring_char(from, to).to_owned()
}

/// `a` followed by `b`.
pub fn appended(a: &str, b: &str) -> (r: String)
    ensures
        r@ == a@ + b@,
{
    let mut joined = a.to_owned();
    joined.append(b);
    joined
}

/// The first position of `c` in `chars` at or after `from`.
pub fn find_first(chars: &Vec<char>, from: usize, c: char) -> (r: Option<usize>)
    requires
        from <= chars@.len(),
    ensures
        match r {
            Some(i) => from <= i < chars@.len() && chars@[i as int] == c && tail(
                chars@,
                from as int,
            ).index_of_first(c) == Some(i - from),
            None => tail(chars@, from as int).index_of_first(c) is None,
        },
{
    let n: usize = chars.len();
    let mut i: usize = from;
    while i < n
        invariant
            from <= i <= n,
            n == chars@.len(),
            forall|j: int| from <= j < i ==> chars@[j] != c,
        decreases n - i,
    {
        if chars[i] == c {
            proof {
                lemma_first_index(tail(chars@, from as int), c, i - from);
            }
            return Some(i);
        }
        i += 1;
    }
    proof {
        lemma_no_index(tail(chars@, from as int), c);
    }
    None
}

/// The last position of `c` in the first `to` characters of `chars`.
pub fn find_last(chars: &Vec<char>, to: usize, c: char) -> (r: Option<usize>)
    requires
        to <= chars@.len(),
    ensures
        match r {
            Some(i) => i < to && chars@[i as int] == c && chars@.subrange(
                0,
                to as int,
            ).index_of_last(c) == Some(i as int),
            None => chars@.subrange(0, to as int).index_of_last(c) is None,
        },
{
    let mut i: usize = to;
    while i > 0
        invariant
            i <= to <= chars@.len(),
            forall|j: int| i <= j < to ==> chars@[j] != c,
        decreases i,
    {
        i -= 1;
        if chars[i] == c {
            proof {
                lemma_last_index(chars@.subrange(0, to as int), c, i as int);
            }
            return Some(i);
        }
    }
    proof {
        lemma_no_index(chars@.subrange(0, to as int), c);
    }
    None
}

/// Whether `chars` holds the character `c`.
pub fn has_char(chars: &Vec<char>, c: char) -> (r: bool)
    ensures
        r == chars@.contains(c),
{
    assert(tail(chars@, 0) =~= chars@);
    proof {
        chars@.index_of_first_ensures(c);
    }
    find_first(chars, 0, c).is_some()
}

/// Whether `chars` holds two slashes side by side.
pub fn contains_double_slash(chars: &Vec<char>) -> (r: bool)
    ensures
        r == has_double_slash(chars@),
{
    let n: usize = chars.len();
    let mut i: usize = 1;
    while i < n
        invariant
            1 <= i,
            n == chars@.len(),
            forall|j: int|
                0 <= j && j + 1 < i ==> !(#[trigger] chars@[j] == '/' && chars@[j + 1] == '/'),
        decreases n - i,
    {
        if chars[i - 1] == '/' && chars[i] == '/' {
            assert(chars@[i - 1] == '/' && chars@[(i - 1) + 1] == '/');
            return true;
        }
        i += 1;
    }
    false
}

/// Whether `chars` begins with `prefix`.
pub fn has_prefix(chars: &Vec<char>, prefix: &Vec<char>) -> (r: bool)
    ensures
        r == prefix@.is_prefix_of(chars@),
{
    if prefix.len() > chars.len() {
        return false;
    }
    let n: usize = prefix.len();
    let mut i: usize = 0;
    while i < n
        invariant
            i <= n,
            n == prefix@.len(),
            n <= chars@.len(),
            forall|j: int| 0 <= j < i ==> chars@[j] == prefix@[j],
        decreases n - i,
    {
        if chars[i] != prefix[i] {
            assert(chars@.subrange(0, n as int)[i as int] != prefix@[i as int]);
            return false;
        }
        i += 1;
    }
    assert(prefix@ =~= chars@.subrange(0, n as int));
    true
}

} // verus!
