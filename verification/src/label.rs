//! Labels: the text by which a build file names a file or a target.
//!
//! A label is written `@repository//package:name`. The repository and its
//! `@` may be missing, and so may `:name`, which then is the last segment of
//! the package. A label without `//` has no package: it starts with `:` or is
//! a bare name, and is read from where the current file lies.

use vstd::prelude::*;

use crate::path::last_segment;
use crate::text::appended;
use crate::text::chars_of;
use crate::text::find_first;
use crate::text::find_last;
use crate::text::piece;
use crate::text::starts_with_char;
use crate::text::tail;

verus! {

/// A label, taken apart.
#[derive(Debug, PartialEq, Eq)]
pub struct Label {
    /// The repository, where the label names one.
    pub repo: Option<String>,
    /// The package, a directory path below the repository; `None` for a label
    /// that is relative to the current file.
    pub package: Option<String>,
    /// The name of the file or target.
    pub name: String,
}

/// What a [`Label`] stands for in contracts.
pub struct LabelView {
    pub repo: Option<Seq<char>>,
    pub package: Option<Seq<char>>,
    pub name: Seq<char>,
}

impl View for Label {
    type V = LabelView;

    open spec fn view(&self) -> LabelView {
        LabelView {
            repo: self.repo.deep_view(),
            package: self.package.deep_view(),
            name: self.name@,
        }
    }
}

impl DeepView for Label {
    type V = LabelView;

    open spec fn deep_view(&self) -> LabelView {
        self@
    }
}

/// A text that is no label.
#[derive(Debug, PartialEq, Eq)]
pub struct InvalidLabelSyntax {
    /// The text as it was given.
    pub text: String,
}

impl View for InvalidLabelSyntax {
    type V = Seq<char>;

    open spec fn view(&self) -> Seq<char> {
        self.text@
    }
}

impl DeepView for InvalidLabelSyntax {
    type V = Seq<char>;

    open spec fn deep_view(&self) -> Seq<char> {
        self@
    }
}

/// The label that `//` and what follows it, `rest`, stand for.
pub open spec fn absolute_label(repo: Option<Seq<char>>, rest: Seq<char>) -> LabelView {
    match rest.index_of_first(':') {
        Some(colon) => LabelView {
            repo,
            package: Some(rest.subrange(0, colon)),
            name: tail(rest, colon + 1),
        },
        None => LabelView { repo, package: Some(rest), name: last_segment(rest) },
    }
}

/// The label that `text` stands for. The only texts that are no labels are
/// those that start a repository with `@` and do not go on to `//` at its
/// end.
pub open spec fn parse_label(text: Seq<char>) -> Option<LabelView> {
    if starts_with_char(text, '@') {
        match text.index_of_first('/') {
            Some(slash) => if slash + 1 < text.len() && text[slash + 1] == '/' {
                Some(absolute_label(Some(text.subrange(1, slash)), tail(text, slash + 2)))
            } else {
                None
            },
            None => None,
        }
    } else if text.len() >= 2 && text[0] == '/' && text[1] == '/' {
        Some(absolute_label(None, tail(text, 2)))
    } else if starts_with_char(text, ':') {
        Some(LabelView { repo: None, package: None, name: tail(text, 1) })
    } else {
        Some(LabelView { repo: None, package: None, name: text })
    }
}

impl LabelView {
    /// The label as it is written: `@repository` if it names one, `//package`
    /// if it names one, then `:name`.
    pub open spec fn text(self) -> Seq<char> {
        (match self.repo {
            Some(repo) => seq!['@'] + repo,
            None => Seq::empty(),
        }) + (match self.package {
            Some(package) => seq!['/', '/'] + package,
            None => Seq::empty(),
        }) + seq![':'] + self.name
    }

    /// Whether the label can be written and read back: a repository comes
    /// with a package and has no `/` in its name, and a package has no `:`
    /// in it.
    pub open spec fn is_writable(self) -> bool {
        &&& self.repo matches Some(repo) ==> self.package is Some && !repo.contains('/')
        &&& self.package matches Some(package) ==> !package.contains(':')
    }
}

/// A label that is written as [`LabelView::text`] says reads back as itself.
pub proof fn lemma_label_text_parses_back(label: LabelView)
    requires
        label.is_writable(),
    ensures
        parse_label(label.text()) == Some(label),
{
    let text = label.text();
    match label.package {
        None => {
            assert(text =~= seq![':'] + label.name);
            assert(tail(text, 1) =~= label.name);
        },
        Some(package) => {
            let rest = package + seq![':'] + label.name;
            assert(rest[package.len() as int] == ':');
            assert forall|j: int| 0 <= j < package.len() implies rest[j] != ':' by {
                assert(rest[j] == package[j]);
                assert(package.contains(package[j]));
            }
            crate::text::lemma_first_index(rest, ':', package.len() as int);
            assert(rest.subrange(0, package.len() as int) =~= package);
            assert(tail(rest, package.len() as int + 1) =~= label.name);
            match label.repo {
                None => {
                    assert(text =~= seq!['/', '/'] + rest);
                    assert(tail(text, 2) =~= rest);
                },
                Some(repo) => {
                    assert(text =~= seq!['@'] + repo + seq!['/', '/'] + rest);
                    let slash: int = repo.len() as int + 1;
                    assert(text[slash] == '/');
                    assert(text[slash + 1] == '/');
                    assert forall|j: int| 0 <= j < slash implies text[j] != '/' by {
                        if j > 0 {
                            assert(text[j] == repo[j - 1]);
                            assert(repo.contains(repo[j - 1]));
                        }
                    }
                    crate::text::lemma_first_index(text, '/', slash);
                    assert(text.subrange(1, slash) =~= repo);
                    assert(tail(text, slash + 2) =~= rest);
                },
            }
        },
    }
}

impl Clone for Label {
    fn clone(&self) -> (copy: Self)
        ensures
            copy@ == self@,
    {
        Label {
            repo: match &self.repo {
                Some(repo) => Some(repo.clone()),
                None => None,
            },
            package: match &self.package {
                Some(package) => Some(package.clone()),
                None => None,
            },
            name: self.name.clone(),
        }
    }
}

impl Label {
    /// Reads what follows `//`, which starts at position `from` of `text`.
    fn parse_absolute(text: &str, chars: &Vec<char>, repo: Option<String>, from: usize) -> (label:
        Label)
        requires
            chars@ == text@,
            from <= text@.len(),
        ensures
            label@ == absolute_label(repo.deep_view(), tail(text@, from as int)),
    {
        let end: usize = chars.len();
        let ghost rest = tail(text@, from as int);
        match find_first(chars, from, ':') {
            Some(colon) => {
                assert(rest.subrange(0, colon - from) =~= text@.subrange(
                    from as int,
                    colon as int,
                ));
                assert(tail(rest, colon - from + 1) =~= text@.subrange(colon + 1, end as int));
                Label {
                    repo,
                    package: Some(piece(text, from, colon)),
                    name: piece(text, colon + 1, end),
                }
            },
            None => {
                assert(rest =~= text@.subrange(from as int, end as int));
                let name_start: usize = match find_last(chars, end, '/') {
                    Some(slash) => if slash >= from {
                        slash + 1
                    } else {
                        from
                    },
                    None => from,
                };
                proof {
                    let whole = chars@.subrange(0, end as int);
                    assert(whole =~= text@);
                    text@.index_of_last_ensures('/');
                    rest.index_of_last_ensures('/');
                    match text@.index_of_last('/') {
                        Some(slash) => {
                            if slash >= from {
                                assert(rest[slash - from] == '/');
                                assert forall|j: int| slash - from < j < rest.len() implies rest[j]
                                    != '/' by {
                                    assert(rest[j] == text@[j + from]);
                                }
                                crate::text::lemma_last_index(rest, '/', slash - from);
                                assert(last_segment(rest) =~= text@.subrange(
                                    name_start as int,
                                    end as int,
                                ));
                            } else {
                                assert forall|j: int| 0 <= j < rest.len() implies rest[j]
                                    != '/' by {
                                    assert(rest[j] == text@[j + from]);
                                }
                                crate::text::lemma_no_index(rest, '/');
                            }
                        },
                        None => {
                            assert forall|j: int| 0 <= j < rest.len() implies rest[j] != '/' by {
                                assert(rest[j] == text@[j + from]);
                                assert(text@.contains(text@[j + from]));
                            }
                            crate::text::lemma_no_index(rest, '/');
                        },
                    }
                }
                Label {
                    repo,
                    package: Some(piece(text, from, end)),
                    name: piece(text, name_start, end),
                }
            },
        }
    }

    /// The label as it is written.
    pub fn to_text(&self) -> (text: String)
        ensures
            text@ == self@.text(),
    {
        proof {
            reveal_strlit("@");
            reveal_strlit("//");
            reveal_strlit(":");
        }
        let repo = match &self.repo {
            Some(repo) => appended("@", repo.as_str()),
            None => String::new(),
        };
        let package = match &self.package {
            Some(package) => appended("//", package.as_str()),
            None => String::new(),
        };
        let head = appended(repo.as_str(), package.as_str());
        let marked = appended(head.as_str(), ":");
        let text = appended(marked.as_str(), self.name.as_str());
        assert(repo@ =~= (match self@.repo {
            Some(repo) => seq!['@'] + repo,
            None => Seq::empty(),
        }));
        assert(package@ =~= (match self@.package {
            Some(package) => seq!['/', '/'] + package,
            None => Seq::empty(),
        }));
        assert(text@ =~= self@.text());
        text
    }

    /// Reads `text` as a label, or says that it is none.
    pub fn parse(text: &str) -> (r: Result<Label, InvalidLabelSyntax>)
        ensures
            match r {
                Ok(label) => parse_label(text@) == Some(label@),
                Err(e) => parse_label(text@) is None && e@ == text@,
            },
    {
        let chars = chars_of(text);
        let end: usize = chars.len();
        assert(tail(chars@, 0) =~= text@);
        if end > 0 && chars[0] == '@' {
            match find_first(&chars, 0, '/') {
                Some(slash) => {
                    if slash + 1 < end && chars[slash + 1] == '/' {
                        let repo = piece(text, 1, slash);
                        Ok(Label::parse_absolute(text, &chars, Some(repo), slash + 2))
                    } else {
                        Err(InvalidLabelSyntax { text: text.to_owned() })
                    }
                },
                None => Err(InvalidLabelSyntax { text: text.to_owned() }),
            }
        } else if end >= 2 && chars[0] == '/' && chars[1] == '/' {
            Ok(Label::parse_absolute(text, &chars, None, 2))
        } else if end > 0 && chars[0] == ':' {
            Ok(Label { repo: None, package: None, name: piece(text, 1, end) })
        } else {
            Ok(Label { repo: None, package: None, name: text.to_owned() })
        }
    }
}

} // verus!
