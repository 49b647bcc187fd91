//! The address of a document, as the editor hands it over.

use vstd::prelude::*;

use crate::text::appended;

verus! {

/// The address of a document: a file on disk, a built-in document, or
/// anything else. Each holds the path part of the address.
#[derive(Debug, PartialEq, Eq, Hash)]
pub enum LspUrl {
    /// A file on disk, by its path.
    File(String),
    /// A document that exists only inside the tool, by its path.
    Starlark(String),
    /// Any other address, by its path part.
    Other(String),
}

/// What an [`LspUrl`] stands for in contracts.
pub enum LspUrlView {
    File(Seq<char>),
    Starlark(Seq<char>),
    Other(Seq<char>),
}

impl LspUrlView {
    /// The path part of the address.
    pub open spec fn path(self) -> Seq<char> {
        match self {
            LspUrlView::File(path) => path,
            LspUrlView::Starlark(path) => path,
            LspUrlView::Other(path) => path,
        }
    }

    /// The address as it is written: `file://` or `starlark:` in front of the
    /// path, and the path alone for any other address.
    pub open spec fn text(self) -> Seq<char> {
        match self {
            LspUrlView::File(path) => "file://"@ + path,
            LspUrlView::Starlark(path) => "starlark:"@ + path,
            LspUrlView::Other(path) => path,
        }
    }

    /// The path of the file, where the address names a file on disk.
    pub open spec fn file_path(self) -> Option<Seq<char>> {
        match self {
            LspUrlView::File(path) => Some(path),
            _ => None,
        }
    }
}

impl View for LspUrl {
    type V = LspUrlView;

    open spec fn view(&self) -> LspUrlView {
        match self {
            LspUrl::File(path) => LspUrlView::File(path@),
            LspUrl::Starlark(path) => LspUrlView::Starlark(path@),
            LspUrl::Other(path) => LspUrlView::Other(path@),
        }
    }
}

impl DeepView for LspUrl {
    type V = LspUrlView;

    open spec fn deep_view(&self) -> LspUrlView {
        self@
    }
}

impl Clone for LspUrl {
    fn clone(&self) -> (copy: Self)
        ensures
            copy@ == self@,
    {
        match self {
            LspUrl::File(path) => LspUrl::File(path.clone()),
            LspUrl::Starlark(path) => LspUrl::Starlark(path.clone()),
            LspUrl::Other(path) => LspUrl::Other(path.clone()),
        }
    }
}

impl LspUrl {
    /// The path part of the address.
    pub fn path(&self) -> (path: &str)
        ensures
            path@ == self@.path(),
    {
        match self {
            LspUrl::File(path) => path.as_str(),
            LspUrl::Starlark(path) => path.as_str(),
            LspUrl::Other(path) => path.as_str(),
        }
    }

    /// The address as it is written.
    pub fn to_text(&self) -> (text: String)
        ensures
            text@ == self@.text(),
    {
        match self {
            LspUrl::File(path) => appended("file://", path.as_str()),
            LspUrl::Starlark(path) => appended("starlark:", path.as_str()),
            LspUrl::Other(path) => path.clone(),
        }
    }

    /// The path of the file, where the address names a file on disk.
    pub fn file_path(&self) -> (path: Option<&str>)
        ensures
            path.deep_view() == self@.file_path(),
    {
        match self {
            LspUrl::File(path) => Some(path.as_str()),
            _ => None,
        }
    }
}

} // verus!
