//! What can go wrong, one type for each operation and one for all of them.

use vstd::prelude::*;

use crate::label::InvalidLabelSyntax;
use crate::label::Label;
use crate::label::LabelView;
use crate::url::LspUrl;
use crate::url::LspUrlView;

verus! {

/// What a result stands for in contracts: the view of what it holds.
pub open spec fn result_view<T: View, E: View>(r: Result<T, E>) -> Result<T::V, E::V> {
    match r {
        Ok(value) => Ok(value@),
        Err(error) => Err(error@),
    }
}

/// What a result stands for in contracts, where what it holds in the good
/// case is looked at through and through.
pub open spec fn result_deep_view<T: DeepView, E: View>(r: Result<T, E>) -> Result<T::V, E::V> {
    match r {
        Ok(value) => Ok(value.deep_view()),
        Err(error) => Err(error@),
    }
}

/// Why the contents of a document could not be read.
#[derive(Debug, PartialEq, Eq)]
pub enum ContextError {
    /// The path of the file is not absolute.
    NotAbsolute(LspUrl),
    /// The address is of another kind than the one named first.
    WrongScheme(String, LspUrl),
}

/// What a [`ContextError`] stands for in contracts.
pub enum ContextErrorView {
    NotAbsolute(LspUrlView),
    WrongScheme(Seq<char>, LspUrlView),
}

impl View for ContextError {
    type V = ContextErrorView;

    open spec fn view(&self) -> ContextErrorView {
        match self {
            ContextError::NotAbsolute(url) => ContextErrorView::NotAbsolute(url@),
            ContextError::WrongScheme(scheme, url) => ContextErrorView::WrongScheme(scheme@, url@),
        }
    }
}

/// Why a label could not be resolved.
#[derive(Debug, PartialEq, Eq)]
pub enum ResolveLoadError {
    /// The label is relative to the current file, and the current file has
    /// no directory to start from.
    MissingCurrentFilePath(Label),
    /// The label names a package, and no workspace root is known.
    MissingWorkspaceRoot(Label),
    /// The label names a repository that is not known; the name is given as
    /// the label writes it.
    UnknownRepository(Label, String),
    /// None of the files that the text may stand for exists.
    TargetNotFound(String),
}

/// What a [`ResolveLoadError`] stands for in contracts.
pub enum ResolveLoadErrorView {
    MissingCurrentFilePath(LabelView),
    MissingWorkspaceRoot(LabelView),
    UnknownRepository(LabelView, Seq<char>),
    TargetNotFound(Seq<char>),
}

impl View for ResolveLoadError {
    type V = ResolveLoadErrorView;

    open spec fn view(&self) -> ResolveLoadErrorView {
        match self {
            ResolveLoadError::MissingCurrentFilePath(label) => {
                ResolveLoadErrorView::MissingCurrentFilePath(label@)
            },
            ResolveLoadError::MissingWorkspaceRoot(label) => {
                ResolveLoadErrorView::MissingWorkspaceRoot(label@)
            },
            ResolveLoadError::UnknownRepository(label, name) => {
                ResolveLoadErrorView::UnknownRepository(label@, name@)
            },
            ResolveLoadError::TargetNotFound(text) => ResolveLoadErrorView::TargetNotFound(text@),
        }
    }
}

/// Why a file could not be written as a label.
#[derive(Debug, PartialEq, Eq)]
pub enum RenderLoadError {
    /// The path does not end in a file name.
    MissingTargetFilename(String),
    /// One of the two addresses is of another kind than the one named first.
    WrongScheme(String, LspUrl, LspUrl),
}

/// What a [`RenderLoadError`] stands for in contracts.
pub enum RenderLoadErrorView {
    MissingTargetFilename(Seq<char>),
    WrongScheme(Seq<char>, LspUrlView, LspUrlView),
}

impl View for RenderLoadError {
    type V = RenderLoadErrorView;

    open spec fn view(&self) -> RenderLoadErrorView {
        match self {
            RenderLoadError::MissingTargetFilename(path) => {
                RenderLoadErrorView::MissingTargetFilename(path@)
            },
            RenderLoadError::WrongScheme(scheme, target, current) => {
                RenderLoadErrorView::WrongScheme(scheme@, target@, current@)
            },
        }
    }
}

/// Why the file system could not answer.
#[derive(Debug, PartialEq, Eq)]
pub enum FsError {
    /// There is nothing at the path.
    NotFound,
    /// Anything else, in the words of the file system.
    Other(String),
}

/// What an [`FsError`] stands for in contracts.
pub enum FsErrorView {
    NotFound,
    Other(Seq<char>),
}

impl View for FsError {
    type V = FsErrorView;

    open spec fn view(&self) -> FsErrorView {
        match self {
            FsError::NotFound => FsErrorView::NotFound,
            FsError::Other(message) => FsErrorView::Other(message@),
        }
    }
}

/// Why the build system could not answer, in its own words.
#[derive(Debug, PartialEq, Eq)]
pub struct ClientError {
    pub message: String,
}

impl View for ClientError {
    type V = Seq<char>;

    open spec fn view(&self) -> Seq<char> {
        self.message@
    }
}

/// Any failure of the library.
#[derive(Debug, PartialEq, Eq)]
pub enum Error {
    /// A text is no label.
    InvalidLabel(InvalidLabelSyntax),
    /// The contents of a document could not be read.
    Context(ContextError),
    /// A label could not be resolved.
    ResolveLoad(ResolveLoadError),
    /// A file could not be written as a label.
    RenderLoad(RenderLoadError),
    /// The file system failed.
    FileSystem(FsError),
    /// The build system failed.
    Client(ClientError),
    /// No workspace governs the document.
    WorkspaceNotFound,
}

/// What an [`Error`] stands for in contracts.
pub enum ErrorView {
    InvalidLabel(Seq<char>),
    Context(ContextErrorView),
    ResolveLoad(ResolveLoadErrorView),
    RenderLoad(RenderLoadErrorView),
    FileSystem(FsErrorView),
    Client(Seq<char>),
    WorkspaceNotFound,
}

impl ErrorView {
    /// Whether the error is a collaborator's: the build system or the file
    /// system failed.
    pub open spec fn is_collaborator_failure(self) -> bool {
        self is Client || self is FileSystem
    }
}

impl View for Error {
    type V = ErrorView;

    open spec fn view(&self) -> ErrorView {
        match self {
            Error::InvalidLabel(e) => ErrorView::InvalidLabel(e@),
            Error::Context(e) => ErrorView::Context(e@),
            Error::ResolveLoad(e) => ErrorView::ResolveLoad(e@),
            Error::RenderLoad(e) => ErrorView::RenderLoad(e@),
            Error::FileSystem(e) => ErrorView::FileSystem(e@),
            Error::Client(e) => ErrorView::Client(e@),
            Error::WorkspaceNotFound => ErrorView::WorkspaceNotFound,
        }
    }
}

} // verus!
