//! Resolution of Bazel labels to places in a workspace, and completion of
//! labels that are still being typed.
//!
//! A label such as `@repository//package:name` names a file or a target of a
//! build. This library reads labels ([`label`]), finds the directory and the
//! file that a label points at ([`resolve`]), writes the label of a file
//! ([`render`]), and offers what may follow a label that is half typed
//! ([`completion`]). What it knows of a workspace it keeps in [`workspace`].
//!
//! The library never touches the disk or the build system itself. It asks its
//! two collaborators ([`client`]), and the engine ([`context`]) hands their
//! answers to functions that decide on plain values. Those functions say
//! exactly what they return; the engine says what it returns for every answer
//! that a collaborator may give. Paths are handled as text ([`path`]).
//!
//! What holds of several functions together is proved in [`laws`].

pub mod client;
pub mod completion;
pub mod context;
pub mod error;
pub mod file_type;
pub mod label;
pub mod laws;
pub mod path;
pub mod render;
pub mod resolve;
pub mod text;
pub mod url;
pub mod workspace;
