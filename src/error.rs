//! Errors of the `compile` and `wast` commands.
use vstd::prelude::*;

verus! {

/// Why a compilation failed.
#[derive(Debug, PartialEq, Eq)]
pub enum CompileError {
    /// Options, target or backend settings were rejected; the message is the
    /// backend's own, word for word.
    Config { message: String },
    /// The input path does not name a file.
    InvalidModulePath { path: Vec<u8> },
    /// The path given for intermediate-code output exists and is not a directory.
    ClifNotDirectory { path: Vec<u8> },
    /// The input is neither a binary module nor valid text format.
    Input { message: String },
    /// Reading, writing or creating `path` failed.
    Io { path: Vec<u8>, message: String },
    /// The engine refused to precompile the input.
    Precompile { message: String },
}

/// The mathematical form of a [`CompileError`]. A text-format diagnostic
/// is not modelled.
pub enum CompileErrorView {
    Config { message: Seq<char> },
    InvalidModulePath { path: Seq<u8> },
    ClifNotDirectory { path: Seq<u8> },
    Input,
    Io { path: Seq<u8>, message: Seq<char> },
    Precompile { message: Seq<char> },
}

impl View for CompileError {
    type V = CompileErrorView;

    open spec fn view(&self) -> CompileErrorView {
        match self {
            CompileError::Config { message } => CompileErrorView::Config { message: message@ },
            CompileError::InvalidModulePath { path } => CompileErrorView::InvalidModulePath {
                path: path@,
            },
            CompileError::ClifNotDirectory { path } => CompileErrorView::ClifNotDirectory {
                path: path@,
            },
            CompileError::Input { .. } => CompileErrorView::Input,
            CompileError::Io { path, message } => CompileErrorView::Io {
                path: path@,
                message: message@,
            },
            CompileError::Precompile { message } => CompileErrorView::Precompile {
                message: message@,
            },
        }
    }
}

} // verus!
