//! What is asked of the editor's language server and of the tools beside it,
//! and what they answer.
use crate::outline::{Position, Range};
use vstd::prelude::*;

verus! {

/// Asks the editor to open a file.
#[derive(Debug, Clone, PartialEq, Eq)]
pub struct OpenFileRequest {
    pub fs_file_path: String,
    pub editor_url: String,
}

/// Asks for the first place of a symbol in a text.
#[derive(Debug, Clone, PartialEq, Eq)]
pub struct FindInFileRequest {
    pub file_contents: String,
    pub file_symbol: String,
}

/// Asks where the symbol at a place is defined.
#[derive(Debug, Clone, PartialEq, Eq)]
pub struct GoToDefinitionRequest {
    pub fs_file_path: String,
    pub editor_url: String,
    pub position: Position,
}

/// Asks where the symbol at a place is implemented.
#[derive(Debug, Clone, PartialEq, Eq)]
pub struct GoToImplementationRequest {
    pub fs_file_path: String,
    pub position: Position,
    pub editor_url: String,
}

/// An opened file.
#[derive(Debug, Clone, PartialEq, Eq)]
pub struct OpenFileResponse {
    pub fs_file_path: String,
    pub file_contents: String,
    pub language: String,
}

pub struct OpenFileResponseView {
    pub fs_file_path: Seq<char>,
    pub file_contents: Seq<char>,
    pub language: Seq<char>,
}

impl View for OpenFileResponse {
    type V = OpenFileResponseView;

    open spec fn view(&self) -> OpenFileResponseView {
        OpenFileResponseView {
            fs_file_path: self.fs_file_path@,
            file_contents: self.file_contents@,
            language: self.language@,
        }
    }
}

/// The place of a symbol in a text, if it is there at all.
#[derive(Debug, Clone, PartialEq, Eq)]
pub struct FindInFileResponse {
    pub position: Option<Position>,
}

/// A file and a stretch of it.
#[derive(Debug, Clone, PartialEq, Eq)]
pub struct DefinitionPathAndRange {
    pub fs_file_path: String,
    pub range: Range,
}

pub struct DefinitionPathAndRangeView {
    pub fs_file_path: Seq<char>,
    pub range: Range,
}

impl View for DefinitionPathAndRange {
    type V = DefinitionPathAndRangeView;

    open spec fn view(&self) -> DefinitionPathAndRangeView {
        DefinitionPathAndRangeView { fs_file_path: self.fs_file_path@, range: self.range }
    }
}

/// The definitions of a symbol, the best one first.
#[derive(Debug, Clone, PartialEq, Eq)]
pub struct GoToDefinitionResponse {
    pub definitions: Vec<DefinitionPathAndRange>,
}

/// The implementations of a symbol.
#[derive(Debug, Clone, PartialEq, Eq)]
pub struct GoToImplementationResponse {
    pub implementation_locations: Vec<DefinitionPathAndRange>,
}

} // verus!
