//! What can go wrong in a tool, and in the handling of symbols.
use vstd::prelude::*;

verus! {

/// The failure of a tool.
#[derive(Debug, Clone, PartialEq, Eq)]
pub enum ToolError {
    /// The tool was handed an input meant for another one.
    WrongToolInput,
    /// No symbol of this name could be found.
    SymbolNotFound(String),
    /// The tool gave up.
    RetriesExhausted,
    /// A failure of the tool's own, in its own words.
    Failed(String),
}

pub enum ToolErrorView {
    WrongToolInput,
    SymbolNotFound(Seq<char>),
    RetriesExhausted,
    Failed(Seq<char>),
}

impl View for ToolError {
    type V = ToolErrorView;

    open spec fn view(&self) -> ToolErrorView {
        match self {
            ToolError::WrongToolInput => ToolErrorView::WrongToolInput,
            ToolError::SymbolNotFound(name) => ToolErrorView::SymbolNotFound(name@),
            ToolError::RetriesExhausted => ToolErrorView::RetriesExhausted,
            ToolError::Failed(words) => ToolErrorView::Failed(words@),
        }
    }
}

/// The failure of a request about symbols.
#[derive(Debug, Clone, PartialEq, Eq)]
pub enum SymbolError {
    /// A tool failed.
    ToolError(ToolError),
    /// A tool answered with an output of another kind than asked for.
    WrongToolOutput,
}

pub enum SymbolErrorView {
    ToolError(ToolErrorView),
    WrongToolOutput,
}

impl View for SymbolError {
    type V = SymbolErrorView;

    open spec fn view(&self) -> SymbolErrorView {
        match self {
            SymbolError::ToolError(error) => SymbolErrorView::ToolError(error@),
            SymbolError::WrongToolOutput => SymbolErrorView::WrongToolOutput,
        }
    }
}

/// The failure to find a symbol.
pub open spec fn not_found(name: Seq<char>) -> SymbolErrorView {
    SymbolErrorView::ToolError(ToolErrorView::SymbolNotFound(name))
}

} // verus!
