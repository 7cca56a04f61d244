//! The symbols that a language model calls important for a request.
use crate::text::views;
use vstd::prelude::*;

verus! {

/// A request for the important symbols behind a user's query.
#[derive(Debug, Clone, PartialEq, Eq)]
pub struct CodeSymbolImportantRequest {
    pub query: String,
}

/// A symbol, and what the model thinks of it.
#[derive(Debug, Clone, PartialEq, Eq)]
pub struct CodeSymbolWithThinking {
    pub code_symbol: String,
    pub thinking: String,
}

pub struct CodeSymbolWithThinkingView {
    pub code_symbol: Seq<char>,
    pub thinking: Seq<char>,
}

impl View for CodeSymbolWithThinking {
    type V = CodeSymbolWithThinkingView;

    open spec fn view(&self) -> CodeSymbolWithThinkingView {
        CodeSymbolWithThinkingView { code_symbol: self.code_symbol@, thinking: self.thinking@ }
    }
}

/// A symbol, and the steps to take on it. It may have to be written anew.
#[derive(Debug, Clone, PartialEq, Eq)]
pub struct CodeSymbolWithSteps {
    pub code_symbol: String,
    pub steps: Vec<String>,
    pub is_new: bool,
    pub file_path: String,
}

pub struct CodeSymbolWithStepsView {
    pub code_symbol: Seq<char>,
    pub steps: Seq<Seq<char>>,
    pub is_new: bool,
    pub file_path: Seq<char>,
}

impl View for CodeSymbolWithSteps {
    type V = CodeSymbolWithStepsView;

    open spec fn view(&self) -> CodeSymbolWithStepsView {
        CodeSymbolWithStepsView {
            code_symbol: self.code_symbol@,
            steps: views(self.steps@),
            is_new: self.is_new,
            file_path: self.file_path@,
        }
    }
}

/// The model's answer: the symbols it looked at, and those to change, in order.
/// The two lists may overlap, and each may name a symbol more than once.
#[derive(Debug, Clone, PartialEq, Eq)]
pub struct CodeSymbolImportantResponse {
    pub symbols: Vec<CodeSymbolWithThinking>,
    pub ordered_symbols: Vec<CodeSymbolWithSteps>,
}

pub struct CodeSymbolImportantResponseView {
    pub symbols: Seq<CodeSymbolWithThinkingView>,
    pub ordered_symbols: Seq<CodeSymbolWithStepsView>,
}

impl View for CodeSymbolImportantResponse {
    type V = CodeSymbolImportantResponseView;

    open spec fn view(&self) -> CodeSymbolImportantResponseView {
        CodeSymbolImportantResponseView {
            symbols: views(self.symbols@),
            ordered_symbols: views(self.ordered_symbols@),
        }
    }
}

} // verus!
