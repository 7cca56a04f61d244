//! Symbols on their way to an agent, and the snippets they are tied to.
use crate::outline::Range;
use crate::text::{option_view, views};
use vstd::prelude::*;

verus! {

/// Where a symbol stands in the code.
#[derive(Debug, Clone, PartialEq, Eq)]
pub struct Snippet {
    symbol_name: String,
    range: Range,
    fs_file_path: String,
}

pub struct SnippetView {
    pub symbol_name: Seq<char>,
    pub range: Range,
    pub fs_file_path: Seq<char>,
}

impl View for Snippet {
    type V = SnippetView;

    closed spec fn view(&self) -> SnippetView {
        SnippetView {
            symbol_name: self.symbol_name@,
            range: self.range,
            fs_file_path: self.fs_file_path@,
        }
    }
}

impl Snippet {
    pub fn new(symbol_name: String, range: Range, fs_file_path: String) -> (snippet: Self)
        ensures
            snippet@ == (SnippetView {
                symbol_name: symbol_name@,
                range,
                fs_file_path: fs_file_path@,
            }),
    {
        Snippet { symbol_name, range, fs_file_path }
    }

    pub fn symbol_name(&self) -> (name: &String)
        ensures
            name@ == self@.symbol_name,
    {
        &self.symbol_name
    }

    pub fn range(&self) -> (range: &Range)
        ensures
            *range == self@.range,
    {
        &self.range
    }

    pub fn file_path(&self) -> (path: &String)
        ensures
            path@ == self@.fs_file_path,
    {
        &self.fs_file_path
    }
}

/// A symbol to work on, the steps to take on it, and, once known, where it stands.
#[derive(Debug, Clone, PartialEq, Eq)]
pub struct MechaCodeSymbolThinking {
    symbol_name: String,
    steps: Vec<String>,
    is_new: bool,
    file_path: String,
    snippet: Option<Snippet>,
    implementations: Vec<Snippet>,
}

#[verifier::ext_equal]
pub struct MechaCodeSymbolThinkingView {
    pub symbol_name: Seq<char>,
    pub steps: Seq<Seq<char>>,
    pub is_new: bool,
    pub file_path: Seq<char>,
    pub snippet: Option<SnippetView>,
    pub implementations: Seq<SnippetView>,
}

impl View for MechaCodeSymbolThinking {
    type V = MechaCodeSymbolThinkingView;

    closed spec fn view(&self) -> MechaCodeSymbolThinkingView {
        MechaCodeSymbolThinkingView {
            symbol_name: self.symbol_name@,
            steps: views(self.steps@),
            is_new: self.is_new,
            file_path: self.file_path@,
            snippet: option_view(self.snippet),
            implementations: views(self.implementations@),
        }
    }
}

impl MechaCodeSymbolThinking {
    pub fn new(
        symbol_name: String,
        steps: Vec<String>,
        is_new: bool,
        file_path: String,
        snippet: Option<Snippet>,
        implementations: Vec<Snippet>,
    ) -> (symbol: Self)
        ensures
            symbol@ == (MechaCodeSymbolThinkingView {
                symbol_name: symbol_name@,
                steps: views(steps@),
                is_new,
                file_path: file_path@,
                snippet: option_view(snippet),
                implementations: views(implementations@),
            }),
    {
        MechaCodeSymbolThinking { symbol_name, steps, is_new, file_path, snippet, implementations }
    }

    pub fn symbol_name(&self) -> (name: &String)
        ensures
            name@ == self@.symbol_name,
    {
        &self.symbol_name
    }

    pub fn fs_file_path(&self) -> (path: &String)
        ensures
            path@ == self@.file_path,
    {
        &self.file_path
    }

    pub fn is_new(&self) -> (is_new: bool)
        ensures
            is_new == self@.is_new,
    {
        self.is_new
    }

    pub fn steps(&self) -> (steps: &Vec<String>)
        ensures
            views(steps@) == self@.steps,
    {
        &self.steps
    }

    pub fn snippet(&self) -> (snippet: &Option<Snippet>)
        ensures
            option_view(*snippet) == self@.snippet,
    {
        &self.snippet
    }

    /// Adds a step after those already there.
    pub fn add_step(&mut self, step: &str)
        ensures
            final(self)@ == (MechaCodeSymbolThinkingView {
                steps: old(self)@.steps.push(step@),
                ..old(self)@
            }),
    {
        let ghost before = self.steps@;
        self.steps.push(step.to_owned());
        assert(views(self.steps@) =~= views(before).push(step@));
    }

    /// Ties the symbol to a place in the code, in place of any earlier one.
    pub fn set_snippet(&mut self, snippet: Snippet)
        ensures
            final(self)@ == (MechaCodeSymbolThinkingView {
                snippet: Some(snippet@),
                ..old(self)@
            }),
    {
        self.snippet = Some(snippet);
    }
}

} // verus!
