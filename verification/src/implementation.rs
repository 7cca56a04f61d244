//! Going to the implementations of a symbol, one question after the other.
use crate::errors::{not_found, SymbolError, SymbolErrorView, ToolError};
use crate::lsp::{DefinitionPathAndRangeView, GoToImplementationResponse};
use crate::manager::{
    file_open_reply, find_in_file_reply, found, go_to_implementation_reply, implemented, opened,
    Reply, SymbolManager,
};
use crate::text::{result_view, views};
use crate::tool::{ToolInput, ToolInputView, ToolOutput};
use vstd::prelude::*;

verus! {

/// How far the way to the implementations has been gone: which answer is due.
#[derive(Debug, Clone, PartialEq, Eq)]
pub enum GoToImplementationRun {
    /// The file with the symbol is being opened.
    Opening { fs_file_path: String, symbol_name: String },
    /// The symbol is being looked for in the file.
    Finding { fs_file_path: String, symbol_name: String },
    /// The implementations are being asked for.
    Asking,
}

pub enum GoToImplementationRunView {
    Opening { fs_file_path: Seq<char>, symbol_name: Seq<char> },
    Finding { fs_file_path: Seq<char>, symbol_name: Seq<char> },
    Asking,
}

impl View for GoToImplementationRun {
    type V = GoToImplementationRunView;

    open spec fn view(&self) -> GoToImplementationRunView {
        match self {
            GoToImplementationRun::Opening { fs_file_path, symbol_name } =>
                GoToImplementationRunView::Opening {
                fs_file_path: fs_file_path@,
                symbol_name: symbol_name@,
            },
            GoToImplementationRun::Finding { fs_file_path, symbol_name } =>
                GoToImplementationRunView::Finding {
                fs_file_path: fs_file_path@,
                symbol_name: symbol_name@,
            },
            GoToImplementationRun::Asking => GoToImplementationRunView::Asking,
        }
    }
}

/// What is to be done next: put a question to the tools, or report the outcome.
#[derive(Debug)]
pub enum GoToImplementationStep {
    Ask { run: GoToImplementationRun, tool_input: ToolInput },
    Done(Result<GoToImplementationResponse, SymbolError>),
}

pub enum GoToImplementationStepView {
    Ask { run: GoToImplementationRunView, tool_input: ToolInputView },
    Done(Result<Seq<DefinitionPathAndRangeView>, SymbolErrorView>),
}

impl View for GoToImplementationStep {
    type V = GoToImplementationStepView;

    open spec fn view(&self) -> GoToImplementationStepView {
        match self {
            GoToImplementationStep::Ask { run, tool_input } => GoToImplementationStepView::Ask {
                run: run@,
                tool_input: tool_input@,
            },
            GoToImplementationStep::Done(Ok(response)) => GoToImplementationStepView::Done(
                Ok(views(response.implementation_locations@)),
            ),
            GoToImplementationStep::Done(Err(error)) => GoToImplementationStepView::Done(
                Err(error@),
            ),
        }
    }
}

/// The first question: to open the file with the symbol.
pub open spec fn ask_implementations(
    editor_url: Seq<char>,
    fs_file_path: Seq<char>,
    symbol_name: Seq<char>,
) -> GoToImplementationStepView {
    GoToImplementationStepView::Ask {
        run: GoToImplementationRunView::Opening { fs_file_path, symbol_name },
        tool_input: ToolInputView::OpenFile { fs_file_path, editor_url },
    }
}

/// What an answer leads to.
pub open spec fn next_towards_implementations(
    editor_url: Seq<char>,
    run: GoToImplementationRunView,
    reply: Reply,
) -> GoToImplementationStepView {
    match run {
        GoToImplementationRunView::Opening { fs_file_path, symbol_name } => match opened(reply) {
            Err(error) => GoToImplementationStepView::Done(Err(error)),
            Ok(file) => GoToImplementationStepView::Ask {
                run: GoToImplementationRunView::Finding { fs_file_path, symbol_name },
                tool_input: ToolInputView::GrepSingleFile {
                    file_contents: file.file_contents,
                    file_symbol: symbol_name,
                },
            },
        },
        GoToImplementationRunView::Finding { fs_file_path, symbol_name } => match found(reply) {
            Err(error) => GoToImplementationStepView::Done(Err(error)),
            Ok(None) => GoToImplementationStepView::Done(Err(not_found(symbol_name))),
            Ok(Some(position)) => GoToImplementationStepView::Ask {
                run: GoToImplementationRunView::Asking,
                tool_input: ToolInputView::SymbolImplementations {
                    fs_file_path,
                    editor_url,
                    position,
                },
            },
        },
        GoToImplementationRunView::Asking => GoToImplementationStepView::Done(implemented(reply)),
    }
}

impl GoToImplementationRun {
    /// Takes in the answer that is due.
    pub fn step<T, S>(
        self,
        manager: &SymbolManager<T, S>,
        reply: Result<ToolOutput, ToolError>,
    ) -> (step: GoToImplementationStep)
        ensures
            step@ == next_towards_implementations(
                manager@.editor_url,
                self@,
                result_view(reply),
            ),
            self is Asking && reply is Ok && reply->Ok_0 is GoToImplementation ==> step
                == GoToImplementationStep::Done(Ok(reply->Ok_0->GoToImplementation_0)),
    {
        match self {
            GoToImplementationRun::Opening { fs_file_path, symbol_name } => match file_open_reply(
                reply,
            ) {
                Ok(file) => GoToImplementationStep::Ask {
                    tool_input: manager.find_in_file(file.file_contents, symbol_name.clone()),
                    run: GoToImplementationRun::Finding { fs_file_path, symbol_name },
                },
                Err(error) => GoToImplementationStep::Done(Err(error)),
            },
            GoToImplementationRun::Finding { fs_file_path, symbol_name } =>
                match find_in_file_reply(reply) {
                Ok(place) => match place.position {
                    Some(position) => GoToImplementationStep::Ask {
                        run: GoToImplementationRun::Asking,
                        tool_input: manager.symbol_implementations(fs_file_path.as_str(), position),
                    },
                    None => GoToImplementationStep::Done(
                        Err(SymbolError::ToolError(ToolError::SymbolNotFound(symbol_name))),
                    ),
                },
                Err(error) => GoToImplementationStep::Done(Err(error)),
            },
            GoToImplementationRun::Asking => GoToImplementationStep::Done(
                go_to_implementation_reply(reply),
            ),
        }
    }
}

} // verus!
