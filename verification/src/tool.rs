//! What goes into a tool, and what comes out.
use crate::chat::{
    SessionChatClientRequest, SessionChatClientRequestView, SessionChatClientResponse,
};
use crate::errors::{ToolError, ToolErrorView};
use crate::important::{
    CodeSymbolImportantRequest, CodeSymbolImportantResponse, CodeSymbolImportantResponseView,
};
use crate::lsp::{
    DefinitionPathAndRangeView, FindInFileRequest, FindInFileResponse, GoToDefinitionRequest,
    GoToDefinitionResponse, GoToImplementationRequest, GoToImplementationResponse, OpenFileRequest,
    OpenFileResponse, OpenFileResponseView,
};
use crate::outline::Position;
use crate::text::{option_view, result_view, views};
use vstd::prelude::*;

verus! {

/// The input of a tool.
#[derive(Debug, Clone)]
pub enum ToolInput {
    RequestImportantSymbols(CodeSymbolImportantRequest),
    OpenFile(OpenFileRequest),
    GrepSingleFile(FindInFileRequest),
    GoToDefinition(GoToDefinitionRequest),
    SymbolImplementations(GoToImplementationRequest),
    ContextDrivenChatReply(SessionChatClientRequest),
}

pub enum ToolInputView {
    RequestImportantSymbols { query: Seq<char> },
    OpenFile { fs_file_path: Seq<char>, editor_url: Seq<char> },
    GrepSingleFile { file_contents: Seq<char>, file_symbol: Seq<char> },
    GoToDefinition { fs_file_path: Seq<char>, editor_url: Seq<char>, position: Position },
    SymbolImplementations { fs_file_path: Seq<char>, editor_url: Seq<char>, position: Position },
    ContextDrivenChatReply(SessionChatClientRequestView),
}

impl View for ToolInput {
    type V = ToolInputView;

    open spec fn view(&self) -> ToolInputView {
        match self {
            ToolInput::RequestImportantSymbols(request) => ToolInputView::RequestImportantSymbols {
                query: request.query@,
            },
            ToolInput::OpenFile(request) => ToolInputView::OpenFile {
                fs_file_path: request.fs_file_path@,
                editor_url: request.editor_url@,
            },
            ToolInput::GrepSingleFile(request) => ToolInputView::GrepSingleFile {
                file_contents: request.file_contents@,
                file_symbol: request.file_symbol@,
            },
            ToolInput::GoToDefinition(request) => ToolInputView::GoToDefinition {
                fs_file_path: request.fs_file_path@,
                editor_url: request.editor_url@,
                position: request.position,
            },
            ToolInput::SymbolImplementations(request) => ToolInputView::SymbolImplementations {
                fs_file_path: request.fs_file_path@,
                editor_url: request.editor_url@,
                position: request.position,
            },
            ToolInput::ContextDrivenChatReply(request) => ToolInputView::ContextDrivenChatReply(
                request@,
            ),
        }
    }
}

impl ToolInput {
    /// The request for a chat reply, where this is one.
    pub fn is_session_context_driven_chat_reply(self) -> (request: Result<
        SessionChatClientRequest,
        ToolError,
    >)
        ensures
            result_view(request) == (match self@ {
                ToolInputView::ContextDrivenChatReply(request) => Ok(request),
                _ => Err(ToolErrorView::WrongToolInput),
            }),
            self matches ToolInput::ContextDrivenChatReply(chat) ==> request == Ok::<
                SessionChatClientRequest,
                ToolError,
            >(chat),
            self !is ContextDrivenChatReply ==> request == Err::<
                SessionChatClientRequest,
                ToolError,
            >(ToolError::WrongToolInput),
    {
        match self {
            ToolInput::ContextDrivenChatReply(request) => Ok(request),
            _ => Err(ToolError::WrongToolInput),
        }
    }
}

/// The output of a tool.
#[derive(Debug, Clone, PartialEq, Eq)]
pub enum ToolOutput {
    ImportantSymbols(CodeSymbolImportantResponse),
    FileOpen(OpenFileResponse),
    GrepSingleFile(FindInFileResponse),
    GoToDefinition(GoToDefinitionResponse),
    GoToImplementation(GoToImplementationResponse),
    ContextDrivenChatReply(SessionChatClientResponse),
}

pub enum ToolOutputView {
    ImportantSymbols(CodeSymbolImportantResponseView),
    FileOpen(OpenFileResponseView),
    GrepSingleFile(Option<Position>),
    GoToDefinition(Seq<DefinitionPathAndRangeView>),
    GoToImplementation(Seq<DefinitionPathAndRangeView>),
    ContextDrivenChatReply(Seq<char>),
}

impl View for ToolOutput {
    type V = ToolOutputView;

    open spec fn view(&self) -> ToolOutputView {
        match self {
            ToolOutput::ImportantSymbols(response) => ToolOutputView::ImportantSymbols(response@),
            ToolOutput::FileOpen(response) => ToolOutputView::FileOpen(response@),
            ToolOutput::GrepSingleFile(response) => ToolOutputView::GrepSingleFile(
                response.position,
            ),
            ToolOutput::GoToDefinition(response) => ToolOutputView::GoToDefinition(
                views(response.definitions@),
            ),
            ToolOutput::GoToImplementation(response) => ToolOutputView::GoToImplementation(
                views(response.implementation_locations@),
            ),
            ToolOutput::ContextDrivenChatReply(response) => ToolOutputView::ContextDrivenChatReply(
                response@,
            ),
        }
    }
}

impl ToolOutput {
    pub fn get_file_open_response(self) -> (response: Option<OpenFileResponse>)
        ensures
            option_view(response) == (match self@ {
                ToolOutputView::FileOpen(response) => Some(response),
                _ => None,
            }),
            self matches ToolOutput::FileOpen(file) ==> response == Some(file),
            self !is FileOpen ==> response is None,
    {
        match self {
            ToolOutput::FileOpen(response) => Some(response),
            _ => None,
        }
    }

    pub fn grep_single_file(self) -> (response: Option<FindInFileResponse>)
        ensures
            match self@ {
                ToolOutputView::GrepSingleFile(position) => response == Some(
                    (FindInFileResponse { position }),
                ),
                _ => response is None,
            },
            self matches ToolOutput::GrepSingleFile(place) ==> response == Some(place),
            self !is GrepSingleFile ==> response is None,
    {
        match self {
            ToolOutput::GrepSingleFile(response) => Some(response),
            _ => None,
        }
    }

    pub fn get_go_to_definition(self) -> (response: Option<GoToDefinitionResponse>)
        ensures
            match self@ {
                ToolOutputView::GoToDefinition(definitions) => response is Some && views(
                    response->0.definitions@,
                ) == definitions,
                _ => response is None,
            },
            self matches ToolOutput::GoToDefinition(definitions) ==> response == Some(definitions),
            self !is GoToDefinition ==> response is None,
    {
        match self {
            ToolOutput::GoToDefinition(response) => Some(response),
            _ => None,
        }
    }

    pub fn get_go_to_implementation(self) -> (response: Option<GoToImplementationResponse>)
        ensures
            match self@ {
                ToolOutputView::GoToImplementation(locations) => response is Some && views(
                    response->0.implementation_locations@,
                ) == locations,
                _ => response is None,
            },
            self matches ToolOutput::GoToImplementation(locations) ==> response == Some(locations),
            self !is GoToImplementation ==> response is None,
    {
        match self {
            ToolOutput::GoToImplementation(response) => Some(response),
            _ => None,
        }
    }
}

} // verus!
