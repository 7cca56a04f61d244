//! The central manager of the symbols: what it asks of the tools and of the
//! symbol broker, and what it makes of their answers.
use crate::errors::{not_found, SymbolError, SymbolErrorView, ToolError, ToolErrorView};
use crate::identifier::{MechaCodeSymbolThinking, Snippet, SnippetView};
use crate::implementation::{ask_implementations, GoToImplementationRun, GoToImplementationStep};
use crate::important::CodeSymbolImportantResponse;
use crate::lsp::{
    DefinitionPathAndRangeView, FindInFileRequest, FindInFileResponse,
    GoToDefinitionRequest, GoToDefinitionResponse, GoToImplementationRequest,
    GoToImplementationResponse, OpenFileRequest, OpenFileResponse, OpenFileResponseView,
};
use crate::outline::{
    grab_symbols, grabbed, OutlineNode, OutlineNodeContent, OutlineNodeView, Position,
};
use crate::plan::{plan, plan_symbols};
use crate::run::{
    initial_step, visit, ImportantSymbolsRun, InitialRequestRun, SymbolAction, SymbolInputEvent,
    SymbolStep,
};
use crate::text::{result_view, views};
use crate::tool::{ToolInput, ToolInputView, ToolOutput, ToolOutputView};
use std::sync::Arc;
use vstd::prelude::*;

verus! {

/// What a tool answered: its output, or its failure.
pub type Reply = Result<ToolOutputView, ToolErrorView>;

/// The opened file that a reply brings.
pub open spec fn opened(reply: Reply) -> Result<OpenFileResponseView, SymbolErrorView> {
    match reply {
        Err(error) => Err(SymbolErrorView::ToolError(error)),
        Ok(ToolOutputView::FileOpen(file)) => Ok(file),
        Ok(_) => Err(SymbolErrorView::WrongToolOutput),
    }
}

/// The place in a file that a reply brings, if the symbol is there.
pub open spec fn found(reply: Reply) -> Result<Option<Position>, SymbolErrorView> {
    match reply {
        Err(error) => Err(SymbolErrorView::ToolError(error)),
        Ok(ToolOutputView::GrepSingleFile(position)) => Ok(position),
        Ok(_) => Err(SymbolErrorView::WrongToolOutput),
    }
}

/// The definitions that a reply brings.
pub open spec fn defined(reply: Reply) -> Result<Seq<DefinitionPathAndRangeView>, SymbolErrorView> {
    match reply {
        Err(error) => Err(SymbolErrorView::ToolError(error)),
        Ok(ToolOutputView::GoToDefinition(definitions)) => Ok(definitions),
        Ok(_) => Err(SymbolErrorView::WrongToolOutput),
    }
}

/// The implementations that a reply brings.
pub open spec fn implemented(reply: Reply) -> Result<
    Seq<DefinitionPathAndRangeView>,
    SymbolErrorView,
> {
    match reply {
        Err(error) => Err(SymbolErrorView::ToolError(error)),
        Ok(ToolOutputView::GoToImplementation(locations)) => Ok(locations),
        Ok(_) => Err(SymbolErrorView::WrongToolOutput),
    }
}

/// The snippet of a symbol in the file that defines it, by the outline of that file.
pub open spec fn defined_snippet(
    symbol_name: Seq<char>,
    fs_file_path: Seq<char>,
    outline: Option<Seq<OutlineNodeView>>,
) -> Result<SnippetView, SymbolErrorView> {
    match outline {
        None => Err(not_found(symbol_name)),
        Some(nodes) => {
            let offers = grabbed(nodes, symbol_name);
            if offers.len() == 0 {
                Err(not_found(symbol_name))
            } else {
                Ok(
                    SnippetView {
                        symbol_name: offers[0].name,
                        range: offers[0].range,
                        fs_file_path,
                    },
                )
            }
        },
    }
}

/// The views of the nodes of an optional outline.
pub open spec fn outline_view(outline: Option<Vec<OutlineNode>>) -> Option<Seq<OutlineNodeView>> {
    match outline {
        Some(nodes) => Some(views(nodes@)),
        None => None,
    }
}

/// The manager of the symbols. It reaches the tools and the outlines of the open
/// files through two brokers, and the editor by its URL.
pub struct SymbolManager<T, S> {
    tools: Arc<T>,
    symbol_broker: Arc<S>,
    editor_url: String,
}

pub struct SymbolManagerView<T, S> {
    pub tools: Arc<T>,
    pub symbol_broker: Arc<S>,
    pub editor_url: Seq<char>,
}

impl<T, S> View for SymbolManager<T, S> {
    type V = SymbolManagerView<T, S>;

    closed spec fn view(&self) -> SymbolManagerView<T, S> {
        SymbolManagerView {
            tools: self.tools,
            symbol_broker: self.symbol_broker,
            editor_url: self.editor_url@,
        }
    }
}

impl<T, S> SymbolManager<T, S> {
    pub fn new(tools: Arc<T>, symbol_broker: Arc<S>, editor_url: String) -> (manager: Self)
        ensures
            manager@ == (SymbolManagerView { tools, symbol_broker, editor_url: editor_url@ }),
    {
        Self { tools, symbol_broker, editor_url }
    }

    pub fn tools(&self) -> (tools: &Arc<T>)
        ensures
            *tools == self@.tools,
    {
        &self.tools
    }

    pub fn symbol_broker(&self) -> (symbol_broker: &Arc<S>)
        ensures
            *symbol_broker == self@.symbol_broker,
    {
        &self.symbol_broker
    }

    /// The first step on an initial request: it goes to the tool that names the
    /// important symbols. A request without such a tool is over at once, and no
    /// symbol comes of it.
    pub fn initial_request(&self, input_event: SymbolInputEvent) -> (step: SymbolStep<
        InitialRequestRun,
    >)
        ensures
            step@ == initial_step(input_event@),
    {
        match input_event.tool_use_on_initial_invocation() {
            Some(tool_input) => SymbolStep::Ask {
                run: InitialRequestRun::AwaitingSymbols,
                action: SymbolAction::InvokeTool(tool_input),
            },
            None => {
                let symbols: Vec<MechaCodeSymbolThinking> = Vec::new();
                assert(views(symbols@) =~= seq![]);
                SymbolStep::Done(Ok(symbols))
            },
        }
    }

    /// The first step towards the snippets of the important symbols, which are gone
    /// through one by one, in the order of the plan.
    pub fn important_symbols(&self, important_symbols: CodeSymbolImportantResponse) -> (step:
        SymbolStep<ImportantSymbolsRun>)
        ensures
            step@ == visit(self@.editor_url, plan(important_symbols@), 0),
    {
        ImportantSymbolsRun::visit(self, plan_symbols(&important_symbols), 0)
    }

    /// The first step towards the implementations of a symbol. The exact place of the
    /// symbol is needed for that, so the file is opened first and the symbol looked
    /// for in it.
    pub fn go_to_implementation(&self, snippet: &Snippet, symbol_name: &str) -> (step:
        GoToImplementationStep)
        ensures
            step@ == ask_implementations(
                self@.editor_url,
                snippet@.fs_file_path,
                symbol_name@,
            ),
    {
        GoToImplementationStep::Ask {
            run: GoToImplementationRun::Opening {
                fs_file_path: snippet.file_path().clone(),
                symbol_name: symbol_name.to_owned(),
            },
            tool_input: self.file_open(snippet.file_path().clone()),
        }
    }

    /// What is asked of the tools to open a file.
    pub fn file_open(&self, fs_file_path: String) -> (tool_input: ToolInput)
        ensures
            tool_input@ == (ToolInputView::OpenFile {
                fs_file_path: fs_file_path@,
                editor_url: self@.editor_url,
            }),
    {
        ToolInput::OpenFile(
            OpenFileRequest { fs_file_path, editor_url: self.editor_url.clone() },
        )
    }

    /// What is asked of the tools to find a symbol in the contents of a file.
    pub fn find_in_file(&self, file_content: String, symbol: String) -> (tool_input: ToolInput)
        ensures
            tool_input@ == (ToolInputView::GrepSingleFile {
                file_contents: file_content@,
                file_symbol: symbol@,
            }),
    {
        ToolInput::GrepSingleFile(
            FindInFileRequest { file_contents: file_content, file_symbol: symbol },
        )
    }

    /// What is asked of the tools to go to the definition of what stands at a place.
    pub fn go_to_definition(&self, fs_file_path: &str, position: Position) -> (tool_input:
        ToolInput)
        ensures
            tool_input@ == (ToolInputView::GoToDefinition {
                fs_file_path: fs_file_path@,
                editor_url: self@.editor_url,
                position,
            }),
    {
        ToolInput::GoToDefinition(
            GoToDefinitionRequest {
                fs_file_path: fs_file_path.to_owned(),
                editor_url: self.editor_url.clone(),
                position,
            },
        )
    }

    /// What is asked of the tools to go to the implementations of what stands at a
    /// place.
    pub fn symbol_implementations(&self, fs_file_path: &str, position: Position) -> (tool_input:
        ToolInput)
        ensures
            tool_input@ == (ToolInputView::SymbolImplementations {
                fs_file_path: fs_file_path@,
                editor_url: self@.editor_url,
                position,
            }),
    {
        ToolInput::SymbolImplementations(
            GoToImplementationRequest {
                fs_file_path: fs_file_path.to_owned(),
                position,
                editor_url: self.editor_url.clone(),
            },
        )
    }

    /// Grabs the snippet of a symbol from the outline of the file that a definition
    /// of it leads to.
    pub fn grab_symbol_content_from_definition(
        &self,
        symbol_name: &str,
        fs_file_path: &str,
        symbols: Option<Vec<OutlineNode>>,
    ) -> (snippet: Result<Snippet, SymbolError>)
        ensures
            result_view(snippet) == defined_snippet(
                symbol_name@,
                fs_file_path@,
                outline_view(symbols),
            ),
    {
        match symbols {
            Some(nodes) => {
                let offers: Vec<OutlineNodeContent> = self.grab_symbols_from_outline(
                    nodes,
                    symbol_name,
                );
                if offers.is_empty() {
                    Err(
                        SymbolError::ToolError(ToolError::SymbolNotFound(symbol_name.to_owned())),
                    )
                } else {
                    assert(views(offers@)[0] == offers@[0]@);
                    Ok(
                        Snippet::new(
                            offers[0].name().clone(),
                            *offers[0].range(),
                            fs_file_path.to_owned(),
                        ),
                    )
                }
            },
            None => Err(SymbolError::ToolError(ToolError::SymbolNotFound(symbol_name.to_owned()))),
        }
    }

    /// The symbols that an outline offers under a name: a top-level symbol of that
    /// name, or the members of that name of a class of another one.
    pub fn grab_symbols_from_outline(
        &self,
        outline_nodes: Vec<OutlineNode>,
        symbol_name: &str,
    ) -> (offers: Vec<OutlineNodeContent>)
        ensures
            views(offers@) == grabbed(views(outline_nodes@), symbol_name@),
    {
        grab_symbols(&outline_nodes, &symbol_name.to_owned())
    }
}

/// The opened file that a reply brings.
pub fn file_open_reply(reply: Result<ToolOutput, ToolError>) -> (file: Result<
    OpenFileResponse,
    SymbolError,
>)
    ensures
        result_view(file) == opened(result_view(reply)),
        match reply {
            Ok(ToolOutput::FileOpen(answer)) => file == Ok::<OpenFileResponse, SymbolError>(answer),
            Ok(_) => file == Err::<OpenFileResponse, SymbolError>(SymbolError::WrongToolOutput),
            Err(error) => file == Err::<OpenFileResponse, SymbolError>(SymbolError::ToolError(error)),
        },
{
    match reply {
        Ok(output) => match output.get_file_open_response() {
            Some(file) => Ok(file),
            None => Err(SymbolError::WrongToolOutput),
        },
        Err(error) => Err(SymbolError::ToolError(error)),
    }
}

/// The place in a file that a reply brings, if the symbol is there.
pub fn find_in_file_reply(reply: Result<ToolOutput, ToolError>) -> (place: Result<
    FindInFileResponse,
    SymbolError,
>)
    ensures
        match found(result_view(reply)) {
            Ok(position) => place == Ok::<FindInFileResponse, SymbolError>(
                (FindInFileResponse { position }),
            ),
            Err(error) => place is Err && place->Err_0@ == error,
        },
        match reply {
            Ok(ToolOutput::GrepSingleFile(answer)) => place == Ok::<FindInFileResponse, SymbolError>(answer),
            Ok(_) => place == Err::<FindInFileResponse, SymbolError>(SymbolError::WrongToolOutput),
            Err(error) => place == Err::<FindInFileResponse, SymbolError>(SymbolError::ToolError(error)),
        },
{
    match reply {
        Ok(output) => match output.grep_single_file() {
            Some(place) => Ok(place),
            None => Err(SymbolError::WrongToolOutput),
        },
        Err(error) => Err(SymbolError::ToolError(error)),
    }
}

/// The definitions that a reply brings.
pub fn go_to_definition_reply(reply: Result<ToolOutput, ToolError>) -> (definitions: Result<
    GoToDefinitionResponse,
    SymbolError,
>)
    ensures
        match defined(result_view(reply)) {
            Ok(expected) => definitions is Ok && views(definitions->Ok_0.definitions@) == expected,
            Err(error) => definitions is Err && definitions->Err_0@ == error,
        },
        match reply {
            Ok(ToolOutput::GoToDefinition(answer)) => definitions == Ok::<GoToDefinitionResponse, SymbolError>(answer),
            Ok(_) => definitions == Err::<GoToDefinitionResponse, SymbolError>(SymbolError::WrongToolOutput),
            Err(error) => definitions == Err::<GoToDefinitionResponse, SymbolError>(SymbolError::ToolError(error)),
        },
{
    match reply {
        Ok(output) => match output.get_go_to_definition() {
            Some(definitions) => Ok(definitions),
            None => Err(SymbolError::WrongToolOutput),
        },
        Err(error) => Err(SymbolError::ToolError(error)),
    }
}

/// The implementations that a reply brings.
pub fn go_to_implementation_reply(reply: Result<ToolOutput, ToolError>) -> (locations: Result<
    GoToImplementationResponse,
    SymbolError,
>)
    ensures
        match implemented(result_view(reply)) {
            Ok(expected) => locations is Ok && views(locations->Ok_0.implementation_locations@)
                == expected,
            Err(error) => locations is Err && locations->Err_0@ == error,
        },
        match reply {
            Ok(ToolOutput::GoToImplementation(answer)) => locations == Ok::<GoToImplementationResponse, SymbolError>(answer),
            Ok(_) => locations == Err::<GoToImplementationResponse, SymbolError>(SymbolError::WrongToolOutput),
            Err(error) => locations == Err::<GoToImplementationResponse, SymbolError>(SymbolError::ToolError(error)),
        },
{
    match reply {
        Ok(output) => match output.get_go_to_implementation() {
            Some(locations) => Ok(locations),
            None => Err(SymbolError::WrongToolOutput),
        },
        Err(error) => Err(SymbolError::ToolError(error)),
    }
}

} // verus!
