//! What the views show: every field of the value, as it is, and nothing else.
use crate::chat::{ReplyJob, SessionChatClientRequest, SessionChatClientResponse};
use crate::errors::{SymbolError, SymbolErrorView, ToolError, ToolErrorView};
use crate::identifier::MechaCodeSymbolThinking;
use crate::implementation::{
    GoToImplementationRun, GoToImplementationRunView, GoToImplementationStep,
    GoToImplementationStepView,
};
use crate::important::{
    CodeSymbolImportantRequest, CodeSymbolImportantResponse, CodeSymbolWithSteps,
    CodeSymbolWithThinking,
};
use crate::llm::{LLMClientCompletionRequest, LLMProperties, LLMProviderAPIKeys};
use crate::lsp::{
    DefinitionPathAndRange, FindInFileRequest, FindInFileResponse, GoToDefinitionRequest,
    GoToDefinitionResponse, GoToImplementationRequest, GoToImplementationResponse, OpenFileRequest,
    OpenFileResponse,
};
use crate::manager::outline_view;
use crate::outline::OutlineNode;
use crate::run::{
    ImportantSymbolsRun, ImportantSymbolsRunView, InitialRequestRun, InitialRequestRunView, Stage,
    StageView, SymbolAction, SymbolActionView, SymbolEvent, SymbolEventView, SymbolStep,
    SymbolStepView,
};
use crate::text::{option_view, result_view, views};
use crate::tool::{ToolInput, ToolInputView, ToolOutput, ToolOutputView};
use vstd::prelude::*;

verus! {

/// The views of a list are those of its items, each at its own place.
pub proof fn law_views_of_a_list<T: View>(items: Seq<T>)
    ensures
        views(items).len() == items.len(),
        forall|k: int| 0 <= k < items.len() ==> #[trigger] views(items)[k] == items[k]@,
{
}

/// The view of an optional value or of a result is that of what it holds.
pub proof fn law_views_of_what_may_be_there<T: View, E: View>(value: T, error: E)
    ensures
        option_view(Some(value)) == Some(value@),
        option_view(None::<T>) == None::<T::V>,
        result_view(Ok::<T, E>(value)) == Ok::<T::V, E::V>(value@),
        result_view(Err::<T, E>(error)) == Err::<T::V, E::V>(error@),
{
}

/// An outline is shown with all its nodes, and the lack of one as such.
pub proof fn law_view_of_an_outline(nodes: Vec<OutlineNode>)
    ensures
        outline_view(Some(nodes)) == Some(
            nodes@.map_values(|node: OutlineNode| node@),
        ),
        outline_view(None) is None,
{
    assert(views(nodes@) =~= nodes@.map_values(|node: OutlineNode| node@));
}

/// An error is shown with the name or the words that it holds.
pub proof fn law_views_of_errors(text: String, error: ToolError)
    ensures
        ToolError::WrongToolInput@ == ToolErrorView::WrongToolInput,
        ToolError::SymbolNotFound(text)@ == ToolErrorView::SymbolNotFound(text@),
        ToolError::RetriesExhausted@ == ToolErrorView::RetriesExhausted,
        ToolError::Failed(text)@ == ToolErrorView::Failed(text@),
        SymbolError::ToolError(error)@ == SymbolErrorView::ToolError(error@),
        SymbolError::WrongToolOutput@ == SymbolErrorView::WrongToolOutput,
{
}

/// What a model says of symbols is shown whole.
pub proof fn law_views_of_important_symbols(
    thought: CodeSymbolWithThinking,
    order: CodeSymbolWithSteps,
    response: CodeSymbolImportantResponse,
)
    ensures
        thought@.code_symbol == thought.code_symbol@,
        thought@.thinking == thought.thinking@,
        order@.code_symbol == order.code_symbol@,
        order@.steps.len() == order.steps@.len(),
        forall|k: int| 0 <= k < order.steps@.len() ==> #[trigger] order@.steps[k] == order.steps@[k]@,
        order@.is_new == order.is_new,
        order@.file_path == order.file_path@,
        response@.symbols.len() == response.symbols@.len(),
        forall|k: int|
            0 <= k < response.symbols@.len() ==> #[trigger] response@.symbols[k]
                == response.symbols@[k]@,
        response@.ordered_symbols.len() == response.ordered_symbols@.len(),
        forall|k: int|
            0 <= k < response.ordered_symbols@.len() ==> #[trigger] response@.ordered_symbols[k]
                == response.ordered_symbols@[k]@,
{
}

/// A question to a tool is shown with all that it asks.
pub proof fn law_views_of_tool_inputs(
    symbols: CodeSymbolImportantRequest,
    open: OpenFileRequest,
    find: FindInFileRequest,
    definition: GoToDefinitionRequest,
    implementation: GoToImplementationRequest,
    chat: SessionChatClientRequest,
)
    ensures
        ToolInput::RequestImportantSymbols(symbols)@ == (ToolInputView::RequestImportantSymbols {
            query: symbols.query@,
        }),
        ToolInput::OpenFile(open)@ == (ToolInputView::OpenFile {
            fs_file_path: open.fs_file_path@,
            editor_url: open.editor_url@,
        }),
        ToolInput::GrepSingleFile(find)@ == (ToolInputView::GrepSingleFile {
            file_contents: find.file_contents@,
            file_symbol: find.file_symbol@,
        }),
        ToolInput::GoToDefinition(definition)@ == (ToolInputView::GoToDefinition {
            fs_file_path: definition.fs_file_path@,
            editor_url: definition.editor_url@,
            position: definition.position,
        }),
        ToolInput::SymbolImplementations(implementation)@ == (
        ToolInputView::SymbolImplementations {
            fs_file_path: implementation.fs_file_path@,
            editor_url: implementation.editor_url@,
            position: implementation.position,
        }),
        ToolInput::ContextDrivenChatReply(chat)@ == ToolInputView::ContextDrivenChatReply(chat@),
{
}

/// An output of a tool is shown whole: a file with its path, contents and language, and
/// every one of the places that it lists.
pub proof fn law_views_of_tool_outputs(
    symbols: CodeSymbolImportantResponse,
    file: OpenFileResponse,
    place: FindInFileResponse,
    definitions: GoToDefinitionResponse,
    implementations: GoToImplementationResponse,
    location: DefinitionPathAndRange,
    reply: SessionChatClientResponse,
)
    ensures
        ToolOutput::ContextDrivenChatReply(reply)@ == ToolOutputView::ContextDrivenChatReply(
            reply@,
        ),
        ToolOutput::ImportantSymbols(symbols)@ == ToolOutputView::ImportantSymbols(symbols@),
        ToolOutput::FileOpen(file)@ == ToolOutputView::FileOpen(file@),
        file@.fs_file_path == file.fs_file_path@,
        file@.file_contents == file.file_contents@,
        file@.language == file.language@,
        ToolOutput::GrepSingleFile(place)@ == ToolOutputView::GrepSingleFile(place.position),
        ToolOutput::GoToDefinition(definitions)@ == ToolOutputView::GoToDefinition(
            definitions.definitions@.map_values(|at: DefinitionPathAndRange| at@),
        ),
        ToolOutput::GoToImplementation(implementations)@ == ToolOutputView::GoToImplementation(
            implementations.implementation_locations@.map_values(
                |at: DefinitionPathAndRange| at@,
            ),
        ),
        location@.fs_file_path == location.fs_file_path@,
        location@.range == location.range,
{
    assert(views(definitions.definitions@) =~= definitions.definitions@.map_values(
        |at: DefinitionPathAndRange| at@,
    ));
    assert(views(implementations.implementation_locations@)
        =~= implementations.implementation_locations@.map_values(
        |at: DefinitionPathAndRange| at@,
    ));
}

/// An action is shown with all that it asks for.
pub proof fn law_views_of_actions(
    tool_input: ToolInput,
    fs_file_path: String,
    contents: String,
    language: String,
)
    ensures
        SymbolAction::InvokeTool(tool_input)@ == SymbolActionView::InvokeTool(tool_input@),
        (SymbolAction::AddDocument { fs_file_path, contents, language })@ == (
        SymbolActionView::AddDocument {
            fs_file_path: fs_file_path@,
            contents: contents@,
            language: language@,
        }),
        (SymbolAction::GetSymbolsOutline { fs_file_path })@ == (
        SymbolActionView::GetSymbolsOutline { fs_file_path: fs_file_path@ }),
{
}

/// An event is shown with the reply or the outline that it brings.
pub proof fn law_views_of_events(
    output: ToolOutput,
    error: ToolError,
    outline: Option<Vec<OutlineNode>>,
)
    ensures
        SymbolEvent::ToolReply(Ok(output))@ == SymbolEventView::ToolReply(Ok(output@)),
        SymbolEvent::ToolReply(Err(error))@ == SymbolEventView::ToolReply(Err(error@)),
        SymbolEvent::DocumentAdded@ == SymbolEventView::DocumentAdded,
        SymbolEvent::SymbolsOutline(outline)@ == SymbolEventView::SymbolsOutline(
            outline_view(outline),
        ),
{
}

/// A stage is shown as it is, with the path that it remembers.
pub proof fn law_views_of_stages(fs_file_path: String)
    ensures
        Stage::Opening@ == StageView::Opening,
        Stage::Adding@ == StageView::Adding,
        Stage::Outlining@ == StageView::Outlining,
        Stage::Reopening@ == StageView::Reopening,
        Stage::Finding@ == StageView::Finding,
        Stage::Defining@ == StageView::Defining,
        (Stage::OpeningDefinition { fs_file_path })@ == (StageView::OpeningDefinition {
            fs_file_path: fs_file_path@,
        }),
        (Stage::OutliningDefinition { fs_file_path })@ == (StageView::OutliningDefinition {
            fs_file_path: fs_file_path@,
        }),
{
}

/// A step is shown with its run and its action, or with every symbol of its outcome, or with
/// its error.
pub proof fn law_views_of_steps(
    run: ImportantSymbolsRun,
    initial: InitialRequestRun,
    action: SymbolAction,
    symbols: Vec<MechaCodeSymbolThinking>,
    error: SymbolError,
)
    ensures
        (SymbolStep::Ask { run, action })@ == (SymbolStepView::Ask { run: run@, action: action@ }),
        (SymbolStep::Ask { run: initial, action })@ == (SymbolStepView::Ask {
            run: initial@,
            action: action@,
        }),
        SymbolStep::<ImportantSymbolsRun>::Done(Ok(symbols))@ == SymbolStepView::<
            ImportantSymbolsRunView,
        >::Done(
            Ok(symbols@.map_values(|symbol: MechaCodeSymbolThinking| symbol@)),
        ),
        SymbolStep::<InitialRequestRun>::Done(Ok(symbols))@ == SymbolStepView::<
            InitialRequestRunView,
        >::Done(
            Ok(symbols@.map_values(|symbol: MechaCodeSymbolThinking| symbol@)),
        ),
        SymbolStep::<ImportantSymbolsRun>::Done(Err(error))@ == SymbolStepView::<
            ImportantSymbolsRunView,
        >::Done(Err(error@)),
        SymbolStep::<InitialRequestRun>::Done(Err(error))@ == SymbolStepView::<
            InitialRequestRunView,
        >::Done(Err(error@)),
        InitialRequestRun::AwaitingSymbols@ == InitialRequestRunView::AwaitingSymbols,
        InitialRequestRun::Resolving(run)@ == InitialRequestRunView::Resolving(run@),
{
    assert(views(symbols@) =~= symbols@.map_values(|symbol: MechaCodeSymbolThinking| symbol@));
}

/// The way to the implementations is shown with the file and the name that it remembers, its
/// question, and every place of its outcome.
pub proof fn law_views_towards_implementations(
    fs_file_path: String,
    symbol_name: String,
    run: GoToImplementationRun,
    tool_input: ToolInput,
    response: GoToImplementationResponse,
    error: SymbolError,
)
    ensures
        (GoToImplementationRun::Opening { fs_file_path, symbol_name })@ == (
        GoToImplementationRunView::Opening {
            fs_file_path: fs_file_path@,
            symbol_name: symbol_name@,
        }),
        (GoToImplementationRun::Finding { fs_file_path, symbol_name })@ == (
        GoToImplementationRunView::Finding {
            fs_file_path: fs_file_path@,
            symbol_name: symbol_name@,
        }),
        GoToImplementationRun::Asking@ == GoToImplementationRunView::Asking,
        (GoToImplementationStep::Ask { run, tool_input })@ == (GoToImplementationStepView::Ask {
            run: run@,
            tool_input: tool_input@,
        }),
        GoToImplementationStep::Done(Ok(response))@ == GoToImplementationStepView::Done(
            Ok(
                response.implementation_locations@.map_values(
                    |at: DefinitionPathAndRange| at@,
                ),
            ),
        ),
        GoToImplementationStep::Done(Err(error))@ == GoToImplementationStepView::Done(Err(error@)),
{
    assert(views(response.implementation_locations@)
        =~= response.implementation_locations@.map_values(|at: DefinitionPathAndRange| at@));
}

/// A request to a model is shown with every message and with its settings, and a job with all
/// that it takes.
pub proof fn law_views_of_jobs(
    properties: LLMProperties,
    request: LLMClientCompletionRequest,
    job: ReplyJob,
)
    ensures
        properties@.llm == properties.llm,
        properties@.provider == properties.provider,
        properties.api_key matches LLMProviderAPIKeys::CodeStory { access_token }
            && properties@.access_token == access_token@,
        request@.llm == request.llm,
        request@.messages.len() == request.messages@.len(),
        forall|k: int|
            0 <= k < request.messages@.len() ==> #[trigger] request@.messages[k]
                == request.messages@[k]@,
        request@.temperature_tenths == request.temperature_tenths,
        request@.frequency_penalty_tenths == request.frequency_penalty_tenths,
        job@.llm_properties == job.llm_properties@,
        job@.request == job.request@,
        job@.metadata.len() == job.metadata@.len(),
        forall|k: int|
            0 <= k < job.metadata@.len() ==> #[trigger] job@.metadata[k] == (
                job.metadata@[k].0@,
                job.metadata@[k].1@,
            ),
        job@.stream == job.stream@,
        job@.ui_sender == job.ui_sender,
        job@.cancellation_token == job.cancellation_token,
{
}

} // verus!
