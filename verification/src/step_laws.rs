//! What each event in a run leads to, said of the run and of the event themselves.
use crate::errors::{SymbolErrorView, ToolErrorView};
use crate::identifier::{MechaCodeSymbolThinkingView, SnippetView};
use crate::implementation::{
    ask_implementations, next_towards_implementations, GoToImplementationRunView,
    GoToImplementationStepView,
};
use crate::important::CodeSymbolImportantResponseView;
use crate::lsp::{DefinitionPathAndRangeView, OpenFileResponseView};
use crate::manager::Reply;
use crate::outline::{grabbed, OutlineNodeView, Position};
use crate::plan::plan;
use crate::run::{
    due, due_initially, initial_step, next, next_initially, visit, ImportantSymbolsRunView,
    InitialRequestRunView, StageView, SymbolActionView, SymbolEventView, SymbolStepView,
};
use crate::tool::{ToolInputView, ToolOutputView};
use vstd::prelude::*;

verus! {

/// Turning to a symbol has its own file opened, in its own editor; after the last symbol
/// every symbol is handed out.
pub proof fn law_each_symbol_has_its_own_file_opened(
    url: Seq<char>,
    symbols: Seq<MechaCodeSymbolThinkingView>,
    i: int,
)
    ensures
        i < symbols.len() ==> visit(url, symbols, i) == (SymbolStepView::Ask {
            run: ImportantSymbolsRunView { symbols, current: i, stage: StageView::Opening },
            action: SymbolActionView::InvokeTool(
                ToolInputView::OpenFile { fs_file_path: symbols[i].file_path, editor_url: url },
            ),
        }),
        i >= symbols.len() ==> visit(url, symbols, i) == SymbolStepView::<
            ImportantSymbolsRunView,
        >::Done(Ok(symbols)),
{
}

/// Once the file of a symbol is open, the document that the editor opened is given to the
/// symbol broker, with its own path, contents and language. The run stays with the symbol.
pub proof fn law_the_opened_document_is_added(
    url: Seq<char>,
    run: ImportantSymbolsRunView,
    file: OpenFileResponseView,
)
    requires
        run.stage is Opening,
    ensures
        next(url, run, SymbolEventView::ToolReply(Ok(ToolOutputView::FileOpen(file)))) == (
        SymbolStepView::Ask {
            run: ImportantSymbolsRunView {
                symbols: run.symbols,
                current: run.current,
                stage: StageView::Adding,
            },
            action: SymbolActionView::AddDocument {
                fs_file_path: file.fs_file_path,
                contents: file.file_contents,
                language: file.language,
            },
        }),
{
}

/// Once the document of a symbol is added, the outline that is asked for is that of the
/// file of that very symbol, whichever of the plan's symbols it is.
pub proof fn law_the_outline_is_that_of_the_symbols_own_file(
    url: Seq<char>,
    run: ImportantSymbolsRunView,
)
    requires
        run.stage is Adding,
    ensures
        next(url, run, SymbolEventView::DocumentAdded) == (SymbolStepView::Ask {
            run: ImportantSymbolsRunView {
                symbols: run.symbols,
                current: run.current,
                stage: StageView::Outlining,
            },
            action: SymbolActionView::GetSymbolsOutline {
                fs_file_path: run.symbols[run.current].file_path,
            },
        }),
{
}

/// Where the file of a symbol has no outline, the symbol stays as it is, and the next one
/// comes.
pub proof fn law_no_outline_leaves_the_symbol(url: Seq<char>, run: ImportantSymbolsRunView)
    requires
        run.stage is Outlining,
    ensures
        next(url, run, SymbolEventView::SymbolsOutline(None)) == visit(
            url,
            run.symbols,
            run.current + 1,
        ),
{
}

/// Where the outline of its file offers something under the symbol's own name, the symbol
/// gets the first offer as its snippet, with its name, range and path, and the next symbol
/// comes. No other symbol changes, and nothing else of this one does.
pub proof fn law_the_first_offer_is_the_snippet(
    url: Seq<char>,
    run: ImportantSymbolsRunView,
    nodes: Seq<OutlineNodeView>,
)
    requires
        0 <= run.current < run.symbols.len(),
        run.stage is Outlining,
        grabbed(nodes, run.symbols[run.current].symbol_name).len() > 0,
    ensures
        next(url, run, SymbolEventView::SymbolsOutline(Some(nodes))) == visit(
            url,
            run.symbols.update(
                run.current,
                MechaCodeSymbolThinkingView {
                    symbol_name: run.symbols[run.current].symbol_name,
                    steps: run.symbols[run.current].steps,
                    is_new: run.symbols[run.current].is_new,
                    file_path: run.symbols[run.current].file_path,
                    snippet: Some(
                        SnippetView {
                            symbol_name: grabbed(
                                nodes,
                                run.symbols[run.current].symbol_name,
                            )[0].name,
                            range: grabbed(nodes, run.symbols[run.current].symbol_name)[0].range,
                            fs_file_path: grabbed(
                                nodes,
                                run.symbols[run.current].symbol_name,
                            )[0].fs_file_path,
                        },
                    ),
                    implementations: run.symbols[run.current].implementations,
                },
            ),
            run.current + 1,
        ),
{
}

/// Where the outline of its file offers nothing under the symbol's own name, its own file
/// is opened once more.
pub proof fn law_without_an_offer_the_file_is_reopened(
    url: Seq<char>,
    run: ImportantSymbolsRunView,
    nodes: Seq<OutlineNodeView>,
)
    requires
        run.stage is Outlining,
        grabbed(nodes, run.symbols[run.current].symbol_name).len() == 0,
    ensures
        next(url, run, SymbolEventView::SymbolsOutline(Some(nodes))) == (SymbolStepView::Ask {
            run: ImportantSymbolsRunView {
                symbols: run.symbols,
                current: run.current,
                stage: StageView::Reopening,
            },
            action: SymbolActionView::InvokeTool(
                ToolInputView::OpenFile {
                    fs_file_path: run.symbols[run.current].file_path,
                    editor_url: url,
                },
            ),
        }),
{
}

/// Once the file of a symbol is open again, the symbol's own name is looked for in the
/// contents that came.
pub proof fn law_the_symbols_own_name_is_looked_for(
    url: Seq<char>,
    run: ImportantSymbolsRunView,
    file: OpenFileResponseView,
)
    requires
        run.stage is Reopening,
    ensures
        next(url, run, SymbolEventView::ToolReply(Ok(ToolOutputView::FileOpen(file)))) == (
        SymbolStepView::Ask {
            run: ImportantSymbolsRunView {
                symbols: run.symbols,
                current: run.current,
                stage: StageView::Finding,
            },
            action: SymbolActionView::InvokeTool(
                ToolInputView::GrepSingleFile {
                    file_contents: file.file_contents,
                    file_symbol: run.symbols[run.current].symbol_name,
                },
            ),
        }),
{
}

/// Where a symbol is found, its definition is asked for from the place that was found, in
/// its own file.
pub proof fn law_the_definition_is_asked_for_at_the_place_found(
    url: Seq<char>,
    run: ImportantSymbolsRunView,
    position: Position,
)
    requires
        run.stage is Finding,
    ensures
        next(
            url,
            run,
            SymbolEventView::ToolReply(Ok(ToolOutputView::GrepSingleFile(Some(position)))),
        ) == (SymbolStepView::Ask {
            run: ImportantSymbolsRunView {
                symbols: run.symbols,
                current: run.current,
                stage: StageView::Defining,
            },
            action: SymbolActionView::InvokeTool(
                ToolInputView::GoToDefinition {
                    fs_file_path: run.symbols[run.current].file_path,
                    editor_url: url,
                    position,
                },
            ),
        }),
{
}

/// Where a search brings no place, because it finds none, fails, or is answered with
/// something else, the symbol stays as it is, and the next one comes.
pub proof fn law_without_a_place_the_symbol_stays(
    url: Seq<char>,
    run: ImportantSymbolsRunView,
    reply: Reply,
)
    requires
        run.stage is Finding,
        !(reply is Ok && reply->Ok_0 is GrepSingleFile && reply->Ok_0->GrepSingleFile_0 is Some),
    ensures
        next(url, run, SymbolEventView::ToolReply(reply)) == visit(
            url,
            run.symbols,
            run.current + 1,
        ),
{
}

/// Of the definitions that come, the file of the first is opened, and remembered.
pub proof fn law_the_first_definition_is_opened(
    url: Seq<char>,
    run: ImportantSymbolsRunView,
    definitions: Seq<DefinitionPathAndRangeView>,
)
    requires
        run.stage is Defining,
        definitions.len() > 0,
    ensures
        next(
            url,
            run,
            SymbolEventView::ToolReply(Ok(ToolOutputView::GoToDefinition(definitions))),
        ) == (SymbolStepView::Ask {
            run: ImportantSymbolsRunView {
                symbols: run.symbols,
                current: run.current,
                stage: StageView::OpeningDefinition {
                    fs_file_path: definitions[0].fs_file_path,
                },
            },
            action: SymbolActionView::InvokeTool(
                ToolInputView::OpenFile {
                    fs_file_path: definitions[0].fs_file_path,
                    editor_url: url,
                },
            ),
        }),
{
}

/// Once the file that defines a symbol is open, the outline of that file is asked for.
pub proof fn law_the_outline_of_the_defining_file_is_asked_for(
    url: Seq<char>,
    run: ImportantSymbolsRunView,
    path: Seq<char>,
    file: OpenFileResponseView,
)
    requires
        run.stage == (StageView::OpeningDefinition { fs_file_path: path }),
    ensures
        next(url, run, SymbolEventView::ToolReply(Ok(ToolOutputView::FileOpen(file)))) == (
        SymbolStepView::Ask {
            run: ImportantSymbolsRunView {
                symbols: run.symbols,
                current: run.current,
                stage: StageView::OutliningDefinition { fs_file_path: path },
            },
            action: SymbolActionView::GetSymbolsOutline { fs_file_path: path },
        }),
{
}

/// Where the file that defines a symbol offers something under its name, the symbol gets
/// the range of the first offer, in that file, as its snippet, and the next symbol comes.
/// No other symbol changes, and nothing else of this one does.
pub proof fn law_the_definition_is_the_snippet(
    url: Seq<char>,
    run: ImportantSymbolsRunView,
    path: Seq<char>,
    nodes: Seq<OutlineNodeView>,
)
    requires
        0 <= run.current < run.symbols.len(),
        run.stage == (StageView::OutliningDefinition { fs_file_path: path }),
        grabbed(nodes, run.symbols[run.current].symbol_name).len() > 0,
    ensures
        next(url, run, SymbolEventView::SymbolsOutline(Some(nodes))) == visit(
            url,
            run.symbols.update(
                run.current,
                MechaCodeSymbolThinkingView {
                    symbol_name: run.symbols[run.current].symbol_name,
                    steps: run.symbols[run.current].steps,
                    is_new: run.symbols[run.current].is_new,
                    file_path: run.symbols[run.current].file_path,
                    snippet: Some(
                        SnippetView {
                            symbol_name: run.symbols[run.current].symbol_name,
                            range: grabbed(nodes, run.symbols[run.current].symbol_name)[0].range,
                            fs_file_path: path,
                        },
                    ),
                    implementations: run.symbols[run.current].implementations,
                },
            ),
            run.current + 1,
        ),
{
    crate::laws::law_offers_bear_the_name(nodes, run.symbols[run.current].symbol_name);
}

/// Where the file that defines a symbol has no outline, or one that offers nothing under
/// its name, the run ends: the symbol of that name is not found.
pub proof fn law_an_empty_definition_ends_the_run(
    url: Seq<char>,
    run: ImportantSymbolsRunView,
    outline: Option<Seq<OutlineNodeView>>,
)
    requires
        run.stage is OutliningDefinition,
        outline is None || grabbed(outline->0, run.symbols[run.current].symbol_name).len() == 0,
    ensures
        next(url, run, SymbolEventView::SymbolsOutline(outline)) == SymbolStepView::<
            ImportantSymbolsRunView,
        >::Done(
            Err(
                SymbolErrorView::ToolError(
                    ToolErrorView::SymbolNotFound(run.symbols[run.current].symbol_name),
                ),
            ),
        ),
{
}

/// Except in a search, the failure of a tool ends the run with that failure, and an output
/// of another kind than asked for ends it as a wrong output.
pub proof fn law_failures_end_the_run(
    url: Seq<char>,
    run: ImportantSymbolsRunView,
    error: ToolErrorView,
    output: ToolOutputView,
)
    requires
        run.stage is Opening || run.stage is Reopening || run.stage is Defining
            || run.stage is OpeningDefinition,
    ensures
        next(url, run, SymbolEventView::ToolReply(Err(error))) == SymbolStepView::<
            ImportantSymbolsRunView,
        >::Done(Err(SymbolErrorView::ToolError(error))),
        (if run.stage is Defining {
            output !is GoToDefinition
        } else {
            output !is FileOpen
        }) ==> next(url, run, SymbolEventView::ToolReply(Ok(output))) == SymbolStepView::<
            ImportantSymbolsRunView,
        >::Done(Err(SymbolErrorView::WrongToolOutput)),
{
}

/// An initial request goes to the tool that it names, as it is. One that names none is
/// over, and no symbol comes of it.
pub proof fn law_an_initial_request_goes_to_its_tool(tool_input: ToolInputView)
    ensures
        initial_step(Some(tool_input)) == (SymbolStepView::Ask {
            run: InitialRequestRunView::AwaitingSymbols,
            action: SymbolActionView::InvokeTool(tool_input),
        }),
        initial_step(None) == SymbolStepView::<InitialRequestRunView>::Done(Ok(Seq::empty())),
{
}

/// The important symbols that the tool names are planned, and the file of the first of the
/// plan is opened; with an empty plan the request is over. A failure ends the request as it
/// is, and any other output ends it with no symbols.
pub proof fn law_an_initial_request_takes_its_symbols(
    url: Seq<char>,
    response: CodeSymbolImportantResponseView,
    error: ToolErrorView,
    output: ToolOutputView,
)
    ensures
        plan(response).len() > 0 ==> next_initially(
            url,
            InitialRequestRunView::AwaitingSymbols,
            SymbolEventView::ToolReply(Ok(ToolOutputView::ImportantSymbols(response))),
        ) == (SymbolStepView::Ask {
            run: InitialRequestRunView::Resolving(
                ImportantSymbolsRunView {
                    symbols: plan(response),
                    current: 0,
                    stage: StageView::Opening,
                },
            ),
            action: SymbolActionView::InvokeTool(
                ToolInputView::OpenFile {
                    fs_file_path: plan(response)[0].file_path,
                    editor_url: url,
                },
            ),
        }),
        plan(response).len() == 0 ==> next_initially(
            url,
            InitialRequestRunView::AwaitingSymbols,
            SymbolEventView::ToolReply(Ok(ToolOutputView::ImportantSymbols(response))),
        ) == SymbolStepView::<InitialRequestRunView>::Done(Ok(plan(response))),
        next_initially(
            url,
            InitialRequestRunView::AwaitingSymbols,
            SymbolEventView::ToolReply(Err(error)),
        ) == SymbolStepView::<InitialRequestRunView>::Done(Err(SymbolErrorView::ToolError(error))),
        output !is ImportantSymbols ==> next_initially(
            url,
            InitialRequestRunView::AwaitingSymbols,
            SymbolEventView::ToolReply(Ok(output)),
        ) == SymbolStepView::<InitialRequestRunView>::Done(Ok(Seq::empty())),
{
}

/// Once the symbols of an initial request are being resolved, it asks just what the run
/// over them asks, ends just where that ends, and hands out the same outcome.
pub proof fn law_an_initial_request_follows_its_run(
    url: Seq<char>,
    run: ImportantSymbolsRunView,
    event: SymbolEventView,
)
    ensures
        match next(url, run, event) {
            SymbolStepView::Ask { run: then, action } => next_initially(
                url,
                InitialRequestRunView::Resolving(run),
                event,
            ) == (SymbolStepView::Ask { run: InitialRequestRunView::Resolving(then), action }),
            SymbolStepView::Done(outcome) => next_initially(
                url,
                InitialRequestRunView::Resolving(run),
                event,
            ) == SymbolStepView::<InitialRequestRunView>::Done(outcome),
        },
        due_initially(InitialRequestRunView::Resolving(run), event) == due(run.stage, event),
        due_initially(InitialRequestRunView::AwaitingSymbols, event) == (event is ToolReply),
{
}

/// The way to the implementations of a symbol begins with the file it was given: the editor
/// is to open it.
pub proof fn law_implementations_begin_with_the_file(
    url: Seq<char>,
    path: Seq<char>,
    name: Seq<char>,
)
    ensures
        ask_implementations(url, path, name) == (GoToImplementationStepView::Ask {
            run: GoToImplementationRunView::Opening { fs_file_path: path, symbol_name: name },
            tool_input: ToolInputView::OpenFile { fs_file_path: path, editor_url: url },
        }),
{
}

/// With the file open, the symbol is looked for in the contents that came. From the place
/// that is found the implementations are asked for, in the same file. Every implementation
/// that the last reply brings is handed out, in its order, however many there are.
pub proof fn law_implementations_are_handed_out_whole(
    url: Seq<char>,
    path: Seq<char>,
    name: Seq<char>,
    file: OpenFileResponseView,
    position: Position,
    locations: Seq<DefinitionPathAndRangeView>,
)
    ensures
        next_towards_implementations(
            url,
            GoToImplementationRunView::Opening { fs_file_path: path, symbol_name: name },
            Ok(ToolOutputView::FileOpen(file)),
        ) == (GoToImplementationStepView::Ask {
            run: GoToImplementationRunView::Finding { fs_file_path: path, symbol_name: name },
            tool_input: ToolInputView::GrepSingleFile {
                file_contents: file.file_contents,
                file_symbol: name,
            },
        }),
        next_towards_implementations(
            url,
            GoToImplementationRunView::Finding { fs_file_path: path, symbol_name: name },
            Ok(ToolOutputView::GrepSingleFile(Some(position))),
        ) == (GoToImplementationStepView::Ask {
            run: GoToImplementationRunView::Asking,
            tool_input: ToolInputView::SymbolImplementations {
                fs_file_path: path,
                editor_url: url,
                position,
            },
        }),
        next_towards_implementations(
            url,
            GoToImplementationRunView::Asking,
            Ok(ToolOutputView::GoToImplementation(locations)),
        ) == GoToImplementationStepView::Done(Ok(locations)),
{
}

/// A failure on the way to the implementations is reported as it is, an output of another
/// kind as a wrong output, and a symbol that is not in its file as not found, by its name.
pub proof fn law_failures_on_the_way_to_implementations(
    url: Seq<char>,
    run: GoToImplementationRunView,
    error: ToolErrorView,
    output: ToolOutputView,
)
    ensures
        next_towards_implementations(url, run, Err(error)) == GoToImplementationStepView::Done(
            Err(SymbolErrorView::ToolError(error)),
        ),
        (match run {
            GoToImplementationRunView::Opening { .. } => output !is FileOpen,
            GoToImplementationRunView::Finding { .. } => output !is GrepSingleFile,
            GoToImplementationRunView::Asking => output !is GoToImplementation,
        }) ==> next_towards_implementations(url, run, Ok(output))
            == GoToImplementationStepView::Done(Err(SymbolErrorView::WrongToolOutput)),
        run matches GoToImplementationRunView::Finding { symbol_name, .. }
            ==> next_towards_implementations(url, run, Ok(ToolOutputView::GrepSingleFile(None)))
            == GoToImplementationStepView::Done(
            Err(SymbolErrorView::ToolError(ToolErrorView::SymbolNotFound(symbol_name))),
        ),
{
}

} // verus!
