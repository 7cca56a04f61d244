//! Resolving the important symbols to snippets, one question after the other. A
//! run says what to do next; whoever performs that hands it back what came of it.
use crate::errors::{SymbolError, SymbolErrorView, ToolError};
use crate::identifier::{
    MechaCodeSymbolThinking, MechaCodeSymbolThinkingView, Snippet, SnippetView,
};
use crate::lsp::DefinitionPathAndRange;
use crate::manager::{
    defined, defined_snippet, file_open_reply, find_in_file_reply, found, go_to_definition_reply,
    opened, outline_view, Reply, SymbolManager,
};
use crate::outline::{
    grabbed, OutlineNode, OutlineNodeContent, OutlineNodeContentView, OutlineNodeView,
};
use crate::plan::plan;
use crate::text::{option_view, result_view, views};
use crate::tool::{ToolInput, ToolInputView, ToolOutput, ToolOutputView};
use vstd::pervasive::unreached;
use vstd::prelude::*;

verus! {

/// Something to be done outside.
#[derive(Debug, Clone)]
pub enum SymbolAction {
    /// Invoke a tool, and hand back its reply.
    InvokeTool(ToolInput),
    /// Give a document to the symbol broker, and say when it is there.
    AddDocument { fs_file_path: String, contents: String, language: String },
    /// Ask the symbol broker for the outline of a file, and hand it back.
    GetSymbolsOutline { fs_file_path: String },
}

pub enum SymbolActionView {
    InvokeTool(ToolInputView),
    AddDocument { fs_file_path: Seq<char>, contents: Seq<char>, language: Seq<char> },
    GetSymbolsOutline { fs_file_path: Seq<char> },
}

impl View for SymbolAction {
    type V = SymbolActionView;

    open spec fn view(&self) -> SymbolActionView {
        match self {
            SymbolAction::InvokeTool(tool_input) => SymbolActionView::InvokeTool(tool_input@),
            SymbolAction::AddDocument { fs_file_path, contents, language } =>
                SymbolActionView::AddDocument {
                fs_file_path: fs_file_path@,
                contents: contents@,
                language: language@,
            },
            SymbolAction::GetSymbolsOutline { fs_file_path } =>
                SymbolActionView::GetSymbolsOutline { fs_file_path: fs_file_path@ },
        }
    }
}

/// What came of an action.
#[derive(Debug, PartialEq, Eq)]
pub enum SymbolEvent {
    ToolReply(Result<ToolOutput, ToolError>),
    DocumentAdded,
    SymbolsOutline(Option<Vec<OutlineNode>>),
}

pub enum SymbolEventView {
    ToolReply(Reply),
    DocumentAdded,
    SymbolsOutline(Option<Seq<OutlineNodeView>>),
}

impl View for SymbolEvent {
    type V = SymbolEventView;

    open spec fn view(&self) -> SymbolEventView {
        match self {
            SymbolEvent::ToolReply(reply) => SymbolEventView::ToolReply(result_view(*reply)),
            SymbolEvent::DocumentAdded => SymbolEventView::DocumentAdded,
            SymbolEvent::SymbolsOutline(outline) => SymbolEventView::SymbolsOutline(
                outline_view(*outline),
            ),
        }
    }
}

/// What is to be done next: an action, after which the run goes on, or to take the
/// outcome: the symbols, each with its snippet where one was found, or what went
/// wrong.
#[derive(Debug)]
pub enum SymbolStep<R> {
    Ask { run: R, action: SymbolAction },
    Done(Result<Vec<MechaCodeSymbolThinking>, SymbolError>),
}

pub enum SymbolStepView<R> {
    Ask { run: R, action: SymbolActionView },
    Done(Result<Seq<MechaCodeSymbolThinkingView>, SymbolErrorView>),
}

impl<R: View> View for SymbolStep<R> {
    type V = SymbolStepView<R::V>;

    open spec fn view(&self) -> SymbolStepView<R::V> {
        match self {
            SymbolStep::Ask { run, action } => SymbolStepView::Ask { run: run@, action: action@ },
            SymbolStep::Done(Ok(symbols)) => SymbolStepView::Done(Ok(views(symbols@))),
            SymbolStep::Done(Err(error)) => SymbolStepView::Done(Err(error@)),
        }
    }
}

/// What is under way for one symbol.
#[derive(Debug, PartialEq, Eq)]
pub enum Stage {
    /// Its file is being opened.
    Opening,
    /// Its file is being given to the symbol broker.
    Adding,
    /// The outline of its file is being asked for.
    Outlining,
    /// The outline did not have it, and its file is being opened once more.
    Reopening,
    /// Its place in its file is being looked for.
    Finding,
    /// Its definition is being asked for.
    Defining,
    /// The file that defines it is being opened.
    OpeningDefinition { fs_file_path: String },
    /// The outline of the file that defines it is being asked for.
    OutliningDefinition { fs_file_path: String },
}

pub enum StageView {
    Opening,
    Adding,
    Outlining,
    Reopening,
    Finding,
    Defining,
    OpeningDefinition { fs_file_path: Seq<char> },
    OutliningDefinition { fs_file_path: Seq<char> },
}

impl View for Stage {
    type V = StageView;

    open spec fn view(&self) -> StageView {
        match self {
            Stage::Opening => StageView::Opening,
            Stage::Adding => StageView::Adding,
            Stage::Outlining => StageView::Outlining,
            Stage::Reopening => StageView::Reopening,
            Stage::Finding => StageView::Finding,
            Stage::Defining => StageView::Defining,
            Stage::OpeningDefinition { fs_file_path } => StageView::OpeningDefinition {
                fs_file_path: fs_file_path@,
            },
            Stage::OutliningDefinition { fs_file_path } => StageView::OutliningDefinition {
                fs_file_path: fs_file_path@,
            },
        }
    }
}

impl Clone for Stage {
    fn clone(&self) -> (copied: Self)
        ensures
            copied@ == self@,
    {
        match self {
            Stage::Opening => Stage::Opening,
            Stage::Adding => Stage::Adding,
            Stage::Outlining => Stage::Outlining,
            Stage::Reopening => Stage::Reopening,
            Stage::Finding => Stage::Finding,
            Stage::Defining => Stage::Defining,
            Stage::OpeningDefinition { fs_file_path } => Stage::OpeningDefinition {
                fs_file_path: fs_file_path.clone(),
            },
            Stage::OutliningDefinition { fs_file_path } => Stage::OutliningDefinition {
                fs_file_path: fs_file_path.clone(),
            },
        }
    }
}

/// A run over the symbols of a plan. The one at `current` is being resolved, those
/// before it have been.
#[derive(Debug, PartialEq, Eq)]
pub struct ImportantSymbolsRun {
    symbols: Vec<MechaCodeSymbolThinking>,
    current: usize,
    stage: Stage,
}

pub struct ImportantSymbolsRunView {
    pub symbols: Seq<MechaCodeSymbolThinkingView>,
    pub current: int,
    pub stage: StageView,
}

impl View for ImportantSymbolsRun {
    type V = ImportantSymbolsRunView;

    closed spec fn view(&self) -> ImportantSymbolsRunView {
        ImportantSymbolsRunView {
            symbols: views(self.symbols@),
            current: self.current as int,
            stage: self.stage@,
        }
    }
}

impl ImportantSymbolsRunView {
    /// There is a symbol being resolved.
    pub open spec fn well_formed(self) -> bool {
        0 <= self.current < self.symbols.len()
    }

    /// The symbol being resolved.
    pub open spec fn symbol(self) -> MechaCodeSymbolThinkingView {
        self.symbols[self.current]
    }

    /// The same run at another stage.
    pub open spec fn at(self, stage: StageView) -> ImportantSymbolsRunView {
        ImportantSymbolsRunView { stage, ..self }
    }
}

/// Whether an event is of the kind that is due. A definition has to be among the
/// definitions, where those are due and come.
pub open spec fn due(stage: StageView, event: SymbolEventView) -> bool {
    match stage {
        StageView::Adding => event is DocumentAdded,
        StageView::Outlining => event is SymbolsOutline,
        StageView::OutliningDefinition { .. } => event is SymbolsOutline,
        StageView::Defining => match event {
            SymbolEventView::ToolReply(reply) => match defined(reply) {
                Ok(definitions) => definitions.len() > 0,
                Err(_) => true,
            },
            _ => false,
        },
        _ => event is ToolReply,
    }
}

/// The snippet of a symbol that stands in the outline of its own file.
pub open spec fn outlined_snippet(offer: OutlineNodeContentView) -> SnippetView {
    SnippetView {
        symbol_name: offer.name,
        range: offer.range,
        fs_file_path: offer.fs_file_path,
    }
}

/// The symbols, with a snippet for one of them.
pub open spec fn with_snippet(
    symbols: Seq<MechaCodeSymbolThinkingView>,
    i: int,
    snippet: SnippetView,
) -> Seq<MechaCodeSymbolThinkingView> {
    symbols.update(i, MechaCodeSymbolThinkingView { snippet: Some(snippet), ..symbols[i] })
}

/// Turning to the symbol at `i`: its file is opened. After the last symbol the run is
/// over.
pub open spec fn visit(
    editor_url: Seq<char>,
    symbols: Seq<MechaCodeSymbolThinkingView>,
    i: int,
) -> SymbolStepView<ImportantSymbolsRunView> {
    if i < symbols.len() {
        SymbolStepView::Ask {
            run: ImportantSymbolsRunView { symbols, current: i, stage: StageView::Opening },
            action: SymbolActionView::InvokeTool(
                ToolInputView::OpenFile { fs_file_path: symbols[i].file_path, editor_url },
            ),
        }
    } else {
        SymbolStepView::Done(Ok(symbols))
    }
}

/// A run that asks a tool at another stage.
pub open spec fn ask_tool(
    run: ImportantSymbolsRunView,
    stage: StageView,
    tool_input: ToolInputView,
) -> SymbolStepView<ImportantSymbolsRunView> {
    SymbolStepView::Ask { run: run.at(stage), action: SymbolActionView::InvokeTool(tool_input) }
}

/// What a tool's reply leads to.
pub open spec fn next_on_reply(
    editor_url: Seq<char>,
    run: ImportantSymbolsRunView,
    reply: Reply,
) -> SymbolStepView<ImportantSymbolsRunView> {
    let symbol = run.symbol();
    match run.stage {
        StageView::Opening => match opened(reply) {
            Err(error) => SymbolStepView::Done(Err(error)),
            Ok(file) => SymbolStepView::Ask {
                run: run.at(StageView::Adding),
                action: SymbolActionView::AddDocument {
                    fs_file_path: file.fs_file_path,
                    contents: file.file_contents,
                    language: file.language,
                },
            },
        },
        StageView::Reopening => match opened(reply) {
            Err(error) => SymbolStepView::Done(Err(error)),
            Ok(file) => ask_tool(
                run,
                StageView::Finding,
                ToolInputView::GrepSingleFile {
                    file_contents: file.file_contents,
                    file_symbol: symbol.symbol_name,
                },
            ),
        },
        // a symbol that could not be looked for counts as not there
        StageView::Finding => match found(reply) {
            Ok(Some(position)) => ask_tool(
                run,
                StageView::Defining,
                ToolInputView::GoToDefinition {
                    fs_file_path: symbol.file_path,
                    editor_url,
                    position,
                },
            ),
            _ => visit(editor_url, run.symbols, run.current + 1),
        },
        StageView::Defining => match defined(reply) {
            Err(error) => SymbolStepView::Done(Err(error)),
            Ok(definitions) => ask_tool(
                run,
                StageView::OpeningDefinition { fs_file_path: definitions[0].fs_file_path },
                ToolInputView::OpenFile { fs_file_path: definitions[0].fs_file_path, editor_url },
            ),
        },
        StageView::OpeningDefinition { fs_file_path } => match opened(reply) {
            Err(error) => SymbolStepView::Done(Err(error)),
            Ok(_) => SymbolStepView::Ask {
                run: run.at(StageView::OutliningDefinition { fs_file_path }),
                action: SymbolActionView::GetSymbolsOutline { fs_file_path },
            },
        },
        _ => arbitrary(),
    }
}

/// What an outline leads to.
pub open spec fn next_on_outline(
    editor_url: Seq<char>,
    run: ImportantSymbolsRunView,
    outline: Option<Seq<OutlineNodeView>>,
) -> SymbolStepView<ImportantSymbolsRunView> {
    let symbol = run.symbol();
    match run.stage {
        StageView::Outlining => match outline {
            None => visit(editor_url, run.symbols, run.current + 1),
            Some(nodes) => {
                let offers = grabbed(nodes, symbol.symbol_name);
                if offers.len() > 0 {
                    visit(
                        editor_url,
                        with_snippet(run.symbols, run.current, outlined_snippet(offers[0])),
                        run.current + 1,
                    )
                } else {
                    ask_tool(
                        run,
                        StageView::Reopening,
                        ToolInputView::OpenFile { fs_file_path: symbol.file_path, editor_url },
                    )
                }
            },
        },
        StageView::OutliningDefinition { fs_file_path } => match defined_snippet(
            symbol.symbol_name,
            fs_file_path,
            outline,
        ) {
            Err(error) => SymbolStepView::Done(Err(error)),
            Ok(snippet) => visit(
                editor_url,
                with_snippet(run.symbols, run.current, snippet),
                run.current + 1,
            ),
        },
        _ => arbitrary(),
    }
}

/// What an event leads to, where it is due.
pub open spec fn next(
    editor_url: Seq<char>,
    run: ImportantSymbolsRunView,
    event: SymbolEventView,
) -> SymbolStepView<ImportantSymbolsRunView> {
    match event {
        SymbolEventView::ToolReply(reply) => next_on_reply(editor_url, run, reply),
        SymbolEventView::DocumentAdded => SymbolStepView::Ask {
            run: run.at(StageView::Outlining),
            action: SymbolActionView::GetSymbolsOutline { fs_file_path: run.symbol().file_path },
        },
        SymbolEventView::SymbolsOutline(outline) => next_on_outline(editor_url, run, outline),
    }
}

impl ImportantSymbolsRun {
    #[verifier::type_invariant]
    spec fn has_current(self) -> bool {
        self.current < self.symbols@.len()
    }

    /// Turns to the symbol at `i`, or ends the run.
    pub(crate) fn visit<T, S>(
        manager: &SymbolManager<T, S>,
        symbols: Vec<MechaCodeSymbolThinking>,
        i: usize,
    ) -> (step: SymbolStep<ImportantSymbolsRun>)
        ensures
            step@ == visit(manager@.editor_url, views(symbols@), i as int),
    {
        if i < symbols.len() {
            let action: SymbolAction = SymbolAction::InvokeTool(
                manager.file_open(symbols[i].fs_file_path().clone()),
            );
            SymbolStep::Ask {
                run: ImportantSymbolsRun { symbols, current: i, stage: Stage::Opening },
                action,
            }
        } else {
            SymbolStep::Done(Ok(symbols))
        }
    }

    /// Turns to the next symbol, leaving the current one as it is.
    fn skip<T, S>(self, manager: &SymbolManager<T, S>) -> (step: SymbolStep<ImportantSymbolsRun>)
        ensures
            step@ == visit(manager@.editor_url, self@.symbols, self@.current + 1),
    {
        proof {
            use_type_invariant(&self);
        }
        assert(self.current < self.symbols.len());
        ImportantSymbolsRun::visit(manager, self.symbols, self.current + 1)
    }

    /// Ties the current symbol to a snippet, and turns to the next one.
    fn settle<T, S>(self, manager: &SymbolManager<T, S>, snippet: Snippet) -> (step: SymbolStep<
        ImportantSymbolsRun,
    >)
        ensures
            step@ == visit(
                manager@.editor_url,
                with_snippet(self@.symbols, self@.current, snippet@),
                self@.current + 1,
            ),
    {
        proof {
            use_type_invariant(&self);
        }
        assert(self.current < self.symbols.len());
        let ghost before = self@;
        let current: usize = self.current;
        let mut symbols: Vec<MechaCodeSymbolThinking> = self.symbols;
        symbols[current].set_snippet(snippet);
        assert(views(symbols@) =~= with_snippet(before.symbols, before.current, snippet@));
        ImportantSymbolsRun::visit(manager, symbols, current + 1)
    }

    /// Goes on to another stage with the current symbol.
    fn ask(self, stage: Stage, action: SymbolAction) -> (step: SymbolStep<ImportantSymbolsRun>)
        ensures
            step@ == (SymbolStepView::Ask { run: self@.at(stage@), action: action@ }),
    {
        proof {
            use_type_invariant(&self);
        }
        SymbolStep::Ask {
            run: ImportantSymbolsRun { symbols: self.symbols, current: self.current, stage },
            action,
        }
    }

    /// Takes in a tool's reply.
    fn on_reply<T, S>(
        self,
        manager: &SymbolManager<T, S>,
        reply: Result<ToolOutput, ToolError>,
    ) -> (step: SymbolStep<ImportantSymbolsRun>)
        requires
            due(self@.stage, SymbolEventView::ToolReply(result_view(reply))),
        ensures
            step@ == next_on_reply(manager@.editor_url, self@, result_view(reply)),
    {
        proof {
            use_type_invariant(&self);
            assert(views(self.symbols@)[self.current as int] == self.symbols@[self.current as int]@);
        }
        let symbol_name: String = self.symbols[self.current].symbol_name().clone();
        let file_path: String = self.symbols[self.current].fs_file_path().clone();
        match self.stage.clone() {
            Stage::Opening => match file_open_reply(reply) {
                Ok(file) => self.ask(
                    Stage::Adding,
                    SymbolAction::AddDocument {
                        fs_file_path: file.fs_file_path,
                        contents: file.file_contents,
                        language: file.language,
                    },
                ),
                Err(error) => SymbolStep::Done(Err(error)),
            },
            Stage::Reopening => match file_open_reply(reply) {
                Ok(file) => self.ask(
                    Stage::Finding,
                    SymbolAction::InvokeTool(
                        manager.find_in_file(file.file_contents, symbol_name),
                    ),
                ),
                Err(error) => SymbolStep::Done(Err(error)),
            },
            Stage::Finding => match find_in_file_reply(reply) {
                Ok(place) => match place.position {
                    Some(position) => self.ask(
                        Stage::Defining,
                        SymbolAction::InvokeTool(
                            manager.go_to_definition(file_path.as_str(), position),
                        ),
                    ),
                    None => self.skip(manager),
                },
                Err(_) => self.skip(manager),
            },
            Stage::Defining => match go_to_definition_reply(reply) {
                Ok(response) => {
                    let mut definitions: Vec<DefinitionPathAndRange> = response.definitions;
                    assert(views(definitions@)[0] == definitions@[0]@);
                    // the first definition is taken for the best one
                    let definition: DefinitionPathAndRange = definitions.remove(0);
                    self.ask(
                        Stage::OpeningDefinition {
                            fs_file_path: definition.fs_file_path.clone(),
                        },
                        SymbolAction::InvokeTool(manager.file_open(definition.fs_file_path)),
                    )
                },
                Err(error) => SymbolStep::Done(Err(error)),
            },
            Stage::OpeningDefinition { fs_file_path } => match file_open_reply(reply) {
                Ok(_) => self.ask(
                    Stage::OutliningDefinition { fs_file_path: fs_file_path.clone() },
                    SymbolAction::GetSymbolsOutline { fs_file_path },
                ),
                Err(error) => SymbolStep::Done(Err(error)),
            },
            // no reply is due at the other stages
            _ => unreached(),
        }
    }

    /// Takes in an outline.
    fn on_outline<T, S>(
        self,
        manager: &SymbolManager<T, S>,
        outline: Option<Vec<OutlineNode>>,
    ) -> (step: SymbolStep<ImportantSymbolsRun>)
        requires
            due(self@.stage, SymbolEventView::SymbolsOutline(outline_view(outline))),
        ensures
            step@ == next_on_outline(manager@.editor_url, self@, outline_view(outline)),
    {
        proof {
            use_type_invariant(&self);
            assert(views(self.symbols@)[self.current as int] == self.symbols@[self.current as int]@);
        }
        let symbol_name: String = self.symbols[self.current].symbol_name().clone();
        let file_path: String = self.symbols[self.current].fs_file_path().clone();
        match self.stage.clone() {
            Stage::OutliningDefinition { fs_file_path } =>
                match manager.grab_symbol_content_from_definition(
                symbol_name.as_str(),
                fs_file_path.as_str(),
                outline,
            ) {
                Ok(snippet) => self.settle(manager, snippet),
                Err(error) => SymbolStep::Done(Err(error)),
            },
            _ => match outline {
                Some(nodes) => {
                    let mut offers: Vec<OutlineNodeContent> = manager.grab_symbols_from_outline(
                        nodes,
                        symbol_name.as_str(),
                    );
                    if offers.is_empty() {
                        self.ask(
                            Stage::Reopening,
                            SymbolAction::InvokeTool(manager.file_open(file_path)),
                        )
                    } else {
                        assert(views(offers@)[0] == offers@[0]@);
                        // of several offers the first is taken
                        let offer: OutlineNodeContent = offers.remove(0);
                        self.settle(
                            manager,
                            Snippet::new(
                                offer.name().clone(),
                                *offer.range(),
                                offer.fs_file_path().clone(),
                            ),
                        )
                    }
                },
                None => self.skip(manager),
            },
        }
    }

    /// Takes in what came of the action that was asked for.
    pub fn step<T, S>(self, manager: &SymbolManager<T, S>, event: SymbolEvent) -> (step: SymbolStep<
        ImportantSymbolsRun,
    >)
        requires
            due(self@.stage, event@),
        ensures
            step@ == next(manager@.editor_url, self@, event@),
    {
        proof {
            use_type_invariant(&self);
            assert(views(self.symbols@)[self.current as int] == self.symbols@[self.current as int]@);
        }
        match event {
            SymbolEvent::ToolReply(reply) => self.on_reply(manager, reply),
            SymbolEvent::DocumentAdded => {
                let fs_file_path: String = self.symbols[self.current].fs_file_path().clone();
                self.ask(Stage::Outlining, SymbolAction::GetSymbolsOutline { fs_file_path })
            },
            SymbolEvent::SymbolsOutline(outline) => self.on_outline(manager, outline),
        }
    }

    /// Whether an event is due.
    pub fn is_due(&self, event: &SymbolEvent) -> (is_due: bool)
        ensures
            is_due == due(self@.stage, event@),
    {
        match &self.stage {
            Stage::Adding => match event {
                SymbolEvent::DocumentAdded => true,
                _ => false,
            },
            Stage::Outlining => match event {
                SymbolEvent::SymbolsOutline(_) => true,
                _ => false,
            },
            Stage::OutliningDefinition { .. } => match event {
                SymbolEvent::SymbolsOutline(_) => true,
                _ => false,
            },
            Stage::Defining => match event {
                SymbolEvent::ToolReply(Ok(ToolOutput::GoToDefinition(response))) =>
                    !response.definitions.is_empty(),
                SymbolEvent::ToolReply(_) => true,
                _ => false,
            },
            _ => match event {
                SymbolEvent::ToolReply(_) => true,
                _ => false,
            },
        }
    }
}

/// A request about symbols, with the tool that it is to be put to first, if any.
#[derive(Debug, Clone)]
pub struct SymbolInputEvent {
    initial_tool: Option<ToolInput>,
}

impl View for SymbolInputEvent {
    type V = Option<ToolInputView>;

    closed spec fn view(&self) -> Option<ToolInputView> {
        option_view(self.initial_tool)
    }
}

impl SymbolInputEvent {
    pub fn new(initial_tool: Option<ToolInput>) -> (event: Self)
        ensures
            event@ == option_view(initial_tool),
    {
        SymbolInputEvent { initial_tool }
    }

    pub fn tool_use_on_initial_invocation(self) -> (tool_input: Option<ToolInput>)
        ensures
            option_view(tool_input) == self@,
    {
        self.initial_tool
    }
}

/// A run over an initial request: the important symbols are asked for, then
/// resolved. An agent is to be created for each symbol of the outcome.
#[derive(Debug, PartialEq, Eq)]
pub enum InitialRequestRun {
    AwaitingSymbols,
    Resolving(ImportantSymbolsRun),
}

pub enum InitialRequestRunView {
    AwaitingSymbols,
    Resolving(ImportantSymbolsRunView),
}

impl View for InitialRequestRun {
    type V = InitialRequestRunView;

    open spec fn view(&self) -> InitialRequestRunView {
        match self {
            InitialRequestRun::AwaitingSymbols => InitialRequestRunView::AwaitingSymbols,
            InitialRequestRun::Resolving(run) => InitialRequestRunView::Resolving(run@),
        }
    }
}

/// The first step on an initial request.
pub open spec fn initial_step(tool_input: Option<ToolInputView>) -> SymbolStepView<
    InitialRequestRunView,
> {
    match tool_input {
        Some(tool_input) => SymbolStepView::Ask {
            run: InitialRequestRunView::AwaitingSymbols,
            action: SymbolActionView::InvokeTool(tool_input),
        },
        None => SymbolStepView::Done(Ok(seq![])),
    }
}

/// A step on the important symbols, as a step on the initial request.
pub open spec fn resolving(step: SymbolStepView<ImportantSymbolsRunView>) -> SymbolStepView<
    InitialRequestRunView,
> {
    match step {
        SymbolStepView::Ask { run, action } => SymbolStepView::Ask {
            run: InitialRequestRunView::Resolving(run),
            action,
        },
        SymbolStepView::Done(outcome) => SymbolStepView::Done(outcome),
    }
}

/// Whether an event is due on an initial request.
pub open spec fn due_initially(run: InitialRequestRunView, event: SymbolEventView) -> bool {
    match run {
        InitialRequestRunView::AwaitingSymbols => event is ToolReply,
        InitialRequestRunView::Resolving(run) => due(run.stage, event),
    }
}

/// What an event leads to on an initial request, where it is due. Where the tool
/// answers with something else than symbols, the request is over, and no symbol
/// comes of it.
pub open spec fn next_initially(
    editor_url: Seq<char>,
    run: InitialRequestRunView,
    event: SymbolEventView,
) -> SymbolStepView<InitialRequestRunView> {
    match run {
        InitialRequestRunView::AwaitingSymbols => match event {
            SymbolEventView::ToolReply(Err(error)) => SymbolStepView::Done(
                Err(SymbolErrorView::ToolError(error)),
            ),
            SymbolEventView::ToolReply(Ok(ToolOutputView::ImportantSymbols(response))) => resolving(
                visit(editor_url, plan(response), 0),
            ),
            _ => SymbolStepView::Done(Ok(seq![])),
        },
        InitialRequestRunView::Resolving(run) => resolving(next(editor_url, run, event)),
    }
}

/// A step on the important symbols, as a step on the initial request.
fn as_resolving(step: SymbolStep<ImportantSymbolsRun>) -> (lifted: SymbolStep<InitialRequestRun>)
    ensures
        lifted@ == resolving(step@),
{
    match step {
        SymbolStep::Ask { run, action } => SymbolStep::Ask {
            run: InitialRequestRun::Resolving(run),
            action,
        },
        SymbolStep::Done(outcome) => SymbolStep::Done(outcome),
    }
}

impl InitialRequestRun {
    /// Takes in what came of the action that was asked for.
    pub fn step<T, S>(self, manager: &SymbolManager<T, S>, event: SymbolEvent) -> (step: SymbolStep<
        InitialRequestRun,
    >)
        requires
            due_initially(self@, event@),
        ensures
            step@ == next_initially(manager@.editor_url, self@, event@),
    {
        match self {
            InitialRequestRun::AwaitingSymbols => match event {
                SymbolEvent::ToolReply(Ok(ToolOutput::ImportantSymbols(response))) => as_resolving(
                    manager.important_symbols(response),
                ),
                SymbolEvent::ToolReply(Err(error)) => SymbolStep::Done(
                    Err(SymbolError::ToolError(error)),
                ),
                _ => {
                    let symbols: Vec<MechaCodeSymbolThinking> = Vec::new();
                    assert(views(symbols@) =~= seq![]);
                    SymbolStep::Done(Ok(symbols))
                },
            },
            InitialRequestRun::Resolving(run) => as_resolving(run.step(manager, event)),
        }
    }

    /// Whether an event is due.
    pub fn is_due(&self, event: &SymbolEvent) -> (is_due: bool)
        ensures
            is_due == due_initially(self@, event@),
    {
        match self {
            InitialRequestRun::AwaitingSymbols => match event {
                SymbolEvent::ToolReply(_) => true,
                _ => false,
            },
            InitialRequestRun::Resolving(run) => run.is_due(event),
        }
    }
}

} // verus!
