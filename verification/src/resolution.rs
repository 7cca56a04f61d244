//! What a whole run over the important symbols comes to, given all the answers
//! that the outside gives in it.
use crate::errors::SymbolErrorView;
use crate::identifier::{MechaCodeSymbolThinkingView, SnippetView};
use crate::manager::{defined, defined_snippet, found, opened, Reply};
use crate::outline::{grabbed, OutlineNodeView};
use crate::run::{
    due, next, outlined_snippet, visit, with_snippet, ImportantSymbolsRunView, SymbolEventView,
    SymbolStepView,
};
use crate::tool::ToolOutputView;
use vstd::prelude::*;

verus! {

/// The answers to all the questions that may come up over one symbol.
pub struct Answers {
    /// To opening its file.
    pub open: Reply,
    /// The outline of its file.
    pub outline: Option<Seq<OutlineNodeView>>,
    /// To opening its file once more.
    pub reopen: Reply,
    /// To finding its place in the file.
    pub find: Reply,
    /// To going to its definition from that place.
    pub definition: Reply,
    /// To opening the file that defines it.
    pub definition_open: Reply,
    /// The outline of the file that defines it.
    pub definition_outline: Option<Seq<OutlineNodeView>>,
}

impl Answers {
    /// Where definitions come, there is one among them.
    pub open spec fn has_definition(self) -> bool {
        match defined(self.definition) {
            Ok(definitions) => definitions.len() > 0,
            Err(_) => true,
        }
    }

    /// Whether it comes to a search for a symbol.
    pub open spec fn lead_to_search(self, symbol: MechaCodeSymbolThinkingView) -> bool {
        &&& opened(self.open) is Ok
        &&& self.outline is Some
        &&& grabbed(self.outline->0, symbol.symbol_name).len() == 0
    }

    /// Whether the search comes to a place, from which the definition is asked for.
    pub open spec fn lead_to_definition(self) -> bool {
        &&& opened(self.reopen) is Ok
        &&& found(self.find) is Ok
        &&& found(self.find)->Ok_0 is Some
    }

    /// Where it comes to the definitions of a symbol, and they come, there is one among
    /// them.
    pub open spec fn suffice(self, symbol: MechaCodeSymbolThinkingView) -> bool {
        self.lead_to_search(symbol) && self.lead_to_definition() ==> self.has_definition()
    }
}

/// The snippet of a symbol by way of its definition.
pub open spec fn located_by_definition(
    symbol: MechaCodeSymbolThinkingView,
    answers: Answers,
) -> Result<Option<SnippetView>, SymbolErrorView> {
    match defined(answers.definition) {
        Err(error) => Err(error),
        Ok(definitions) => match opened(answers.definition_open) {
            Err(error) => Err(error),
            Ok(_) => match defined_snippet(
                symbol.symbol_name,
                definitions[0].fs_file_path,
                answers.definition_outline,
            ) {
                Err(error) => Err(error),
                Ok(snippet) => Ok(Some(snippet)),
            },
        },
    }
}

/// The snippet of a symbol that the outline of its file does not have: none, unless
/// the symbol is found in the text of the file.
pub open spec fn located_by_search(
    symbol: MechaCodeSymbolThinkingView,
    answers: Answers,
) -> Result<Option<SnippetView>, SymbolErrorView> {
    match opened(answers.reopen) {
        Err(error) => Err(error),
        Ok(_) => match found(answers.find) {
            Ok(Some(_)) => located_by_definition(symbol, answers),
            _ => Ok(None),
        },
    }
}

/// The snippet of a symbol: the first that the outline of its file offers, or, where
/// that offers none, the one that a search leads to. A file without an outline gives
/// none.
#[verifier::opaque]
pub open spec fn located(symbol: MechaCodeSymbolThinkingView, answers: Answers) -> Result<
    Option<SnippetView>,
    SymbolErrorView,
> {
    match opened(answers.open) {
        Err(error) => Err(error),
        Ok(_) => match answers.outline {
            None => Ok(None),
            Some(nodes) => {
                let offers = grabbed(nodes, symbol.symbol_name);
                if offers.len() > 0 {
                    Ok(Some(outlined_snippet(offers[0])))
                } else {
                    located_by_search(symbol, answers)
                }
            },
        },
    }
}

/// A symbol once it is resolved.
pub open spec fn resolved(
    symbol: MechaCodeSymbolThinkingView,
    answers: Answers,
) -> MechaCodeSymbolThinkingView {
    match located(symbol, answers) {
        Ok(Some(snippet)) => MechaCodeSymbolThinkingView { snippet: Some(snippet), ..symbol },
        _ => symbol,
    }
}

/// The symbols once those before `i` are resolved.
pub open spec fn resolved_up_to(
    symbols: Seq<MechaCodeSymbolThinkingView>,
    answers: Seq<Answers>,
    i: int,
) -> Seq<MechaCodeSymbolThinkingView> {
    Seq::new(
        symbols.len(),
        |k: int|
            if k < i {
                resolved(symbols[k], answers[k])
            } else {
                symbols[k]
            },
    )
}

/// The events of going by the definition of a symbol.
pub open spec fn definition_events(answers: Answers) -> Seq<SymbolEventView> {
    seq![SymbolEventView::ToolReply(answers.definition)] + match defined(answers.definition) {
        Err(_) => seq![],
        Ok(_) => seq![SymbolEventView::ToolReply(answers.definition_open)] + match opened(
            answers.definition_open,
        ) {
            Err(_) => seq![],
            Ok(_) => seq![SymbolEventView::SymbolsOutline(answers.definition_outline)],
        },
    }
}

/// The events of searching for a symbol.
pub open spec fn search_events(answers: Answers) -> Seq<SymbolEventView> {
    seq![SymbolEventView::ToolReply(answers.reopen)] + match opened(answers.reopen) {
        Err(_) => seq![],
        Ok(_) => seq![SymbolEventView::ToolReply(answers.find)] + match found(answers.find) {
            Ok(Some(_)) => definition_events(answers),
            _ => seq![],
        },
    }
}

/// The events of resolving one symbol: the answers, as far as it comes to them.
#[verifier::opaque]
pub open spec fn symbol_events(symbol: MechaCodeSymbolThinkingView, answers: Answers) -> Seq<
    SymbolEventView,
> {
    seq![SymbolEventView::ToolReply(answers.open)] + match opened(answers.open) {
        Err(_) => seq![],
        Ok(_) => seq![
            SymbolEventView::DocumentAdded,
            SymbolEventView::SymbolsOutline(answers.outline),
        ] + match answers.outline {
            None => seq![],
            Some(nodes) => if grabbed(nodes, symbol.symbol_name).len() > 0 {
                seq![]
            } else {
                search_events(answers)
            },
        },
    }
}

/// The events of resolving the symbols from `i` on, up to the first that fails.
pub open spec fn events_from(
    symbols: Seq<MechaCodeSymbolThinkingView>,
    answers: Seq<Answers>,
    i: int,
) -> Seq<SymbolEventView>
    decreases symbols.len() - i,
{
    if i >= symbols.len() {
        seq![]
    } else {
        symbol_events(symbols[i], answers[i]) + if located(symbols[i], answers[i]) is Err {
            seq![]
        } else {
            events_from(symbols, answers, i + 1)
        }
    }
}

/// Where a run stands once it has taken in some events.
pub open spec fn replay(
    editor_url: Seq<char>,
    step: SymbolStepView<ImportantSymbolsRunView>,
    events: Seq<SymbolEventView>,
) -> SymbolStepView<ImportantSymbolsRunView>
    decreases events.len(),
{
    match step {
        SymbolStepView::Done(_) => step,
        SymbolStepView::Ask { run, .. } => if events.len() == 0 {
            step
        } else {
            replay(editor_url, next(editor_url, run, events[0]), events.drop_first())
        },
    }
}

/// Whether each of some events is due when it comes, and none comes once the run is
/// over.
pub open spec fn all_due(
    editor_url: Seq<char>,
    step: SymbolStepView<ImportantSymbolsRunView>,
    events: Seq<SymbolEventView>,
) -> bool
    decreases events.len(),
{
    match step {
        SymbolStepView::Done(_) => events.len() == 0,
        SymbolStepView::Ask { run, .. } => events.len() == 0 || (due(run.stage, events[0])
            && all_due(editor_url, next(editor_url, run, events[0]), events.drop_first())),
    }
}

/// One event more in front.
proof fn lemma_replay_first(
    editor_url: Seq<char>,
    run: ImportantSymbolsRunView,
    step: SymbolStepView<ImportantSymbolsRunView>,
    event: SymbolEventView,
    rest: Seq<SymbolEventView>,
)
    requires
        step is Ask,
        step->run == run,
    ensures
        replay(editor_url, step, seq![event] + rest) == replay(
            editor_url,
            next(editor_url, run, event),
            rest,
        ),
        all_due(editor_url, step, seq![event] + rest) == (due(run.stage, event) && all_due(
            editor_url,
            next(editor_url, run, event),
            rest,
        )),
{
    let events = seq![event] + rest;
    assert(events.drop_first() =~= rest);
    assert(events[0] == event);
}

/// What a run comes to after one symbol.
pub open spec fn after_symbol(
    editor_url: Seq<char>,
    symbols: Seq<MechaCodeSymbolThinkingView>,
    i: int,
    place: Result<Option<SnippetView>, SymbolErrorView>,
) -> SymbolStepView<ImportantSymbolsRunView> {
    match place {
        Err(error) => SymbolStepView::Done(Err(error)),
        Ok(None) => visit(editor_url, symbols, i + 1),
        Ok(Some(snippet)) => visit(editor_url, with_snippet(symbols, i, snippet), i + 1),
    }
}

proof fn lemma_definition_events(
    editor_url: Seq<char>,
    run: ImportantSymbolsRunView,
    step: SymbolStepView<ImportantSymbolsRunView>,
    answers: Answers,
    rest: Seq<SymbolEventView>,
)
    requires
        step is Ask,
        step->run == run,
        run.well_formed(),
        run.stage is Defining,
        answers.has_definition(),
    ensures
        ({
            let after = after_symbol(
                editor_url,
                run.symbols,
                run.current,
                located_by_definition(run.symbol(), answers),
            );
            &&& replay(editor_url, step, definition_events(answers) + rest) == replay(
                editor_url,
                after,
                rest,
            )
            &&& all_due(editor_url, step, definition_events(answers) + rest) == all_due(
                editor_url,
                after,
                rest,
            )
        }),
{
    let definition = SymbolEventView::ToolReply(answers.definition);
    let definition_open = SymbolEventView::ToolReply(answers.definition_open);
    let outline = SymbolEventView::SymbolsOutline(answers.definition_outline);
    let step_1 = next(editor_url, run, definition);
    if defined(answers.definition) is Err {
        assert(definition_events(answers) + rest =~= seq![definition] + rest);
        lemma_replay_first(editor_url, run, step, definition, rest);
    } else {
        let run_1 = step_1->run;
        let step_2 = next(editor_url, run_1, definition_open);
        if opened(answers.definition_open) is Err {
            assert(definition_events(answers) + rest =~= seq![definition] + (seq![definition_open]
                + rest));
            lemma_replay_first(editor_url, run, step, definition, seq![definition_open] + rest);
            lemma_replay_first(editor_url, run_1, step_1, definition_open, rest);
        } else {
            let run_2 = step_2->run;
            assert(definition_events(answers) + rest =~= seq![definition] + (seq![definition_open]
                + (seq![outline] + rest)));
            lemma_replay_first(
                editor_url,
                run,
                step,
                definition,
                seq![definition_open] + (seq![outline] + rest),
            );
            lemma_replay_first(editor_url, run_1, step_1, definition_open, seq![outline] + rest);
            lemma_replay_first(editor_url, run_2, step_2, outline, rest);
        }
    }
}

proof fn lemma_search_events(
    editor_url: Seq<char>,
    run: ImportantSymbolsRunView,
    step: SymbolStepView<ImportantSymbolsRunView>,
    answers: Answers,
    rest: Seq<SymbolEventView>,
)
    requires
        step is Ask,
        step->run == run,
        run.well_formed(),
        run.stage is Reopening,
        answers.lead_to_definition() ==> answers.has_definition(),
    ensures
        ({
            let after = after_symbol(
                editor_url,
                run.symbols,
                run.current,
                located_by_search(run.symbol(), answers),
            );
            &&& replay(editor_url, step, search_events(answers) + rest) == replay(
                editor_url,
                after,
                rest,
            )
            &&& all_due(editor_url, step, search_events(answers) + rest) == all_due(
                editor_url,
                after,
                rest,
            )
        }),
{
    let reopen = SymbolEventView::ToolReply(answers.reopen);
    let find = SymbolEventView::ToolReply(answers.find);
    let step_1 = next(editor_url, run, reopen);
    if opened(answers.reopen) is Err {
        assert(search_events(answers) + rest =~= seq![reopen] + rest);
        lemma_replay_first(editor_url, run, step, reopen, rest);
    } else {
        let run_1 = step_1->run;
        let step_2 = next(editor_url, run_1, find);
        match found(answers.find) {
            Ok(Some(_)) => {
                let more = definition_events(answers) + rest;
                assert(search_events(answers) + rest =~= seq![reopen] + (seq![find] + more));
                lemma_replay_first(editor_url, run, step, reopen, seq![find] + more);
                lemma_replay_first(editor_url, run_1, step_1, find, more);
                lemma_definition_events(editor_url, step_2->run, step_2, answers, rest);
            },
            _ => {
                assert(search_events(answers) + rest =~= seq![reopen] + (seq![find] + rest));
                lemma_replay_first(editor_url, run, step, reopen, seq![find] + rest);
                lemma_replay_first(editor_url, run_1, step_1, find, rest);
            },
        }
    }
}

/// Resolving one symbol: whatever the answers are, the run takes in just those that
/// it comes to, and then stands at the next symbol, with the snippet that they lead
/// to, or at the failure that they hold.
pub proof fn law_one_symbol(
    editor_url: Seq<char>,
    symbols: Seq<MechaCodeSymbolThinkingView>,
    i: int,
    answers: Answers,
    rest: Seq<SymbolEventView>,
)
    requires
        0 <= i < symbols.len(),
        answers.suffice(symbols[i]),
    ensures
        ({
            let after = after_symbol(editor_url, symbols, i, located(symbols[i], answers));
            &&& replay(
                editor_url,
                visit(editor_url, symbols, i),
                symbol_events(symbols[i], answers) + rest,
            ) == replay(editor_url, after, rest)
            &&& all_due(
                editor_url,
                visit(editor_url, symbols, i),
                symbol_events(symbols[i], answers) + rest,
            ) == all_due(editor_url, after, rest)
        }),
{
    reveal(located);
    reveal(symbol_events);
    let open = SymbolEventView::ToolReply(answers.open);
    let added = SymbolEventView::DocumentAdded;
    let outline = SymbolEventView::SymbolsOutline(answers.outline);
    let step = visit(editor_url, symbols, i);
    let run = step->run;
    let step_1 = next(editor_url, run, open);
    let events = symbol_events(symbols[i], answers);
    if opened(answers.open) is Err {
        assert(events + rest =~= seq![open] + rest);
        lemma_replay_first(editor_url, run, step, open, rest);
    } else {
        let run_1 = step_1->run;
        let step_2 = next(editor_url, run_1, added);
        let run_2 = step_2->run;
        let step_3 = next(editor_url, run_2, outline);
        let searching = match answers.outline {
            None => false,
            Some(nodes) => grabbed(nodes, symbols[i].symbol_name).len() == 0,
        };
        let more = if searching {
            search_events(answers) + rest
        } else {
            rest
        };
        assert(events + rest =~= seq![open] + (seq![added] + (seq![outline] + more)));
        lemma_replay_first(editor_url, run, step, open, seq![added] + (seq![outline] + more));
        lemma_replay_first(editor_url, run_1, step_1, added, seq![outline] + more);
        lemma_replay_first(editor_url, run_2, step_2, outline, more);
        if searching {
            lemma_search_events(editor_url, step_3->run, step_3, answers, rest);
        }
    }
}

proof fn lemma_all_symbols(
    editor_url: Seq<char>,
    symbols: Seq<MechaCodeSymbolThinkingView>,
    answers: Seq<Answers>,
    i: int,
)
    requires
        0 <= i <= symbols.len(),
        answers.len() == symbols.len(),
        forall|k: int| 0 <= k < answers.len() ==> (#[trigger] answers[k]).suffice(symbols[k]),
    ensures
        ({
            let start = visit(editor_url, resolved_up_to(symbols, answers, i), i);
            let events = events_from(symbols, answers, i);
            &&& all_due(editor_url, start, events)
            &&& (forall|k: int|
                i <= k < symbols.len() ==> #[trigger] located(symbols[k], answers[k]) is Ok)
                ==> replay(editor_url, start, events) == SymbolStepView::<
                ImportantSymbolsRunView,
            >::Done(Ok(resolved_up_to(symbols, answers, symbols.len() as int)))
            &&& forall|k: int|
                i <= k < symbols.len() && #[trigger] located(symbols[k], answers[k]) is Err && (
                forall|j: int|
                    i <= j < k ==> #[trigger] located(symbols[j], answers[j]) is Ok) ==> replay(
                    editor_url,
                    start,
                    events,
                ) == SymbolStepView::<ImportantSymbolsRunView>::Done(
                    Err(located(symbols[k], answers[k])->Err_0),
                )
        }),
    decreases symbols.len() - i,
{
    let now = resolved_up_to(symbols, answers, i);
    let start = visit(editor_url, now, i);
    if i < symbols.len() {
        let place = located(symbols[i], answers[i]);
        assert(now[i] == symbols[i]);
        let rest = if place is Err {
            seq![]
        } else {
            events_from(symbols, answers, i + 1)
        };
        law_one_symbol(editor_url, now, i, answers[i], rest);
        if place is Ok {
            lemma_all_symbols(editor_url, symbols, answers, i + 1);
            let then = resolved_up_to(symbols, answers, i + 1);
            match place {
                Ok(Some(snippet)) => {
                    assert(with_snippet(now, i, snippet) =~= then);
                },
                _ => {
                    assert(now =~= then);
                },
            }
            assert forall|k: int|
                i <= k < symbols.len() && #[trigger] located(symbols[k], answers[k]) is Err && (
                forall|j: int|
                    i <= j < k ==> #[trigger] located(
                        symbols[j],
                        answers[j],
                    ) is Ok) implies replay(
                editor_url,
                start,
                events_from(symbols, answers, i),
            ) == SymbolStepView::<ImportantSymbolsRunView>::Done(
                Err(located(symbols[k], answers[k])->Err_0),
            ) by {
                assert(k != i);
            }
        } else {
            assert forall|k: int|
                i <= k < symbols.len() && #[trigger] located(symbols[k], answers[k]) is Err && (
                forall|j: int|
                    i <= j < k ==> #[trigger] located(symbols[j], answers[j]) is Ok) implies k
                == i by {
                if k > i {
                    assert(located(symbols[i], answers[i]) is Ok);
                }
            }
        }
    }
}

/// A whole run over the symbols of a plan: whatever the answers are, each is due when
/// it comes. If every symbol can be placed, or goes without a snippet, the run ends
/// with all the symbols, each resolved by its own answers. If one fails, the run ends
/// with the failure of the first that does.
pub proof fn law_whole_run(
    editor_url: Seq<char>,
    symbols: Seq<MechaCodeSymbolThinkingView>,
    answers: Seq<Answers>,
)
    requires
        answers.len() == symbols.len(),
        forall|k: int| 0 <= k < answers.len() ==> (#[trigger] answers[k]).suffice(symbols[k]),
    ensures
        all_due(editor_url, visit(editor_url, symbols, 0), events_from(symbols, answers, 0)),
        (forall|k: int|
            0 <= k < symbols.len() ==> #[trigger] located(symbols[k], answers[k]) is Ok) ==> replay(
            editor_url,
            visit(editor_url, symbols, 0),
            events_from(symbols, answers, 0),
        ) == SymbolStepView::<ImportantSymbolsRunView>::Done(
            Ok(Seq::new(symbols.len(), |k: int| resolved(symbols[k], answers[k]))),
        ),
        forall|k: int|
            0 <= k < symbols.len() && #[trigger] located(symbols[k], answers[k]) is Err && (forall|
                j: int,
            |
                0 <= j < k ==> #[trigger] located(symbols[j], answers[j]) is Ok) ==> replay(
                editor_url,
                visit(editor_url, symbols, 0),
                events_from(symbols, answers, 0),
            ) == SymbolStepView::<ImportantSymbolsRunView>::Done(
                Err(located(symbols[k], answers[k])->Err_0),
            ),
{
    lemma_all_symbols(editor_url, symbols, answers, 0);
    assert(resolved_up_to(symbols, answers, 0) =~= symbols);
    assert(resolved_up_to(symbols, answers, symbols.len() as int) =~= Seq::new(
        symbols.len(),
        |k: int| resolved(symbols[k], answers[k]),
    ));
}

/// A search that fails counts as one that does not find the symbol: the symbol goes
/// without a snippet, and the run goes on.
pub proof fn law_failed_search_counts_as_absence(
    symbol: MechaCodeSymbolThinkingView,
    answers: Answers,
)
    requires
        found(answers.find) is Err,
    ensures
        located(symbol, answers) == located(
            symbol,
            Answers { find: Ok(ToolOutputView::GrepSingleFile(None)), ..answers },
        ),
{
    reveal(located);
}

} // verus!
