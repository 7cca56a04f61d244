//! What holds of the library as a whole.
use crate::errors::{not_found, SymbolErrorView, ToolErrorView};
use crate::identifier::MechaCodeSymbolThinkingView;
use crate::implementation::{
    ask_implementations, next_towards_implementations, GoToImplementationStepView,
};
use crate::important::{
    CodeSymbolImportantResponseView, CodeSymbolWithStepsView, CodeSymbolWithThinkingView,
};
use crate::lsp::DefinitionPathAndRangeView;
use crate::manager::{defined_snippet, found, implemented, opened, Reply};
use crate::outline::{grabbed, named, offered, OutlineNodeView};
use crate::plan::{
    code_symbol, further_steps, lemma_distinct, ordered_new, orders, plan, planned_names, thinking,
    thinks_of,
};
use crate::resolution::{all_due, replay};
use crate::run::{
    due, initial_step, next, next_initially, resolving, visit, ImportantSymbolsRunView,
    InitialRequestRunView, StageView, SymbolActionView, SymbolEventView, SymbolStepView,
};
use crate::text::lemma_filter_push;
use crate::tool::{ToolInputView, ToolOutputView};
use vstd::prelude::*;

verus! {

/// Whatever an outline offers under a name bears that name.
pub proof fn law_offers_bear_the_name(nodes: Seq<OutlineNodeView>, name: Seq<char>)
    ensures
        forall|k: int|
            0 <= k < grabbed(nodes, name).len() ==> (#[trigger] grabbed(nodes, name)[k]).name
                == name,
    decreases nodes.len(),
{
    let offer = |node: OutlineNodeView| offered(node, name);
    if nodes.len() > 0 {
        let rest = nodes.drop_last();
        law_offers_bear_the_name(rest, name);
        rest.lemma_flat_map_push(offer, nodes.last());
        assert(rest.push(nodes.last()) =~= nodes);
        let last = offered(nodes.last(), name);
        assert forall|k: int| 0 <= k < last.len() implies (#[trigger] last[k]).name == name by {
            if nodes.last().content.name != name {
                nodes.last().children.lemma_filter_pred(named(name), k);
            }
        }
        assert(grabbed(nodes, name) =~= grabbed(rest, name) + last);
    } else {
        assert(grabbed(nodes, name) =~= seq![]);
    }
}

/// Whether a top-level symbol, or a member of a class, bears a name.
pub open spec fn bears(node: OutlineNodeView, name: Seq<char>) -> bool {
    node.content.name == name || (node.class && exists|j: int|
        0 <= j < node.children.len() && (#[trigger] node.children[j]).name == name)
}

/// An outline offers something under a name just where some top-level symbol, or some
/// member of a class, bears it.
pub proof fn law_offers_what_there_is(nodes: Seq<OutlineNodeView>, name: Seq<char>)
    ensures
        grabbed(nodes, name).len() > 0 <==> exists|i: int|
            0 <= i < nodes.len() && bears(#[trigger] nodes[i], name),
    decreases nodes.len(),
{
    let offer = |node: OutlineNodeView| offered(node, name);
    if nodes.len() > 0 {
        let rest = nodes.drop_last();
        let last = nodes.last();
        law_offers_what_there_is(rest, name);
        rest.lemma_flat_map_push(offer, last);
        assert(rest.push(last) =~= nodes);
        assert(grabbed(nodes, name) =~= grabbed(rest, name) + offered(last, name));
        assert(offered(last, name).len() > 0 <==> bears(last, name)) by {
            if last.content.name != name && last.class {
                let kept = last.children.filter(named(name));
                if kept.len() > 0 {
                    last.children.lemma_filter_pred(named(name), 0);
                    lemma_filtered_are_there(last.children, named(name), 0);
                }
                if bears(last, name) {
                    let j = choose|j: int|
                        0 <= j < last.children.len() && (#[trigger] last.children[j]).name == name;
                    last.children.lemma_filter_contains(named(name), j);
                }
            }
        }
        if exists|i: int| 0 <= i < nodes.len() && bears(#[trigger] nodes[i], name) {
            let i = choose|i: int| 0 <= i < nodes.len() && bears(#[trigger] nodes[i], name);
            if i < rest.len() {
                assert(bears(rest[i], name));
            }
        }
        if grabbed(rest, name).len() > 0 {
            let i = choose|i: int| 0 <= i < rest.len() && bears(#[trigger] rest[i], name);
            assert(bears(nodes[i], name));
        }
        if bears(last, name) {
            assert(bears(nodes[nodes.len() - 1], name));
        }
    } else {
        assert(grabbed(nodes, name) =~= seq![]);
    }
}

/// What a filter keeps stood there before.
proof fn lemma_filtered_are_there<A>(items: Seq<A>, keep: spec_fn(A) -> bool, k: int)
    requires
        0 <= k < items.filter(keep).len(),
    ensures
        exists|j: int| 0 <= j < items.len() && #[trigger] items[j] == items.filter(keep)[k],
    decreases items.len(),
{
    reveal(Seq::filter);
    let rest = items.drop_last();
    if k < rest.filter(keep).len() {
        lemma_filtered_are_there(rest, keep, k);
        let j = choose|j: int| 0 <= j < rest.len() && #[trigger] rest[j] == rest.filter(keep)[k];
        assert(items[j] == items.filter(keep)[k]);
    } else {
        assert(items[items.len() - 1] == items.filter(keep)[k]);
    }
}

/// Where a symbol is defined, the snippet that its definition leads to bears its name.
pub proof fn law_defined_snippet_bears_the_name(
    symbol_name: Seq<char>,
    fs_file_path: Seq<char>,
    outline: Option<Seq<OutlineNodeView>>,
)
    ensures
        match defined_snippet(symbol_name, fs_file_path, outline) {
            Ok(snippet) => snippet.symbol_name == symbol_name && snippet.fs_file_path
                == fs_file_path,
            Err(error) => error == SymbolErrorView::ToolError(
                ToolErrorView::SymbolNotFound(symbol_name),
            ),
        },
{
    if outline is Some {
        law_offers_bear_the_name(outline->0, symbol_name);
    }
}

/// A plan has one entry for each symbol that is ordered, and no others. What is merely
/// thought of gets none.
pub proof fn law_plan_has_each_ordered_symbol_once(response: CodeSymbolImportantResponseView)
    ensures
        forall|i: int, j: int|
            0 <= i < j < plan(response).len() ==> (#[trigger] plan(response)[i]).symbol_name != (
            #[trigger] plan(response)[j]).symbol_name,
        forall|i: int|
            0 <= i < response.ordered_symbols.len() ==> exists|k: int|
                0 <= k < plan(response).len() && (#[trigger] plan(response)[k]).symbol_name == (
                #[trigger] response.ordered_symbols[i]).code_symbol,
        forall|k: int|
            0 <= k < plan(response).len() ==> exists|i: int|
                0 <= i < response.ordered_symbols.len() && (#[trigger] plan(
                    response,
                )[k]).symbol_name == (#[trigger] response.ordered_symbols[i]).code_symbol,
{
    let ordered = response.ordered_symbols;
    let all = ordered.map_values(code_symbol());
    let names = planned_names(ordered);
    lemma_distinct(all);
    let entries = plan(response);
    assert forall|i: int, j: int| 0 <= i < j < entries.len() implies (
    #[trigger] entries[i]).symbol_name != (#[trigger] entries[j]).symbol_name by {
        assert(names[i] != names[j]);
    }
    assert forall|i: int| 0 <= i < ordered.len() implies exists|k: int|
        0 <= k < entries.len() && (#[trigger] entries[k]).symbol_name == (
        #[trigger] ordered[i]).code_symbol by {
        assert(all[i] == ordered[i].code_symbol);
        assert(all.contains(ordered[i].code_symbol));
        assert(names.contains(ordered[i].code_symbol));
        let k = choose|k: int| 0 <= k < names.len() && names[k] == ordered[i].code_symbol;
        assert(entries[k].symbol_name == ordered[i].code_symbol);
    }
    assert forall|k: int| 0 <= k < entries.len() implies exists|i: int|
        0 <= i < ordered.len() && (#[trigger] entries[k]).symbol_name == (
        #[trigger] ordered[i]).code_symbol by {
        assert(names[k] == entries[k].symbol_name);
        assert(names.contains(names[k]));
        assert(all.contains(names[k]));
        let i = choose|i: int| 0 <= i < all.len() && all[i] == names[k];
        assert(ordered[i].code_symbol == entries[k].symbol_name);
    }
}

proof fn lemma_last_order(ordered: Seq<CodeSymbolWithStepsView>, name: Seq<char>, last: int)
    requires
        0 <= last < ordered.len(),
        ordered[last].code_symbol == name,
        forall|j: int| last < j < ordered.len() ==> (#[trigger] ordered[j]).code_symbol != name,
    ensures
        ordered.filter(orders(name)).len() > 0,
        ordered.filter(orders(name)).last() == ordered[last],
    decreases ordered.len(),
{
    let rest = ordered.drop_last();
    lemma_filter_push(rest, ordered.last(), orders(name));
    assert(rest.push(ordered.last()) =~= ordered);
    if last < rest.len() {
        assert(ordered[ordered.len() - 1].code_symbol != name);
        lemma_last_order(rest, name, last);
    }
}

/// Where a symbol is ordered more than once, the last order decides on its file, on
/// whether it is new and on its first steps, and it has no snippet yet. A symbol that
/// any order calls new gets no steps from the thoughts.
pub proof fn law_last_order_counts(
    response: CodeSymbolImportantResponseView,
    last: int,
    k: int,
)
    requires
        0 <= last < response.ordered_symbols.len(),
        forall|j: int|
            last < j < response.ordered_symbols.len() ==> (
            #[trigger] response.ordered_symbols[j]).code_symbol
                != response.ordered_symbols[last].code_symbol,
        0 <= k < plan(response).len(),
        plan(response)[k].symbol_name == response.ordered_symbols[last].code_symbol,
    ensures
        plan(response)[k].file_path == response.ordered_symbols[last].file_path,
        plan(response)[k].is_new == response.ordered_symbols[last].is_new,
        plan(response)[k].snippet is None,
        response.ordered_symbols[last].steps.is_prefix_of(plan(response)[k].steps),
        ordered_new(response.ordered_symbols, response.ordered_symbols[last].code_symbol) ==> plan(
            response,
        )[k].steps == response.ordered_symbols[last].steps,
{
    let order = response.ordered_symbols[last];
    lemma_last_order(response.ordered_symbols, order.code_symbol, last);
    assert(order.steps + Seq::<Seq<char>>::empty() =~= order.steps);
}

/// A plan keeps the order in which the symbols are first ordered.
pub proof fn law_plan_keeps_the_order(response: CodeSymbolImportantResponseView)
    ensures
        plan(response).map_values(|entry: MechaCodeSymbolThinkingView| entry.symbol_name)
            == response.ordered_symbols.map_values(
            |order: CodeSymbolWithStepsView| order.code_symbol,
        ).remove_duplicates(seq![]),
{
    assert((|order: CodeSymbolWithStepsView| order.code_symbol) =~= code_symbol());
    assert(plan(response).map_values(|entry: MechaCodeSymbolThinkingView| entry.symbol_name)
        =~= planned_names(response.ordered_symbols));
}

/// Every planned symbol that no order calls new has the steps of its last order, followed
/// by the thinking of each and every thought of that name, in the order of the thoughts.
/// One that some order calls new has the steps of its last order alone. Nothing else is
/// known of a planned symbol but what its last order says.
pub proof fn law_planned_entry_is_its_last_order_and_all_its_thoughts(
    response: CodeSymbolImportantResponseView,
    last: int,
    k: int,
)
    requires
        0 <= last < response.ordered_symbols.len(),
        forall|j: int|
            last < j < response.ordered_symbols.len() ==> (
            #[trigger] response.ordered_symbols[j]).code_symbol
                != response.ordered_symbols[last].code_symbol,
        0 <= k < plan(response).len(),
        plan(response)[k].symbol_name == response.ordered_symbols[last].code_symbol,
    ensures
        plan(response)[k] == (MechaCodeSymbolThinkingView {
            symbol_name: response.ordered_symbols[last].code_symbol,
            steps: response.ordered_symbols[last].steps + if exists|i: int|
                0 <= i < response.ordered_symbols.len() && (
                #[trigger] response.ordered_symbols[i]).code_symbol
                    == response.ordered_symbols[last].code_symbol
                    && response.ordered_symbols[i].is_new {
                Seq::<Seq<char>>::empty()
            } else {
                response.symbols.filter(
                    |thought: CodeSymbolWithThinkingView|
                        thought.code_symbol == response.ordered_symbols[last].code_symbol,
                ).map_values(|thought: CodeSymbolWithThinkingView| thought.thinking)
            },
            is_new: response.ordered_symbols[last].is_new,
            file_path: response.ordered_symbols[last].file_path,
            snippet: None,
            implementations: Seq::empty(),
        }),
{
    let ordered = response.ordered_symbols;
    let name = ordered[last].code_symbol;
    lemma_last_order(ordered, name, last);
    let about = |thought: CodeSymbolWithThinkingView| thought.code_symbol == name;
    assert(about =~= thinks_of(name));
    assert((|thought: CodeSymbolWithThinkingView| thought.thinking) =~= thinking());
    if ordered_new(ordered, name) {
        let i = choose|i: int|
            0 <= i < ordered.len() && #[trigger] ordered[i].code_symbol == name
                && ordered[i].is_new;
        assert(ordered[i].code_symbol == name && ordered[i].is_new);
    }
    assert(plan(response)[k].steps =~= ordered[last].steps + further_steps(
        ordered,
        response.symbols,
        name,
    ));
}

/// No thought is left out: whatever is thought of a planned symbol that no order calls new
/// is among its steps, and it has just as many steps beyond those of its last order as there
/// are thoughts of it.
pub proof fn law_no_thought_is_left_out(
    response: CodeSymbolImportantResponseView,
    last: int,
    k: int,
    j: int,
)
    requires
        0 <= last < response.ordered_symbols.len(),
        forall|i: int|
            last < i < response.ordered_symbols.len() ==> (
            #[trigger] response.ordered_symbols[i]).code_symbol
                != response.ordered_symbols[last].code_symbol,
        forall|i: int|
            0 <= i < response.ordered_symbols.len() ==> !((
            #[trigger] response.ordered_symbols[i]).code_symbol
                == response.ordered_symbols[last].code_symbol
                && response.ordered_symbols[i].is_new),
        0 <= k < plan(response).len(),
        plan(response)[k].symbol_name == response.ordered_symbols[last].code_symbol,
    ensures
        plan(response)[k].steps.len() == response.ordered_symbols[last].steps.len()
            + response.symbols.filter(
            |thought: CodeSymbolWithThinkingView|
                thought.code_symbol == response.ordered_symbols[last].code_symbol,
        ).len(),
        0 <= j < response.symbols.len() && response.symbols[j].code_symbol
            == response.ordered_symbols[last].code_symbol ==> plan(response)[k].steps.contains(
            response.symbols[j].thinking,
        ),
{
    let name = response.ordered_symbols[last].code_symbol;
    let first = response.ordered_symbols[last].steps;
    let about = |thought: CodeSymbolWithThinkingView| thought.code_symbol == name;
    let kept = response.symbols.filter(about);
    law_planned_entry_is_its_last_order_and_all_its_thoughts(response, last, k);
    if 0 <= j < response.symbols.len() && response.symbols[j].code_symbol == name {
        assert(about(response.symbols[j]));
        response.symbols.lemma_filter_contains(about, j);
        let i = choose|i: int| 0 <= i < kept.len() && kept[i] == response.symbols[j];
        assert(plan(response)[k].steps[first.len() + i] == response.symbols[j].thinking);
    }
}

/// One more thought adds its thinking, as the last step, to the entry of its name, unless
/// some order calls that symbol new. It changes nothing else in the plan.
pub proof fn law_one_more_thought(
    response: CodeSymbolImportantResponseView,
    thought: CodeSymbolWithThinkingView,
    k: int,
)
    requires
        0 <= k < plan(response).len(),
    ensures
        ({
            let more = plan(
                CodeSymbolImportantResponseView {
                    symbols: response.symbols.push(thought),
                    ordered_symbols: response.ordered_symbols,
                },
            );
            let takes = plan(response)[k].symbol_name == thought.code_symbol && !exists|i: int|
                0 <= i < response.ordered_symbols.len() && (
                #[trigger] response.ordered_symbols[i]).code_symbol == thought.code_symbol
                    && response.ordered_symbols[i].is_new;
            &&& more.len() == plan(response).len()
            &&& takes ==> more[k].steps == plan(response)[k].steps.push(thought.thinking)
            &&& !takes ==> more[k].steps == plan(response)[k].steps
            &&& more[k].symbol_name == plan(response)[k].symbol_name
            &&& more[k].is_new == plan(response)[k].is_new
            &&& more[k].file_path == plan(response)[k].file_path
        }),
{
    let ordered = response.ordered_symbols;
    let name = plan(response)[k].symbol_name;
    let more = response.symbols.push(thought);
    lemma_filter_push(response.symbols, thought, thinks_of(name));
    if ordered_new(ordered, name) {
        let i = choose|i: int|
            0 <= i < ordered.len() && #[trigger] ordered[i].code_symbol == name
                && ordered[i].is_new;
        assert(ordered[i].code_symbol == name && ordered[i].is_new);
    } else if name == thought.code_symbol {
        let first = ordered.filter(orders(name)).last().steps;
        let further = further_steps(ordered, response.symbols, name);
        assert(further_steps(ordered, more, name) =~= further.push(thought.thinking));
        assert(first + further.push(thought.thinking) =~= (first + further).push(
            thought.thinking,
        ));
    }
}

/// How far a stage is from the end of its symbol.
pub open spec fn stages_left(stage: StageView) -> int {
    match stage {
        StageView::Opening => 8,
        StageView::Adding => 7,
        StageView::Outlining => 6,
        StageView::Reopening => 5,
        StageView::Finding => 4,
        StageView::Defining => 3,
        StageView::OpeningDefinition { .. } => 2,
        StageView::OutliningDefinition { .. } => 1,
    }
}

/// How many events may still be due.
pub open spec fn events_left(step: SymbolStepView<ImportantSymbolsRunView>) -> int {
    match step {
        SymbolStepView::Done(_) => 0,
        SymbolStepView::Ask { run, .. } => 8 * (run.symbols.len() - run.current - 1) + stages_left(
            run.stage,
        ),
    }
}

/// Every event that is due brings a run nearer to its end, and leaves it with a symbol
/// to resolve as long as it goes on.
pub proof fn law_events_bring_progress(
    editor_url: Seq<char>,
    step: SymbolStepView<ImportantSymbolsRunView>,
    event: SymbolEventView,
)
    requires
        step is Ask,
        step->run.well_formed(),
        due(step->run.stage, event),
    ensures
        0 <= events_left(next(editor_url, step->run, event)) < events_left(step),
        next(editor_url, step->run, event) matches SymbolStepView::Ask { run, .. }
            ==> run.well_formed(),
{
}

/// A run takes in no more events than are left to it: eight at most for each symbol.
pub proof fn law_runs_end(
    editor_url: Seq<char>,
    step: SymbolStepView<ImportantSymbolsRunView>,
    events: Seq<SymbolEventView>,
)
    requires
        step matches SymbolStepView::Ask { run, .. } ==> run.well_formed(),
        all_due(editor_url, step, events),
    ensures
        events.len() <= events_left(step),
    decreases events.len(),
{
    if events.len() > 0 {
        law_events_bring_progress(editor_url, step, events[0]);
        law_runs_end(editor_url, next(editor_url, step->run, events[0]), events.drop_first());
    }
}

/// Two lists of symbols that differ in their snippets at most.
pub open spec fn same_but_for_snippets(
    symbols: Seq<MechaCodeSymbolThinkingView>,
    others: Seq<MechaCodeSymbolThinkingView>,
) -> bool {
    symbols.len() == others.len() && forall|k: int|
        0 <= k < symbols.len() ==> (#[trigger] symbols[k]) == (MechaCodeSymbolThinkingView {
            snippet: symbols[k].snippet,
            ..others[k]
        })
}

/// Every snippet bears the name of its symbol.
pub open spec fn snippets_named(symbols: Seq<MechaCodeSymbolThinkingView>) -> bool {
    forall|k: int|
        0 <= k < symbols.len() ==> ((#[trigger] symbols[k]).snippet matches Some(snippet)
            ==> snippet.symbol_name == symbols[k].symbol_name)
}

/// The symbols of a run, or those it ended with, if it did not fail.
pub open spec fn symbols_of(step: SymbolStepView<ImportantSymbolsRunView>) -> Option<
    Seq<MechaCodeSymbolThinkingView>,
> {
    match step {
        SymbolStepView::Ask { run, .. } => Some(run.symbols),
        SymbolStepView::Done(Ok(symbols)) => Some(symbols),
        SymbolStepView::Done(Err(_)) => None,
    }
}

/// A run changes nothing of its symbols but their snippets, and neither loses a symbol
/// nor adds one, nor changes their order. Every snippet it sets bears the name of its
/// symbol.
pub proof fn law_runs_keep_the_plan(
    editor_url: Seq<char>,
    step: SymbolStepView<ImportantSymbolsRunView>,
    events: Seq<SymbolEventView>,
)
    requires
        step matches SymbolStepView::Ask { run, .. } ==> run.well_formed(),
        all_due(editor_url, step, events),
        symbols_of(step) is Some,
        snippets_named(symbols_of(step)->0),
    ensures
        symbols_of(replay(editor_url, step, events)) matches Some(symbols) ==> {
            &&& same_but_for_snippets(symbols, symbols_of(step)->0)
            &&& snippets_named(symbols)
        },
    decreases events.len(),
{
    if events.len() > 0 {
        let run = step->run;
        let then = next(editor_url, run, events[0]);
        law_events_bring_progress(editor_url, step, events[0]);
        if symbols_of(then) is Some {
            match events[0] {
                SymbolEventView::SymbolsOutline(outline) => {
                    if outline is Some {
                        law_offers_bear_the_name(outline->0, run.symbol().symbol_name);
                    }
                },
                _ => {},
            }
            assert(same_but_for_snippets(symbols_of(then)->0, run.symbols));
            law_runs_keep_the_plan(editor_url, then, events.drop_first());
        } else {
            assert(replay(editor_url, then, events.drop_first()) == then);
        }
    }
}

/// Where an initial request stands once it has taken in some events.
pub open spec fn replay_initially(
    editor_url: Seq<char>,
    step: SymbolStepView<InitialRequestRunView>,
    events: Seq<SymbolEventView>,
) -> SymbolStepView<InitialRequestRunView>
    decreases events.len(),
{
    match step {
        SymbolStepView::Done(_) => step,
        SymbolStepView::Ask { run, .. } => if events.len() == 0 {
            step
        } else {
            replay_initially(
                editor_url,
                next_initially(editor_url, run, events[0]),
                events.drop_first(),
            )
        },
    }
}

proof fn lemma_replay_resolving(
    editor_url: Seq<char>,
    step: SymbolStepView<ImportantSymbolsRunView>,
    events: Seq<SymbolEventView>,
)
    ensures
        replay_initially(editor_url, resolving(step), events) == resolving(
            replay(editor_url, step, events),
        ),
    decreases events.len(),
{
    if step is Ask && events.len() > 0 {
        lemma_replay_resolving(
            editor_url,
            next(editor_url, step->run, events[0]),
            events.drop_first(),
        );
    }
}

/// Once an initial request has its important symbols, it goes just as the run over
/// their plan does.
pub proof fn law_initial_request_resolves_the_plan(
    editor_url: Seq<char>,
    tool_input: ToolInputView,
    response: CodeSymbolImportantResponseView,
    events: Seq<SymbolEventView>,
)
    ensures
        replay_initially(
            editor_url,
            initial_step(Some(tool_input)),
            seq![SymbolEventView::ToolReply(Ok(ToolOutputView::ImportantSymbols(response)))]
                + events,
        ) == resolving(replay(editor_url, visit(editor_url, plan(response), 0), events)),
{
    let first = SymbolEventView::ToolReply(Ok(ToolOutputView::ImportantSymbols(response)));
    let all = seq![first] + events;
    assert(all[0] == first);
    assert(all.drop_first() =~= events);
    lemma_replay_resolving(editor_url, visit(editor_url, plan(response), 0), events);
}

/// Where an initial request ends well, the symbols to create agents for are those of
/// the plan, in its order and with their snippets.
pub proof fn law_initial_request_yields_the_plan(
    editor_url: Seq<char>,
    tool_input: ToolInputView,
    response: CodeSymbolImportantResponseView,
    events: Seq<SymbolEventView>,
)
    requires
        all_due(editor_url, visit(editor_url, plan(response), 0), events),
    ensures
        replay_initially(
            editor_url,
            initial_step(Some(tool_input)),
            seq![SymbolEventView::ToolReply(Ok(ToolOutputView::ImportantSymbols(response)))]
                + events,
        ) matches SymbolStepView::Done(Ok(symbols)) ==> {
            &&& same_but_for_snippets(symbols, plan(response))
            &&& snippets_named(symbols)
        },
{
    law_initial_request_resolves_the_plan(editor_url, tool_input, response, events);
    law_runs_keep_the_plan(editor_url, visit(editor_url, plan(response), 0), events);
}

/// Whether an action that goes to the editor goes to the one at a URL.
pub open spec fn goes_to_editor(action: SymbolActionView, url: Seq<char>) -> bool {
    match action {
        SymbolActionView::InvokeTool(ToolInputView::OpenFile { editor_url, .. }) => editor_url
            == url,
        SymbolActionView::InvokeTool(ToolInputView::GoToDefinition { editor_url, .. }) => editor_url
            == url,
        SymbolActionView::InvokeTool(ToolInputView::GrepSingleFile { .. }) => true,
        SymbolActionView::InvokeTool(_) => false,
        _ => true,
    }
}

/// A run asks for nothing but files, places, definitions and outlines, and what it asks
/// of the editor it asks at the manager's URL.
pub proof fn law_runs_ask_their_editor(
    editor_url: Seq<char>,
    run: ImportantSymbolsRunView,
    event: SymbolEventView,
)
    requires
        run.well_formed(),
        due(run.stage, event),
    ensures
        next(editor_url, run, event) matches SymbolStepView::Ask { action, .. } ==> goes_to_editor(
            action,
            editor_url,
        ),
{
}

/// Where the way to the implementations stands once it has taken in some replies.
pub open spec fn replay_towards_implementations(
    editor_url: Seq<char>,
    step: GoToImplementationStepView,
    replies: Seq<Reply>,
) -> GoToImplementationStepView
    decreases replies.len(),
{
    match step {
        GoToImplementationStepView::Done(_) => step,
        GoToImplementationStepView::Ask { run, .. } => if replies.len() == 0 {
            step
        } else {
            replay_towards_implementations(
                editor_url,
                next_towards_implementations(editor_url, run, replies[0]),
                replies.drop_first(),
            )
        },
    }
}

/// What the way to the implementations comes to, given the answers on it.
pub open spec fn implementations_of(
    symbol_name: Seq<char>,
    open: Reply,
    find: Reply,
    ask: Reply,
) -> Result<Seq<DefinitionPathAndRangeView>, SymbolErrorView> {
    match opened(open) {
        Err(error) => Err(error),
        Ok(_) => match found(find) {
            Err(error) => Err(error),
            Ok(None) => Err(not_found(symbol_name)),
            Ok(Some(_)) => implemented(ask),
        },
    }
}

/// Three answers at most lead to the implementations of a symbol: they are all that the
/// last one brings, in its order, unless an earlier one fails or does not find the symbol.
pub proof fn law_way_to_the_implementations(
    editor_url: Seq<char>,
    fs_file_path: Seq<char>,
    symbol_name: Seq<char>,
    open: Reply,
    find: Reply,
    ask: Reply,
)
    ensures
        replay_towards_implementations(
            editor_url,
            ask_implementations(editor_url, fs_file_path, symbol_name),
            seq![open, find, ask],
        ) == GoToImplementationStepView::Done(implementations_of(symbol_name, open, find, ask)),
        implementations_of(symbol_name, open, find, ask) == (match open {
            Err(error) => Err(SymbolErrorView::ToolError(error)),
            Ok(ToolOutputView::FileOpen(_)) => match find {
                Err(error) => Err(SymbolErrorView::ToolError(error)),
                Ok(ToolOutputView::GrepSingleFile(Some(_))) => match ask {
                    Err(error) => Err(SymbolErrorView::ToolError(error)),
                    Ok(ToolOutputView::GoToImplementation(locations)) => Ok(locations),
                    Ok(_) => Err(SymbolErrorView::WrongToolOutput),
                },
                Ok(ToolOutputView::GrepSingleFile(None)) => Err(
                    SymbolErrorView::ToolError(ToolErrorView::SymbolNotFound(symbol_name)),
                ),
                Ok(_) => Err(SymbolErrorView::WrongToolOutput),
            },
            Ok(_) => Err(SymbolErrorView::WrongToolOutput),
        }),
{
    reveal_with_fuel(replay_towards_implementations, 4);
    let replies = seq![open, find, ask];
    assert(replies.drop_first() =~= seq![find, ask]);
    assert(seq![find, ask].drop_first() =~= seq![ask]);
    assert(seq![ask].drop_first() =~= seq![]);
}

} // verus!
