//! The plan made of a list of important symbols: one entry for each symbol to
//! change, with all the steps to take on it.
use crate::identifier::{
    MechaCodeSymbolThinking, MechaCodeSymbolThinkingView, Snippet, SnippetView,
};
use crate::important::{
    CodeSymbolImportantResponse, CodeSymbolImportantResponseView, CodeSymbolWithSteps,
    CodeSymbolWithStepsView, CodeSymbolWithThinking, CodeSymbolWithThinkingView,
};
use crate::text::{contains_string, copy_strings, lemma_filter_push, views};
use vstd::prelude::*;

verus! {

/// The name of an ordered symbol.
pub open spec fn code_symbol() -> spec_fn(CodeSymbolWithStepsView) -> Seq<char> {
    |ordered: CodeSymbolWithStepsView| ordered.code_symbol
}

/// Whether an ordered symbol bears a name.
pub open spec fn orders(name: Seq<char>) -> spec_fn(CodeSymbolWithStepsView) -> bool {
    |ordered: CodeSymbolWithStepsView| ordered.code_symbol == name
}

/// Whether a thought is about the symbol of a name.
pub open spec fn thinks_of(name: Seq<char>) -> spec_fn(CodeSymbolWithThinkingView) -> bool {
    |symbol: CodeSymbolWithThinkingView| symbol.code_symbol == name
}

/// What is thought of a symbol.
pub open spec fn thinking() -> spec_fn(CodeSymbolWithThinkingView) -> Seq<char> {
    |symbol: CodeSymbolWithThinkingView| symbol.thinking
}

/// Whether some ordered symbol of this name is to be written anew.
pub open spec fn ordered_new(ordered: Seq<CodeSymbolWithStepsView>, name: Seq<char>) -> bool {
    exists|i: int|
        0 <= i < ordered.len() && #[trigger] ordered[i].code_symbol == name && ordered[i].is_new
}

/// The names to be planned for, each once, in the order in which they first come.
pub open spec fn planned_names(ordered: Seq<CodeSymbolWithStepsView>) -> Seq<Seq<char>> {
    ordered.map_values(code_symbol()).remove_duplicates(seq![])
}

/// What the thoughts add to the steps on a symbol: nothing to a new one.
pub open spec fn further_steps(
    ordered: Seq<CodeSymbolWithStepsView>,
    symbols: Seq<CodeSymbolWithThinkingView>,
    name: Seq<char>,
) -> Seq<Seq<char>> {
    if ordered_new(ordered, name) {
        seq![]
    } else {
        symbols.filter(thinks_of(name)).map_values(thinking())
    }
}

/// The entry for a name. Where it is ordered more than once, the last order counts.
pub open spec fn planned_entry(
    ordered: Seq<CodeSymbolWithStepsView>,
    symbols: Seq<CodeSymbolWithThinkingView>,
    name: Seq<char>,
) -> MechaCodeSymbolThinkingView {
    let last = ordered.filter(orders(name)).last();
    MechaCodeSymbolThinkingView {
        symbol_name: name,
        steps: last.steps + further_steps(ordered, symbols, name),
        is_new: last.is_new,
        file_path: last.file_path,
        snippet: None,
        implementations: seq![],
    }
}

/// The plan for a list of ordered symbols and a list of thoughts.
pub open spec fn planned(
    ordered: Seq<CodeSymbolWithStepsView>,
    symbols: Seq<CodeSymbolWithThinkingView>,
) -> Seq<MechaCodeSymbolThinkingView> {
    planned_names(ordered).map_values(
        |name: Seq<char>| planned_entry(ordered, symbols, name),
    )
}

/// The plan for a list of important symbols.
pub open spec fn plan(response: CodeSymbolImportantResponseView) -> Seq<
    MechaCodeSymbolThinkingView,
> {
    planned(response.ordered_symbols, response.symbols)
}

/// Removing duplicates leaves none.
pub proof fn lemma_distinct<A>(items: Seq<A>)
    ensures
        items.remove_duplicates(seq![]).no_duplicates(),
        forall|item: A|
            #[trigger] items.remove_duplicates(seq![]).contains(item) <==> items.contains(item),
    decreases items.len(),
{
    items.lemma_remove_duplicates_properties(seq![]);
    assert(items + seq![] =~= items);
    if items.len() > 0 {
        let rest = items.drop_last();
        lemma_distinct(rest);
        rest.lemma_remove_duplicates_append(items.last(), seq![]);
        assert(rest + seq![items.last()] =~= items);
        assert(rest + seq![] =~= rest);
        let distinct = rest.remove_duplicates(seq![]);
        if !rest.contains(items.last()) {
            assert(!distinct.contains(items.last()));
            assert((distinct + seq![items.last()]).no_duplicates());
        }
    }
}

/// The names planned for once one more symbol is ordered.
proof fn lemma_planned_names_push(
    ordered: Seq<CodeSymbolWithStepsView>,
    next: CodeSymbolWithStepsView,
)
    ensures
        planned_names(ordered.push(next)) == if planned_names(ordered).contains(next.code_symbol) {
            planned_names(ordered)
        } else {
            planned_names(ordered).push(next.code_symbol)
        },
{
    let names = ordered.map_values(code_symbol());
    lemma_distinct(names);
    names.lemma_remove_duplicates_append(next.code_symbol, seq![]);
    assert(names + seq![] =~= names);
    assert(ordered.push(next).map_values(code_symbol()) =~= names + seq![next.code_symbol]);
    assert(planned_names(ordered) + seq![next.code_symbol] =~= planned_names(ordered).push(
        next.code_symbol,
    ));
}

/// Which names are ordered as new once one more symbol is ordered.
proof fn lemma_ordered_new_push(
    ordered: Seq<CodeSymbolWithStepsView>,
    next: CodeSymbolWithStepsView,
    name: Seq<char>,
)
    ensures
        ordered_new(ordered.push(next), name) == (ordered_new(ordered, name) || (next.is_new
            && next.code_symbol == name)),
{
    let more = ordered.push(next);
    if ordered_new(ordered, name) {
        let i = choose|i: int|
            0 <= i < ordered.len() && #[trigger] ordered[i].code_symbol == name
                && ordered[i].is_new;
        assert(more[i].code_symbol == name);
    }
    if next.is_new && next.code_symbol == name {
        assert(more[ordered.len() as int].code_symbol == name);
    }
    if ordered_new(more, name) {
        let i = choose|i: int|
            0 <= i < more.len() && #[trigger] more[i].code_symbol == name && more[i].is_new;
        if i < ordered.len() {
            assert(ordered[i].code_symbol == name);
        }
    }
}

/// The plan once one more symbol is ordered, with no thoughts yet.
proof fn lemma_plan_push_ordered(
    ordered: Seq<CodeSymbolWithStepsView>,
    next: CodeSymbolWithStepsView,
    entry: MechaCodeSymbolThinkingView,
)
    requires
        entry == (MechaCodeSymbolThinkingView {
            symbol_name: next.code_symbol,
            steps: next.steps,
            is_new: next.is_new,
            file_path: next.file_path,
            snippet: None,
            implementations: seq![],
        }),
    ensures
        forall|k: int|
            0 <= k < planned(ordered, seq![]).len() && #[trigger] planned(
                ordered,
                seq![],
            )[k].symbol_name == next.code_symbol ==> planned(ordered.push(next), seq![])
                == planned(ordered, seq![]).update(k, entry),
        (forall|k: int|
            0 <= k < planned(ordered, seq![]).len() ==> #[trigger] planned(
                ordered,
                seq![],
            )[k].symbol_name != next.code_symbol) ==> planned(ordered.push(next), seq![])
            == planned(ordered, seq![]).push(entry),
{
    let more = ordered.push(next);
    let none = Seq::<CodeSymbolWithThinkingView>::empty();
    let before = planned(ordered, none);
    let after = planned(more, none);
    let names = planned_names(ordered);
    lemma_planned_names_push(ordered, next);
    lemma_distinct(ordered.map_values(code_symbol()));
    assert forall|name: Seq<char>| name != next.code_symbol implies #[trigger] planned_entry(
        more,
        none,
        name,
    ) == planned_entry(ordered, none, name) by {
        lemma_filter_push(ordered, next, orders(name));
        assert(none.filter(thinks_of(name)) =~= none) by {
            reveal(Seq::filter);
        }
        assert(further_steps(ordered, none, name) =~= seq![]);
        assert(further_steps(more, none, name) =~= seq![]);
    }
    assert(planned_entry(more, none, next.code_symbol) == entry) by {
        let name = next.code_symbol;
        lemma_filter_push(ordered, next, orders(name));
        assert(none.filter(thinks_of(name)) =~= none) by {
            reveal(Seq::filter);
        }
        assert(further_steps(more, none, name) =~= seq![]);
        assert(next.steps + seq![] =~= next.steps);
    }
    assert forall|k: int|
        0 <= k < before.len() && #[trigger] before[k].symbol_name
            == next.code_symbol implies after == before.update(k, entry) by {
        assert(names[k] == next.code_symbol);
        assert(names.contains(next.code_symbol));
        assert(after =~= before.update(k, entry));
    }
    if forall|k: int|
        0 <= k < before.len() ==> #[trigger] before[k].symbol_name != next.code_symbol {
        if names.contains(next.code_symbol) {
            let k = choose|k: int| 0 <= k < names.len() && names[k] == next.code_symbol;
            assert(before[k].symbol_name == next.code_symbol);
        }
        assert forall|k: int| 0 <= k < names.len() implies names[k] != next.code_symbol by {
            assert(before[k].symbol_name == names[k]);
        }
        assert(after =~= before.push(entry));
    }
}

/// The plan once one more thought is had.
proof fn lemma_plan_push_symbol(
    ordered: Seq<CodeSymbolWithStepsView>,
    symbols: Seq<CodeSymbolWithThinkingView>,
    next: CodeSymbolWithThinkingView,
)
    ensures
        ordered_new(ordered, next.code_symbol) ==> planned(ordered, symbols.push(next)) == planned(
            ordered,
            symbols,
        ),
        (forall|k: int|
            0 <= k < planned(ordered, symbols).len() ==> #[trigger] planned(
                ordered,
                symbols,
            )[k].symbol_name != next.code_symbol) ==> planned(ordered, symbols.push(next))
            == planned(ordered, symbols),
        !ordered_new(ordered, next.code_symbol) ==> forall|k: int|
            0 <= k < planned(ordered, symbols).len() && #[trigger] planned(
                ordered,
                symbols,
            )[k].symbol_name == next.code_symbol ==> planned(ordered, symbols.push(next))
                == planned(ordered, symbols).update(
                k,
                MechaCodeSymbolThinkingView {
                    steps: planned(ordered, symbols)[k].steps.push(next.thinking),
                    ..planned(ordered, symbols)[k]
                },
            ),
{
    let more = symbols.push(next);
    let before = planned(ordered, symbols);
    let after = planned(ordered, more);
    let names = planned_names(ordered);
    lemma_distinct(ordered.map_values(code_symbol()));
    assert forall|name: Seq<char>|
        name != next.code_symbol || ordered_new(ordered, name) implies #[trigger] planned_entry(
        ordered,
        more,
        name,
    ) == planned_entry(ordered, symbols, name) by {
        lemma_filter_push(symbols, next, thinks_of(name));
    }
    if ordered_new(ordered, next.code_symbol) {
        assert(after =~= before);
    }
    if forall|k: int|
        0 <= k < before.len() ==> #[trigger] before[k].symbol_name != next.code_symbol {
        assert forall|k: int| 0 <= k < before.len() implies after[k] == before[k] by {
            assert(before[k].symbol_name == names[k]);
        }
        assert(after =~= before);
    }
    if !ordered_new(ordered, next.code_symbol) {
        assert forall|k: int|
            0 <= k < before.len() && #[trigger] before[k].symbol_name
                == next.code_symbol implies after == before.update(
            k,
            MechaCodeSymbolThinkingView {
                steps: before[k].steps.push(next.thinking),
                ..before[k]
            },
        ) by {
            let name = next.code_symbol;
            assert(names[k] == name);
            lemma_filter_push(symbols, next, thinks_of(name));
            assert(further_steps(ordered, more, name) =~= further_steps(
                ordered,
                symbols,
                name,
            ).push(next.thinking));
            assert(after[k].steps =~= before[k].steps.push(next.thinking));
            assert(after =~= before.update(
                k,
                MechaCodeSymbolThinkingView {
                    steps: before[k].steps.push(next.thinking),
                    ..before[k]
                },
            ));
        }
    }
}

/// Where the entry for a name stands in a plan.
fn find_entry(entries: &Vec<MechaCodeSymbolThinking>, name: &String) -> (found: Option<usize>)
    ensures
        match found {
            Some(k) => k < entries@.len() && views(entries@)[k as int].symbol_name == name@,
            None => forall|k: int|
                0 <= k < entries@.len() ==> #[trigger] views(entries@)[k].symbol_name != name@,
        },
{
    for k in 0..entries.len()
        invariant
            forall|j: int| 0 <= j < k ==> #[trigger] views(entries@)[j].symbol_name != name@,
    {
        if *entries[k].symbol_name() == *name {
            return Some(k);
        }
    }
    None
}

/// The plan for a list of important symbols.
pub fn plan_symbols(response: &CodeSymbolImportantResponse) -> (entries: Vec<
    MechaCodeSymbolThinking,
>)
    ensures
        views(entries@) == plan(response@),
{
    let ordered_symbols: &Vec<CodeSymbolWithSteps> = &response.ordered_symbols;
    let symbols: &Vec<CodeSymbolWithThinking> = &response.symbols;
    let ghost ordered = views(ordered_symbols@);
    let ghost thoughts = views(symbols@);
    let ghost none = Seq::<CodeSymbolWithThinkingView>::empty();
    // there can be overlaps between the two lists
    let mut new_symbols: Vec<String> = Vec::new();
    let mut entries: Vec<MechaCodeSymbolThinking> = Vec::new();
    assert(ordered.take(0).map_values(code_symbol()) =~= seq![]);
    assert(views(entries@) =~= planned(ordered.take(0), none));
    for i in 0..ordered_symbols.len()
        invariant
            ordered == views(ordered_symbols@),
            none == Seq::<CodeSymbolWithThinkingView>::empty(),
            views(entries@) == planned(ordered.take(i as int), none),
            forall|name: Seq<char>|
                #[trigger] views(new_symbols@).contains(name) <==> ordered_new(
                    ordered.take(i as int),
                    name,
                ),
    {
        let ghost before = entries@;
        let ghost new_before = new_symbols@;
        let ordered_symbol: &CodeSymbolWithSteps = &ordered_symbols[i];
        let ghost next = ordered[i as int];
        assert(next == ordered_symbol@);
        assert(ordered.take(i + 1) =~= ordered.take(i as int).push(next));
        if ordered_symbol.is_new {
            new_symbols.push(ordered_symbol.code_symbol.clone());
            assert(views(new_symbols@) =~= views(new_before).push(next.code_symbol));
        }
        assert forall|name: Seq<char>| #[trigger]
            views(new_symbols@).contains(name) <==> ordered_new(ordered.take(i + 1), name) by {
            lemma_ordered_new_push(ordered.take(i as int), next, name);
            assert(views(new_before).contains(name) <==> ordered_new(ordered.take(i as int), name));
            if next.is_new {
                lemma_push_contains(views(new_before), next.code_symbol, name);
            }
        }
        let implementations: Vec<Snippet> = Vec::new();
        assert(views(implementations@) =~= Seq::<SnippetView>::empty());
        let entry: MechaCodeSymbolThinking = MechaCodeSymbolThinking::new(
            ordered_symbol.code_symbol.clone(),
            copy_strings(&ordered_symbol.steps),
            ordered_symbol.is_new,
            ordered_symbol.file_path.clone(),
            None,
            implementations,
        );
        proof {
            lemma_plan_push_ordered(ordered.take(i as int), next, entry@);
        }
        match find_entry(&entries, &ordered_symbol.code_symbol) {
            Some(k) => {
                entries[k] = entry;
                assert(views(entries@) =~= views(before).update(k as int, entry@));
            },
            None => {
                entries.push(entry);
                assert(views(entries@) =~= views(before).push(entry@));
            },
        }
    }
    assert(ordered.take(ordered_symbols@.len() as int) =~= ordered);
    assert(thoughts.take(0) =~= none);
    for j in 0..symbols.len()
        invariant
            ordered == views(ordered_symbols@),
            thoughts == views(symbols@),
            views(entries@) == planned(ordered, thoughts.take(j as int)),
            forall|name: Seq<char>|
                #[trigger] views(new_symbols@).contains(name) <==> ordered_new(ordered, name),
    {
        let ghost before = entries@;
        let symbol: &CodeSymbolWithThinking = &symbols[j];
        let ghost next = thoughts[j as int];
        proof {
            assert(next == symbol@);
            assert(thoughts.take(j + 1) =~= thoughts.take(j as int).push(next));
            lemma_plan_push_symbol(ordered, thoughts.take(j as int), next);
        }
        if !contains_string(&new_symbols, &symbol.code_symbol) {
            match find_entry(&entries, &symbol.code_symbol) {
                Some(k) => {
                    entries[k].add_step(symbol.thinking.as_str());
                    assert(views(entries@) =~= views(before).update(
                        k as int,
                        MechaCodeSymbolThinkingView {
                            steps: views(before)[k as int].steps.push(next.thinking),
                            ..views(before)[k as int]
                        },
                    ));
                },
                None => {},
            }
        }
    }
    assert(thoughts.take(symbols@.len() as int) =~= thoughts);
    entries
}

proof fn lemma_push_contains<A>(items: Seq<A>, last: A, item: A)
    ensures
        items.push(last).contains(item) <==> items.contains(item) || item == last,
{
    if items.contains(item) {
        let k = choose|k: int| 0 <= k < items.len() && items[k] == item;
        assert(items.push(last)[k] == item);
    }
    assert(items.push(last)[items.len() as int] == last);
    if items.push(last).contains(item) {
        let k = choose|k: int| 0 <= k < items.push(last).len() && items.push(last)[k] == item;
        if k < items.len() {
            assert(items[k] == item);
        }
    }
}

} // verus!
