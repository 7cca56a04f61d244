use sidecar::identifier::MechaCodeSymbolThinking;
use sidecar::important::{
    CodeSymbolImportantResponse, CodeSymbolWithSteps, CodeSymbolWithThinking,
};
use sidecar::plan::plan_symbols;

fn ordered(name: &str, steps: &[&str], is_new: bool, file_path: &str) -> CodeSymbolWithSteps {
    CodeSymbolWithSteps {
        code_symbol: name.to_string(),
        steps: strings(steps),
        is_new,
        file_path: file_path.to_string(),
    }
}

fn thought(name: &str, thinking: &str) -> CodeSymbolWithThinking {
    CodeSymbolWithThinking { code_symbol: name.to_string(), thinking: thinking.to_string() }
}

fn strings(items: &[&str]) -> Vec<String> {
    items.iter().map(|item| item.to_string()).collect()
}

fn entry(name: &str, steps: &[&str], is_new: bool, file_path: &str) -> MechaCodeSymbolThinking {
    MechaCodeSymbolThinking::new(
        name.to_string(),
        strings(steps),
        is_new,
        file_path.to_string(),
        None,
        vec![],
    )
}

fn planned(
    ordered_symbols: Vec<CodeSymbolWithSteps>,
    symbols: Vec<CodeSymbolWithThinking>,
) -> Vec<MechaCodeSymbolThinking> {
    plan_symbols(&CodeSymbolImportantResponse { symbols, ordered_symbols })
}

#[test]
fn an_empty_answer_makes_an_empty_plan() {
    assert_eq!(planned(vec![], vec![]), vec![]);
}

#[test]
fn each_ordered_symbol_is_planned_once() {
    let plan = planned(
        vec![
            ordered("A", &["one"], false, "a.rs"),
            ordered("B", &["two"], true, "b.rs"),
            ordered("A", &["three"], false, "a2.rs"),
        ],
        vec![],
    );
    assert_eq!(
        plan,
        vec![entry("A", &["three"], false, "a2.rs"), entry("B", &["two"], true, "b.rs")]
    );
}

#[test]
fn thoughts_become_further_steps() {
    let plan = planned(
        vec![ordered("A", &["one"], false, "a.rs")],
        vec![thought("A", "look"), thought("B", "ignored"), thought("A", "again")],
    );
    assert_eq!(plan, vec![entry("A", &["one", "look", "again"], false, "a.rs")]);
}

#[test]
fn thoughts_add_nothing_to_a_new_symbol() {
    let plan = planned(vec![ordered("A", &["one"], true, "a.rs")], vec![thought("A", "look")]);
    assert_eq!(plan, vec![entry("A", &["one"], true, "a.rs")]);
}

#[test]
fn a_symbol_once_ordered_as_new_takes_no_thoughts() {
    let plan = planned(
        vec![ordered("A", &["one"], true, "a.rs"), ordered("A", &["two"], false, "b.rs")],
        vec![thought("A", "look")],
    );
    assert_eq!(plan, vec![entry("A", &["two"], false, "b.rs")]);
}

#[test]
fn what_is_merely_thought_of_is_not_planned() {
    assert_eq!(planned(vec![], vec![thought("A", "look")]), vec![]);
}
