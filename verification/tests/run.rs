use sidecar::errors::{SymbolError, ToolError};
use sidecar::identifier::{MechaCodeSymbolThinking, Snippet};
use sidecar::important::{
    CodeSymbolImportantRequest, CodeSymbolImportantResponse, CodeSymbolWithSteps,
};
use sidecar::lsp::{
    DefinitionPathAndRange, FindInFileResponse, GoToDefinitionResponse, OpenFileResponse,
};
use sidecar::manager::SymbolManager;
use sidecar::outline::{OutlineNode, OutlineNodeContent, Position, Range};
use sidecar::run::{
    ImportantSymbolsRun, InitialRequestRun, SymbolAction, SymbolEvent, SymbolInputEvent, SymbolStep,
};
use sidecar::tool::{ToolInput, ToolOutput};
use std::sync::Arc;

type Manager = SymbolManager<&'static str, &'static str>;

fn manager() -> Manager {
    SymbolManager::new(Arc::new("tools"), Arc::new("outlines"), "http://editor".to_string())
}

fn position(line: usize) -> Position {
    Position { line, character: 4, byte_offset: line * 20 }
}

fn range(line: usize) -> Range {
    Range { start_position: position(line), end_position: position(line + 3) }
}

fn node(name: &str, line: usize, path: &str) -> OutlineNode {
    let content = OutlineNodeContent::new(name.to_string(), range(line), path.to_string());
    OutlineNode::new(false, content, vec![])
}

fn response(names: &[&str]) -> CodeSymbolImportantResponse {
    let ordered_symbols = names
        .iter()
        .map(|name| CodeSymbolWithSteps {
            code_symbol: name.to_string(),
            steps: vec!["change it".to_string()],
            is_new: false,
            file_path: format!("/repo/{}.rs", name),
        })
        .collect();
    CodeSymbolImportantResponse { symbols: vec![], ordered_symbols }
}

fn symbol(name: &str, snippet: Option<Snippet>) -> MechaCodeSymbolThinking {
    MechaCodeSymbolThinking::new(
        name.to_string(),
        vec!["change it".to_string()],
        false,
        format!("/repo/{}.rs", name),
        snippet,
        vec![],
    )
}

fn file(path: &str) -> SymbolEvent {
    SymbolEvent::ToolReply(Ok(ToolOutput::FileOpen(OpenFileResponse {
        fs_file_path: path.to_string(),
        file_contents: format!("text of {}", path),
        language: "rust".to_string(),
    })))
}

fn place(position: Option<Position>) -> SymbolEvent {
    SymbolEvent::ToolReply(Ok(ToolOutput::GrepSingleFile(FindInFileResponse { position })))
}

fn definitions(paths: &[&str]) -> SymbolEvent {
    let definitions = paths
        .iter()
        .map(|path| DefinitionPathAndRange { fs_file_path: path.to_string(), range: range(9) })
        .collect();
    SymbolEvent::ToolReply(Ok(ToolOutput::GoToDefinition(GoToDefinitionResponse { definitions })))
}

fn failure() -> SymbolEvent {
    SymbolEvent::ToolReply(Err(ToolError::Failed("gone".to_string())))
}

fn outline(nodes: Vec<OutlineNode>) -> SymbolEvent {
    SymbolEvent::SymbolsOutline(Some(nodes))
}

fn told(action: &SymbolAction) -> String {
    match action {
        SymbolAction::InvokeTool(ToolInput::OpenFile(request)) => {
            format!("open {} at {}", request.fs_file_path, request.editor_url)
        }
        SymbolAction::InvokeTool(ToolInput::GrepSingleFile(request)) => {
            format!("find {} in {}", request.file_symbol, request.file_contents)
        }
        SymbolAction::InvokeTool(ToolInput::GoToDefinition(request)) => format!(
            "define {}:{} at {}",
            request.fs_file_path, request.position.line, request.editor_url
        ),
        SymbolAction::InvokeTool(ToolInput::RequestImportantSymbols(request)) => {
            format!("symbols for {}", request.query)
        }
        SymbolAction::InvokeTool(_) => "another tool".to_string(),
        SymbolAction::AddDocument { fs_file_path, contents, language } => {
            format!("add {} ({}): {}", fs_file_path, language, contents)
        }
        SymbolAction::GetSymbolsOutline { fs_file_path } => format!("outline {}", fs_file_path),
    }
}

type Outcome = Result<Vec<MechaCodeSymbolThinking>, SymbolError>;

fn play(
    mut step: SymbolStep<ImportantSymbolsRun>,
    events: Vec<SymbolEvent>,
) -> (Vec<String>, Option<Outcome>) {
    let manager = manager();
    let mut actions: Vec<String> = vec![];
    for event in events {
        step = match step {
            SymbolStep::Ask { run, action } => {
                actions.push(told(&action));
                assert!(run.is_due(&event));
                run.step(&manager, event)
            }
            SymbolStep::Done(_) => panic!("the run is over"),
        };
    }
    match step {
        SymbolStep::Ask { action, .. } => {
            actions.push(told(&action));
            (actions, None)
        }
        SymbolStep::Done(outcome) => (actions, Some(outcome)),
    }
}

fn over(names: &[&str], events: Vec<SymbolEvent>) -> (Vec<String>, Option<Outcome>) {
    play(manager().important_symbols(response(names)), events)
}

#[test]
fn no_symbols_need_no_run() {
    assert_eq!(over(&[], vec![]), (vec![], Some(Ok(vec![]))));
}

#[test]
fn a_symbol_is_placed_by_the_outline_of_its_file() {
    let (actions, outcome) = over(
        &["A"],
        vec![
            file("/repo/A.rs"),
            SymbolEvent::DocumentAdded,
            outline(vec![node("B", 1, "x"), node("A", 2, "/elsewhere.rs"), node("A", 3, "y")]),
        ],
    );
    assert_eq!(
        actions,
        vec![
            "open /repo/A.rs at http://editor",
            "add /repo/A.rs (rust): text of /repo/A.rs",
            "outline /repo/A.rs",
        ]
    );
    let snippet = Snippet::new("A".to_string(), range(2), "/elsewhere.rs".to_string());
    assert_eq!(outcome, Some(Ok(vec![symbol("A", Some(snippet))])));
}

#[test]
fn a_file_without_an_outline_gives_no_snippet() {
    let (_, outcome) = over(
        &["A"],
        vec![
            file("/repo/A.rs"),
            SymbolEvent::DocumentAdded,
            SymbolEvent::SymbolsOutline(None),
        ],
    );
    assert_eq!(outcome, Some(Ok(vec![symbol("A", None)])));
}

#[test]
fn a_symbol_is_placed_by_its_definition() {
    let (actions, outcome) = over(
        &["A"],
        vec![
            file("/repo/A.rs"),
            SymbolEvent::DocumentAdded,
            outline(vec![]),
            file("/repo/A.rs"),
            place(Some(position(5))),
            definitions(&["/lib/a.rs", "/lib/b.rs"]),
            file("/lib/a.rs"),
            outline(vec![node("A", 11, "/ignored.rs")]),
        ],
    );
    assert_eq!(
        actions[3..],
        vec![
            "open /repo/A.rs at http://editor",
            "find A in text of /repo/A.rs",
            "define /repo/A.rs:5 at http://editor",
            "open /lib/a.rs at http://editor",
            "outline /lib/a.rs",
        ]
    );
    let snippet = Snippet::new("A".to_string(), range(11), "/lib/a.rs".to_string());
    assert_eq!(outcome, Some(Ok(vec![symbol("A", Some(snippet))])));
}

fn searching(reply: SymbolEvent) -> Vec<SymbolEvent> {
    vec![
        file("/repo/A.rs"),
        SymbolEvent::DocumentAdded,
        outline(vec![node("B", 1, "x")]),
        file("/repo/A.rs"),
        reply,
    ]
}

#[test]
fn a_symbol_that_is_not_found_goes_without_a_snippet() {
    assert_eq!(over(&["A"], searching(place(None))).1, Some(Ok(vec![symbol("A", None)])));
}

#[test]
fn a_failed_search_counts_as_absence() {
    assert_eq!(over(&["A"], searching(failure())).1, Some(Ok(vec![symbol("A", None)])));
    assert_eq!(over(&["A"], searching(file("x"))).1, Some(Ok(vec![symbol("A", None)])));
}

#[test]
fn the_run_goes_on_with_the_next_symbol() {
    let (actions, outcome) = over(
        &["A", "B"],
        vec![
            file("/repo/A.rs"),
            SymbolEvent::DocumentAdded,
            SymbolEvent::SymbolsOutline(None),
            file("/repo/B.rs"),
            SymbolEvent::DocumentAdded,
            outline(vec![node("B", 4, "/repo/B.rs")]),
        ],
    );
    assert_eq!(actions[3], "open /repo/B.rs at http://editor");
    let snippet = Snippet::new("B".to_string(), range(4), "/repo/B.rs".to_string());
    assert_eq!(outcome, Some(Ok(vec![symbol("A", None), symbol("B", Some(snippet))])));
}

#[test]
fn a_file_that_cannot_be_opened_ends_the_run() {
    let error = SymbolError::ToolError(ToolError::Failed("gone".to_string()));
    assert_eq!(over(&["A", "B"], vec![failure()]).1, Some(Err(error)));
}

#[test]
fn a_reply_of_another_kind_ends_the_run() {
    assert_eq!(over(&["A"], vec![place(None)]).1, Some(Err(SymbolError::WrongToolOutput)));
}

#[test]
fn each_later_failure_ends_the_run() {
    let gone = SymbolError::ToolError(ToolError::Failed("gone".to_string()));
    let mut reopening = searching(failure());
    reopening.remove(3);
    assert_eq!(over(&["A"], reopening).1, Some(Err(gone.clone())));
    let mut defining = searching(place(Some(position(5))));
    defining.push(failure());
    assert_eq!(over(&["A"], defining).1, Some(Err(gone.clone())));
    let mut opening = searching(place(Some(position(5))));
    opening.push(definitions(&["/lib/a.rs"]));
    opening.push(failure());
    assert_eq!(over(&["A"], opening).1, Some(Err(gone)));
}

#[test]
fn a_definition_without_the_symbol_is_an_error() {
    let missing = SymbolError::ToolError(ToolError::SymbolNotFound("A".to_string()));
    for last in vec![SymbolEvent::SymbolsOutline(None), outline(vec![node("B", 1, "x")])] {
        let mut events = searching(place(Some(position(5))));
        events.push(definitions(&["/lib/a.rs"]));
        events.push(file("/lib/a.rs"));
        events.push(last);
        assert_eq!(over(&["A"], events).1, Some(Err(missing.clone())));
    }
}

#[test]
fn an_event_that_is_not_due_is_told_apart() {
    let manager = manager();
    match manager.important_symbols(response(&["A"])) {
        SymbolStep::Ask { run, .. } => {
            assert!(!run.is_due(&SymbolEvent::DocumentAdded));
            assert!(!run.is_due(&outline(vec![])));
            assert!(run.is_due(&failure()));
        }
        SymbolStep::Done(_) => panic!("there is a symbol to resolve"),
    }
    let mut step = manager.important_symbols(response(&["A"]));
    for event in searching(place(Some(position(5)))) {
        step = match step {
            SymbolStep::Ask { run, .. } => run.step(&manager, event),
            SymbolStep::Done(_) => panic!("the run is over"),
        };
    }
    match step {
        SymbolStep::Ask { run, .. } => {
            assert!(!run.is_due(&definitions(&[])));
            assert!(run.is_due(&definitions(&["/lib/a.rs"])));
            assert!(run.is_due(&failure()));
        }
        SymbolStep::Done(_) => panic!("a definition is due"),
    }
}

fn begin(input: Option<ToolInput>) -> SymbolStep<InitialRequestRun> {
    manager().initial_request(SymbolInputEvent::new(input))
}

fn query() -> Option<ToolInput> {
    let query = "add a shelf".to_string();
    Some(ToolInput::RequestImportantSymbols(CodeSymbolImportantRequest { query }))
}

fn play_initially(events: Vec<SymbolEvent>) -> (Vec<String>, Option<Outcome>) {
    let manager = manager();
    let mut step = begin(query());
    let mut actions: Vec<String> = vec![];
    for event in events {
        step = match step {
            SymbolStep::Ask { run, action } => {
                actions.push(told(&action));
                assert!(run.is_due(&event));
                run.step(&manager, event)
            }
            SymbolStep::Done(_) => panic!("the request is over"),
        };
    }
    match step {
        SymbolStep::Ask { .. } => (actions, None),
        SymbolStep::Done(outcome) => (actions, Some(outcome)),
    }
}

#[test]
fn a_request_without_a_tool_is_over_at_once() {
    match begin(None) {
        SymbolStep::Done(outcome) => assert_eq!(outcome, Ok(vec![])),
        SymbolStep::Ask { .. } => panic!("there is nothing to ask"),
    }
}

#[test]
fn an_initial_request_resolves_the_important_symbols() {
    let symbols = ToolOutput::ImportantSymbols(response(&["A"]));
    let (actions, outcome) = play_initially(vec![
        SymbolEvent::ToolReply(Ok(symbols)),
        file("/repo/A.rs"),
        SymbolEvent::DocumentAdded,
        outline(vec![node("A", 2, "/repo/A.rs")]),
    ]);
    assert_eq!(actions[0], "symbols for add a shelf");
    assert_eq!(actions[1], "open /repo/A.rs at http://editor");
    let snippet = Snippet::new("A".to_string(), range(2), "/repo/A.rs".to_string());
    assert_eq!(outcome, Some(Ok(vec![symbol("A", Some(snippet))])));
}

#[test]
fn another_output_yields_no_symbols() {
    assert_eq!(play_initially(vec![file("/repo/A.rs")]).1, Some(Ok(vec![])));
}

#[test]
fn a_failing_tool_fails_the_request() {
    let error = SymbolError::ToolError(ToolError::Failed("gone".to_string()));
    assert_eq!(play_initially(vec![failure()]).1, Some(Err(error)));
}

#[test]
fn the_manager_carries_its_brokers() {
    assert_eq!(**manager().tools(), "tools");
    assert_eq!(**manager().symbol_broker(), "outlines");
}
