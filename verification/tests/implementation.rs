use sidecar::errors::{SymbolError, ToolError};
use sidecar::identifier::Snippet;
use sidecar::implementation::GoToImplementationStep;
use sidecar::lsp::{
    DefinitionPathAndRange, FindInFileResponse, GoToImplementationResponse, OpenFileResponse,
};
use sidecar::manager::SymbolManager;
use sidecar::outline::{Position, Range};
use sidecar::tool::{ToolInput, ToolOutput};
use std::sync::Arc;

type Reply = Result<ToolOutput, ToolError>;

fn spot() -> Position {
    Position { line: 7, character: 3, byte_offset: 90 }
}

fn file() -> Reply {
    Ok(ToolOutput::FileOpen(OpenFileResponse {
        fs_file_path: "/repo/a.rs".to_string(),
        file_contents: "trait Shelf {}".to_string(),
        language: "rust".to_string(),
    }))
}

fn place(position: Option<Position>) -> Reply {
    Ok(ToolOutput::GrepSingleFile(FindInFileResponse { position }))
}

fn locations() -> GoToImplementationResponse {
    let range = Range { start_position: spot(), end_position: spot() };
    let location = DefinitionPathAndRange { fs_file_path: "/repo/b.rs".to_string(), range };
    GoToImplementationResponse { implementation_locations: vec![location] }
}

fn play(replies: Vec<Reply>) -> Option<Result<GoToImplementationResponse, SymbolError>> {
    let manager = SymbolManager::new(Arc::new(()), Arc::new(()), "http://editor".to_string());
    let range = Range { start_position: spot(), end_position: spot() };
    let snippet = Snippet::new("Shelf".to_string(), range, "/repo/a.rs".to_string());
    let mut step = manager.go_to_implementation(&snippet, "Shelf");
    for (i, reply) in replies.into_iter().enumerate() {
        step = match step {
            GoToImplementationStep::Ask { run, tool_input } => {
                match (i, tool_input) {
                    (0, ToolInput::OpenFile(request)) => {
                        assert_eq!(request.fs_file_path, "/repo/a.rs");
                        assert_eq!(request.editor_url, "http://editor");
                    }
                    (1, ToolInput::GrepSingleFile(request)) => {
                        assert_eq!(request.file_contents, "trait Shelf {}");
                        assert_eq!(request.file_symbol, "Shelf");
                    }
                    (2, ToolInput::SymbolImplementations(request)) => {
                        assert_eq!(request.fs_file_path, "/repo/a.rs");
                        assert_eq!(request.editor_url, "http://editor");
                        assert_eq!(request.position, spot());
                    }
                    _ => panic!("an unexpected question"),
                }
                run.step(&manager, reply)
            }
            GoToImplementationStep::Done(_) => panic!("the way is over"),
        };
    }
    match step {
        GoToImplementationStep::Ask { .. } => None,
        GoToImplementationStep::Done(outcome) => Some(outcome),
    }
}

#[test]
fn three_answers_lead_to_the_implementations() {
    let last = Ok(ToolOutput::GoToImplementation(locations()));
    assert_eq!(play(vec![file(), place(Some(spot())), last]), Some(Ok(locations())));
}

#[test]
fn a_symbol_that_is_not_in_its_file_is_not_found() {
    let missing = SymbolError::ToolError(ToolError::SymbolNotFound("Shelf".to_string()));
    assert_eq!(play(vec![file(), place(None)]), Some(Err(missing)));
}

#[test]
fn a_failure_on_the_way_is_passed_on() {
    let failed = SymbolError::ToolError(ToolError::RetriesExhausted);
    let failure: Reply = Err(ToolError::RetriesExhausted);
    assert_eq!(play(vec![failure.clone()]), Some(Err(failed.clone())));
    assert_eq!(play(vec![file(), failure.clone()]), Some(Err(failed.clone())));
    assert_eq!(play(vec![file(), place(Some(spot())), failure]), Some(Err(failed)));
}

#[test]
fn a_reply_of_another_kind_is_wrong() {
    let wrong = SymbolError::WrongToolOutput;
    assert_eq!(play(vec![place(None)]), Some(Err(wrong.clone())));
    assert_eq!(play(vec![file(), file()]), Some(Err(wrong.clone())));
    assert_eq!(play(vec![file(), place(Some(spot())), file()]), Some(Err(wrong)));
}
