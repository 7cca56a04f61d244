use sidecar::chat::{
    ReplyStream, SessionChatClient, SessionChatClientRequest, SessionChatMessage, SessionChatRole,
};
use sidecar::context::{DiffRecentChanges, RepoRef, UserContext};
use sidecar::errors::ToolError;
use sidecar::llm::{LLMClientMessage, LLMProvider, LLMProviderAPIKeys, LLMType};
use sidecar::lsp::OpenFileRequest;
use sidecar::prompt::{system_prompt, tell_labels};
use sidecar::text::join_strings;
use sidecar::tool::{ToolInput, ToolOutput};
use sidecar::ui_event::UIEventWithID;
use std::path::PathBuf;
use std::sync::Arc;
use tokio::sync::mpsc::{unbounded_channel, UnboundedReceiver};
use tokio_util::sync::CancellationToken;

fn strings(items: &[&str]) -> Vec<String> {
    items.iter().map(|item| item.to_string()).collect()
}

fn expected_prompt(project_labels_str: &str, location: &str) -> String {
    let project_labels_context = format!(
        r#"- You are given the following project labels which are associated with the codebase:
{project_labels_str}
"#
    );
    format!(
        r#"You are an expert software engineer who is going to help the user with their questions.
Your job is to answer the user query which is a followup to the conversation we have had.

Provide only as much information and code as is necessary to answer the query, but be concise. Keep number of quoted lines to a minimum when possible.
When referring to code, you must provide an example in a code block.

{project_labels_context}

Respect these rules at all times:
- When asked for your name, you must respond with "Aide".
- Follow the user's requirements carefully & to the letter.
- Minimize any other prose.
- Unless directed otherwise, the user is expecting for you to edit their selected code.
- Link ALL paths AND code symbols (functions, methods, fields, classes, structs, types, variables, values, definitions, directories, etc) by embedding them in a markdown link, with the URL corresponding to the full path, and the anchor following the form `LX` or `LX-LY`, where X represents the starting line number, and Y represents the ending line number, if the reference is more than one line.
    - For example, to refer to lines 50 to 78 in a sentence, respond with something like: The compiler is initialized in [`src/foo.rs`]({location}src/foo.rs#L50-L78)
    - For example, to refer to the `new` function on a struct, respond with something like: The [`new`]({location}src/bar.rs#L26-53) function initializes the struct
    - For example, to refer to the `foo` field on a struct and link a single line, respond with something like: The [`foo`]({location}src/foo.rs#L138) field contains foos. Do not respond with something like [`foo`]({location}src/foo.rs#L138-L138)
    - For example, to refer to a folder `foo`, respond with something like: The files can be found in [`foo`]({location}path/to/foo/) folder
- Do not print out line numbers directly, only in a link
- Do not refer to more lines than necessary when creating a line range, be precise
- Do NOT output bare symbols. ALL symbols must include a link
    - E.g. Do not simply write `Bar`, write [`Bar`]({location}src/bar.rs#L100-L105).
    - E.g. Do not simply write "Foos are functions that create `Foo` values out of thin air." Instead, write: "Foos are functions that create [`Foo`]({location}src/foo.rs#L80-L120) values out of thin air."
- Link all fields
    - E.g. Do not simply write: "It has one main field: `foo`." Instead, write: "It has one main field: [`foo`]({location}src/foo.rs#L193)."
- Do NOT link external urls not present in the context, do NOT link urls from the internet
- Link all symbols, even when there are multiple in one sentence
    - E.g. Do not simply write: "Bars are [`Foo`]( that return a list filled with `Bar` variants." Instead, write: "Bars are functions that return a list filled with [`Bar`]({location}src/bar.rs#L38-L57) variants."
- Code blocks MUST be displayed to the user using markdown
- Code blocks MUST be displayed to the user using markdown and must NEVER include the line numbers
- If you are going to not edit sections of the code, leave "// rest of code .." as the placeholder string.
- Do NOT write the line number in the codeblock
    - E.g. Do not write:
    ```rust
    1. // rest of code ..
    2. // rest of code ..
    ```
    Here the codeblock has line numbers 1 and 2, do not write the line numbers in the codeblock"#
    )
}

fn request(
    local_path: Option<PathBuf>,
) -> (SessionChatClientRequest, UnboundedReceiver<UIEventWithID>, CancellationToken) {
    let (sender, receiver) = unbounded_channel();
    let token = CancellationToken::new();
    let request = SessionChatClientRequest::new(
        DiffRecentChanges::new(vec![LLMClientMessage::user("edits".to_string())]),
        UserContext::new(strings(&["/repo/a.rs"])),
        vec![
            SessionChatMessage::user("what is this?".to_string()),
            SessionChatMessage::assistant("a shelf".to_string()),
        ],
        RepoRef::new(local_path),
        strings(&["rust", "web", "rust"]),
        "session".to_string(),
        "exchange".to_string(),
        sender,
        token.clone(),
        "access".to_string(),
    );
    (request, receiver, token)
}

fn client() -> SessionChatClient<&'static str> {
    SessionChatClient::new(Arc::new("broker"))
}

fn conversation() -> Vec<LLMClientMessage> {
    vec![
        LLMClientMessage::user("<context/>".to_string()).cache_point(),
        LLMClientMessage::user("edits".to_string()),
        LLMClientMessage::user("what is this?".to_string()),
        LLMClientMessage::assistant("a shelf".to_string()),
    ]
}

#[test]
fn a_message_keeps_its_text_and_its_role() {
    let asked = SessionChatMessage::user("hi".to_string());
    assert_eq!(asked.message(), "hi");
    assert_eq!(*asked.role(), SessionChatRole::User);
    let answered = SessionChatMessage::assistant("hello".to_string());
    assert_eq!(answered.message(), "hello");
    assert_eq!(*answered.role(), SessionChatRole::Assistant);
}

#[test]
fn strings_are_joined_by_a_separator() {
    assert_eq!(join_strings(&strings(&[]), ","), "");
    assert_eq!(join_strings(&strings(&["a"]), ","), "a");
    assert_eq!(join_strings(&strings(&["a", "", "b"]), ", "), "a, , b");
}

#[test]
fn each_label_is_told_twice() {
    assert_eq!(tell_labels(&strings(&[])), strings(&[]));
    assert_eq!(
        tell_labels(&strings(&["rust", "web", "rust"])),
        strings(&["rust", "rust", "web", "web"])
    );
}

#[test]
fn the_prompt_is_the_template_filled_in() {
    assert_eq!(
        system_prompt(&strings(&["rust", "web", "rust"]), "/home/me/repo/"),
        expected_prompt("rust,rust,web,web", "/home/me/repo/")
    );
    assert_eq!(system_prompt(&strings(&[]), ""), expected_prompt("", ""));
}

#[test]
fn the_system_message_points_into_the_repository() {
    let (context, _receiver, _token) = request(Some(PathBuf::from("/home/me/repo/")));
    assert_eq!(
        client().system_message(&context),
        expected_prompt("rust,rust,web,web", "/home/me/repo/")
    );
}

#[test]
fn a_repository_elsewhere_has_no_location() {
    let (context, _receiver, _token) = request(None);
    assert_eq!(client().system_message(&context), expected_prompt("rust,rust,web,web", ""));
}

#[test]
fn the_user_message_opens_with_the_context() {
    let (context, _receiver, _token) = request(None);
    assert_eq!(context.user_context().file_paths(), &strings(&["/repo/a.rs"]));
    assert_eq!(client().user_message(context, Some("<context/>".to_string())), conversation());
}

#[test]
fn a_context_that_cannot_be_rendered_is_left_empty() {
    let (context, _receiver, _token) = request(None);
    let messages = client().user_message(context, None);
    assert_eq!(messages[0], LLMClientMessage::user("".to_string()).cache_point());
    assert_eq!(messages[1..], conversation()[1..]);
}

#[test]
fn a_request_is_prepared_for_the_model() {
    let (context, _receiver, _token) = request(None);
    let job = client().prepare(context, Some("<context/>".to_string()));
    let mut messages = vec![
        LLMClientMessage::system(expected_prompt("rust,rust,web,web", "")).cache_point(),
    ];
    messages.extend(conversation());
    assert_eq!(job.request.messages, messages);
    assert_eq!(job.request.llm, LLMType::ClaudeSonnet);
    assert_eq!(job.request.temperature_tenths, 2);
    assert_eq!(job.request.frequency_penalty_tenths, None);
    assert_eq!(job.llm_properties.llm, LLMType::ClaudeSonnet);
    assert_eq!(job.llm_properties.provider, LLMProvider::CodeStory);
    assert_eq!(
        job.llm_properties.api_key,
        LLMProviderAPIKeys::CodeStory { access_token: "access".to_string() }
    );
    assert_eq!(
        job.metadata,
        vec![
            ("event_type".to_string(), "session_chat".to_string()),
            ("root_id".to_string(), "session".to_string()),
        ]
    );
    let stream = ReplyStream::new("session".to_string(), "exchange".to_string());
    assert_eq!(job.stream, stream);
}

#[test]
fn the_job_reaches_the_same_channel_and_token() {
    let (context, mut receiver, token) = request(None);
    let job = client().prepare(context, None);
    assert!(!job.cancellation_token.is_cancelled());
    token.cancel();
    assert!(job.cancellation_token.is_cancelled());
    let event = UIEventWithID::chat_event(
        "session".to_string(),
        "exchange".to_string(),
        "so far".to_string(),
        None,
    );
    assert!(job.ui_sender.send(event.clone()).is_ok());
    assert_eq!(receiver.try_recv().ok(), Some(event));
}

#[test]
fn a_stream_tells_each_answer_and_keeps_the_last() {
    let mut stream = ReplyStream::new("session".to_string(), "exchange".to_string());
    let first = stream.advance("a".to_string(), Some("a".to_string()));
    assert_eq!(first.request_id(), "session");
    assert_eq!(first.exchange_id(), "exchange");
    assert_eq!(first.answer_up_until_now(), "a");
    assert_eq!(*first.delta(), Some("a".to_string()));
    let second = stream.advance("ab".to_string(), None);
    assert_eq!(second.answer_up_until_now(), "ab");
    assert_eq!(*second.delta(), None);
    assert_eq!(stream.into_answer(), "ab");
}

#[test]
fn a_stream_without_answers_is_empty() {
    assert_eq!(ReplyStream::new("s".to_string(), "e".to_string()).into_answer(), "");
}

#[test]
fn the_reply_is_what_was_streamed() {
    match client().finish(Some("a shelf".to_string())) {
        Ok(ToolOutput::ContextDrivenChatReply(response)) => {
            assert_eq!(response.reply(), "a shelf");
        }
        _ => panic!("a reply was streamed"),
    }
}

#[test]
fn a_broken_stream_exhausts_the_tool() {
    assert_eq!(client().finish(None), Err(ToolError::RetriesExhausted));
}

#[test]
fn only_a_chat_request_is_one() {
    let (context, _receiver, _token) = request(None);
    let input = ToolInput::ContextDrivenChatReply(context);
    match input.is_session_context_driven_chat_reply() {
        Ok(found) => assert_eq!(found.user_context().file_paths(), &strings(&["/repo/a.rs"])),
        Err(_) => panic!("it is a chat request"),
    }
    let other = ToolInput::OpenFile(OpenFileRequest {
        fs_file_path: "/repo/a.rs".to_string(),
        editor_url: "http://editor".to_string(),
    });
    match other.is_session_context_driven_chat_reply() {
        Ok(_) => panic!("it is no chat request"),
        Err(error) => assert_eq!(error, ToolError::WrongToolInput),
    }
}

#[test]
fn the_client_carries_its_broker() {
    assert_eq!(**client().llm_client(), "broker");
}
