//! Session chat: the conversation that is put before the model, and the reply
//! that is streamed back.
use crate::context::{location_text, DiffRecentChanges, RepoRef, UserContext};
use crate::errors::{ToolError, ToolErrorView};
use crate::llm::{
    cached_message, plain_message, LLMClientCompletionRequest, LLMClientCompletionRequestView,
    LLMClientMessage, LLMClientMessageView, LLMClientRole, LLMProperties, LLMPropertiesView,
    LLMProvider, LLMProviderAPIKeys, LLMType,
};
use crate::prompt::{system_prompt, system_text};
use crate::text::{option_view, result_view, views};
use crate::tool::{ToolOutput, ToolOutputView};
use crate::ui_event::{UIEventWithID, UIEventWithIDView};
use std::path::PathBuf;
use std::sync::Arc;
use tokio::sync::mpsc::UnboundedSender;
use tokio_util::sync::CancellationToken;
use vstd::prelude::*;

verus! {

/// The sending end of an unbounded channel, held by `tokio`.
#[verifier::external_type_specification]
#[verifier::external_body]
#[verifier::reject_recursive_types(T)]
pub struct ExUnboundedSender<T>(tokio::sync::mpsc::UnboundedSender<T>);

/// The handle by which a task is told to stop, held by `tokio_util`.
#[verifier::external_type_specification]
#[verifier::external_body]
pub struct ExCancellationToken(tokio_util::sync::CancellationToken);

/// `UnboundedSender::clone` of `tokio`: another handle to the same channel. Two
/// handles to one channel are not told apart.
pub assume_specification<T>[ <UnboundedSender<T> as Clone>::clone ](
    sender: &UnboundedSender<T>,
) -> (copied: UnboundedSender<T>)
    ensures
        copied == *sender,
;

/// `CancellationToken::clone` of `tokio_util`: another handle that is cancelled
/// whenever this one is, and the other way round. Two such handles are not told
/// apart.
pub assume_specification[ <CancellationToken as Clone>::clone ](token: &CancellationToken) -> (copied:
    CancellationToken)
    ensures
        copied == *token,
;

/// Who wrote a message of a session.
#[derive(Debug, Clone, Copy, PartialEq, Eq)]
pub enum SessionChatRole {
    User,
    Assistant,
}

/// A message of a session.
#[derive(Debug, Clone, PartialEq, Eq)]
pub struct SessionChatMessage {
    message: String,
    role: SessionChatRole,
}

pub struct SessionChatMessageView {
    pub message: Seq<char>,
    pub role: SessionChatRole,
}

impl View for SessionChatMessage {
    type V = SessionChatMessageView;

    closed spec fn view(&self) -> SessionChatMessageView {
        SessionChatMessageView { message: self.message@, role: self.role }
    }
}

impl SessionChatMessage {
    pub fn assistant(message: String) -> (created: Self)
        ensures
            created@ == (SessionChatMessageView {
                message: message@,
                role: SessionChatRole::Assistant,
            }),
    {
        Self { message, role: SessionChatRole::Assistant }
    }

    pub fn message(&self) -> (message: &str)
        ensures
            message@ == self@.message,
    {
        self.message.as_str()
    }

    pub fn user(message: String) -> (created: Self)
        ensures
            created@ == (SessionChatMessageView { message: message@, role: SessionChatRole::User }),
    {
        Self { message, role: SessionChatRole::User }
    }

    pub fn role(&self) -> (role: &SessionChatRole)
        ensures
            *role == self@.role,
    {
        &self.role
    }
}

/// A request for the next reply in a session.
#[derive(Debug, Clone)]
pub struct SessionChatClientRequest {
    diff_recent_edits: DiffRecentChanges,
    user_context: UserContext,
    previous_messages: Vec<SessionChatMessage>,
    repo_ref: RepoRef,
    project_labels: Vec<String>,
    session_id: String,
    exchange_id: String,
    ui_sender: UnboundedSender<UIEventWithID>,
    cancellation_token: CancellationToken,
    access_token: String,
}

pub struct SessionChatClientRequestView {
    pub diff_recent_edits: Seq<LLMClientMessageView>,
    pub user_context: Seq<Seq<char>>,
    pub previous_messages: Seq<SessionChatMessageView>,
    pub repo_ref: Option<PathBuf>,
    pub project_labels: Seq<Seq<char>>,
    pub session_id: Seq<char>,
    pub exchange_id: Seq<char>,
    pub ui_sender: UnboundedSender<UIEventWithID>,
    pub cancellation_token: CancellationToken,
    pub access_token: Seq<char>,
}

impl View for SessionChatClientRequest {
    type V = SessionChatClientRequestView;

    closed spec fn view(&self) -> SessionChatClientRequestView {
        SessionChatClientRequestView {
            diff_recent_edits: self.diff_recent_edits@,
            user_context: self.user_context@,
            previous_messages: views(self.previous_messages@),
            repo_ref: self.repo_ref@,
            project_labels: views(self.project_labels@),
            session_id: self.session_id@,
            exchange_id: self.exchange_id@,
            ui_sender: self.ui_sender,
            cancellation_token: self.cancellation_token,
            access_token: self.access_token@,
        }
    }
}

impl SessionChatClientRequest {
    pub fn new(
        diff_recent_edits: DiffRecentChanges,
        user_context: UserContext,
        previous_messages: Vec<SessionChatMessage>,
        repo_ref: RepoRef,
        project_labels: Vec<String>,
        session_id: String,
        exchange_id: String,
        ui_sender: UnboundedSender<UIEventWithID>,
        cancellation_token: CancellationToken,
        access_token: String,
    ) -> (request: Self)
        ensures
            request@ == (SessionChatClientRequestView {
                diff_recent_edits: diff_recent_edits@,
                user_context: user_context@,
                previous_messages: views(previous_messages@),
                repo_ref: repo_ref@,
                project_labels: views(project_labels@),
                session_id: session_id@,
                exchange_id: exchange_id@,
                ui_sender,
                cancellation_token,
                access_token: access_token@,
            }),
    {
        Self {
            diff_recent_edits,
            user_context,
            previous_messages,
            session_id,
            exchange_id,
            repo_ref,
            project_labels,
            ui_sender,
            cancellation_token,
            access_token,
        }
    }

    pub fn user_context(&self) -> (user_context: &UserContext)
        ensures
            user_context@ == self@.user_context,
    {
        &self.user_context
    }
}

/// The reply to a session.
#[derive(Debug, Clone, PartialEq, Eq)]
pub struct SessionChatClientResponse {
    reply: String,
}

impl View for SessionChatClientResponse {
    type V = Seq<char>;

    closed spec fn view(&self) -> Seq<char> {
        self.reply@
    }
}

impl SessionChatClientResponse {
    pub fn reply(self) -> (reply: String)
        ensures
            reply@ == self@,
    {
        self.reply
    }
}

/// The reply so far, as it is streamed from the model.
#[derive(Debug, Clone, PartialEq, Eq)]
pub struct ReplyStream {
    request_id: String,
    exchange_id: String,
    answer_up_until_now: String,
}

pub struct ReplyStreamView {
    pub request_id: Seq<char>,
    pub exchange_id: Seq<char>,
    pub answer_up_until_now: Seq<char>,
}

impl View for ReplyStream {
    type V = ReplyStreamView;

    closed spec fn view(&self) -> ReplyStreamView {
        ReplyStreamView {
            request_id: self.request_id@,
            exchange_id: self.exchange_id@,
            answer_up_until_now: self.answer_up_until_now@,
        }
    }
}

/// A stream once an answer has come.
pub open spec fn advanced(stream: ReplyStreamView, answer: Seq<char>) -> ReplyStreamView {
    ReplyStreamView { answer_up_until_now: answer, ..stream }
}

/// The event that tells of an answer.
pub open spec fn told_by(
    stream: ReplyStreamView,
    answer: Seq<char>,
    delta: Option<Seq<char>>,
) -> UIEventWithIDView {
    UIEventWithIDView {
        request_id: stream.request_id,
        exchange_id: stream.exchange_id,
        answer_up_until_now: answer,
        delta,
    }
}

impl ReplyStream {
    /// A stream in which nothing has come yet.
    pub fn new(request_id: String, exchange_id: String) -> (stream: Self)
        ensures
            stream@ == (ReplyStreamView {
                request_id: request_id@,
                exchange_id: exchange_id@,
                answer_up_until_now: Seq::empty(),
            }),
    {
        ReplyStream { request_id, exchange_id, answer_up_until_now: String::new() }
    }

    /// Takes in what the model sent last, the whole answer so far with what was
    /// added to it, and gives the event that tells the user interface of it.
    pub fn advance(&mut self, answer_up_until_now: String, delta: Option<String>) -> (event:
        UIEventWithID)
        ensures
            final(self)@ == advanced(old(self)@, answer_up_until_now@),
            event@ == told_by(old(self)@, answer_up_until_now@, option_view(delta)),
            final(self)@.request_id == old(self)@.request_id,
            final(self)@.exchange_id == old(self)@.exchange_id,
            final(self)@.answer_up_until_now == answer_up_until_now@,
            event@.request_id == old(self)@.request_id,
            event@.exchange_id == old(self)@.exchange_id,
            event@.answer_up_until_now == answer_up_until_now@,
            delta matches Some(added) ==> event@.delta == Some(added@),
            delta is None ==> event@.delta is None,
    {
        self.answer_up_until_now = answer_up_until_now.clone();
        UIEventWithID::chat_event(
            self.request_id.clone(),
            self.exchange_id.clone(),
            answer_up_until_now,
            delta,
        )
    }

    /// The answer that came last: the empty text if none came.
    pub fn into_answer(self) -> (answer: String)
        ensures
            answer@ == self@.answer_up_until_now,
    {
        self.answer_up_until_now
    }
}

/// All that it takes to have a reply made and streamed.
#[derive(Debug, Clone)]
pub struct ReplyJob {
    pub llm_properties: LLMProperties,
    pub request: LLMClientCompletionRequest,
    pub metadata: Vec<(String, String)>,
    pub stream: ReplyStream,
    pub ui_sender: UnboundedSender<UIEventWithID>,
    pub cancellation_token: CancellationToken,
}

pub struct ReplyJobView {
    pub llm_properties: LLMPropertiesView,
    pub request: LLMClientCompletionRequestView,
    pub metadata: Seq<(Seq<char>, Seq<char>)>,
    pub stream: ReplyStreamView,
    pub ui_sender: UnboundedSender<UIEventWithID>,
    pub cancellation_token: CancellationToken,
}

impl View for ReplyJob {
    type V = ReplyJobView;

    open spec fn view(&self) -> ReplyJobView {
        ReplyJobView {
            llm_properties: self.llm_properties@,
            request: self.request@,
            metadata: views(self.metadata@),
            stream: self.stream@,
            ui_sender: self.ui_sender,
            cancellation_token: self.cancellation_token,
        }
    }
}

/// How a message of the session is told to the model.
pub open spec fn retold() -> spec_fn(SessionChatMessageView) -> LLMClientMessageView {
    |message: SessionChatMessageView|
        match message.role {
            SessionChatRole::User => plain_message(LLMClientRole::User, message.message),
            SessionChatRole::Assistant => plain_message(LLMClientRole::Assistant, message.message),
        }
}

/// The text of an optional message: the empty text if there is none.
pub open spec fn text_or_empty(text: Option<Seq<char>>) -> Seq<char> {
    match text {
        Some(text) => text,
        None => Seq::empty(),
    }
}

/// What the model is told after the instructions: the user's context first, then
/// the recent edits, then the session so far.
pub open spec fn told_to_model(
    context: SessionChatClientRequestView,
    user_context: Option<Seq<char>>,
) -> Seq<LLMClientMessageView> {
    seq![cached_message(LLMClientRole::User, text_or_empty(user_context))]
        + context.diff_recent_edits + context.previous_messages.map_values(retold())
}

/// The instructions of a request.
pub open spec fn instructions(context: SessionChatClientRequestView) -> Seq<char> {
    system_text(context.project_labels, location_text(context.repo_ref))
}

/// The tenths of the temperature at which replies are made.
pub const TEMPERATURE_TENTHS: u8 = 2;

/// The job that a request comes down to.
pub open spec fn reply_job(
    context: SessionChatClientRequestView,
    user_context: Option<Seq<char>>,
) -> ReplyJobView {
    ReplyJobView {
        llm_properties: LLMPropertiesView {
            llm: LLMType::ClaudeSonnet,
            provider: LLMProvider::CodeStory,
            access_token: context.access_token,
        },
        request: LLMClientCompletionRequestView {
            llm: LLMType::ClaudeSonnet,
            messages: seq![cached_message(LLMClientRole::System, instructions(context))]
                + told_to_model(context, user_context),
            temperature_tenths: TEMPERATURE_TENTHS,
            frequency_penalty_tenths: None,
        },
        metadata: seq![
            ("event_type"@, "session_chat"@),
            ("root_id"@, context.session_id),
        ],
        stream: ReplyStreamView {
            request_id: context.session_id,
            exchange_id: context.exchange_id,
            answer_up_until_now: Seq::empty(),
        },
        ui_sender: context.ui_sender,
        cancellation_token: context.cancellation_token,
    }
}

/// What the tool answers once the stream is over.
pub open spec fn finished(answer: Option<Seq<char>>) -> Result<ToolOutputView, ToolErrorView> {
    match answer {
        Some(reply) => Ok(ToolOutputView::ContextDrivenChatReply(reply)),
        None => Err(ToolErrorView::RetriesExhausted),
    }
}

/// The tool that replies to a session, through a broker of language models.
pub struct SessionChatClient<B> {
    llm_client: Arc<B>,
}

impl<B> View for SessionChatClient<B> {
    type V = Arc<B>;

    closed spec fn view(&self) -> Arc<B> {
        self.llm_client
    }
}

impl<B> SessionChatClient<B> {
    pub fn new(llm_client: Arc<B>) -> (client: Self)
        ensures
            client@ == llm_client,
    {
        Self { llm_client }
    }

    pub fn llm_client(&self) -> (llm_client: &Arc<B>)
        ensures
            *llm_client == self@,
    {
        &self.llm_client
    }

    /// The instructions of a request.
    pub fn system_message(&self, context: &SessionChatClientRequest) -> (message: String)
        ensures
            message@ == instructions(context@),
    {
        let location: String = context.repo_ref.location();
        system_prompt(&context.project_labels, location.as_str())
    }

    /// What the model is told after the instructions. `user_context` is the user's
    /// context rendered as XML, if it could be rendered.
    pub fn user_message(
        &self,
        context: SessionChatClientRequest,
        user_context: Option<String>,
    ) -> (messages: Vec<LLMClientMessage>)
        ensures
            views(messages@) == told_to_model(context@, option_view(user_context)),
            messages@.len() == 1 + context@.diff_recent_edits.len()
                + context@.previous_messages.len(),
            messages@[0]@.role == LLMClientRole::User,
            messages@[0]@.cache_point,
            user_context matches Some(text) ==> messages@[0]@.message == text@,
            user_context is None ==> messages@[0]@.message == Seq::<char>::empty(),
            forall|k: int|
                0 <= k < context@.diff_recent_edits.len() ==> messages@[1 + k]@
                    == #[trigger] context@.diff_recent_edits[k],
            forall|k: int|
                0 <= k < context@.previous_messages.len() ==> {
                    let told = messages@[1 + context@.diff_recent_edits.len() + k]@;
                    let message = #[trigger] context@.previous_messages[k];
                    &&& told.message == message.message
                    &&& told.role == match message.role {
                        SessionChatRole::User => LLMClientRole::User,
                        SessionChatRole::Assistant => LLMClientRole::Assistant,
                    }
                    &&& !told.cache_point
                },
    {
        let previous: Vec<SessionChatMessage> = context.previous_messages;
        let ghost spoken = views(previous@);
        let user_context_text: String = match user_context {
            Some(text) => text,
            None => String::new(),
        };
        let mut messages: Vec<LLMClientMessage> = Vec::new();
        // the user's context comes at the very start
        messages.push(LLMClientMessage::user(user_context_text).cache_point());
        let mut edits: Vec<LLMClientMessage> = context.diff_recent_edits.to_llm_client_message();
        messages.append(&mut edits);
        let ghost opening = views(messages@);
        assert(opening =~= seq![
            cached_message(LLMClientRole::User, text_or_empty(option_view(user_context))),
        ] + context@.diff_recent_edits);
        for i in 0..previous.len()
            invariant
                spoken == views(previous@),
                views(messages@) == opening + spoken.take(i as int).map_values(retold()),
        {
            let ghost before = messages@;
            let text: String = previous[i].message.clone();
            let message: LLMClientMessage = match previous[i].role {
                SessionChatRole::User => LLMClientMessage::user(text),
                SessionChatRole::Assistant => LLMClientMessage::assistant(text),
            };
            messages.push(message);
            proof {
                assert(spoken[i as int] == previous@[i as int]@);
                assert(message@ == retold()(spoken[i as int]));
                assert(views(messages@) =~= views(before).push(message@));
                assert(spoken.take(i + 1).map_values(retold()) =~= spoken.take(i as int).map_values(
                    retold(),
                ).push(message@));
            }
        }
        assert(spoken.take(previous@.len() as int) =~= spoken);
        proof {
            assert(messages@[0]@ == views(messages@)[0]);
            let edits = context@.diff_recent_edits;
            assert forall|k: int| 0 <= k < edits.len() implies messages@[1 + k]@
                == #[trigger] edits[k] by {
                assert(messages@[1 + k]@ == views(messages@)[1 + k]);
            }
            assert forall|k: int| 0 <= k < spoken.len() implies messages@[1 + edits.len() + k]@
                == retold()(#[trigger] spoken[k]) by {
                assert(messages@[1 + edits.len() + k]@ == views(messages@)[1 + edits.len() + k]);
            }
        }
        messages
    }

    /// The job that a request comes down to.
    pub fn prepare(
        &self,
        context: SessionChatClientRequest,
        user_context: Option<String>,
    ) -> (job: ReplyJob)
        ensures
            job@ == reply_job(context@, option_view(user_context)),
    {
        let cancellation_token: CancellationToken = context.cancellation_token.clone();
        let ui_sender: UnboundedSender<UIEventWithID> = context.ui_sender.clone();
        let root_id: String = context.session_id.clone();
        let exchange_id: String = context.exchange_id.clone();
        let system_message: LLMClientMessage = LLMClientMessage::system(
            self.system_message(&context),
        ).cache_point();
        let llm_properties: LLMProperties = LLMProperties {
            llm: LLMType::ClaudeSonnet,
            provider: LLMProvider::CodeStory,
            api_key: LLMProviderAPIKeys::CodeStory { access_token: context.access_token.clone() },
        };
        let metadata: Vec<(String, String)> =
            vec![
            ("event_type".to_owned(), "session_chat".to_owned()),
            ("root_id".to_owned(), root_id.clone()),
        ];
        let mut messages: Vec<LLMClientMessage> = vec![system_message];
        let mut user_messages: Vec<LLMClientMessage> = self.user_message(context, user_context);
        messages.append(&mut user_messages);
        let job: ReplyJob = ReplyJob {
            request: LLMClientCompletionRequest {
                llm: llm_properties.llm,
                messages,
                temperature_tenths: TEMPERATURE_TENTHS,
                frequency_penalty_tenths: None,
            },
            llm_properties,
            metadata,
            stream: ReplyStream::new(root_id, exchange_id),
            ui_sender,
            cancellation_token,
        };
        proof {
            let expected = reply_job(context@, option_view(user_context));
            assert(job@.request.messages =~= expected.request.messages);
            assert(job@.metadata =~= expected.metadata);
        }
        job
    }

    /// What the tool answers once the stream is over: the reply that was streamed,
    /// or that it gave up where the streaming itself broke off.
    pub fn finish(&self, answer: Option<String>) -> (output: Result<ToolOutput, ToolError>)
        ensures
            result_view(output) == finished(option_view(answer)),
            answer matches Some(reply) ==> output is Ok && output->Ok_0@
                == ToolOutputView::ContextDrivenChatReply(reply@),
            answer is None ==> output == Err::<ToolOutput, ToolError>(ToolError::RetriesExhausted),
    {
        match answer {
            Some(reply) => Ok(
                ToolOutput::ContextDrivenChatReply(SessionChatClientResponse { reply }),
            ),
            None => Err(ToolError::RetriesExhausted),
        }
    }
}

} // verus!
