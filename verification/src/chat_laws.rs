//! What holds of the session chat, said of the requests, the messages and the events
//! themselves.
use crate::chat::{
    advanced, finished, instructions, reply_job, retold, text_or_empty, told_by, told_to_model,
    ReplyStreamView, SessionChatClientRequestView, SessionChatMessageView, SessionChatRole,
};
use crate::context::{location_text, path_text};
use crate::errors::ToolErrorView;
use crate::llm::{
    cached_message, plain_message, LLMClientMessageView, LLMClientRole, LLMProvider, LLMType,
};
use crate::plan::lemma_distinct;
use crate::prompt::{
    labels_text, rule_pieces, system_text, told_labels, twice, LABELS_END, LABELS_INTRO,
    LABEL_SEPARATOR, OPENING, REMAINING_RULES, RULES_UP_TO_LINES_LINK, UP_TO_BARE_SYMBOL_LINK,
    UP_TO_FIELD_LINK, UP_TO_FOLDER_LINK, UP_TO_FUNCTION_LINK, UP_TO_LINKED_FIELD,
    UP_TO_SECOND_SYMBOL_LINK, UP_TO_SENTENCE_LINK, UP_TO_SINGLE_LINE_LINK,
};
use crate::text::joined;
use crate::tool::ToolOutputView;
use crate::ui_event::UIEventWithIDView;
use std::path::PathBuf;
use vstd::prelude::*;

verus! {

/// Joining nothing gives the empty text, joining one part gives that part, and joining one
/// part more puts the separator and that part behind the others.
pub proof fn law_joining_one_more(parts: Seq<Seq<char>>, part: Seq<char>, separator: Seq<char>)
    ensures
        joined(seq![], separator) == Seq::<char>::empty(),
        joined(seq![part], separator) == part,
        parts.len() > 0 ==> joined(parts.push(part), separator) == joined(parts, separator)
            + separator + part,
{
    assert(parts.push(part).drop_last() =~= parts);
}

/// Joining two lists, neither of them empty, is joining each and then the two results.
pub proof fn law_joining_two_lists(
    parts: Seq<Seq<char>>,
    more: Seq<Seq<char>>,
    separator: Seq<char>,
)
    requires
        parts.len() > 0,
        more.len() > 0,
    ensures
        joined(parts + more, separator) == joined(parts, separator) + separator + joined(
            more,
            separator,
        ),
    decreases more.len(),
{
    let rest = more.drop_last();
    assert((parts + more).drop_last() =~= parts + rest);
    if more.len() == 1 {
        assert(parts + rest =~= parts);
    } else {
        law_joining_two_lists(parts, rest, separator);
        assert(joined(parts + more, separator) =~= joined(parts, separator) + separator + joined(
            more,
            separator,
        ));
    }
}

/// The model is told each label that the project has twice in a row, and no others.
pub proof fn law_labels_are_told_twice(labels: Seq<Seq<char>>)
    ensures
        labels.remove_duplicates(seq![]).no_duplicates(),
        forall|label: Seq<char>|
            #[trigger] labels.remove_duplicates(seq![]).contains(label) <==> labels.contains(label),
        told_labels(labels).len() == 2 * labels.remove_duplicates(seq![]).len(),
        forall|k: int|
            0 <= k < labels.remove_duplicates(seq![]).len() ==> told_labels(labels)[2 * k]
                == #[trigger] labels.remove_duplicates(seq![])[k] && told_labels(labels)[2 * k + 1]
                == labels.remove_duplicates(seq![])[k],
{
    lemma_distinct(labels);
    lemma_twice_at(labels.remove_duplicates(seq![]));
}

proof fn lemma_twice_at(labels: Seq<Seq<char>>)
    ensures
        labels.flat_map(twice()).len() == 2 * labels.len(),
        forall|k: int|
            0 <= k < labels.len() ==> labels.flat_map(twice())[2 * k] == #[trigger] labels[k]
                && labels.flat_map(twice())[2 * k + 1] == labels[k],
    decreases labels.len(),
{
    if labels.len() > 0 {
        let rest = labels.drop_last();
        let last = labels.last();
        lemma_twice_at(rest);
        rest.lemma_flat_map_push(twice(), last);
        assert(rest.push(last) =~= labels);
        let told = labels.flat_map(twice());
        assert(told =~= rest.flat_map(twice()) + seq![last, last]);
        assert forall|k: int| 0 <= k < labels.len() implies told[2 * k] == #[trigger] labels[k]
            && told[2 * k + 1] == labels[k] by {
            if k < rest.len() {
                assert(rest[k] == labels[k]);
            }
        }
    } else {
        assert(labels.flat_map(twice()) =~= seq![]);
    }
}

/// The labels are told between their introduction and a line break, with a separator between
/// each two, and nothing else is told of them.
pub proof fn law_labels_text(labels: Seq<Seq<char>>)
    ensures
        labels_text(labels) == LABELS_INTRO@ + joined(told_labels(labels), LABEL_SEPARATOR@)
            + LABELS_END@,
        LABEL_SEPARATOR@ == ","@,
        LABELS_END@ == "\n"@,
{
}

/// The instructions are the opening, what is told of the labels, and the rules, with the
/// location of the repository at each of the nine places where a link begins: whatever the
/// labels and the location are, nothing of them is missing and nothing is added.
pub proof fn law_instructions_are_complete(labels: Seq<Seq<char>>, location: Seq<char>)
    ensures
        system_text(labels, location) == OPENING@ + LABELS_INTRO@ + joined(
            told_labels(labels),
            LABEL_SEPARATOR@,
        ) + LABELS_END@ + RULES_UP_TO_LINES_LINK@ + location + UP_TO_FUNCTION_LINK@ + location
            + UP_TO_FIELD_LINK@ + location + UP_TO_SINGLE_LINE_LINK@ + location
            + UP_TO_FOLDER_LINK@ + location + UP_TO_BARE_SYMBOL_LINK@ + location
            + UP_TO_SENTENCE_LINK@ + location + UP_TO_LINKED_FIELD@ + location
            + UP_TO_SECOND_SYMBOL_LINK@ + location + REMAINING_RULES@,
{
    let pieces = rule_pieces();
    let start = OPENING@ + LABELS_INTRO@ + joined(told_labels(labels), LABEL_SEPARATOR@)
        + LABELS_END@;
    assert(pieces.take(1)[0] == RULES_UP_TO_LINES_LINK@);
    assert(pieces.take(10) =~= pieces);
    lemma_next_rule(start, location, 1);
    lemma_next_rule(start, location, 2);
    lemma_next_rule(start, location, 3);
    lemma_next_rule(start, location, 4);
    lemma_next_rule(start, location, 5);
    lemma_next_rule(start, location, 6);
    lemma_next_rule(start, location, 7);
    lemma_next_rule(start, location, 8);
    lemma_next_rule(start, location, 9);
    assert(system_text(labels, location) =~= start + joined(pieces, location));
}

/// One rule more in the instructions.
proof fn lemma_next_rule(start: Seq<char>, location: Seq<char>, n: int)
    requires
        1 <= n < 10,
    ensures
        start + joined(rule_pieces().take(n + 1), location) == start + joined(
            rule_pieces().take(n),
            location,
        ) + location + rule_pieces()[n],
{
    let pieces = rule_pieces();
    assert(pieces.take(n + 1).drop_last() =~= pieces.take(n));
    assert(start + joined(pieces.take(n + 1), location) =~= start + joined(
        pieces.take(n),
        location,
    ) + location + pieces[n]);
}

/// The location of a repository is the text of its local path, and the empty text where it
/// has none.
pub proof fn law_location(path: PathBuf)
    ensures
        location_text(Some(path)) == path_text(path),
        location_text(None) == Seq::<char>::empty(),
{
}

/// The instructions of a request are made of its own labels and of its own repository, and
/// of nothing else in it.
pub proof fn law_instructions_are_the_requests_own(context: SessionChatClientRequestView)
    ensures
        instructions(context) == system_text(
            context.project_labels,
            match context.repo_ref {
                Some(path) => path_text(path),
                None => Seq::<char>::empty(),
            },
        ),
{
}

/// A message is made with the role and the text it is given; only being made a cache point
/// tells the two kinds apart.
pub proof fn law_messages_say_what_they_are_given(role: LLMClientRole, text: Seq<char>)
    ensures
        plain_message(role, text) == (LLMClientMessageView {
            role,
            message: text,
            cache_point: false,
        }),
        cached_message(role, text) == (LLMClientMessageView {
            role,
            message: text,
            cache_point: true,
        }),
{
}

/// A message of the session is told to the model with its own text, in the voice of its own
/// role, and as no cache point.
pub proof fn law_the_session_is_retold(text: Seq<char>)
    ensures
        retold()(SessionChatMessageView { message: text, role: SessionChatRole::User }) == (
        LLMClientMessageView { role: LLMClientRole::User, message: text, cache_point: false }),
        retold()(SessionChatMessageView { message: text, role: SessionChatRole::Assistant }) == (
        LLMClientMessageView { role: LLMClientRole::Assistant, message: text, cache_point: false }),
{
}

/// After the instructions the model is told the user's context, then the recent edits, then
/// the session, each whole and in its own order, and nothing else. The context is told with
/// the very text it was rendered to, whatever the edits and the session are, and with the
/// empty text just where it could not be rendered; it is the user's, and a cache point.
pub proof fn law_what_the_model_is_told(
    context: SessionChatClientRequestView,
    user_context: Option<Seq<char>>,
    k: int,
)
    ensures
        ({
            let messages = told_to_model(context, user_context);
            let edits = context.diff_recent_edits;
            let session = context.previous_messages;
            &&& messages.len() == 1 + edits.len() + session.len()
            &&& messages[0].role == LLMClientRole::User
            &&& messages[0].cache_point
            &&& user_context matches Some(text) ==> messages[0].message == text
            &&& user_context is None ==> messages[0].message == Seq::<char>::empty()
            &&& 0 <= k < edits.len() ==> messages[1 + k] == edits[k]
            &&& 0 <= k < session.len() ==> {
                let message = messages[1 + edits.len() + k];
                &&& message.message == session[k].message
                &&& message.role == match session[k].role {
                    SessionChatRole::User => LLMClientRole::User,
                    SessionChatRole::Assistant => LLMClientRole::Assistant,
                }
                &&& !message.cache_point
            }
        }),
        text_or_empty(None) == Seq::<char>::empty(),
        forall|text: Seq<char>| #[trigger] text_or_empty(Some(text)) == text,
{
}

/// Two requests that differ only in their recent edits tell the model the same context and
/// the same session.
pub proof fn law_edits_do_not_touch_the_rest(
    context: SessionChatClientRequestView,
    edits: Seq<LLMClientMessageView>,
    user_context: Option<Seq<char>>,
)
    ensures
        ({
            let messages = told_to_model(context, user_context);
            let others = told_to_model(
                SessionChatClientRequestView { diff_recent_edits: edits, ..context },
                user_context,
            );
            &&& messages[0] == others[0]
            &&& messages.skip(1 + context.diff_recent_edits.len() as int) == others.skip(
                1 + edits.len() as int,
            )
        }),
{
    let messages = told_to_model(context, user_context);
    let others = told_to_model(
        SessionChatClientRequestView { diff_recent_edits: edits, ..context },
        user_context,
    );
    assert(messages.skip(1 + context.diff_recent_edits.len() as int) =~= others.skip(
        1 + edits.len() as int,
    ));
}

/// The conversation before the model is the instructions, the user's context, the recent
/// edits and the session, in this order, and nothing else. The first two are cache points;
/// no message of the session is. The context is told with the text it was rendered to, and
/// the session in its own order, each message with its own text in the voice that spoke it.
pub proof fn law_conversation(
    context: SessionChatClientRequestView,
    user_context: Option<Seq<char>>,
)
    ensures
        ({
            let messages = reply_job(context, user_context).request.messages;
            let edits = context.diff_recent_edits;
            let session = context.previous_messages;
            &&& messages.len() == 2 + edits.len() + session.len()
            &&& messages[0] == cached_message(LLMClientRole::System, instructions(context))
            &&& messages[0].role == LLMClientRole::System && messages[0].cache_point
            &&& messages[0].message == system_text(
                context.project_labels,
                match context.repo_ref {
                    Some(path) => path_text(path),
                    None => Seq::<char>::empty(),
                },
            )
            &&& messages[1].role == LLMClientRole::User && messages[1].cache_point
            &&& messages[1].message == match user_context {
                Some(text) => text,
                None => Seq::<char>::empty(),
            }
            &&& messages.subrange(2, 2 + edits.len() as int) == edits
            &&& forall|k: int|
                0 <= k < session.len() ==> {
                    let message = messages[2 + edits.len() + k];
                    &&& message == retold()(#[trigger] session[k])
                    &&& message.message == session[k].message
                    &&& message.role == match session[k].role {
                        SessionChatRole::User => LLMClientRole::User,
                        SessionChatRole::Assistant => LLMClientRole::Assistant,
                    }
                    &&& !message.cache_point
                }
        }),
{
    let messages = reply_job(context, user_context).request.messages;
    let edits = context.diff_recent_edits;
    assert(messages.subrange(2, 2 + edits.len() as int) =~= edits);
}

/// Whatever the request is, the reply is asked of one model, through one provider, with the
/// request's own access token and at one temperature. The request is known by its session id
/// and its exchange id, and goes by its own channel and its own cancellation token.
pub proof fn law_the_job_is_the_requests_own(
    context: SessionChatClientRequestView,
    user_context: Option<Seq<char>>,
)
    ensures
        ({
            let job = reply_job(context, user_context);
            &&& job.llm_properties.llm == LLMType::ClaudeSonnet
            &&& job.llm_properties.provider == LLMProvider::CodeStory
            &&& job.llm_properties.access_token == context.access_token
            &&& job.request.llm == LLMType::ClaudeSonnet
            &&& job.request.temperature_tenths == 2
            &&& job.request.frequency_penalty_tenths is None
            &&& job.metadata == seq![
                ("event_type"@, "session_chat"@),
                ("root_id"@, context.session_id),
            ]
            &&& job.stream.request_id == context.session_id
            &&& job.stream.exchange_id == context.exchange_id
            &&& job.stream.answer_up_until_now == Seq::<char>::empty()
            &&& job.ui_sender == context.ui_sender
            &&& job.cancellation_token == context.cancellation_token
        }),
{
}

/// An answer that comes becomes the answer so far, and changes nothing else of the stream.
/// The event that tells of it carries the ids of the stream, that answer, and just the delta
/// that came with it.
pub proof fn law_an_answer_is_told_as_it_came(
    stream: ReplyStreamView,
    answer: Seq<char>,
    delta: Option<Seq<char>>,
)
    ensures
        advanced(stream, answer).answer_up_until_now == answer,
        advanced(stream, answer).request_id == stream.request_id,
        advanced(stream, answer).exchange_id == stream.exchange_id,
        told_by(stream, answer, delta).request_id == stream.request_id,
        told_by(stream, answer, delta).exchange_id == stream.exchange_id,
        told_by(stream, answer, delta).answer_up_until_now == answer,
        told_by(stream, answer, delta).delta == delta,
{
}

/// Where a stream stands once it has taken in some answers, and the events it told of
/// them.
pub open spec fn streamed(
    stream: ReplyStreamView,
    answers: Seq<(Seq<char>, Option<Seq<char>>)>,
) -> (ReplyStreamView, Seq<UIEventWithIDView>)
    decreases answers.len(),
{
    if answers.len() == 0 {
        (stream, seq![])
    } else {
        let (before, told) = streamed(stream, answers.drop_last());
        (
            advanced(before, answers.last().0),
            told.push(told_by(before, answers.last().0, answers.last().1)),
        )
    }
}

/// The user interface is told of every answer as it comes, in order: each event carries the
/// ids of the stream, the answer, and the delta that came with it. The reply is the answer
/// that came last, or what it was before where none came.
pub proof fn law_stream_tells_each_answer_and_keeps_the_last(
    stream: ReplyStreamView,
    answers: Seq<(Seq<char>, Option<Seq<char>>)>,
)
    ensures
        streamed(stream, answers).0 == advanced(
            stream,
            if answers.len() == 0 {
                stream.answer_up_until_now
            } else {
                answers.last().0
            },
        ),
        streamed(stream, answers).1 == Seq::new(
            answers.len(),
            |k: int| told_by(stream, answers[k].0, answers[k].1),
        ),
        streamed(stream, answers).0.request_id == stream.request_id,
        streamed(stream, answers).0.exchange_id == stream.exchange_id,
        answers.len() == 0 ==> streamed(stream, answers).0.answer_up_until_now
            == stream.answer_up_until_now,
        answers.len() > 0 ==> streamed(stream, answers).0.answer_up_until_now
            == answers.last().0,
        streamed(stream, answers).1.len() == answers.len(),
        forall|k: int|
            0 <= k < answers.len() ==> {
                let event = #[trigger] streamed(stream, answers).1[k];
                &&& event.request_id == stream.request_id
                &&& event.exchange_id == stream.exchange_id
                &&& event.answer_up_until_now == answers[k].0
                &&& event.delta == answers[k].1
            },
    decreases answers.len(),
{
    if answers.len() > 0 {
        let rest = answers.drop_last();
        law_stream_tells_each_answer_and_keeps_the_last(stream, rest);
        assert forall|k: int| 0 <= k < answers.len() implies {
            let event = #[trigger] streamed(stream, answers).1[k];
            &&& event.request_id == stream.request_id
            &&& event.exchange_id == stream.exchange_id
            &&& event.answer_up_until_now == answers[k].0
            &&& event.delta == answers[k].1
        } by {
            if k < rest.len() {
                assert(streamed(stream, answers).1[k] == streamed(stream, rest).1[k]);
            }
        }
    }
}

/// Over a whole reply every event carries the session id and the exchange id of the request,
/// and the answer and the delta of its own turn.
pub proof fn law_events_belong_to_their_request(
    context: SessionChatClientRequestView,
    user_context: Option<Seq<char>>,
    answers: Seq<(Seq<char>, Option<Seq<char>>)>,
    k: int,
)
    requires
        0 <= k < answers.len(),
    ensures
        ({
            let events = streamed(reply_job(context, user_context).stream, answers).1;
            &&& events.len() == answers.len()
            &&& events[k].request_id == context.session_id
            &&& events[k].exchange_id == context.exchange_id
            &&& events[k].answer_up_until_now == answers[k].0
            &&& events[k].delta == answers[k].1
        }),
{
    let stream = reply_job(context, user_context).stream;
    law_stream_tells_each_answer_and_keeps_the_last(stream, answers);
    assert(streamed(stream, answers).1[k].delta == answers[k].1);
}

/// A reply that was streamed is the output of the tool, whole; where the streaming broke
/// off, the tool gave up.
pub proof fn law_the_reply_is_handed_out_whole(reply: Seq<char>)
    ensures
        finished(Some(reply)) == Ok::<ToolOutputView, ToolErrorView>(
            ToolOutputView::ContextDrivenChatReply(reply),
        ),
        finished(None) == Err::<ToolOutputView, ToolErrorView>(ToolErrorView::RetriesExhausted),
{
}

/// The tool replies with the answer that was streamed last, and with the empty text
/// where none was.
pub proof fn law_reply_is_the_last_answer(
    context: SessionChatClientRequestView,
    user_context: Option<Seq<char>>,
    answers: Seq<(Seq<char>, Option<Seq<char>>)>,
)
    ensures
        finished(
            Some(streamed(reply_job(context, user_context).stream, answers).0.answer_up_until_now),
        ) == Ok::<ToolOutputView, ToolErrorView>(
            ToolOutputView::ContextDrivenChatReply(
                if answers.len() == 0 {
                    Seq::empty()
                } else {
                    answers.last().0
                },
            ),
        ),
{
    law_stream_tells_each_answer_and_keeps_the_last(
        reply_job(context, user_context).stream,
        answers,
    );
}

} // verus!
