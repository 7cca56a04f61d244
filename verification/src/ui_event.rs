//! Events for the editor's user interface.
use crate::text::option_view;
use vstd::prelude::*;

verus! {

/// The answer of a chat so far, with what was added last, if that is known.
/// The two ids say which exchange of which request it belongs to.
#[derive(Debug, Clone, PartialEq, Eq)]
pub struct UIEventWithID {
    request_id: String,
    exchange_id: String,
    answer_up_until_now: String,
    delta: Option<String>,
}

pub struct UIEventWithIDView {
    pub request_id: Seq<char>,
    pub exchange_id: Seq<char>,
    pub answer_up_until_now: Seq<char>,
    pub delta: Option<Seq<char>>,
}

impl View for UIEventWithID {
    type V = UIEventWithIDView;

    closed spec fn view(&self) -> UIEventWithIDView {
        UIEventWithIDView {
            request_id: self.request_id@,
            exchange_id: self.exchange_id@,
            answer_up_until_now: self.answer_up_until_now@,
            delta: option_view(self.delta),
        }
    }
}

impl UIEventWithID {
    pub fn chat_event(
        request_id: String,
        exchange_id: String,
        answer_up_until_now: String,
        delta: Option<String>,
    ) -> (event: Self)
        ensures
            event@ == (UIEventWithIDView {
                request_id: request_id@,
                exchange_id: exchange_id@,
                answer_up_until_now: answer_up_until_now@,
                delta: option_view(delta),
            }),
    {
        UIEventWithID { request_id, exchange_id, answer_up_until_now, delta }
    }

    pub fn request_id(&self) -> (id: &String)
        ensures
            id@ == self@.request_id,
    {
        &self.request_id
    }

    pub fn exchange_id(&self) -> (id: &String)
        ensures
            id@ == self@.exchange_id,
    {
        &self.exchange_id
    }

    pub fn answer_up_until_now(&self) -> (answer: &String)
        ensures
            answer@ == self@.answer_up_until_now,
    {
        &self.answer_up_until_now
    }

    pub fn delta(&self) -> (delta: &Option<String>)
        ensures
            option_view(*delta) == self@.delta,
    {
        &self.delta
    }
}

} // verus!
