//! Messages and requests to a language model.
use crate::text::views;
use vstd::prelude::*;

verus! {

/// Who speaks in a conversation with a model.
#[derive(Debug, Clone, Copy, PartialEq, Eq)]
pub enum LLMClientRole {
    System,
    User,
    Assistant,
}

/// One message of a conversation with a model. The conversation up to a cache
/// point may be kept by the provider for the next request.
#[derive(Debug, PartialEq, Eq)]
pub struct LLMClientMessage {
    role: LLMClientRole,
    message: String,
    cache_point: bool,
}

pub struct LLMClientMessageView {
    pub role: LLMClientRole,
    pub message: Seq<char>,
    pub cache_point: bool,
}

impl View for LLMClientMessage {
    type V = LLMClientMessageView;

    closed spec fn view(&self) -> LLMClientMessageView {
        LLMClientMessageView {
            role: self.role,
            message: self.message@,
            cache_point: self.cache_point,
        }
    }
}

/// A message that is no cache point.
pub open spec fn plain_message(role: LLMClientRole, message: Seq<char>) -> LLMClientMessageView {
    LLMClientMessageView { role, message, cache_point: false }
}

/// A message that is a cache point.
pub open spec fn cached_message(role: LLMClientRole, message: Seq<char>) -> LLMClientMessageView {
    LLMClientMessageView { role, message, cache_point: true }
}

impl Clone for LLMClientMessage {
    fn clone(&self) -> (copied: Self)
        ensures
            copied@ == self@,
    {
        LLMClientMessage {
            role: self.role,
            message: self.message.clone(),
            cache_point: self.cache_point,
        }
    }
}

impl LLMClientMessage {
    pub fn system(message: String) -> (created: Self)
        ensures
            created@ == plain_message(LLMClientRole::System, message@),
            created@ == (LLMClientMessageView {
                role: LLMClientRole::System,
                message: message@,
                cache_point: false,
            }),
    {
        LLMClientMessage { role: LLMClientRole::System, message, cache_point: false }
    }

    pub fn user(message: String) -> (created: Self)
        ensures
            created@ == plain_message(LLMClientRole::User, message@),
            created@ == (LLMClientMessageView {
                role: LLMClientRole::User,
                message: message@,
                cache_point: false,
            }),
    {
        LLMClientMessage { role: LLMClientRole::User, message, cache_point: false }
    }

    pub fn assistant(message: String) -> (created: Self)
        ensures
            created@ == plain_message(LLMClientRole::Assistant, message@),
            created@ == (LLMClientMessageView {
                role: LLMClientRole::Assistant,
                message: message@,
                cache_point: false,
            }),
    {
        LLMClientMessage { role: LLMClientRole::Assistant, message, cache_point: false }
    }

    /// Makes the message a cache point.
    pub fn cache_point(self) -> (marked: Self)
        ensures
            marked@ == cached_message(self@.role, self@.message),
            marked@.role == self@.role,
            marked@.message == self@.message,
            marked@.cache_point,
    {
        LLMClientMessage { role: self.role, message: self.message, cache_point: true }
    }

    pub fn role(&self) -> (role: LLMClientRole)
        ensures
            role == self@.role,
    {
        self.role
    }

    pub fn content(&self) -> (message: &String)
        ensures
            message@ == self@.message,
    {
        &self.message
    }

    pub fn is_cache_point(&self) -> (marked: bool)
        ensures
            marked == self@.cache_point,
    {
        self.cache_point
    }
}

/// A language model.
#[derive(Debug, Clone, Copy, PartialEq, Eq)]
pub enum LLMType {
    ClaudeSonnet,
}

/// Through whom a model is reached.
#[derive(Debug, Clone, Copy, PartialEq, Eq)]
pub enum LLMProvider {
    CodeStory,
}

/// The key that a provider asks for.
#[derive(Debug, Clone, PartialEq, Eq)]
pub enum LLMProviderAPIKeys {
    CodeStory { access_token: String },
}

/// A model, its provider, and the key to it.
#[derive(Debug, Clone, PartialEq, Eq)]
pub struct LLMProperties {
    pub llm: LLMType,
    pub provider: LLMProvider,
    pub api_key: LLMProviderAPIKeys,
}

pub struct LLMPropertiesView {
    pub llm: LLMType,
    pub provider: LLMProvider,
    pub access_token: Seq<char>,
}

impl View for LLMProperties {
    type V = LLMPropertiesView;

    open spec fn view(&self) -> LLMPropertiesView {
        LLMPropertiesView {
            llm: self.llm,
            provider: self.provider,
            access_token: match self.api_key {
                LLMProviderAPIKeys::CodeStory { access_token } => access_token@,
            },
        }
    }
}

/// A conversation for a model to go on with. The temperature and the frequency
/// penalty are counted in tenths.
#[derive(Debug, Clone, PartialEq, Eq)]
pub struct LLMClientCompletionRequest {
    pub llm: LLMType,
    pub messages: Vec<LLMClientMessage>,
    pub temperature_tenths: u8,
    pub frequency_penalty_tenths: Option<u8>,
}

pub struct LLMClientCompletionRequestView {
    pub llm: LLMType,
    pub messages: Seq<LLMClientMessageView>,
    pub temperature_tenths: u8,
    pub frequency_penalty_tenths: Option<u8>,
}

impl View for LLMClientCompletionRequest {
    type V = LLMClientCompletionRequestView;

    open spec fn view(&self) -> LLMClientCompletionRequestView {
        LLMClientCompletionRequestView {
            llm: self.llm,
            messages: views(self.messages@),
            temperature_tenths: self.temperature_tenths,
            frequency_penalty_tenths: self.frequency_penalty_tenths,
        }
    }
}

} // verus!
