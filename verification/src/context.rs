//! What a chat knows of the user's repository and of their recent work.
use crate::llm::{LLMClientMessage, LLMClientMessageView};
use crate::text::views;
use std::path::PathBuf;
use vstd::prelude::*;

verus! {

/// A path in the file system, held by `std`.
#[verifier::external_type_specification]
#[verifier::external_body]
pub struct ExPathBuf(std::path::PathBuf);

/// The text of a path.
pub uninterp spec fn path_text(path: PathBuf) -> Seq<char>;

/// `std::path::Path::to_string_lossy`: the text of a path, in which what is not
/// Unicode is replaced. The text depends on the path alone; which text it is, is
/// left to `std`.
#[verifier::external_body]
fn lossy_path_text(path: &PathBuf) -> (text: String)
    ensures
        text@ == path_text(*path),
{
    path.to_string_lossy().to_string()
}

/// A repository, with the directory it is checked out to, if it is there locally.
#[derive(Debug, Clone, PartialEq, Eq)]
pub struct RepoRef {
    local_path: Option<PathBuf>,
}

impl View for RepoRef {
    type V = Option<PathBuf>;

    closed spec fn view(&self) -> Option<PathBuf> {
        self.local_path
    }
}

/// Where a repository is, as text: nothing if it is not there locally.
pub open spec fn location_text(local_path: Option<PathBuf>) -> Seq<char> {
    match local_path {
        Some(path) => path_text(path),
        None => Seq::empty(),
    }
}

impl RepoRef {
    pub fn new(local_path: Option<PathBuf>) -> (repo: Self)
        ensures
            repo@ == local_path,
    {
        RepoRef { local_path }
    }

    pub fn location(&self) -> (location: String)
        ensures
            location@ == location_text(self@),
            self@ matches Some(path) ==> location@ == path_text(path),
            self@ is None ==> location@ == Seq::<char>::empty(),
    {
        match &self.local_path {
            Some(path) => lossy_path_text(path),
            None => String::new(),
        }
    }
}

/// The user's recent edits, told to the model in a few messages.
#[derive(Debug, Clone, PartialEq, Eq)]
pub struct DiffRecentChanges {
    messages: Vec<LLMClientMessage>,
}

impl View for DiffRecentChanges {
    type V = Seq<LLMClientMessageView>;

    closed spec fn view(&self) -> Seq<LLMClientMessageView> {
        views(self.messages@)
    }
}

impl DiffRecentChanges {
    pub fn new(messages: Vec<LLMClientMessage>) -> (changes: Self)
        ensures
            changes@ == views(messages@),
    {
        DiffRecentChanges { messages }
    }

    pub fn to_llm_client_message(self) -> (messages: Vec<LLMClientMessage>)
        ensures
            views(messages@) == self@,
    {
        self.messages
    }
}

/// The files that the user put before the chat.
#[derive(Debug, Clone, PartialEq, Eq)]
pub struct UserContext {
    file_paths: Vec<String>,
}

impl View for UserContext {
    type V = Seq<Seq<char>>;

    closed spec fn view(&self) -> Seq<Seq<char>> {
        views(self.file_paths@)
    }
}

impl UserContext {
    pub fn new(file_paths: Vec<String>) -> (context: Self)
        ensures
            context@ == views(file_paths@),
    {
        UserContext { file_paths }
    }

    pub fn file_paths(&self) -> (paths: &Vec<String>)
        ensures
            views(paths@) == self@,
    {
        &self.file_paths
    }
}

} // verus!
