//! Decision logic of the sidecar: how important symbols are planned and
//! resolved to snippets, and how a session chat is put before a language model.
pub mod chat;
pub mod chat_laws;
pub mod context;
pub mod errors;
pub mod identifier;
pub mod implementation;
pub mod important;
pub mod laws;
pub mod llm;
pub mod lsp;
pub mod manager;
pub mod outline;
pub mod plan;
pub mod prompt;
pub mod reply_laws;
pub mod resolution;
pub mod run;
pub mod step_laws;
pub mod text;
pub mod tool;
pub mod ui_event;
pub mod view_laws;
