//! Verified core of the knowledge-base service: protocol data, identifier
//! rules, command-line parsing, storage layout and the decision logic of the
//! services that sit around the local store.
pub mod ids;
pub mod text;
pub mod args;
pub mod llm;
pub mod protocol;
pub mod title;
pub mod layout;
pub mod store;
pub mod service;
pub mod order;
pub mod settings;
pub mod wire;
pub mod hub;
pub mod calendar;
pub mod socket_path;
pub mod rendezvous;
pub mod starter;
pub mod launch;
pub mod assets;
pub mod settings_api;
pub mod chat_session;
pub mod cli;
pub mod client_reply;
pub mod settings_toml;
pub mod settings_file;
