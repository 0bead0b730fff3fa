//! A collection of HTTP requests that can be filled in from variables,
//! executed, and looked through: the data, the interpolation of
//! `{{name}}` placeholders, the history of responses, and the state of an
//! interactive session with the decisions that its events call for.
//!
//! Whatever touches the network, the terminal or the file system is left
//! to the caller: the library takes plain values and hands plain values
//! back.
pub mod app;
pub mod cli;
pub mod components;
pub mod events;
pub mod executor;
pub mod headless;
pub mod history;
pub mod interpolation;
pub mod json;
pub mod json_tree;
pub mod models;
pub mod paths;
pub mod placeholder;
pub mod plugins;
pub mod response_path;
pub mod state;
pub mod string_map;
pub mod text;
pub mod view;
