//! The commands of a desktop shell around the Harness service, as verified dialogues.
//!
//! The front end of the shell calls commands: install the dependencies, look for an update,
//! change the settings, read the log. Each of them alternates between work that only the
//! shell can do (files, the network, windows, the store) and decisions. This crate holds
//! the decisions. A command is a function from a stage and a reply to the next stage:
//!
//! - a stage knows the one [`host::Request`] that it asks;
//! - the shell carries the request out and hands the [`host::Reply`] to the command;
//! - the command answers with a [`host::Turn`]: the next stage, or the end.
//!
//! [`dialogue`] says what a conversation between a command and its host is, and [`laws`]
//! proves what holds of every conversation: what is asked, in which order, what is stored
//! and what is not, and what one command finds after another.
pub mod configure;
pub mod desktop;
pub mod dialogue;
pub mod host;
pub mod install;
pub mod laws;
pub mod logs;
pub mod preinstall;
pub mod service;
pub mod settings;
pub mod text;
pub mod update_check;
