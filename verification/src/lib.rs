//! Verified core of a command-line client for the Zhihu Open Platform API:
//! request assembly, input validation, response inspection and error rendering.
pub mod text;
pub mod json;
pub mod cli;
pub mod error;
pub mod commands;
pub mod output;
pub mod config;
pub mod client;
pub mod task_poll;
