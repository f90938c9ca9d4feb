//! The logic of the Jira tools: settings, queries, requests, views and the
//! state of the terminal interface, each with its contract.

pub mod text;
pub mod config;
pub mod paths;
pub mod jql;
pub mod status;
pub mod http;
pub mod issue;
pub mod show;
pub mod doctor;
pub mod markdown;
pub mod utf8len;
pub mod state;
pub mod keys;
pub mod view;
pub mod layout;
