use vstd::prelude::*;

pub mod accounts;
pub mod basic_auth;
pub mod build_queue;
pub mod build_state;
pub mod configuration;
pub mod deletion;
pub mod docker;
pub mod environment;
pub mod git_protocol;
pub mod git_server;
pub mod groups;
pub mod membership;
pub mod naming;
pub mod pages;
pub mod password;
pub mod project_flow;
pub mod proxy;
pub mod telemetry;
pub mod terminal;
pub mod text;
pub mod validation;
