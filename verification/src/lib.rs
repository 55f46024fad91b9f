use vstd::prelude::*;

pub mod text;
pub mod clock;
pub mod event;
pub mod cleanup;
pub mod deploy;
pub mod digest;
pub mod deploy_flow;
pub mod agent;
pub mod bridge;
pub mod config;
pub mod run;
pub mod strset;
pub mod tarball;
pub mod notify;
pub mod pathorder;
pub mod cli;
pub mod drive;
pub mod server;
pub mod history;
pub mod jailhard;
pub mod fake;
pub mod shell;
pub mod deploy_queue;
