pub mod eval;
pub mod flags;
pub mod integration;
pub mod observer;
pub mod inspector;
pub mod organization;
pub mod platform;
pub mod prompt_generator;
pub mod relevance;
pub mod resolver;
pub mod session;
pub mod subagent;
pub mod task;
pub mod user;
