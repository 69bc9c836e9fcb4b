//! Gateway core: context engineering, prompt composition and evaluation, and
//! the decision logic of the browser-automation pipeline.
pub mod automation;
pub mod clock;
pub mod code_orchestration;
pub mod config;
pub mod context;
pub mod json;
pub mod keyed;
pub mod sort;
pub mod text;
