pub mod codegen;
pub mod runtime;
pub mod tool_proxy;
