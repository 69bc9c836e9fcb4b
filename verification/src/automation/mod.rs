pub mod asset_store;
pub mod code_generator;
pub mod executor;
pub mod explorer;
pub mod intent_router;
pub mod orchestrator;
pub mod types;
