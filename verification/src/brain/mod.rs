pub mod engine;
pub mod intent_router;
pub mod modes;
pub mod response_pipeline;
