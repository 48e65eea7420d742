pub mod llama_client;
pub mod runtime_manager;
