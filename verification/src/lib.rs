//! A headless local assistant core: intent routing, prompt assembly, memory
//! and project bookkeeping, tool approval, and model-runtime decisions.
pub mod brain;
pub mod clock;
pub mod config;
pub mod context;
pub mod dto;
pub mod error;
pub mod memory;
pub mod model;
pub mod projects;
pub mod text;
pub mod tools;
