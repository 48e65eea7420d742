pub mod assembler;
pub mod prompt_builder;
pub mod prompt_loader;
