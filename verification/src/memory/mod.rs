pub mod db;
pub mod memory_manager;
pub mod search;
