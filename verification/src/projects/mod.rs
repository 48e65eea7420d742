pub mod project_manager;
