pub mod approval;
pub mod command_tools;
pub mod file_tools;
pub mod git_tools;
pub mod registry;
