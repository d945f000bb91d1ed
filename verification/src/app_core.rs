pub mod app;
pub mod command_manager;
pub mod command_runner;
pub mod configuration;
pub mod package_manager;
