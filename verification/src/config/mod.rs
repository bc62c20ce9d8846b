pub mod config_loader;
pub mod config_model;
