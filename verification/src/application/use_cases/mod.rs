pub mod mission_operation;
pub mod mission_management;
pub mod social;
pub mod chat;
pub mod mission_chat;
pub mod rating;
pub mod brawlers;
pub mod authentication;
