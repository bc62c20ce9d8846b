//! Domain logic of the brawlers' mission server: validation of missions,
//! crews, friendships, invitations, ratings and chats, written as verified
//! functions over plain values and repository traits.
pub mod text;
pub mod domain;
pub mod decimal;
pub mod infrastructure;
pub mod application;
pub mod config;
