pub mod brawlers;
pub mod chat_messages;
pub mod friendships;
pub mod mission_chat;
pub mod mission_invitations;
pub mod missions;
pub mod ratings;
