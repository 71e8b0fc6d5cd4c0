//! The bot's slash commands: how they are registered and what they compute.
pub mod anime;
pub mod show;
