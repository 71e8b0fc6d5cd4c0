//! What the bot answers to slash commands and to clicks on its components.
pub mod anime_id;
pub mod command;
pub mod component;
