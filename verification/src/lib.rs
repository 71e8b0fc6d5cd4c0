//! Rengo: the decision logic of an anime-list Discord bot, with its contracts.
pub mod text;
pub mod json;
pub mod commands;
pub mod interactions;
pub mod utils;
pub mod laws;
