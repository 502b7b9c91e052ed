//! The data shown by the bot's HTML mail pages.
pub mod error;
pub mod normal;
