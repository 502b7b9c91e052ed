//! A small daily-digest bot: scheduled tasks gather data from outside
//! services, turn it into HTML and mail it out.  This crate holds the
//! decisions of the bot (configuration, message text, task and scheduler
//! state machines, log stores); the program around it performs the I/O.
pub mod logger;
pub mod helper;
pub mod templates;
pub mod app;
pub mod task;
pub mod log;
pub mod normal;
