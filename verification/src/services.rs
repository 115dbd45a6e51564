//! The two services: the keeper of the bot record and the registry of workers.

pub mod bot;
pub mod worker;
