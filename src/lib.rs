//! Jester: the verified core of a guild chat bot.
//!
//! The heart of the library is the reaction-threshold relay engine (the
//! "starboard"): it filters reaction events, resolves a guild's configuration,
//! counts the current star reactions, and decides whether the relayed copy of a
//! message is created, edited, withdrawn or left alone. Around it stand the
//! store of watched relays with its expiry sweep, the text helpers that the
//! command layer uses, and the bot's plain data records.

pub mod text;
pub mod words;
pub mod command_utils;
pub mod errors;
pub mod records;
pub mod state;
pub mod reaction;
pub mod config;
pub mod content;
pub mod relay;
pub mod store;
pub mod laws;
pub mod wizard;
pub mod dispatch;
