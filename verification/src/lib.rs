//! Core of a single-command weather chat bot.
//!
//! A message whose text starts with the trigger token `!clima` names a city;
//! the bot queries a weather provider for that city's current conditions and
//! posts a formatted reply to the originating channel. This crate holds the
//! whole decision core as pure, verified functions: trigger detection and
//! city extraction, request-URL construction, decoding of the provider's
//! JSON payload, and reply construction. The surrounding process (the chat
//! gateway, the HTTP call, configuration) hands these functions plain values
//! and performs the effects they decide on.

pub mod command;
pub mod decode;
pub mod handler;
pub mod reply;
pub mod text;
