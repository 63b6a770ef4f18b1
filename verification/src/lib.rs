//! The decision core of a small Discord bot: configuration, identity,
//! command dispatch, log lines, gateway subscriptions and the startup and
//! shutdown protocol, each as a function from plain values to plain values.

pub mod client;
pub mod commands;
pub mod config;
pub mod events;
pub mod identity;
pub mod intents;
pub mod lifecycle;
pub mod logging;
pub mod text;
