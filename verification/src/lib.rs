//! Verified core of an HTTP-CONNECT / SOCKS5 tunnelling proxy and of its companion
//! Telegram bot: request parsing, access decisions, protocol state machines and the
//! texts that the bot sends.
//!
//! The proxy: [`server`] (settings, the first decision on a connection), [`http`]
//! (headers, the `CONNECT` line, the access rule), [`socks5`] (the negotiation as a state
//! machine) and [`target`] (splitting `host:port`).
//! The bot: [`commands`] (what a message asks for), [`quota`] (masking numbers, the quota
//! report), [`vpn`] (the configurations handed out) and [`bot`] (texts, filing, tallies).
//! Shared: [`text`] and [`numbers`]; [`outside`] holds the calls into std and the outside
//! crates whose contracts are trusted.

pub mod bot;
pub mod commands;
pub mod http;
pub mod numbers;
pub mod outside;
pub mod quota;
pub mod server;
pub mod socks5;
pub mod target;
pub mod text;
pub mod vpn;
