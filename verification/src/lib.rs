//! Command dispatch and spreadsheet-backend core of a finance chat bot.
//!
//! The crate holds the pure part of the bot: resolving commands to handlers,
//! turning raw spreadsheet cells into a typed [`status::Status`], and rendering
//! replies. Network and transport work is left to the embedding program.

pub mod backend;
pub mod cell;
pub mod command;
pub mod config;
pub mod controller;
pub mod decimal;
pub mod dispatch;
pub mod failure;
pub mod sheets;
pub mod status;
pub mod table;
pub mod text;
