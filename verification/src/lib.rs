//! Session and cache engine for a SQL language server.
//!
//! The library keeps an in-memory schema snapshot consistent with a live,
//! externally mutable database, and resolves cursor positions in open SQL
//! documents against that snapshot. Everything here is pure logic over plain
//! values: the surrounding process performs the actual connection, listening
//! and transport work and feeds events into these verified functions.

pub mod commands;
pub mod db;
pub mod diagnostics;
pub mod hover;
pub mod resolve;
pub mod schema;
pub mod session;
pub mod strutil;
pub mod text;
