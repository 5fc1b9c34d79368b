//! Synchronisation hub of a shared virtual tabletop: the canonical table
//! state, the registry of connected players and the rules that decide which
//! client learns what after each event.
pub mod laws;
pub mod notification;
pub mod table;
pub mod ws;
