//! Verified core of a terminal dashboard for a role-playing game session.
//!
//! The library computes everything a frame shows — derived stat percentages,
//! the proportional panel layout, and the text content of every panel — as
//! verified pure functions. Device I/O (acquiring the terminal, committing a
//! composed frame, reading keys) is left to the surrounding driver, which
//! feeds plain values in and draws the returned panels.

pub mod compose;
pub mod game;
pub mod layout;
pub mod panel;
pub mod session;
pub mod stats;
pub mod text;
