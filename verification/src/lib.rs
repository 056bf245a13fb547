//! Core logic of a terminal client for a link-aggregation service:
//! fetch-URL construction, listing filtering with pagination cursors,
//! and the keyboard-driven navigation state machine.

pub mod app;
pub mod config;
pub mod filter;
pub mod list;
pub mod post;
pub mod render;
pub mod url;
