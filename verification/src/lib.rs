//! Verified core of a terminal chat client for the Hermes agent.

pub mod api;
pub mod app;
pub mod commands;
pub mod editing;
pub mod event;
pub mod keys;
pub mod laws;
pub mod sessions;
pub mod stream;
pub mod text;
pub mod ui;
