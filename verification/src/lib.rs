//! Decisions of a Discord gateway for Codex: which messages it reads, what a
//! `/codex` command asks of Codex, what it answers, and how long texts are cut
//! to fit Discord's message size.
pub mod commands;
pub mod config;
pub mod handler;
pub mod output;
pub mod registration;
pub mod text;
pub mod typing;
pub mod visibility;
