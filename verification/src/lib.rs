//! The update service and the web layer of a self-hosted assistant: their
//! rules, decisions and texts.
pub mod clock;
pub mod text;
pub mod updater;
pub mod web;
