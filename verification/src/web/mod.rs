//! The web layer: what its pages show, what its forms decide, and where its
//! requests lead.
pub mod agent_detail;
pub mod agent_entries;
pub mod agent_settings;
pub mod agent_setup;
pub mod agent_updates;
pub mod agents;
pub mod auth;
pub mod base_path;
pub mod cache;
pub mod chat;
pub mod config;
pub mod confirmations;
pub mod credentials;
pub mod feedback;
pub mod html;
pub mod ids;
pub mod integrations;
pub mod mobile;
pub mod order;
pub mod password;
pub mod people;
pub mod permissions;
pub mod personality;
pub mod pipes;
pub mod providers;
pub mod response;
pub mod schedules;
pub mod spa;
pub mod subscriptions;
pub mod system_updates;
pub mod telegram;
pub mod text_map;
pub mod turn;
pub mod update_run;
pub mod url;
pub mod users;
pub mod whatsapp;
