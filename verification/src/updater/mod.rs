//! The update service: the environment file, image references, update jobs and
//! the container of the message bridge.
pub mod api;
pub mod apply_job;
pub mod bridge;
pub mod bridge_job;
pub mod bridge_stop;
pub mod compose;
pub mod env_document;
pub mod env_writes;
pub mod health;
pub mod image_ref;
pub mod images;
pub mod jobs;
pub mod refresh_job;
pub mod rollback_job;
pub mod runtime;
pub mod storage;
pub mod types;
