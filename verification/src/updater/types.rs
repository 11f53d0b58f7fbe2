//! What the update service is configured with, asked and answers.
use vstd::prelude::*;

verus! {

/// The address that the service listens on.
#[derive(Debug, Clone)]
pub struct ServerConfig {
    pub host: String,
    pub port: u16,
}

/// The configuration of the update service.
#[derive(Debug, Clone)]
pub struct UpdaterConfig {
    pub server: ServerConfig,
    pub shared_secret: String,
    pub compose_file: String,
    pub compose_project_dir: String,
    pub compose_service: String,
    pub updater_service: String,
    pub compose_env_file: String,
    pub health_url: String,
    pub health_timeout_secs: u64,
    pub health_interval_secs: u64,
    pub docker_bin: String,
    pub image_repo: String,
    pub updater_tag_env_key: String,
    pub updater_pending_tag_env_key: String,
    pub self_update_on_apply: bool,
    pub whatsapp_bridge_enabled: bool,
    pub whatsapp_bridge_image_repo: String,
    pub whatsapp_bridge_container_name: String,
    pub whatsapp_bridge_data_volume: String,
    pub whatsapp_bridge_network: String,
    pub whatsapp_bridge_port: u16,
}

/// The image that the assistant runs from.
#[derive(Debug, Clone)]
pub struct InstalledImageState {
    pub tag: String,
    pub digest: String,
    pub image_id: String,
}

/// An image by its ID and by a reference that cannot come to mean another one.
#[derive(Debug, Clone)]
pub struct ImageIdentity {
    pub image_id: String,
    pub immutable_ref: String,
}

/// An image that the assistant can be set back to.
#[derive(Debug, Clone)]
pub struct RollbackRoot {
    pub display_tag: String,
    pub compose_tag: String,
    pub digest: String,
    pub version: String,
    pub build: String,
    pub image_id: String,
    pub immutable_ref: String,
}

/// What the service is doing, and the versions it knows of.
#[derive(Debug, Clone)]
pub struct RuntimeState {
    pub active_job_id: Option<String>,
    pub status: String,
    pub progress_key: String,
    pub message: String,
    pub installed_tag: String,
    pub installed_digest: String,
    pub installed_version: String,
    pub installed_build: String,
    pub previous_tag: String,
    pub previous_digest: String,
    pub previous_version: String,
    pub previous_build: String,
}

#[derive(Debug, Clone)]
pub struct CheckRequest {
    pub request_id: String,
    pub channel: String,
    pub target_tag: String,
    pub target_digest: String,
}

#[derive(Debug, Clone)]
pub struct ApplyRequest {
    pub request_id: String,
    pub channel: String,
    pub target_tag: String,
    pub target_digest: String,
    pub target_version: String,
    pub target_build: String,
}

#[derive(Debug, Clone)]
pub struct RollbackRequest {
    pub request_id: String,
    pub channel: String,
    pub rollback_tag: String,
    pub rollback_digest: String,
    pub rollback_version: String,
    pub rollback_build: String,
}

#[derive(Debug, Clone)]
pub struct EnsureWhatsappBridgeRequest {
    pub request_id: String,
    pub channel: String,
    pub inbound_url: String,
    pub inbound_token: String,
    pub outbound_auth: String,
}

#[derive(Debug, Clone)]
pub struct StopWhatsappBridgeRequest {
    pub request_id: String,
    pub channel: String,
}

#[derive(Debug, Clone)]
pub struct WhatsappBridgeStatusResponse {
    pub running: bool,
    pub connection_state: Option<String>,
    pub requires_qr: bool,
    pub qr_data_url: Option<String>,
    pub jid: Option<String>,
    pub last_error: Option<String>,
    pub message: Option<String>,
}

#[derive(Debug, Clone)]
pub struct WhatsappBridgeChat {
    pub sender_ref: String,
    pub chat_ref: String,
    pub label: String,
}

#[derive(Debug, Clone)]
pub struct WhatsappBridgeChatsResponse {
    pub running: bool,
    pub connection_state: Option<String>,
    pub chats: Vec<WhatsappBridgeChat>,
    pub message: Option<String>,
}

#[derive(Debug, Clone)]
pub struct AckResponse {
    pub accepted: bool,
    pub job_id: Option<String>,
    pub status: Option<String>,
    pub progress_key: Option<String>,
    pub message: Option<String>,
}

#[derive(Debug, Clone)]
pub struct StatusResponse {
    pub status: String,
    pub progress_key: Option<String>,
    pub message: Option<String>,
    pub job_id: Option<String>,
    pub installed_tag: Option<String>,
    pub installed_digest: Option<String>,
    pub installed_version: Option<String>,
    pub installed_build: Option<String>,
    pub previous_tag: Option<String>,
    pub previous_digest: Option<String>,
    pub previous_version: Option<String>,
    pub previous_build: Option<String>,
}

/// An image that a clean-up must keep, and until when.
#[derive(Debug, Clone)]
pub struct ProtectedImageRef {
    pub image_ref: String,
    pub owner: String,
    pub state: String,
    pub retain_until: Option<String>,
}

/// What a clean-up of images may and may not touch.
#[derive(Debug, Clone)]
pub struct StorageMetadata {
    pub ready: bool,
    pub generated_at: Option<String>,
    pub cleanup_block_reason: Option<String>,
    pub managed_repositories: Vec<String>,
    pub protected_image_refs: Vec<ProtectedImageRef>,
}

} // verus!
