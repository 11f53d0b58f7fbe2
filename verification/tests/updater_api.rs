use selu::clock::Moment;
use selu::updater::api::{
    answer_check, answer_ensure, answer_stop, begin_apply, begin_rollback, end_apply,
    is_authorized, refuse_check, refuse_ensure, refuse_stop, rejected, update_status,
    user_friendly_whatsapp_bridge_error, whatsapp_bridge_chats, whatsapp_bridge_status,
};
use selu::updater::env_document::EnvDocument;
use selu::updater::storage::{
    build_storage_metadata, ensure_retention_deadline, storage_metadata, RunningImages,
};
use selu::updater::types::{
    ApplyRequest, CheckRequest, EnsureWhatsappBridgeRequest, ImageIdentity, InstalledImageState,
    RollbackRequest, RuntimeState, ServerConfig, StopWhatsappBridgeRequest, UpdaterConfig,
};

const DIGEST: &str = "sha256:aaaaaaaaaaaaaaaaaaaaaaaaaaaaaaaaaaaaaaaaaaaaaaaaaaaaaaaaaaaaaaaa";
const OTHER: &str = "sha256:bbbbbbbbbbbbbbbbbbbbbbbbbbbbbbbbbbbbbbbbbbbbbbbbbbbbbbbbbbbbbbbb";
const NOW: Moment = Moment { secs: 1_767_225_600, nanos: 0 };

fn apply(tag: &str) -> ApplyRequest {
    ApplyRequest {
        request_id: "j".to_string(),
        channel: "stable".to_string(),
        target_tag: tag.to_string(),
        target_digest: DIGEST.to_string(),
        target_version: "2.0.0".to_string(),
        target_build: "42".to_string(),
    }
}

#[test]
fn the_secret_is_needed() {
    assert!(is_authorized("", None));
    assert!(is_authorized(" secret ", Some("secret")));
    assert!(!is_authorized("secret", Some("Secret")));
    assert!(!is_authorized("secret", None));
    assert!(!rejected("no").accepted);
}

#[test]
fn one_job_runs_at_a_time() {
    let mut runtime = RuntimeState::new();
    assert_eq!(begin_apply(false, &apply("stable"), &mut runtime).0, 401);
    assert_eq!(begin_apply(true, &apply(" "), &mut runtime).0, 400);
    let (code, ack) = begin_apply(true, &apply("stable"), &mut runtime);
    assert_eq!((code, ack.accepted), (202, true));
    assert_eq!(ack.message, Some("Applying stable from channel stable".to_string()));
    let (code, ack) = begin_apply(true, &apply("stable"), &mut runtime);
    assert_eq!((code, ack.accepted), (409, false));
    assert_eq!(ack.message, Some("Another update job is already running".to_string()));
    let rollback = RollbackRequest {
        request_id: "r".to_string(),
        channel: "stable".to_string(),
        rollback_tag: "stable".to_string(),
        rollback_digest: DIGEST.to_string(),
        rollback_version: String::new(),
        rollback_build: String::new(),
    };
    assert_eq!(begin_rollback(true, &rollback, &mut runtime).0, 409);
    end_apply(&mut runtime, &Err("broken".to_string()));
    assert_eq!(runtime.status, "failed");
    assert_eq!(begin_rollback(true, &rollback, &mut runtime).0, 202);
    assert_eq!(runtime.progress_key, "updates.progress.rollback_start");
}

#[test]
fn a_check_compares_digests() {
    let request = CheckRequest {
        request_id: "c".to_string(),
        channel: "stable".to_string(),
        target_tag: "stable".to_string(),
        target_digest: DIGEST.to_string(),
    };
    assert!(refuse_check(true, &request).is_none());
    assert_eq!(refuse_check(false, &request).unwrap().0, 401);
    let installed = |digest: &str| {
        Some(InstalledImageState {
            tag: "stable".to_string(),
            digest: digest.to_string(),
            image_id: String::new(),
        })
    };
    let (code, ack) = answer_check(&request, installed(OTHER));
    assert_eq!((code, ack.status.as_deref()), (200, Some("update_available")));
    let (_, ack) = answer_check(&request, installed(DIGEST));
    assert_eq!(ack.status.as_deref(), Some("idle"));
    assert_eq!(answer_check(&request, None).0, 500);
}

#[test]
fn the_bridge_is_asked_for_with_care() {
    let request = |channel: &str, url: &str| EnsureWhatsappBridgeRequest {
        request_id: "b".to_string(),
        channel: channel.to_string(),
        inbound_url: url.to_string(),
        inbound_token: "t".to_string(),
        outbound_auth: String::new(),
    };
    assert!(refuse_ensure(true, &request("stable", "u")).is_none());
    assert_eq!(refuse_ensure(true, &request(" ", "u")).unwrap().0, 400);
    assert_eq!(refuse_ensure(true, &request("stable", "")).unwrap().0, 400);
    assert_eq!(answer_ensure(&request("stable", "u"), &Ok(())).0, 200);
    let (code, ack) = answer_ensure(&request("stable", "u"), &Err("dial: Permission Denied".to_string()));
    assert_eq!(code, 500);
    assert_eq!(ack.message, Some("Could not start WhatsApp bridge: Docker permission denied for this user.".to_string()));
    assert_eq!(refuse_stop(false).unwrap().0, 401);
    let stop = StopWhatsappBridgeRequest { request_id: "s".to_string(), channel: "stable".to_string() };
    assert_eq!(answer_stop(&stop, &Ok(())).0, 200);
    for (error, shown) in [
        ("connection refused", "Could not start WhatsApp bridge: Docker is not running. Start Docker and try again."),
        ("manifest unknown", "Could not start WhatsApp bridge: bridge image could not be pulled."),
        ("invalid reference format", "Could not start WhatsApp bridge: invalid bridge image reference. Check UPDATER__WHATSAPP_BRIDGE_IMAGE_REPO."),
        ("other", "Could not start WhatsApp bridge. Please try again."),
    ] {
        assert_eq!(user_friendly_whatsapp_bridge_error(error), shown);
    }
    assert_eq!(whatsapp_bridge_status(true, Err("x".to_string())).0, 500);
    assert_eq!(whatsapp_bridge_chats(false, Err("x".to_string())).0, 401);
}

#[test]
fn the_status_names_what_is_installed() {
    let mut runtime = RuntimeState::new();
    runtime.set_runtime(Some("j".to_string()), "updating", "updates.progress.pulling", "Downloading image");
    let installed = InstalledImageState { tag: "stable".to_string(), digest: DIGEST.to_string(), image_id: String::new() };
    let (code, status) = update_status(true, &runtime, Some(installed), "2.0.0", "42");
    assert_eq!(code, 200);
    assert_eq!((status.status.as_str(), status.job_id.as_deref()), ("updating", Some("j")));
    assert_eq!(status.installed_digest.as_deref(), Some(DIGEST));
    assert_eq!(update_status(false, &runtime, None, "", "").0, 401);
}

fn config() -> UpdaterConfig {
    UpdaterConfig {
        server: ServerConfig { host: "0.0.0.0".to_string(), port: 8090 },
        shared_secret: String::new(),
        compose_file: "./docker-compose.yml".to_string(),
        compose_project_dir: String::new(),
        compose_service: "selu".to_string(),
        updater_service: "selu-updater".to_string(),
        compose_env_file: "./.env".to_string(),
        health_url: String::new(),
        health_timeout_secs: 90,
        health_interval_secs: 3,
        docker_bin: "docker".to_string(),
        image_repo: "ghcr.io/selu-bot/selu".to_string(),
        updater_tag_env_key: "SELU_UPDATER_IMAGE_TAG".to_string(),
        updater_pending_tag_env_key: "SELU_UPDATER_PENDING_TAG".to_string(),
        self_update_on_apply: false,
        whatsapp_bridge_enabled: false,
        whatsapp_bridge_image_repo: String::new(),
        whatsapp_bridge_container_name: String::new(),
        whatsapp_bridge_data_volume: String::new(),
        whatsapp_bridge_network: String::new(),
        whatsapp_bridge_port: 3200,
    }
}

fn images() -> RunningImages {
    RunningImages {
        installed: InstalledImageState {
            tag: "stable".to_string(),
            digest: DIGEST.to_string(),
            image_id: String::new(),
        },
        updater_service_image: "ghcr.io/selu-bot/selu-updater:stable".to_string(),
        updater_identity: Some(ImageIdentity {
            image_id: OTHER.to_string(),
            immutable_ref: format!("ghcr.io/selu-bot/selu-updater@{OTHER}"),
        }),
    }
}

#[test]
fn protected_images_are_exact_and_keep_their_deadline() {
    let mut document = EnvDocument::parse(&format!(
        "SELU_ROLLBACK_IMAGE_REF=ghcr.io/selu-bot/selu@{OTHER}\n"
    ));
    let built = build_storage_metadata(&config(), "idle", false, &images(), &mut document, &NOW).unwrap();
    assert!(built.ready);
    assert_eq!(built.cleanup_block_reason, None);
    assert_eq!(built.managed_repositories.len(), 2);
    for entry in &built.protected_image_refs {
        assert!(entry.image_ref.contains("@sha256:"), "{}", entry.image_ref);
    }
    let deadline = document.value("SELU_ROLLBACK_IMAGE_RETAIN_UNTIL");
    assert!(chrono::DateTime::parse_from_rfc3339(&deadline).is_ok());
    let later = Moment { secs: NOW.secs + 86_400, nanos: 0 };
    build_storage_metadata(&config(), "idle", false, &images(), &mut document, &later).unwrap();
    assert_eq!(document.value("SELU_ROLLBACK_IMAGE_RETAIN_UNTIL"), deadline);
    let busy = build_storage_metadata(&config(), "updating", true, &images(), &mut document, &later).unwrap();
    assert!(busy.cleanup_block_reason.is_some());
    let shown = storage_metadata(Ok(busy), "now".to_string());
    assert_eq!(shown.generated_at, Some("now".to_string()));
}

#[test]
fn images_that_are_not_exact_are_refused() {
    let mut document = EnvDocument::parse("SELU_ROLLBACK_IMAGE_REF=ghcr.io/selu-bot/selu:stable\n");
    let built = build_storage_metadata(&config(), "idle", false, &images(), &mut document, &NOW);
    assert!(built.is_err());
    let closed = storage_metadata(built, "now".to_string());
    assert!(!closed.ready && closed.protected_image_refs.is_empty());
    let mut unknown = images();
    unknown.updater_identity = None;
    let mut document = EnvDocument::parse("");
    assert_eq!(
        build_storage_metadata(&config(), "idle", false, &unknown, &mut document, &NOW).err(),
        Some("Could not inspect the running updater image".to_string())
    );
}

#[test]
fn a_deadline_is_set_once() {
    let mut document = EnvDocument::parse("");
    let first = ensure_retention_deadline(&mut document, "KEY", "image", 30, &NOW);
    let again = ensure_retention_deadline(&mut document, "KEY", "image", 60, &NOW);
    assert_eq!(first, again);
    assert_eq!(document.value("KEY"), first);
    assert_eq!(
        first,
        chrono::DateTime::from_timestamp(NOW.secs + 30 * 86_400, 0).unwrap().to_rfc3339()
    );
}
