use selu::clock::Moment;
use selu::updater::apply_job::{ApplyJob, ApplyStage};
use selu::updater::bridge::{
    bridge_base_urls, bridge_is_running, bridge_plan, bridge_run_args, image_repo_has_tag,
    is_bind_mount_source, may_clear_after_removal, resolve_whatsapp_bridge_image_ref,
    should_pull_whatsapp_bridge_image, stop_plan, volume_is_gone,
};
use selu::updater::bridge_job::{BridgeAction, BridgeJob, BridgeReply, BridgeStage};
use selu::updater::compose::{
    build_compose_shell_args, build_self_restart_helper_script, compose_command,
    detect_compose_network, own_container_id, recreate_service_without_pull, restart_helper_name,
    shell_quote, updater_service_image,
};
use selu::updater::bridge_stop::{BridgeStop, StopAction};
use selu::updater::env_document::EnvDocument;
use selu::updater::env_writes::{EnvWrite, WriteAction, WriteReply};
use selu::updater::health::{after_probe, before_probe, HealthStep};
use selu::updater::image_ref::{
    canonical_sha256_digest, extract_tag_from_image_ref, immutable_image_plan, immutable_image_ref,
    managed_repository, repo_digest_for_repository, repository_from_image_ref,
    validate_exact_protected_ref, ImmutableImagePlan,
};
use selu::updater::images::{
    activate_image_env, captured_root, container_id, image_identity, installed_image_state,
    persist_rollback_root, verify_local_digest, RunningContainer,
};
use selu::updater::jobs::{Action, Reply};
use selu::updater::refresh_job::{
    maybe_refresh_updater_sidecar, pending_note, RefreshAction, RefreshDecision, RefreshJob,
    RefreshReply, RefreshStage,
};
use selu::updater::rollback_job::{RollbackJob, RollbackStage};
use selu::updater::types::{
    ApplyRequest, ImageIdentity, InstalledImageState, RollbackRequest, RollbackRoot, RuntimeState,
    ServerConfig, UpdaterConfig,
};

const DIGEST_A: &str = "sha256:aaaaaaaaaaaaaaaaaaaaaaaaaaaaaaaaaaaaaaaaaaaaaaaaaaaaaaaaaaaaaaaa";
const DIGEST_B: &str = "sha256:bbbbbbbbbbbbbbbbbbbbbbbbbbbbbbbbbbbbbbbbbbbbbbbbbbbbbbbbbbbbbbbb";

fn test_config() -> UpdaterConfig {
    UpdaterConfig {
        server: ServerConfig {
            host: "0.0.0.0".to_string(),
            port: 8090,
        },
        shared_secret: String::new(),
        compose_file: "./docker-compose.yml".to_string(),
        compose_project_dir: String::new(),
        compose_service: "selu".to_string(),
        updater_service: "selu-updater".to_string(),
        compose_env_file: "./.env".to_string(),
        health_url: "http://127.0.0.1:3000/api/health".to_string(),
        health_timeout_secs: 90,
        health_interval_secs: 3,
        docker_bin: "docker".to_string(),
        image_repo: "ghcr.io/selu-bot/selu".to_string(),
        updater_tag_env_key: "SELU_UPDATER_IMAGE_TAG".to_string(),
        updater_pending_tag_env_key: "SELU_UPDATER_PENDING_TAG".to_string(),
        self_update_on_apply: false,
        whatsapp_bridge_enabled: true,
        whatsapp_bridge_image_repo: "ghcr.io/selu-bot/selu-whatsapp-bridge".to_string(),
        whatsapp_bridge_container_name: "selu-whatsapp-bridge".to_string(),
        whatsapp_bridge_data_volume: "selu-whatsapp-bridge-data".to_string(),
        whatsapp_bridge_network: String::new(),
        whatsapp_bridge_port: 3200,
    }
}

fn rollback_root() -> RollbackRoot {
    RollbackRoot {
        display_tag: "stable".to_string(),
        compose_tag: format!("selu-rollback-{}", DIGEST_A.trim_start_matches("sha256:")),
        digest: DIGEST_A.to_string(),
        version: "1.0.0".to_string(),
        build: "test".to_string(),
        image_id: DIGEST_A.to_string(),
        immutable_ref: format!("ghcr.io/selu-bot/selu@{DIGEST_A}"),
    }
}

fn apply_request() -> ApplyRequest {
    ApplyRequest {
        request_id: "job-1".to_string(),
        channel: "stable".to_string(),
        target_tag: "stable".to_string(),
        target_digest: DIGEST_B.to_string(),
        target_version: "2.0.0".to_string(),
        target_build: "42".to_string(),
    }
}

/// An update whose new image was started and did not get well.
fn failed_update(runtime: &mut RuntimeState) -> ApplyJob {
    let mut job = ApplyJob::start(&apply_request()).expect("the digest is good");
    job.step(Reply::Root(rollback_root()), runtime);
    for _ in 0..3 {
        job.step(Reply::Done, runtime);
    }
    assert!(job.stage == ApplyStage::CaptureTarget);
    job.step(Reply::Root(target_root()), runtime);
    assert!(job.stage == ApplyStage::Start);
    job.step(Reply::Done, runtime);
    job.step(Reply::Failed("Health check timed out".to_string()), runtime);
    assert!(job.stage == ApplyStage::Revert);
    job
}

fn target_root() -> RollbackRoot {
    RollbackRoot {
        display_tag: "stable".to_string(),
        compose_tag: format!("selu-rollback-{}", DIGEST_B.trim_start_matches("sha256:")),
        digest: DIGEST_B.to_string(),
        version: "2.0.0".to_string(),
        build: "42".to_string(),
        image_id: DIGEST_B.to_string(),
        immutable_ref: format!("ghcr.io/selu-bot/selu@{DIGEST_B}"),
    }
}

fn finished(action: Action) -> Result<(), String> {
    match action {
        Action::Finish(r) => r,
        _ => panic!("the job is not over"),
    }
}

#[test]
fn resolves_whatsapp_bridge_image_with_channel_tag() {
    let image =
        resolve_whatsapp_bridge_image_ref("ghcr.io/selu-bot/selu-whatsapp-bridge", "stable")
            .expect("image should resolve");
    assert_eq!(image, "ghcr.io/selu-bot/selu-whatsapp-bridge:stable");
}

#[test]
fn keeps_existing_whatsapp_bridge_image_tag() {
    let image =
        resolve_whatsapp_bridge_image_ref("ghcr.io/selu-bot/selu-whatsapp-bridge:1.2.3", "x")
            .expect("image should resolve");
    assert_eq!(image, "ghcr.io/selu-bot/selu-whatsapp-bridge:1.2.3");
}

#[test]
fn pulls_registry_backed_whatsapp_bridge_images() {
    assert!(should_pull_whatsapp_bridge_image(
        "ghcr.io/selu-bot/selu-whatsapp-bridge:stable"
    ));
    assert!(should_pull_whatsapp_bridge_image(
        "ghcr.io/selu-bot/selu-whatsapp-bridge@sha256:abc"
    ));
    assert!(!should_pull_whatsapp_bridge_image(
        "selu-whatsapp-bridge:stable"
    ));
}

#[test]
fn exact_repository_digest_matching_rejects_same_digest_from_other_repo() {
    let output = format!("ghcr.io/attacker/selu@{DIGEST_A}\nghcr.io/selu-bot/selu@{DIGEST_B}\n");
    assert_eq!(
        repo_digest_for_repository(&output, "ghcr.io/selu-bot/selu:stable"),
        Some(DIGEST_B.to_string())
    );
    assert_ne!(
        repo_digest_for_repository(&output, "ghcr.io/selu-bot/selu"),
        Some(DIGEST_A.to_string())
    );
    assert_eq!(
        repo_digest_for_repository(
            &format!("ghcr.io/attacker/selu@{DIGEST_A}"),
            "ghcr.io/selu-bot/selu"
        ),
        None
    );
}

#[test]
fn manual_rollback_plan_never_uses_mutable_channel_tag() {
    let plan = immutable_image_plan("ghcr.io/selu-bot/selu:stable", DIGEST_A)
        .expect("plan should be valid");
    assert_eq!(
        plan,
        ImmutableImagePlan {
            pull_ref: format!("ghcr.io/selu-bot/selu@{DIGEST_A}"),
            local_ref: format!(
                "ghcr.io/selu-bot/selu:selu-rollback-{}",
                DIGEST_A.trim_start_matches("sha256:")
            ),
            compose_tag: format!("selu-rollback-{}", DIGEST_A.trim_start_matches("sha256:")),
        }
    );
    assert!(!plan.pull_ref.ends_with(":stable"));
}

#[test]
fn helper_script_marks_restart_window_and_disables_pull() {
    let script = build_self_restart_helper_script(&test_config(), "abc123");

    assert!(script.contains("trap clear_helper_flag EXIT"));
    assert!(script.contains("SELU_UPDATER_RESTART_HELPER_ACTIVE=false"));
    assert!(script.contains("docker stop 'abc123'"));
    assert!(script.contains("docker rm -f 'abc123'"));
    assert!(script.contains(
        "docker compose -f './docker-compose.yml' --env-file './.env' rm -f -s 'selu-updater'"
    ));
    assert!(script.contains(
        "docker compose -f './docker-compose.yml' --env-file './.env' up -d --no-deps --force-recreate --pull never 'selu-updater'"
    ));
}

#[test]
fn automatic_rollback_propagates_recreate_failure() {
    let mut runtime = RuntimeState::new();
    let mut job = failed_update(&mut runtime);
    job.step(Reply::Done, &mut runtime);
    let Action::Compose(args) = job.action(&test_config()) else {
        panic!("the image that ran before is recreated");
    };
    assert!(args.join(" ").contains("--pull never"));
    job.step(Reply::Failed("exit 42".to_string()), &mut runtime);
    let error = finished(job.action(&test_config())).expect_err("recreate failure must propagate");
    assert!(error.contains("Failed to recreate"));
    assert_eq!(
        error,
        "Update failed (Health check timed out); automatic rollback also failed: \
         Failed to recreate the captured rollback image: exit 42"
    );
}

#[test]
fn automatic_rollback_propagates_restored_health_failure() {
    let mut runtime = RuntimeState::new();
    let mut job = failed_update(&mut runtime);
    job.step(Reply::Done, &mut runtime);
    let Action::Compose(args) = job.action(&test_config()) else {
        panic!("the image that ran before is recreated");
    };
    assert!(args.join(" ").contains("--pull never"));
    job.step(Reply::Done, &mut runtime);
    assert!(matches!(job.action(&test_config()), Action::WaitForHealth));
    job.step(Reply::Failed("Health check timed out".to_string()), &mut runtime);
    let error = finished(job.action(&test_config()))
        .expect_err("restored image health failure must propagate");
    assert!(error.contains("failed its health check"));
}

#[test]
fn an_update_that_did_not_work_is_undone() {
    let mut runtime = RuntimeState::new();
    let mut job = failed_update(&mut runtime);
    let Action::WriteImageEnv { tag, digest, .. } = job.action(&test_config()) else {
        panic!("the image that ran before is written");
    };
    assert_eq!(tag, rollback_root().compose_tag);
    assert_eq!(digest, DIGEST_A);
    for _ in 0..4 {
        job.step(Reply::Done, &mut runtime);
    }
    assert!(job.stage == ApplyStage::Reverted);
    assert_eq!(finished(job.action(&test_config())), Ok(()));
    assert_eq!(runtime.status, "rollback_available");
    assert_eq!(runtime.active_job_id, None);
    assert_eq!(runtime.installed_digest, DIGEST_A);
    assert_eq!(runtime.previous_digest, DIGEST_B);
}

#[test]
fn an_update_that_works_frees_the_service() {
    let mut runtime = RuntimeState::new();
    let mut job = ApplyJob::start(&apply_request()).unwrap();
    job.step(Reply::Root(rollback_root()), &mut runtime);
    assert_eq!(runtime.active_job_id, Some("job-1".to_string()));
    assert_eq!(runtime.progress_key, "updates.progress.preparing");
    for _ in 0..3 {
        job.step(Reply::Done, &mut runtime);
    }
    job.step(Reply::Root(target_root()), &mut runtime);
    for _ in 0..3 {
        job.step(Reply::Done, &mut runtime);
    }
    assert!(job.stage == ApplyStage::Refresh);
    job.step(Reply::Failed("no helper".to_string()), &mut runtime);
    assert!(job.stage == ApplyStage::Updated);
    assert_eq!(finished(job.action(&test_config())), Ok(()));
    assert_eq!(runtime.status, "idle");
    assert_eq!(runtime.active_job_id, None);
    assert_eq!(runtime.installed_version, "2.0.0");
    assert_eq!(runtime.previous_version, "1.0.0");
}

#[test]
fn a_version_that_runs_already_is_left_alone() {
    let mut runtime = RuntimeState::new();
    let mut job = ApplyJob::start(&apply_request()).unwrap();
    job.step(Reply::Root(target_root()), &mut runtime);
    assert!(job.stage == ApplyStage::Current);
    assert_eq!(runtime.message, "You are already on the latest version.");
}

#[test]
fn an_early_failure_puts_the_running_image_back() {
    let mut runtime = RuntimeState::new();
    let mut job = ApplyJob::start(&apply_request()).unwrap();
    job.step(Reply::Root(rollback_root()), &mut runtime);
    job.step(Reply::Done, &mut runtime);
    job.step(Reply::Failed("no such image".to_string()), &mut runtime);
    let Action::WriteImageEnv { digest, .. } = job.action(&test_config()) else {
        panic!("the running image is written");
    };
    assert_eq!(digest, DIGEST_A);
    job.step(Reply::Done, &mut runtime);
    assert_eq!(
        finished(job.action(&test_config())),
        Err("no such image".to_string())
    );
}

#[test]
fn a_bad_digest_starts_no_job() {
    let mut request = apply_request();
    request.target_digest = "sha256:abc".to_string();
    let error = ApplyJob::start(&request).err().expect("the digest is short");
    assert_eq!(canonical_sha256_digest("sha256:abc"), Err(error));
}

fn rollback_request() -> RollbackRequest {
    RollbackRequest {
        request_id: "job-2".to_string(),
        channel: "stable".to_string(),
        rollback_tag: "stable".to_string(),
        rollback_digest: DIGEST_A.to_string(),
        rollback_version: "1.0.0".to_string(),
        rollback_build: "7".to_string(),
    }
}

#[test]
fn a_rollback_pulls_by_digest_and_restores_what_ran() {
    let config = test_config();
    let mut runtime = RuntimeState::new();
    let mut job = RollbackJob::start(&rollback_request(), &config.image_repo).unwrap();
    job.step(Reply::Root(target_root()), &mut runtime);
    let Action::Docker(args) = job.action(&config) else {
        panic!("the image is pulled");
    };
    assert_eq!(args, ["pull", &format!("ghcr.io/selu-bot/selu@{DIGEST_A}")]);
    job.step(Reply::Done, &mut runtime);
    job.step(Reply::Done, &mut runtime);
    job.step(
        Reply::Identity(ImageIdentity {
            image_id: "sha256:1d".to_string(),
            immutable_ref: format!("ghcr.io/selu-bot/selu@{DIGEST_A}"),
        }),
        &mut runtime,
    );
    let Action::Docker(args) = job.action(&config) else {
        panic!("the image is tagged");
    };
    assert_eq!(args[..3], ["image", "tag", "sha256:1d"]);
    for _ in 0..2 {
        job.step(Reply::Done, &mut runtime);
    }
    assert!(job.stage == RollbackStage::Recreate);
    job.step(Reply::Failed("exit 1".to_string()), &mut runtime);
    assert!(job.stage == RollbackStage::Restore);
    for _ in 0..3 {
        job.step(Reply::Done, &mut runtime);
    }
    assert_eq!(
        finished(job.action(&config)),
        Err("Manual rollback failed and the prior running version was restored: exit 1".to_string())
    );
}

#[test]
fn a_rollback_that_works_knows_both_versions() {
    let config = test_config();
    let mut runtime = RuntimeState::new();
    let mut job = RollbackJob::start(&rollback_request(), &config.image_repo).unwrap();
    job.step(Reply::Root(target_root()), &mut runtime);
    job.step(Reply::Done, &mut runtime);
    job.step(Reply::Done, &mut runtime);
    job.step(
        Reply::Identity(ImageIdentity {
            image_id: "sha256:1d".to_string(),
            immutable_ref: String::new(),
        }),
        &mut runtime,
    );
    for _ in 0..5 {
        job.step(Reply::Done, &mut runtime);
    }
    assert!(job.stage == RollbackStage::RolledBack);
    assert_eq!(runtime.status, "idle");
    assert_eq!(runtime.installed_version, "1.0.0");
    assert_eq!(runtime.previous_version, "2.0.0");
}

#[test]
fn rollback_metadata_is_one_exact_group_and_preserves_the_env_file() {
    let mut document = EnvDocument::parse(&format!(
        "# keep this comment\nUNRELATED=value\nSELU_ROLLBACK_IMAGE_REF=ghcr.io/selu-bot/selu@{DIGEST_A}\nSELU_ROLLBACK_IMAGE_ID={DIGEST_A}\nSELU_ROLLBACK_IMAGE_TAG=old\nSELU_ROLLBACK_IMAGE_DIGEST={DIGEST_A}\nSELU_ROLLBACK_IMAGE_RETAIN_UNTIL=2027-01-01T00:00:00Z\n"
    ));
    let failed_target = RollbackRoot {
        display_tag: "failed".to_string(),
        compose_tag: format!("selu-rollback-{}", DIGEST_B.trim_start_matches("sha256:")),
        digest: DIGEST_B.to_string(),
        version: "2.0.0".to_string(),
        build: "failed-build".to_string(),
        image_id: DIGEST_B.to_string(),
        immutable_ref: format!("ghcr.io/selu-bot/selu@{DIGEST_B}"),
    };
    let now = Moment { secs: 1_800_000_000, nanos: 0 };

    persist_rollback_root(&mut document, &failed_target, &now);

    let content = document.render();
    let document = EnvDocument::parse(&content);
    assert!(content.contains("# keep this comment\nUNRELATED=value\n"));
    assert_eq!(
        document.value("SELU_ROLLBACK_IMAGE_REF"),
        format!("ghcr.io/selu-bot/selu@{DIGEST_B}")
    );
    assert_eq!(document.value("SELU_ROLLBACK_IMAGE_ID"), DIGEST_B);
    assert_eq!(
        document.value("SELU_ROLLBACK_IMAGE_TAG"),
        failed_target.compose_tag
    );
    assert_eq!(document.value("SELU_ROLLBACK_IMAGE_DIGEST"), DIGEST_B);
    assert!(chrono::DateTime::parse_from_rfc3339(
        &document.value("SELU_ROLLBACK_IMAGE_RETAIN_UNTIL")
    )
    .is_ok());
}

#[test]
fn concurrent_group_writers_never_publish_half_a_reference_set() {
    let mut content = "UNRELATED=preserved\nCURRENT=seed\nPREVIOUS=seed\n".to_string();
    let mut writers: Vec<EnvWrite> = (0..64)
        .map(|index| {
            let generation = format!("generation-{index}");
            EnvWrite::start(vec![
                ("CURRENT".to_string(), generation.clone()),
                ("PREVIOUS".to_string(), generation),
            ])
        })
        .collect();
    let mut holder: Option<usize> = None;
    let mut published = 0;
    let mut done = vec![false; 64];
    let mut turn: u64 = 1;
    while !done.iter().all(|d| *d) {
        turn = turn.wrapping_mul(6364136223846793005).wrapping_add(1442695040888963407);
        let index = (turn >> 33) as usize % 64;
        let reply = match writers[index].action() {
            WriteAction::Lock if holder.is_some() => continue,
            WriteAction::Lock => {
                holder = Some(index);
                WriteReply::Done
            }
            WriteAction::Read => {
                assert_eq!(holder, Some(index));
                WriteReply::Content(content.clone())
            }
            WriteAction::Publish(next) => {
                content = next;
                published += 1;
                let document = EnvDocument::parse(&content);
                assert_eq!(document.value("CURRENT"), format!("generation-{index}"));
                WriteReply::Done
            }
            WriteAction::Unlock => {
                holder = None;
                WriteReply::Done
            }
            WriteAction::Finish(outcome) => {
                assert_eq!(outcome, Ok(()));
                done[index] = true;
                continue;
            }
        };
        writers[index].step(reply);
        let document = EnvDocument::parse(&content);
        assert_eq!(document.value("CURRENT"), document.value("PREVIOUS"));
        assert_eq!(document.value("UNRELATED"), "preserved");
    }
    assert_eq!(published, 64);
}

#[test]
fn a_writer_that_fails_gives_the_lock_back() {
    let mut writer = EnvWrite::start(vec![("A".to_string(), "1".to_string())]);
    writer.step(WriteReply::Done);
    writer.step(WriteReply::Content("A=0\n".to_string()));
    assert!(matches!(writer.action(), WriteAction::Publish(c) if c == "A=1\n"));
    writer.step(WriteReply::Failed("full".to_string()));
    assert!(matches!(writer.action(), WriteAction::Unlock));
    writer.step(WriteReply::Done);
    assert!(matches!(writer.action(), WriteAction::Finish(Err(e)) if e == "full"));
    let mut idle = EnvWrite::start(vec![("A".to_string(), "1".to_string())]);
    idle.step(WriteReply::Done);
    idle.step(WriteReply::Content("A=1\n".to_string()));
    assert!(matches!(idle.action(), WriteAction::Unlock));
}

#[test]
fn compose_shell_args_quote_project_directory() {
    let mut cfg = test_config();
    cfg.compose_file = "/tmp/dir with spaces/docker-compose.yml".to_string();
    cfg.compose_env_file = "/tmp/dir with spaces/.env".to_string();
    cfg.compose_project_dir = "/tmp/dir with spaces".to_string();

    let args = build_compose_shell_args(&cfg);
    assert_eq!(
        args,
        "-f '/tmp/dir with spaces/docker-compose.yml' --env-file '/tmp/dir with spaces/.env' --project-directory '/tmp/dir with spaces'"
    );
}

#[test]
fn extracts_tag_only_for_exact_repository() {
    assert_eq!(
        extract_tag_from_image_ref("ghcr.io/selu-bot/selu:unstable", "ghcr.io/selu-bot/selu"),
        Some("unstable".to_string())
    );
    assert_eq!(
        extract_tag_from_image_ref("localhost:5000/selu-bot/selu:dev", "ghcr.io/selu-bot/selu"),
        None
    );
}

#[test]
fn repositories_are_read_from_references() {
    assert_eq!(
        repository_from_image_ref("localhost:5000/selu:dev"),
        Some("localhost:5000/selu".to_string())
    );
    assert_eq!(
        repository_from_image_ref(&format!("ghcr.io/selu-bot/selu@{DIGEST_A}")),
        Some("ghcr.io/selu-bot/selu".to_string())
    );
    assert_eq!(repository_from_image_ref("  "), None);
    assert_eq!(
        managed_repository("ghcr.io/selu-bot/selu:stable"),
        Ok("ghcr.io/selu-bot/selu".to_string())
    );
    assert!(managed_repository("").is_err());
}

#[test]
fn digests_have_one_form() {
    let upper = DIGEST_A.to_uppercase().replace("SHA256", "sha256");
    let canonical = canonical_sha256_digest(&upper).unwrap();
    assert_eq!(canonical_sha256_digest(&canonical), Ok(canonical.clone()));
    assert!(canonical_sha256_digest("md5:abc").is_err());
}

#[test]
fn a_protected_reference_is_exact() {
    let exact = immutable_image_ref("ghcr.io/selu-bot/selu", DIGEST_A, "").unwrap();
    assert_eq!(exact, format!("ghcr.io/selu-bot/selu@{DIGEST_A}"));
    assert_eq!(
        validate_exact_protected_ref(&exact, "ghcr.io/selu-bot/selu"),
        Ok(())
    );
    assert!(validate_exact_protected_ref(&exact, "ghcr.io/attacker/selu").is_err());
    assert!(validate_exact_protected_ref("ghcr.io/selu-bot/selu:stable", "ghcr.io/selu-bot/selu").is_err());
}

#[test]
fn what_is_set_is_read_and_nothing_else_changes() {
    let mut document = EnvDocument::parse("# note\nA=1\n\nB = two\n");
    assert_eq!(document.value("A"), "1");
    assert_eq!(document.value("MISSING"), "");
    document.set("A", "3");
    assert_eq!(document.value("A"), "3");
    document.set("NEW", "4");
    assert_eq!(document.value("NEW"), "4");
    let content = document.render();
    assert!(content.starts_with("# note\nA=3\n\nB = two\n"));
    let again = EnvDocument::parse(&content);
    assert_eq!(again.value("A"), "3");
    assert_eq!(again.value("NEW"), "4");
}

#[test]
fn the_image_to_start_is_read_back() {
    let mut document = EnvDocument::parse("SELU_IMAGE_TAG=old\n");
    activate_image_env(&mut document, "stable", DIGEST_A, "1.0.0", "7");
    assert_eq!(document.value("SELU_IMAGE_TAG"), "stable");
    assert_eq!(document.value("SELU_IMAGE_DIGEST"), DIGEST_A);
    assert_eq!(document.value("SELU_IMAGE_VERSION"), "1.0.0");
    assert_eq!(document.value("SELU_IMAGE_BUILD"), "7");
}

#[test]
fn quoted_words_are_one_word_of_the_shell() {
    assert_eq!(shell_quote("plain"), "'plain'");
    let quoted = shell_quote("it's");
    let mut words = quoted.clone();
    words.retain(|c| c != '\'' && c != '"' && c != '\\');
    assert_eq!(words, "its");
    assert_ne!(quoted, "'it's'");
}

#[test]
fn compose_is_called_with_its_files() {
    let args = recreate_service_without_pull("selu");
    let command = compose_command(&test_config(), &args);
    assert_eq!(
        command.join(" "),
        "compose -f ./docker-compose.yml --env-file ./.env up -d --no-deps --force-recreate --pull never selu"
    );
}

#[test]
fn what_docker_prints_is_read() {
    assert_eq!(container_id("abc\ndef\n"), "abc");
    assert_eq!(container_id("\n"), "");
    assert_eq!(updater_service_image("  ghcr.io/selu:1 \n"), Ok("ghcr.io/selu:1".to_string()));
    assert!(updater_service_image(" \n").is_err());
    assert!(own_container_id("  ").is_err());
    assert_eq!(own_container_id("abc\n"), Ok("abc".to_string()));
    assert_eq!(detect_compose_network("selu_default\nother\n"), Some("selu_default".to_string()));
    assert_eq!(detect_compose_network("\n"), None);
    assert!(restart_helper_name("0123456789abcdef").contains("0123456789ab"));
}

#[test]
fn the_running_image_is_what_counts() {
    let state = installed_image_state("stable", DIGEST_A, &None, "ghcr.io/selu-bot/selu");
    assert_eq!((state.tag.as_str(), state.digest.as_str()), ("stable", DIGEST_A));
    let running = RunningContainer {
        configured_image: "ghcr.io/selu-bot/selu:unstable\n".to_string(),
        image_id: format!("{DIGEST_B}\n"),
        repo_digests: format!("ghcr.io/selu-bot/selu@{DIGEST_B}\n"),
    };
    let state = installed_image_state("stable", DIGEST_A, &Some(running), "ghcr.io/selu-bot/selu");
    assert_eq!(state.tag, "unstable");
    assert_eq!(state.digest, DIGEST_B);
    assert_eq!(state.image_id, DIGEST_B);
}

#[test]
fn a_pulled_image_has_to_have_its_digest() {
    let output = format!("ghcr.io/selu-bot/selu@{DIGEST_A}\n");
    assert_eq!(verify_local_digest(&output, DIGEST_A, "ghcr.io/selu-bot/selu"), Ok(()));
    assert!(verify_local_digest(&output, DIGEST_B, "ghcr.io/selu-bot/selu").is_err());
    let identity = image_identity("ghcr.io/selu-bot/selu:stable", DIGEST_B, &output, "ghcr.io/selu-bot/selu").unwrap();
    assert_eq!(identity.image_id, DIGEST_B);
    assert_eq!(identity.immutable_ref, format!("ghcr.io/selu-bot/selu@{DIGEST_A}"));
}

#[test]
fn a_running_image_can_be_set_back_to() {
    let installed = InstalledImageState {
        tag: "stable".to_string(),
        digest: DIGEST_A.to_string(),
        image_id: DIGEST_B.to_string(),
    };
    let (root, tag) = captured_root("stable", "1.0.0", "7", &installed, "ghcr.io/selu-bot/selu").unwrap();
    assert!(root.is_available());
    assert_eq!(root.digest, DIGEST_A);
    assert!(tag.is_some());
}

#[test]
fn the_updater_is_brought_along() {
    assert!(matches!(maybe_refresh_updater_sidecar(true, " ", "a", "b"), RefreshDecision::Nothing));
    assert!(matches!(maybe_refresh_updater_sidecar(true, " stable ", "a", "b"), RefreshDecision::Now(t) if t == "stable"));
    assert!(matches!(maybe_refresh_updater_sidecar(false, "stable", "a", " b "), RefreshDecision::Pending(t) if t == "b"));
    assert!(matches!(maybe_refresh_updater_sidecar(false, "stable", "b", " b "), RefreshDecision::Note));
    assert_eq!(pending_note("unstable", "stable", ""), Some("unstable".to_string()));
    assert_eq!(pending_note("stable", "stable", "stable"), Some(String::new()));
    assert_eq!(pending_note("stable", "stable", ""), None);
}

#[test]
fn a_failed_refresh_is_undone() {
    let config = test_config();
    let mut job = RefreshJob::start("unstable");
    job.step(RefreshReply::Prior {
        tag: "stable".to_string(),
        protected: String::new(),
        retain_until: String::new(),
    });
    job.step(RefreshReply::Image("ghcr.io/selu-bot/selu-updater:stable".to_string()));
    job.step(RefreshReply::Identity(Some(ImageIdentity {
        image_id: DIGEST_A.to_string(),
        immutable_ref: format!("ghcr.io/selu-bot/selu-updater@{DIGEST_A}"),
    })));
    assert!(matches!(job.action(&config), RefreshAction::WriteTag(t) if t == "unstable"));
    job.step(RefreshReply::Done);
    assert!(job.stage == RefreshStage::Pull);
    job.step(RefreshReply::Failed("no such tag".to_string()));
    assert!(matches!(job.action(&config), RefreshAction::WriteTag(t) if t == "stable"));
    job.step(RefreshReply::Done);
    assert!(matches!(job.action(&config), RefreshAction::Finish(Err(_))));
}

#[test]
fn the_wait_for_a_healthy_service_ends() {
    assert!(matches!(before_probe(90, 0, 90), HealthStep::Probe));
    let HealthStep::Done(Err(error)) = before_probe(90, 1, 90) else {
        panic!("the time is over");
    };
    assert_eq!(error, "Health check timed out");
    assert!(matches!(before_probe(91, 0, 90), HealthStep::Done(Err(_))));
    assert!(matches!(after_probe(true, 3), HealthStep::Done(Ok(()))));
    assert!(matches!(after_probe(false, 3), HealthStep::Sleep(3)));
}

#[test]
fn the_bridge_is_planned_from_the_configuration() {
    let config = test_config();
    let plan = bridge_plan(&config, "stable", "http://selu:3000/api/pipes/1/inbound", "token")
        .unwrap()
        .unwrap();
    assert_eq!(plan.image, "ghcr.io/selu-bot/selu-whatsapp-bridge:stable");
    assert_eq!(plan.container, "selu-whatsapp-bridge");
    let args = bridge_run_args(&plan, "http://selu:3000/api/pipes/1/inbound", "token", "", "selu_default", 3200);
    assert!(args.iter().any(|a| a == &plan.image));
    assert!(args.join(" ").contains("selu_default"));
    assert!(bridge_plan(&config, "stable", " ", "token").is_err());
    let mut off = test_config();
    off.whatsapp_bridge_enabled = false;
    assert!(matches!(bridge_plan(&off, "stable", "u", "t"), Ok(None)));
    assert!(matches!(stop_plan(&off), Ok(None)));
    assert!(stop_plan(&config).unwrap().is_some());
    assert!(!bridge_base_urls(&config).is_empty());
}

#[test]
fn what_docker_says_of_the_bridge_is_read() {
    assert!(image_repo_has_tag("localhost:5000/bridge:1"));
    assert!(!image_repo_has_tag("localhost:5000/bridge"));
    assert!(is_bind_mount_source("/srv/bridge"));
    assert!(is_bind_mount_source("./bridge"));
    assert!(!is_bind_mount_source("bridge-data"));
    assert_eq!(bridge_is_running(Ok("true\n".to_string())), Ok(true));
    assert_eq!(bridge_is_running(Ok("false\n".to_string())), Ok(false));
    assert_eq!(bridge_is_running(Err("Error: No such object: x".to_string())), Ok(false));
    assert!(may_clear_after_removal(&Ok(())));
    assert!(volume_is_gone(&Err("Error: No such volume: x".to_string())));
}

fn lines_until_end(job: &mut BridgeStop, mut outcome: impl FnMut(&str) -> Result<(), String>) -> (Vec<String>, Result<(), String>) {
    let mut lines = Vec::new();
    loop {
        match job.action() {
            StopAction::Finish(end) => return (lines, end),
            StopAction::Docker(line) => {
                let line = line.join(" ");
                job.step(outcome(&line));
                lines.push(line);
            }
        }
    }
}

#[test]
fn the_bridge_is_stopped_and_cleared() {
    let mut config = test_config();
    let mut job = BridgeStop::start(&config, "stable", "h");
    let (lines, end) = lines_until_end(&mut job, |line| {
        if line.starts_with("rm") { Err("Error: No such container: x".to_string()) } else { Ok(()) }
    });
    assert_eq!(end, Ok(()));
    assert_eq!(
        lines,
        [
            "rm -f selu-whatsapp-bridge",
            "volume rm -f selu-whatsapp-bridge-data",
            "volume create selu-whatsapp-bridge-data",
        ]
    );
    let mut job = BridgeStop::start(&config, "stable", "h");
    let (lines, end) = lines_until_end(&mut job, |_| Err("denied".to_string()));
    assert_eq!((lines.len(), end), (1, Err("denied".to_string())));
    config.whatsapp_bridge_data_volume = "/srv/bridge".to_string();
    let mut job = BridgeStop::start(&config, " ", "h");
    let (lines, end) = lines_until_end(&mut job, |line| {
        if line.starts_with("run") { Err("no disk".to_string()) } else { Ok(()) }
    });
    assert_eq!(end, Err("clear WhatsApp bridge auth bind mount: no disk".to_string()));
    assert_eq!(lines[1], "rm -f selu-whatsapp-auth-cleanup-h");
    assert!(lines[2].contains("-v /srv/bridge:/data ghcr.io/selu-bot/selu-whatsapp-bridge:stable"));
    assert_eq!(lines.len(), 4);
    config.whatsapp_bridge_container_name = " ".to_string();
    let mut job = BridgeStop::start(&config, "stable", "h");
    assert_eq!(
        lines_until_end(&mut job, |_| Ok(())).1,
        Err("WhatsApp bridge container name must be configured".to_string())
    );
    config.whatsapp_bridge_enabled = false;
    assert_eq!(lines_until_end(&mut BridgeStop::start(&config, "stable", "h"), |_| Ok(())), (vec![], Ok(())));
}

#[test]
fn the_bridge_is_started_anew() {
    let config = test_config();
    let now = Moment { secs: 1_767_225_600, nanos: 0 };
    let plan = bridge_plan(&config, "stable", "http://selu/in", "token").unwrap().unwrap();
    let mut job = BridgeJob::start(plan, &config, "http://selu/in", "token", "");
    assert!(matches!(job.action(), BridgeAction::ReadNotes));
    job.step(BridgeReply::Notes { previous_ref: "old".to_string(), retain_until: "soon".to_string() }, &now);
    let identity = |digest: &str| {
        Some(ImageIdentity {
            image_id: digest.to_string(),
            immutable_ref: format!("ghcr.io/selu-bot/selu-whatsapp-bridge@{digest}"),
        })
    };
    job.step(BridgeReply::Identity(identity(DIGEST_A)), &now);
    let BridgeAction::Persist { current_ref, previous_ref, .. } = job.action() else {
        panic!("the running image is written down");
    };
    assert!(current_ref.ends_with(DIGEST_A) && previous_ref == "old");
    job.step(BridgeReply::Done, &now);
    assert!(matches!(job.action(), BridgeAction::Docker(args) if args[..2] == ["rm", "-f"]));
    job.step(BridgeReply::Failed("No such container".to_string()), &now);
    assert!(matches!(job.action(), BridgeAction::Docker(args) if args[0] == "pull"));
    job.step(BridgeReply::Done, &now);
    assert!(matches!(job.action(), BridgeAction::FindNetwork));
    job.step(BridgeReply::Network(Some("selu_default".to_string())), &now);
    assert!(matches!(job.action(), BridgeAction::Docker(args) if args[0] == "run" && args.contains(&"selu_default".to_string())));
    job.step(BridgeReply::Done, &now);
    job.step(BridgeReply::Identity(identity(DIGEST_B)), &now);
    let BridgeAction::Persist { current_ref, previous_ref, retain_until } = job.action() else {
        panic!("the new image is written down");
    };
    assert!(current_ref.ends_with(DIGEST_B) && previous_ref.ends_with(DIGEST_A));
    assert!(chrono::DateTime::parse_from_rfc3339(&retain_until).is_ok());
    job.step(BridgeReply::Done, &now);
    assert!(job.stage == BridgeStage::Running);
    assert!(matches!(job.action(), BridgeAction::Finish(Ok(()))));
}
