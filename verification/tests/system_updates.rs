use selu::updater::types::{AckResponse, StatusResponse};
use selu::web::response::{Verdict, WebAnswer};
use selu::web::system_updates::{
    already_running, apply_request, auto_applies, channel_options, channels_address,
    check_request, fallback_text_for_key, finish_apply, finish_check, finish_rollback,
    format_release_display, hydrate_installed_from_sidecar, is_rollback_available,
    is_update_available, job_status_response, load_public_origin, load_settings, load_state,
    normalize_public_origin, normalize_release_version, poll_job, release_metadata_address,
    request_origin_without_base_path, rollback_request, seeded_channel, status_key_for,
    push_notifications_enabled, release_channel, setting_saved, try_claim_active_job,
    updates_apply_now, updates_check_now, updates_index, updates_job_status,
    updates_rollback_now, updates_set_channel, updates_set_public_origin,
    updates_toggle_auto_update, updates_toggle_installation_telemetry,
    updates_toggle_push_notifications, InstallationTelemetryForm, PushNotificationsForm, Setting,
    LoadFault, ToggleForm, vet_apply, vet_check, vet_rollback, ChannelForm, PublicOriginForm,
    ReleaseMetadata, SettingsRow, StateRow, UpdateState, UpdatesQuery,
};
use selu::web::update_run::{RunAction, RunReply, UpdateKind, UpdateRun};

fn to(s: &str) -> WebAnswer {
    WebAnswer::Redirect(s.to_string())
}

fn some(s: &str) -> Option<String> {
    Some(s.to_string())
}

fn empty_row() -> StateRow {
    StateRow {
        installed_version: None,
        installed_digest: None,
        installed_release_version: None,
        installed_build_number: None,
        available_version: None,
        available_digest: None,
        available_release_version: None,
        available_build_number: None,
        available_changelog_url: None,
        available_changelog_body: None,
        previous_version: None,
        previous_digest: None,
        previous_release_version: None,
        previous_build_number: None,
        last_checked_at: None,
        last_attempt_at: None,
        active_job_id: None,
        last_good_tag: None,
        last_good_digest: None,
        last_error: None,
        status: None,
        progress_key: None,
    }
}

fn state() -> UpdateState {
    let mut row = empty_row();
    row.installed_version = some("stable");
    row.installed_digest = some("sha256:aa");
    load_state(row)
}

fn metadata(digest: &str) -> ReleaseMetadata {
    ReleaseMetadata {
        channel: "stable".to_string(),
        version: "2.0.0".to_string(),
        image: "ghcr.io/selu-bot/selu".to_string(),
        tag: "stable".to_string(),
        digest: digest.to_string(),
        published_at: String::new(),
        changelog_url: String::new(),
        changelog_body: String::new(),
        build_number: "42".to_string(),
        previous_digest: String::new(),
        min_supported_db_schema: 0,
    }
}

fn ack(accepted: bool) -> AckResponse {
    AckResponse {
        accepted,
        job_id: None,
        status: None,
        progress_key: None,
        message: some("noted"),
    }
}

fn status(word: &str) -> StatusResponse {
    StatusResponse {
        status: word.to_string(),
        progress_key: some("updates.progress.apply_done"),
        message: None,
        job_id: None,
        installed_tag: some("stable"),
        installed_digest: some("sha256:bb"),
        installed_version: some("2.0.0"),
        installed_build: some("42"),
        previous_tag: None,
        previous_digest: None,
        previous_version: None,
        previous_build: None,
    }
}

#[test]
fn what_is_not_stored_has_a_default() {
    let s = load_state(empty_row());
    assert_eq!((s.status.as_str(), s.progress_key.as_str(), s.installed_version.as_str()), ("idle", "updates.progress.idle", ""));
    let settings = load_settings(SettingsRow {
        release_channel: None,
        auto_check: None,
        auto_update: None,
        installation_telemetry_opt_out: Some(2),
        external_url: None,
        push_notifications_enabled: Some(0),
    });
    assert_eq!(settings.release_channel, "stable");
    assert!(settings.auto_check && !settings.auto_update && settings.installation_telemetry_opt_out);
    assert!(!settings.push_notifications_enabled);
    assert!(!auto_applies(&settings, true));
    assert_eq!(release_metadata_address("https://x.test/r/", "stable"), "https://x.test/r?channel=stable");
    assert_eq!(channels_address("https://x.test/r"), "https://x.test/r/channels");
    assert_eq!(seeded_channel(None), "stable");
    assert_eq!(seeded_channel(Some(" unstable ")), "unstable");
}

#[test]
fn updates_are_offered_by_digest() {
    let mut s = state();
    assert!(!is_update_available(&s));
    s.available_version = "stable".to_string();
    s.available_digest = "sha256:aa".to_string();
    assert!(!is_update_available(&s));
    s.available_digest = "sha256:bb".to_string();
    assert!(is_update_available(&s));
    s.status = "updating".to_string();
    assert!(!is_update_available(&s));
    s.status = "rollback_available".to_string();
    assert!(is_rollback_available(&s));
    s.status = "idle".to_string();
    s.installed_digest = String::new();
    assert!(!is_update_available(&s));
    s.installed_version = "unstable".to_string();
    assert!(is_update_available(&s));
}

#[test]
fn versions_are_shown() {
    assert_eq!(format_release_display("1.2.3", "7", "stable", "sha256:aa"), "1.2.3 (build 7)");
    assert_eq!(format_release_display("1.2.3", " ", "stable", ""), "1.2.3");
    assert_eq!(format_release_display("", "", "stable", ""), "stable");
    assert_eq!(format_release_display("", "", "stable", "sha256:0123456789abcdef"), "stable (0123456789ab)");
    assert_eq!(format_release_display("", "", "", "0123456789abcdef"), "sha256:0123456789ab");
    assert_eq!(normalize_release_version(" ", " stable ", "stable"), "stable");
    assert_eq!(normalize_release_version(" 1.0 ", "stable", "stable"), "1.0");
}

#[test]
fn one_action_runs_at_a_time() {
    let mut s = state();
    assert!(try_claim_active_job(&mut s, "j1", "updating", "updates.progress.preparing", Some("now")));
    assert_eq!((s.active_job_id.as_str(), s.status.as_str()), ("j1", "updating"));
    assert!(!try_claim_active_job(&mut s, "j2", "checking", "k", None));
    assert_eq!(s.active_job_id, "j1");
    assert_eq!(already_running(), "Another update action is already running");
}

#[test]
fn requests_are_vetted() {
    let mut m = metadata("sha256:bb");
    assert_eq!(vet_check(&m), Ok(()));
    assert_eq!(vet_apply(&m), Ok(()));
    m.digest = " ".to_string();
    assert_eq!(vet_apply(&m), Err("Release metadata did not include a digest".to_string()));
    m.tag = String::new();
    assert_eq!(vet_check(&m), Err("Release metadata did not include a tag".to_string()));
    let mut s = state();
    assert_eq!(vet_rollback(&s), Err("No previous version is available for rollback".to_string()));
    s.previous_version = "stable".to_string();
    s.previous_digest = "sha256:cc".to_string();
    assert_eq!(vet_rollback(&s), Ok(()));
    let request = rollback_request("j", "stable", &s);
    assert_eq!((request.rollback_tag.as_str(), request.rollback_digest.as_str()), ("stable", "sha256:cc"));
    let m = metadata("sha256:bb");
    assert_eq!(check_request("j", "stable", &m).target_digest, "sha256:bb");
    assert_eq!(apply_request("j", "stable", &m).target_version, "2.0.0");
}

#[test]
fn a_check_notes_what_it_found() {
    let mut s = state();
    let (job, found) = finish_check(&mut s, &None, "stable", &metadata("sha256:bb"), Ok(ack(true)), "j", "now");
    assert_eq!(job.status, "completed");
    assert_eq!(found, Ok(true));
    assert_eq!(s.available_digest, "sha256:bb");
    assert_eq!(s.active_job_id, "");
    let mut s = state();
    let (job, found) = finish_check(&mut s, &None, "stable", &metadata("sha256:bb"), Err("down".to_string()), "j", "now");
    assert_eq!((job.status.as_str(), job.error_message.as_str()), ("failed", "down"));
    assert_eq!(found, Err("down".to_string()));
    assert_eq!(s.status, "failed");
}

#[test]
fn an_accepted_update_can_be_undone() {
    let mut s = state();
    let (job, done) = finish_apply(&mut s, "stable", &metadata("sha256:bb"), Ok(ack(true)), "j", "now");
    assert_eq!((job.status.as_str(), done), ("started", Ok(())));
    assert_eq!((s.previous_version.as_str(), s.previous_digest.as_str()), ("stable", "sha256:aa"));
    let mut s = state();
    let (_, done) = finish_apply(&mut s, "stable", &metadata("sha256:bb"), Ok(ack(false)), "j", "now");
    assert_eq!(done, Err("Updater sidecar rejected update request".to_string()));
    let mut s = state();
    let (job, done) = finish_rollback(&mut s, Ok(ack(false)), "j", "now");
    assert_eq!(job.status, "failed");
    assert_eq!(done, Err("Updater sidecar rejected rollback request".to_string()));
}

#[test]
fn a_running_job_is_polled_until_it_is_over() {
    let mut s = state();
    assert!(poll_job(&mut s, Ok(status("idle"))).is_none());
    s.active_job_id = "j".to_string();
    s.status = "updating".to_string();
    assert!(poll_job(&mut s, Ok(status("updating"))).is_none());
    let job = poll_job(&mut s, Ok(status("idle"))).expect("the job is over");
    assert_eq!((job.id.as_str(), job.status.as_str()), ("j", "completed"));
    assert_eq!(s.active_job_id, "");
    assert_eq!(s.installed_digest, "sha256:bb");
    s.active_job_id = "k".to_string();
    let job = poll_job(&mut s, Err("down".to_string())).expect("the job is lost");
    assert_eq!((job.id.as_str(), job.status.as_str()), ("k", "failed"));
    let response = job_status_response(&s);
    assert_eq!(response.installed_display, "2.0.0 (build 42)");
    assert_eq!(response.last_error, "Lost contact with updater sidecar: down");
}

#[test]
fn the_job_status_knows_what_is_installed_and_what_runs() {
    let mut s = load_state(empty_row());
    s.active_job_id = "j".to_string();
    assert_eq!(
        updates_job_status(false, &mut s, &None, "stable", Ok(status("idle"))).answer(),
        Some(WebAnswer::Status(403))
    );
    assert_eq!(s.active_job_id, "j");
    let Verdict::Proceed((closed, response)) =
        updates_job_status(true, &mut s, &Some(status("updating")), "stable", Ok(status("idle")))
    else {
        panic!("administrators may ask");
    };
    assert_eq!(closed.expect("the job is over").id, "j");
    assert_eq!((response.active_job_id.as_str(), response.status.as_str()), ("", "idle"));
    assert_eq!(response.installed_display, "2.0.0 (build 42)");
}

#[test]
fn the_service_tells_what_is_installed() {
    let mut s = load_state(empty_row());
    hydrate_installed_from_sidecar(&Some(status("idle")), "stable", &mut s);
    assert_eq!((s.installed_version.as_str(), s.installed_digest.as_str()), ("stable", "sha256:bb"));
    assert_eq!(s.installed_release_version, "2.0.0");
}

#[test]
fn the_public_address_is_one_of_the_web() {
    assert_eq!(normalize_public_origin(" https://selu.test/ "), Ok("https://selu.test".to_string()));
    assert_eq!(normalize_public_origin("http://selu.test:8080"), Ok("http://selu.test:8080".to_string()));
    for (input, error) in [
        (" / ", "public web address is empty"),
        ("selu", "invalid public web address"),
        ("ftp://selu.test", "public web address must use http or https"),
        ("https://selu.test/app", "public web address must not include a path, query, or fragment"),
        ("https://selu.test?x", "public web address must not include a path, query, or fragment"),
        ("https://selu.test#x", "public web address must not include a path, query, or fragment"),
    ] {
        assert_eq!(normalize_public_origin(input), Err(error.to_string()), "{input}");
    }
    assert_eq!(load_public_origin(" https://a/ "), some("https://a"));
    assert_eq!(load_public_origin(" "), None);
    assert_eq!(request_origin_without_base_path("https://a/selu", "/selu"), "https://a");
    assert_eq!(request_origin_without_base_path("https://a/", ""), "https://a");
}

#[test]
fn settings_are_changed_by_administrators() {
    let form = ChannelForm { release_channel: " unstable ".to_string() };
    assert_eq!(updates_set_channel(false, "/s", &form).answer(), Some(to("/s/chat")));
    assert!(matches!(updates_set_channel(true, "/s", &form), Verdict::Proceed(_)));
    let form = PublicOriginForm { external_url: "nowhere".to_string() };
    assert!(updates_set_public_origin(true, "", &form).answer().is_some());
    let form = ToggleForm { auto_update: some("1") };
    assert_eq!(updates_toggle_auto_update(true, "", &form), Verdict::Proceed(1));
    assert_eq!(updates_toggle_auto_update(false, "/s", &form), Verdict::Answer(to("/s/chat")));
    let form = InstallationTelemetryForm { installation_telemetry_opt_out: None };
    assert_eq!(updates_toggle_installation_telemetry(true, "", &form), Verdict::Proceed(0));
    let form = PushNotificationsForm { push_notifications_enabled: some("on") };
    assert_eq!(updates_toggle_push_notifications(true, "", &form), Verdict::Proceed(0));
    assert_eq!(
        setting_saved("/s", Setting::CurrentHost, true),
        to("/s/system-updates?success_key=updates.flash.public_origin_applied")
    );
    assert_eq!(
        setting_saved("", Setting::PushNotifications, false),
        to("/system-updates?error_key=updates.error.push_notifications_save_failed")
    );
    assert_eq!(updates_apply_now(true, "", true), to("/system-updates?success_key=updates.flash.apply_started"));
    assert_eq!(updates_rollback_now(true, "", false), to("/system-updates?error_key=updates.error.rollback_failed"));
    assert_eq!((release_channel(None), release_channel(some("beta"))), ("stable".to_string(), "beta".to_string()));
    assert_eq!((push_notifications_enabled(Some(1)), push_notifications_enabled(None)), (true, false));
    let mut s = state();
    assert_ne!(updates_check_now(true, "", &Ok(true), &mut s), updates_check_now(true, "", &Ok(false), &mut s));
    assert_eq!(s.status, "idle");
    assert_eq!(
        updates_check_now(true, "", &Err("down".to_string()), &mut s),
        to("/system-updates?error_key=updates.error.check_failed")
    );
    assert_eq!((s.status.as_str(), s.last_error.as_str()), ("failed", "Could not check for updates."));
    let options = channel_options(&None);
    assert_eq!((options[0].value.as_str(), options[1].label.as_str()), ("stable", "Unstable"));
    let options = channel_options(&Some(vec!["stable".to_string(), "nightly".to_string()]));
    assert_eq!((options[0].label.as_str(), options[1].label.as_str()), ("Stable", "nightly"));
}

#[test]
fn the_settings_page_says_what_is_going_on() {
    let query = || UpdatesQuery { error_key: None, success_key: None };
    let settings = || load_settings(SettingsRow {
        release_channel: None,
        auto_check: None,
        auto_update: None,
        installation_telemetry_opt_out: None,
        external_url: None,
        push_notifications_enabled: None,
    });
    let index = |is_admin: bool, loaded| {
        updates_index(is_admin, "/selu", "https://a/selu", loaded, &None, channel_options(&None), query())
    };
    assert_eq!(index(false, Err(LoadFault::Status)).answer(), Some(to("/selu/chat")));
    assert_eq!(
        index(true, Err(LoadFault::Settings)).answer(),
        Some(to("/selu/chat?error=Couldn%27t+load+Settings."))
    );
    assert_eq!(
        index(true, Err(LoadFault::Status)).answer(),
        Some(to("/selu/chat?error=Couldn%27t+load+Settings+status."))
    );
    let Verdict::Proceed(page) = index(true, Ok((settings(), state()))) else {
        panic!("the page is shown");
    };
    assert_eq!((page.available_channels.len(), page.active_job_id.as_str()), (2, ""));
    assert_eq!(page.current_origin_display, "https://a");
    assert_eq!(page.status_key, status_key_for("idle"));
    assert_eq!(page.status_fallback, fallback_text_for_key(&page.status_key));
    assert!(!page.update_available && page.error_key.is_none());
}

#[test]
fn a_check_claims_the_slot_first() {
    let mut run = UpdateRun::start(UpdateKind::Check, "j", "stable", state());
    assert!(matches!(run.action(), RunAction::Claim { status: "checking", attempt: false, .. }));
    run.step(RunReply::Claimed(true));
    assert!(matches!(run.action(), RunAction::Journal { action: "check", .. }));
    run.step(RunReply::Done);
    assert!(matches!(run.action(), RunAction::FetchMetadata));
    run.step(RunReply::Metadata(metadata("sha256:bb")));
    assert!(matches!(run.action(), RunAction::AskCheck(q) if q.target_digest == "sha256:bb"));
    run.step(RunReply::Ack(Ok(ack(true))));
    assert!(matches!(run.action(), RunAction::Note));
    let mut s = state();
    let (job, found) = run.finish(&mut s, &None, "now");
    assert_eq!((job.id.as_str(), found), ("j", Ok(true)));
}

#[test]
fn an_action_that_cannot_start_gives_the_slot_back() {
    let mut run = UpdateRun::start(UpdateKind::Apply, "j", "stable", state());
    assert!(matches!(run.action(), RunAction::FetchMetadata));
    run.step(RunReply::Metadata(metadata("sha256:bb")));
    run.step(RunReply::Claimed(true));
    run.step(RunReply::Failed("disk full".to_string()));
    assert!(matches!(run.action(), RunAction::Fail { message: "Could not start update job", .. }));
    run.step(RunReply::Done);
    assert!(matches!(run.action(), RunAction::Over(e) if e == "disk full"));
    let mut run = UpdateRun::start(UpdateKind::Apply, "j", "stable", state());
    run.step(RunReply::Metadata(metadata(" ")));
    assert!(matches!(run.action(), RunAction::Over(e) if e == "Release metadata did not include a digest"));
    let mut run = UpdateRun::start(UpdateKind::Check, "j", "stable", state());
    run.step(RunReply::Claimed(false));
    assert!(matches!(run.action(), RunAction::Over(e) if e == already_running()));
}

#[test]
fn a_rollback_needs_a_version_before() {
    let run = UpdateRun::start(UpdateKind::Rollback, "j", "stable", state());
    assert!(matches!(run.action(), RunAction::Over(e) if e == "No previous version is available for rollback"));
    let mut s = state();
    s.previous_version = "stable".to_string();
    s.previous_digest = "sha256:cc".to_string();
    let mut run = UpdateRun::start(UpdateKind::Rollback, "j", "stable", s);
    run.step(RunReply::Claimed(true));
    run.step(RunReply::Done);
    assert!(matches!(run.action(), RunAction::AskRollback(q) if q.rollback_digest == "sha256:cc"));
    run.step(RunReply::Ack(Err("down".to_string())));
    let mut s = state();
    let (job, outcome) = run.finish(&mut s, &None, "now");
    assert_eq!((job.status.as_str(), outcome), ("failed", Err("down".to_string())));
    assert_eq!(s.last_error, "Could not reach updater sidecar for rollback.");
}
