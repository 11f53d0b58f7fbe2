//! The settings page: release channels, updates, and the public address.
use vstd::prelude::*;
use vstd::string::*;
use crate::text;
use crate::text::{blank, opt_text, texts, trimmed, trimmed_end_of};
use crate::updater::types::{AckResponse, StatusResponse};
use crate::updater::types::{ApplyRequest, CheckRequest, RollbackRequest};
use crate::web::response;
use crate::web::response::{Sent, Verdict, WebAnswer};
use crate::web::url;
use crate::web::url::{parts_view, url_parts, UrlParts};

verus! {

pub const STATUS_IDLE: &'static str = "idle";

pub const STATUS_CHECKING: &'static str = "checking";

pub const STATUS_UPDATE_AVAILABLE: &'static str = "update_available";

pub const STATUS_UPDATING: &'static str = "updating";

pub const STATUS_ROLLBACK_AVAILABLE: &'static str = "rollback_available";

pub const STATUS_FAILED: &'static str = "failed";

// ── Types ────────────────────────────────────────────────────────────────────

/// A release channel that can be chosen.
#[derive(Debug, Clone)]
pub struct ChannelOption {
    pub value: String,
    pub label: String,
}

#[derive(Debug)]
pub struct UpdatesQuery {
    pub error_key: Option<String>,
    pub success_key: Option<String>,
}

#[derive(Debug)]
pub struct ChannelForm {
    pub release_channel: String,
}

#[derive(Debug)]
pub struct ToggleForm {
    pub auto_update: Option<String>,
}

#[derive(Debug)]
pub struct InstallationTelemetryForm {
    pub installation_telemetry_opt_out: Option<String>,
}

#[derive(Debug)]
pub struct PushNotificationsForm {
    pub push_notifications_enabled: Option<String>,
}

#[derive(Debug)]
pub struct PublicOriginForm {
    pub external_url: String,
}

/// What a release channel offers.
#[derive(Debug)]
pub struct ReleaseMetadata {
    pub channel: String,
    pub version: String,
    pub image: String,
    pub tag: String,
    pub digest: String,
    pub published_at: String,
    pub changelog_url: String,
    pub changelog_body: String,
    pub build_number: String,
    pub previous_digest: String,
    pub min_supported_db_schema: i32,
}

#[derive(Debug)]
pub struct UpdateSettings {
    pub release_channel: String,
    pub auto_check: bool,
    pub auto_update: bool,
    pub installation_telemetry_opt_out: bool,
    pub external_url: String,
    pub push_notifications_enabled: bool,
}

/// What is known of the installed, the available and the previous version, and of
/// the job that runs.
#[derive(Debug)]
pub struct UpdateState {
    pub installed_version: String,
    pub installed_digest: String,
    pub installed_release_version: String,
    pub installed_build_number: String,
    pub available_version: String,
    pub available_digest: String,
    pub available_release_version: String,
    pub available_build_number: String,
    pub available_changelog_url: String,
    pub available_changelog_body: String,
    pub previous_version: String,
    pub previous_digest: String,
    pub previous_release_version: String,
    pub previous_build_number: String,
    pub last_checked_at: String,
    pub last_attempt_at: String,
    pub active_job_id: String,
    pub last_good_tag: String,
    pub last_good_digest: String,
    pub last_error: String,
    pub status: String,
    pub progress_key: String,
}

#[derive(Debug)]
pub struct UpdateJobStatusResponse {
    pub active_job_id: String,
    pub status: String,
    pub progress_key: String,
    pub last_error: String,
    pub last_checked_at: String,
    pub last_attempt_at: String,
    pub installed_version: String,
    pub installed_display: String,
    pub installed_release_version: String,
    pub installed_build_number: String,
    pub available_version: String,
    pub available_display: String,
    pub available_release_version: String,
    pub available_build_number: String,
    pub available_changelog_url: String,
    pub available_changelog_body: String,
    pub previous_version: String,
    pub previous_display: String,
    pub previous_release_version: String,
    pub previous_build_number: String,
    pub update_available: bool,
    pub rollback_available: bool,
}

#[derive(Debug)]
pub struct UpdateActionResponse {
    pub ok: bool,
    pub error_key: Option<String>,
    pub message_key: Option<String>,
}

/// The state of updates, as a value.
pub struct Updates {
    pub installed_version: Seq<char>,
    pub installed_digest: Seq<char>,
    pub installed_release_version: Seq<char>,
    pub installed_build_number: Seq<char>,
    pub available_version: Seq<char>,
    pub available_digest: Seq<char>,
    pub available_release_version: Seq<char>,
    pub available_build_number: Seq<char>,
    pub available_changelog_url: Seq<char>,
    pub available_changelog_body: Seq<char>,
    pub previous_version: Seq<char>,
    pub previous_digest: Seq<char>,
    pub previous_release_version: Seq<char>,
    pub previous_build_number: Seq<char>,
    pub last_checked_at: Seq<char>,
    pub last_attempt_at: Seq<char>,
    pub active_job_id: Seq<char>,
    pub last_good_tag: Seq<char>,
    pub last_good_digest: Seq<char>,
    pub last_error: Seq<char>,
    pub status: Seq<char>,
    pub progress_key: Seq<char>,
}

impl UpdateState {
    pub open spec fn view(&self) -> Updates {
        Updates {
            installed_version: self.installed_version@,
            installed_digest: self.installed_digest@,
            installed_release_version: self.installed_release_version@,
            installed_build_number: self.installed_build_number@,
            available_version: self.available_version@,
            available_digest: self.available_digest@,
            available_release_version: self.available_release_version@,
            available_build_number: self.available_build_number@,
            available_changelog_url: self.available_changelog_url@,
            available_changelog_body: self.available_changelog_body@,
            previous_version: self.previous_version@,
            previous_digest: self.previous_digest@,
            previous_release_version: self.previous_release_version@,
            previous_build_number: self.previous_build_number@,
            last_checked_at: self.last_checked_at@,
            last_attempt_at: self.last_attempt_at@,
            active_job_id: self.active_job_id@,
            last_good_tag: self.last_good_tag@,
            last_good_digest: self.last_good_digest@,
            last_error: self.last_error@,
            status: self.status@,
            progress_key: self.progress_key@,
        }
    }
}

// ── Versions ─────────────────────────────────────────────────────────────────

impl Updates {
    /// Whether a job is checking or updating.
    pub open spec fn busy(self) -> bool {
        self.status == STATUS_CHECKING@ || self.status == STATUS_UPDATING@
    }

    /// Whether an update can be offered: nothing is going on, both versions are
    /// known, and they differ, by digest where both have one, else by tag.
    pub open spec fn offers_update(self) -> bool {
        &&& !self.busy()
        &&& !blank(self.available_version)
        &&& if !blank(self.available_digest) && !blank(self.installed_digest) {
            self.available_digest != self.installed_digest
        } else {
            !blank(self.installed_version) && self.available_version != self.installed_version
        }
    }

    /// Whether there is a version to go back to.
    pub open spec fn offers_rollback(self) -> bool {
        !blank(self.previous_version) || self.status == STATUS_ROLLBACK_AVAILABLE@
    }
}

/// Whether an update can be offered.
pub fn is_update_available(s: &UpdateState) -> (r: bool)
    ensures
        r == s@.offers_update(),
{
    if text::same(s.status.as_str(), STATUS_CHECKING) || text::same(
        s.status.as_str(),
        STATUS_UPDATING,
    ) {
        return false;
    }
    if text::is_blank(s.available_version.as_str()) {
        return false;
    }
    if text::is_blank(s.installed_version.as_str()) && text::is_blank(
        s.installed_digest.as_str(),
    ) {
        return false;
    }
    if !text::is_blank(s.available_digest.as_str()) && !text::is_blank(
        s.installed_digest.as_str(),
    ) {
        return !text::same(s.available_digest.as_str(), s.installed_digest.as_str());
    }
    if text::is_blank(s.installed_version.as_str()) {
        return false;
    }
    !text::same(s.available_version.as_str(), s.installed_version.as_str())
}

/// Whether there is a version to go back to.
pub fn is_rollback_available(s: &UpdateState) -> (r: bool)
    ensures
        r == s@.offers_rollback(),
{
    !text::is_blank(s.previous_version.as_str()) || text::same(
        s.status.as_str(),
        STATUS_ROLLBACK_AVAILABLE,
    )
}

/// The first twelve characters of a digest behind its prefix.
pub open spec fn short_digest(digest: Seq<char>) -> Seq<char> {
    let hex = if "sha256:"@.is_prefix_of(digest) {
        digest.subrange(7, digest.len() as int)
    } else {
        digest
    };
    if hex.len() > 12 {
        hex.take(12)
    } else {
        hex
    }
}

/// How a version is shown: by its release and build, else by its release, else by
/// its tag and the start of its digest, as far as there are any.
pub open spec fn display_of(
    release_version: Seq<char>,
    build_number: Seq<char>,
    tag: Seq<char>,
    digest: Seq<char>,
) -> Seq<char> {
    let rv = trimmed(release_version);
    let build = trimmed(build_number);
    let v = trimmed(tag);
    let d = trimmed(digest);
    if rv.len() > 0 && build.len() > 0 {
        rv + " (build "@ + build + ")"@
    } else if rv.len() > 0 {
        rv
    } else if d.len() == 0 {
        v
    } else if v.len() == 0 {
        "sha256:"@ + short_digest(d)
    } else {
        v + " ("@ + short_digest(d) + ")"@
    }
}

/// How a version is shown.
pub fn format_release_display(
    release_version: &str,
    build_number: &str,
    tag: &str,
    digest: &str,
) -> (r: String)
    ensures
        r@ == display_of(release_version@, build_number@, tag@, digest@),
{
    let rv = text::trim(release_version);
    let build = text::trim(build_number);
    if !rv.is_empty() && !build.is_empty() {
        let mut out = rv.to_string();
        out.append(" (build ");
        out.append(build);
        out.append(")");
        return out;
    }
    if !rv.is_empty() {
        return rv.to_string();
    }
    let v = text::trim(tag);
    let d = text::trim(digest);
    if d.is_empty() {
        return v.to_string();
    }
    proof {
        reveal_strlit("sha256:");
    }
    let hex = match text::strip_prefix(d, "sha256:") {
        Some(h) => h,
        None => d,
    };
    let n: usize = hex.unicode_len();
    let short = if n > 12 {
        hex.substring_char(0, 12)
    } else {
        hex
    };
    proof {
        if n > 12 {
            assert(hex@.take(12) =~= hex@.subrange(0, 12));
        }
    }
    if v.is_empty() {
        let mut out = "sha256:".to_string();
        out.append(short);
        return out;
    }
    let mut out = v.to_string();
    out.append(" (");
    out.append(short);
    out.append(")");
    out
}

/// The release of a version: its own name, else its tag.
pub open spec fn release_of(version: Seq<char>, tag: Seq<char>) -> Seq<char> {
    if blank(version) {
        trimmed(tag)
    } else {
        trimmed(version)
    }
}

/// The release of a version.
pub fn normalize_release_version(version: &str, tag: &str, _channel: &str) -> (r: String)
    ensures
        r@ == release_of(version@, tag@),
{
    if text::is_blank(version) {
        text::trim(tag).to_string()
    } else {
        text::trim(version).to_string()
    }
}

// ── What the update service says ─────────────────────────────────────────────

/// A new value where there is one that is not blank, else the one before.
pub open spec fn taken(current: Seq<char>, offered: Option<Seq<char>>) -> Seq<char> {
    match offered {
        Some(v) if !blank(v) => v,
        _ => current,
    }
}

/// The value before where it is not blank, else a new one where there is one that
/// is not blank.
pub open spec fn filled(current: Seq<char>, offered: Option<Seq<char>>) -> Seq<char> {
    if blank(current) {
        taken(current, offered)
    } else {
        current
    }
}

/// A new value where there is one that is not blank.
fn take_over(current: &mut String, offered: &Option<String>)
    ensures
        final(current)@ == taken(old(current)@, opt_text(*offered)),
{
    match offered {
        Some(v) => {
            if !text::is_blank(v.as_str()) {
                *current = v.clone();
            }
        },
        None => {},
    }
}

/// A new value where there is one that is not blank, and none before.
fn fill(current: &mut String, offered: &Option<String>)
    ensures
        final(current)@ == filled(old(current)@, opt_text(*offered)),
{
    if text::is_blank(current.as_str()) {
        take_over(current, offered);
    }
}

impl Updates {
    /// The state with the installed version that the update service knows of,
    /// where it is not known yet.
    pub open spec fn informed(self, status: Option<StatusResponse>) -> Updates {
        match status {
            Some(s) => Updates {
                installed_version: filled(self.installed_version, opt_text(s.installed_tag)),
                installed_digest: filled(self.installed_digest, opt_text(s.installed_digest)),
                installed_release_version: filled(
                    self.installed_release_version,
                    opt_text(s.installed_version),
                ),
                installed_build_number: filled(
                    self.installed_build_number,
                    opt_text(s.installed_build),
                ),
                ..self
            },
            None => self,
        }
    }

    /// The state in which the installed version has a tag, the release channel
    /// at the least, and a release, the tag at the least.
    pub open spec fn completed(self, release_channel: Seq<char>) -> Updates {
        let tag = if blank(self.installed_version) {
            release_channel
        } else {
            self.installed_version
        };
        Updates {
            installed_version: tag,
            installed_release_version: if blank(self.installed_release_version) {
                trimmed(tag)
            } else {
                self.installed_release_version
            },
            ..self
        }
    }
}

/// Completes what is known of the installed version by what the update service
/// says, where it answered, and by the release channel.
pub fn hydrate_installed_from_sidecar(
    status: &Option<StatusResponse>,
    release_channel: &str,
    s: &mut UpdateState,
)
    ensures
        final(s)@ == old(s)@.informed(*status).completed(release_channel@),
{
    match status {
        Some(status) => {
            fill(&mut s.installed_version, &status.installed_tag);
            fill(&mut s.installed_digest, &status.installed_digest);
            fill(&mut s.installed_release_version, &status.installed_version);
            fill(&mut s.installed_build_number, &status.installed_build);
        },
        None => {},
    }
    if text::is_blank(s.installed_version.as_str()) {
        s.installed_version = release_channel.to_string();
    }
    if text::is_blank(s.installed_release_version.as_str()) {
        proof {
            reveal_strlit("");
        }
        s.installed_release_version =
        normalize_release_version("", s.installed_version.as_str(), release_channel);
    }
}

/// How a job of the journal ended.
#[derive(Debug)]
pub struct FinishedJob {
    pub id: String,
    pub status: String,
    pub progress_key: String,
    pub error_message: String,
}

impl FinishedJob {
    /// Whether the entry holds the given texts.
    pub open spec fn says(
        &self,
        id: Seq<char>,
        status: Seq<char>,
        progress_key: Seq<char>,
        error_message: Seq<char>,
    ) -> bool {
        &&& self.id@ == id
        &&& self.status@ == status
        &&& self.progress_key@ == progress_key
        &&& self.error_message@ == error_message
    }
}

impl Updates {
    /// The last error once a status came with a message.
    pub open spec fn error_after(self, status: Seq<char>, message: Option<Seq<char>>) -> Seq<char> {
        match message {
            Some(m) => if !blank(m) && status == STATUS_FAILED@ {
                m
            } else if status != STATUS_FAILED@ {
                Seq::empty()
            } else {
                self.last_error
            },
            None => self.last_error,
        }
    }

    /// The state after the update service said how its job stands.
    pub open spec fn polled(self, s: StatusResponse) -> Updates {
        let over = s.status@ != STATUS_UPDATING@ && s.status@ != STATUS_CHECKING@;
        Updates {
            status: s.status@,
            progress_key: taken(self.progress_key, opt_text(s.progress_key)),
            active_job_id: if over {
                Seq::empty()
            } else {
                taken(self.active_job_id, opt_text(s.job_id))
            },
            installed_version: taken(self.installed_version, opt_text(s.installed_tag)),
            installed_digest: taken(self.installed_digest, opt_text(s.installed_digest)),
            installed_release_version: taken(
                self.installed_release_version,
                opt_text(s.installed_version),
            ),
            installed_build_number: taken(self.installed_build_number, opt_text(s.installed_build)),
            previous_version: taken(self.previous_version, opt_text(s.previous_tag)),
            previous_digest: taken(self.previous_digest, opt_text(s.previous_digest)),
            previous_release_version: taken(
                self.previous_release_version,
                opt_text(s.previous_version),
            ),
            previous_build_number: taken(self.previous_build_number, opt_text(s.previous_build)),
            last_error: if over && s.status@ != STATUS_FAILED@ {
                Seq::empty()
            } else {
                self.error_after(s.status@, opt_text(s.message))
            },
            ..self
        }
    }

    /// The state after the update service could not be asked about its job.
    pub open spec fn lost(self, error: Seq<char>) -> Updates {
        Updates {
            status: STATUS_FAILED@,
            progress_key: "updates.progress.apply_failed"@,
            last_error: "Lost contact with updater sidecar: "@ + error,
            active_job_id: Seq::empty(),
            ..self
        }
    }
}

/// Whether `after` and `closed` are what asking the update service about the job that
/// runs makes of `before`: it takes over what was said, and the entry of the journal
/// is closed when the job is over or lost. Without a job nothing is done.
pub open spec fn is_polled(
    before: Updates,
    polled: Result<StatusResponse, String>,
    after: Updates,
    closed: Option<FinishedJob>,
) -> bool {
    if blank(before.active_job_id) {
        after == before && closed is None
    } else {
        match polled {
            Ok(status) => {
                &&& after == before.polled(status)
                &&& if after.busy() {
                    closed is None
                } else {
                    closed matches Some(j) && j.says(
                        before.active_job_id,
                        if status.status@ == STATUS_FAILED@ {
                            "failed"@
                        } else {
                            "completed"@
                        },
                        after.progress_key,
                        after.last_error,
                    )
                }
            },
            Err(e) => {
                &&& after == before.lost(e@)
                &&& closed matches Some(j) && j.says(
                    before.active_job_id,
                    "failed"@,
                    after.progress_key,
                    after.last_error,
                )
            },
        }
    }
}

/// Takes over what the update service says of the job that runs, or that it could
/// not be asked, and gives the entry of the journal that is to be closed, if any.
/// Without a job nothing is done.
pub fn poll_job(s: &mut UpdateState, polled: Result<StatusResponse, String>) -> (r: Option<
    FinishedJob,
>)
    ensures
        is_polled(old(s)@, polled, final(s)@, r),
{
    if text::is_blank(s.active_job_id.as_str()) {
        return None;
    }
    let job = s.active_job_id.clone();
    match polled {
        Ok(status) => {
            s.status = status.status;
            take_over(&mut s.progress_key, &status.progress_key);
            take_over(&mut s.active_job_id, &status.job_id);
            take_over(&mut s.installed_version, &status.installed_tag);
            take_over(&mut s.installed_digest, &status.installed_digest);
            take_over(&mut s.installed_release_version, &status.installed_version);
            take_over(&mut s.installed_build_number, &status.installed_build);
            take_over(&mut s.previous_version, &status.previous_tag);
            take_over(&mut s.previous_digest, &status.previous_digest);
            take_over(&mut s.previous_release_version, &status.previous_version);
            take_over(&mut s.previous_build_number, &status.previous_build);
            let failed = text::same(s.status.as_str(), STATUS_FAILED);
            match status.message {
                Some(m) => {
                    if !text::is_blank(m.as_str()) && failed {
                        s.last_error = m;
                    } else if !failed {
                        s.last_error = String::new();
                    }
                },
                None => {},
            }
            if text::same(s.status.as_str(), STATUS_UPDATING) || text::same(
                s.status.as_str(),
                STATUS_CHECKING,
            ) {
                return None;
            }
            if !failed {
                s.last_error = String::new();
            }
            s.active_job_id = String::new();
            Some(
                FinishedJob {
                    id: job,
                    status: (if failed {
                        "failed"
                    } else {
                        "completed"
                    }).to_string(),
                    progress_key: s.progress_key.clone(),
                    error_message: s.last_error.clone(),
                },
            )
        },
        Err(e) => {
            s.status = STATUS_FAILED.to_string();
            s.progress_key = "updates.progress.apply_failed".to_string();
            let mut m = "Lost contact with updater sidecar: ".to_string();
            m.append(e.as_str());
            s.last_error = m;
            s.active_job_id = String::new();
            Some(
                FinishedJob {
                    id: job,
                    status: "failed".to_string(),
                    progress_key: s.progress_key.clone(),
                    error_message: s.last_error.clone(),
                },
            )
        },
    }
}

/// Whether `r` shows the state of the updates.
pub open spec fn shows_updates(r: UpdateJobStatusResponse, s: Updates) -> bool {
    &&& r.active_job_id@ == s.active_job_id
    &&& r.status@ == s.status
    &&& r.progress_key@ == s.progress_key
    &&& r.last_error@ == s.last_error
    &&& r.last_checked_at@ == s.last_checked_at
    &&& r.last_attempt_at@ == s.last_attempt_at
    &&& r.installed_version@ == s.installed_version
    &&& r.installed_display@ == display_of(
        s.installed_release_version,
        s.installed_build_number,
        s.installed_version,
        s.installed_digest,
    )
    &&& r.installed_release_version@ == s.installed_release_version
    &&& r.installed_build_number@ == s.installed_build_number
    &&& r.available_version@ == s.available_version
    &&& r.available_display@ == display_of(
        s.available_release_version,
        s.available_build_number,
        s.available_version,
        s.available_digest,
    )
    &&& r.available_release_version@ == s.available_release_version
    &&& r.available_build_number@ == s.available_build_number
    &&& r.available_changelog_url@ == s.available_changelog_url
    &&& r.available_changelog_body@ == s.available_changelog_body
    &&& r.previous_version@ == s.previous_version
    &&& r.previous_display@ == display_of(
        s.previous_release_version,
        s.previous_build_number,
        s.previous_version,
        s.previous_digest,
    )
    &&& r.previous_release_version@ == s.previous_release_version
    &&& r.previous_build_number@ == s.previous_build_number
    &&& r.update_available == s.offers_update()
    &&& r.rollback_available == s.offers_rollback()
}

/// The state of updates as it is answered.
pub fn job_status_response(s: &UpdateState) -> (r: UpdateJobStatusResponse)
    ensures
        shows_updates(r, s@),
{
    UpdateJobStatusResponse {
        active_job_id: s.active_job_id.clone(),
        status: s.status.clone(),
        progress_key: s.progress_key.clone(),
        last_error: s.last_error.clone(),
        last_checked_at: s.last_checked_at.clone(),
        last_attempt_at: s.last_attempt_at.clone(),
        installed_version: s.installed_version.clone(),
        installed_display: format_release_display(
            s.installed_release_version.as_str(),
            s.installed_build_number.as_str(),
            s.installed_version.as_str(),
            s.installed_digest.as_str(),
        ),
        installed_release_version: s.installed_release_version.clone(),
        installed_build_number: s.installed_build_number.clone(),
        available_version: s.available_version.clone(),
        available_display: format_release_display(
            s.available_release_version.as_str(),
            s.available_build_number.as_str(),
            s.available_version.as_str(),
            s.available_digest.as_str(),
        ),
        available_release_version: s.available_release_version.clone(),
        available_build_number: s.available_build_number.clone(),
        available_changelog_url: s.available_changelog_url.clone(),
        available_changelog_body: s.available_changelog_body.clone(),
        previous_version: s.previous_version.clone(),
        previous_display: format_release_display(
            s.previous_release_version.as_str(),
            s.previous_build_number.as_str(),
            s.previous_version.as_str(),
            s.previous_digest.as_str(),
        ),
        previous_release_version: s.previous_release_version.clone(),
        previous_build_number: s.previous_build_number.clone(),
        update_available: is_update_available(s),
        rollback_available: is_rollback_available(s),
    }
}

/// How the updates stand: with what the update service says is installed, and with
/// what it says of the job that runs, which it is asked about where there is one.
/// `status` and `polled` are what it said, if it could be asked. Gives the entry of
/// the journal that is to be closed, if any. Only an administrator may ask.
pub fn updates_job_status(
    is_admin: bool,
    s: &mut UpdateState,
    status: &Option<StatusResponse>,
    release_channel: &str,
    polled: Result<StatusResponse, String>,
) -> (r: Verdict<(Option<FinishedJob>, UpdateJobStatusResponse)>)
    ensures
        match r {
            Verdict::Answer(a) => !is_admin && a@ == Sent::Status(403) && *final(s) == *old(s),
            Verdict::Proceed(v) => {
                &&& is_admin
                &&& is_polled(
                    old(s)@.informed(*status).completed(release_channel@),
                    polled,
                    final(s)@,
                    v.0,
                )
                &&& shows_updates(v.1, final(s)@)
            },
        },
{
    if !is_admin {
        return Verdict::Answer(WebAnswer::Status(response::FORBIDDEN));
    }
    hydrate_installed_from_sidecar(status, release_channel, s);
    let closed = poll_job(s, polled);
    let response = job_status_response(s);
    Verdict::Proceed((closed, response))
}

// ── Jobs ─────────────────────────────────────────────────────────────────────

impl Updates {
    /// The state in which a job has been claimed.
    pub open spec fn claimed(
        self,
        job_id: Seq<char>,
        status: Seq<char>,
        progress_key: Seq<char>,
        attempt: Option<Seq<char>>,
    ) -> Updates {
        Updates {
            status,
            progress_key,
            active_job_id: job_id,
            last_attempt_at: match attempt {
                Some(now) => now,
                None => self.last_attempt_at,
            },
            ..self
        }
    }

    /// The state after a job tried to claim the slot: it gets it where it is free.
    pub open spec fn tried(
        self,
        job_id: Seq<char>,
        status: Seq<char>,
        progress_key: Seq<char>,
        attempt: Option<Seq<char>>,
    ) -> Updates {
        if self.active_job_id.len() == 0 {
            self.claimed(job_id, status, progress_key, attempt)
        } else {
            self
        }
    }

    /// The state after something could not be done.
    pub open spec fn broken(self, progress_key: Seq<char>, message: Seq<char>) -> Updates {
        Updates {
            status: STATUS_FAILED@,
            progress_key,
            last_error: message,
            active_job_id: Seq::empty(),
            ..self
        }
    }

    /// The state with what a release channel offers.
    pub open spec fn offered(self, m: ReleaseMetadata) -> Updates {
        Updates {
            available_version: m.tag@,
            available_digest: m.digest@,
            available_release_version: release_of(m.version@, m.tag@),
            available_build_number: m.build_number@,
            available_changelog_url: m.changelog_url@,
            available_changelog_body: m.changelog_body@,
            ..self
        }
    }
}

/// Claims the one slot for a job, where it is free.
pub fn try_claim_active_job(
    s: &mut UpdateState,
    job_id: &str,
    status: &str,
    progress_key: &str,
    attempt: Option<&str>,
) -> (r: bool)
    ensures
        r == (old(s)@.active_job_id.len() == 0),
        final(s)@ == old(s)@.tried(job_id@, status@, progress_key@, text::opt_str(attempt)),
{
    if !s.active_job_id.as_str().is_empty() {
        return false;
    }
    s.status = status.to_string();
    s.progress_key = progress_key.to_string();
    s.active_job_id = job_id.to_string();
    match attempt {
        Some(now) => {
            s.last_attempt_at = now.to_string();
        },
        None => {},
    }
    true
}

/// Notes that something could not be done, and frees the slot for a job.
pub fn set_failure_state(s: &mut UpdateState, progress_key: &str, message: &str)
    ensures
        final(s)@ == old(s)@.broken(progress_key@, message@),
{
    s.status = STATUS_FAILED.to_string();
    s.progress_key = progress_key.to_string();
    s.last_error = message.to_string();
    s.active_job_id = String::new();
}

/// What is said where the slot for a job is taken.
pub fn already_running() -> (r: String)
    ensures
        r@ == "Another update action is already running"@,
{
    "Another update action is already running".to_string()
}

/// Accepts what a release channel offers for a check: it needs a tag.
pub fn vet_check(metadata: &ReleaseMetadata) -> (r: Result<(), String>)
    ensures
        if blank(metadata.tag@) {
            r is Err && r->Err_0@ == "Release metadata did not include a tag"@
        } else {
            r is Ok
        },
{
    if text::is_blank(metadata.tag.as_str()) {
        Err("Release metadata did not include a tag".to_string())
    } else {
        Ok(())
    }
}

/// Accepts what a release channel offers for an update: it needs a tag and a
/// digest.
pub fn vet_apply(metadata: &ReleaseMetadata) -> (r: Result<(), String>)
    ensures
        if blank(metadata.tag@) {
            r is Err && r->Err_0@ == "Release metadata did not include a tag"@
        } else if blank(metadata.digest@) {
            r is Err && r->Err_0@ == "Release metadata did not include a digest"@
        } else {
            r is Ok
        },
{
    if text::is_blank(metadata.tag.as_str()) {
        Err("Release metadata did not include a tag".to_string())
    } else if text::is_blank(metadata.digest.as_str()) {
        Err("Release metadata did not include a digest".to_string())
    } else {
        Ok(())
    }
}

/// Accepts a rollback: there has to be a version to go back to.
pub fn vet_rollback(s: &UpdateState) -> (r: Result<(), String>)
    ensures
        if blank(s@.previous_version) {
            r is Err && r->Err_0@ == "No previous version is available for rollback"@
        } else {
            r is Ok
        },
{
    if text::is_blank(s.previous_version.as_str()) {
        Err("No previous version is available for rollback".to_string())
    } else {
        Ok(())
    }
}

/// What the update service is asked for a check.
pub fn check_request(job_id: &str, channel: &str, metadata: &ReleaseMetadata) -> (r: CheckRequest)
    ensures
        r.request_id@ == job_id@,
        r.channel@ == channel@,
        r.target_tag@ == metadata.tag@,
        r.target_digest@ == metadata.digest@,
{
    CheckRequest {
        request_id: job_id.to_string(),
        channel: channel.to_string(),
        target_tag: metadata.tag.clone(),
        target_digest: metadata.digest.clone(),
    }
}

/// What the update service is asked for an update.
pub fn apply_request(job_id: &str, channel: &str, metadata: &ReleaseMetadata) -> (r: ApplyRequest)
    ensures
        r.request_id@ == job_id@,
        r.channel@ == channel@,
        r.target_tag@ == metadata.tag@,
        r.target_digest@ == metadata.digest@,
        r.target_version@ == release_of(metadata.version@, metadata.tag@),
        r.target_build@ == metadata.build_number@,
{
    ApplyRequest {
        request_id: job_id.to_string(),
        channel: channel.to_string(),
        target_tag: metadata.tag.clone(),
        target_digest: metadata.digest.clone(),
        target_version: normalize_release_version(
            metadata.version.as_str(),
            metadata.tag.as_str(),
            channel,
        ),
        target_build: metadata.build_number.clone(),
    }
}

/// What the update service is asked for a rollback.
pub fn rollback_request(job_id: &str, channel: &str, s: &UpdateState) -> (r: RollbackRequest)
    ensures
        r.request_id@ == job_id@,
        r.channel@ == channel@,
        r.rollback_tag@ == s@.previous_version,
        r.rollback_digest@ == s@.previous_digest,
        r.rollback_version@ == s@.previous_release_version,
        r.rollback_build@ == s@.previous_build_number,
{
    RollbackRequest {
        request_id: job_id.to_string(),
        channel: channel.to_string(),
        rollback_tag: s.previous_version.clone(),
        rollback_digest: s.previous_digest.clone(),
        rollback_version: s.previous_release_version.clone(),
        rollback_build: s.previous_build_number.clone(),
    }
}

/// Takes over what a release channel offers.
fn take_offer(s: &mut UpdateState, metadata: &ReleaseMetadata, channel: &str)
    ensures
        final(s)@ == old(s)@.offered(*metadata),
{
    s.available_version = metadata.tag.clone();
    s.available_digest = metadata.digest.clone();
    s.available_release_version =
    normalize_release_version(metadata.version.as_str(), metadata.tag.as_str(), channel);
    s.available_build_number = metadata.build_number.clone();
    s.available_changelog_url = metadata.changelog_url.clone();
    s.available_changelog_body = metadata.changelog_body.clone();
}

/// A text, or nothing.
pub open spec fn or_nothing(o: Option<Seq<char>>) -> Seq<char> {
    match o {
        Some(v) => v,
        None => Seq::empty(),
    }
}

/// A text, or another one where there is none.
fn text_or(o: Option<String>, other: &str) -> (r: String)
    ensures
        r@ == match opt_text(o) {
            Some(v) => v,
            None => other@,
        },
{
    match o {
        Some(v) => v,
        None => other.to_string(),
    }
}

impl Updates {
    /// The state after the update service took note of a check.
    pub open spec fn checked(
        self,
        status: Option<StatusResponse>,
        channel: Seq<char>,
        m: ReleaseMetadata,
        progress_key: Option<Seq<char>>,
        now: Seq<char>,
    ) -> Updates {
        let s = self.informed(status).completed(channel).offered(m);
        let found = s.offers_update();
        Updates {
            last_checked_at: now,
            status: if found {
                STATUS_UPDATE_AVAILABLE@
            } else {
                STATUS_IDLE@
            },
            progress_key: match progress_key {
                Some(k) => k,
                None => if found {
                    "updates.progress.update_available"@
                } else {
                    "updates.progress.already_current"@
                },
            },
            last_error: Seq::empty(),
            active_job_id: Seq::empty(),
            ..s
        }
    }

    /// Whether a check finds an update.
    pub open spec fn finds_update(
        self,
        status: Option<StatusResponse>,
        channel: Seq<char>,
        m: ReleaseMetadata,
    ) -> bool {
        self.informed(status).completed(channel).offered(m).offers_update()
    }
}

/// Takes a check to its end: with the answer of the update service, whether there
/// is an update; without one, the failure.
pub fn finish_check(
    s: &mut UpdateState,
    status: &Option<StatusResponse>,
    channel: &str,
    metadata: &ReleaseMetadata,
    ack: Result<AckResponse, String>,
    job_id: &str,
    now: &str,
) -> (r: (FinishedJob, Result<bool, String>))
    ensures
        match ack {
            Ok(a) => {
                &&& final(s)@ == old(s)@.checked(
                    *status,
                    channel@,
                    *metadata,
                    opt_text(a.progress_key),
                    now@,
                )
                &&& r.1 == Ok::<bool, String>(old(s)@.finds_update(*status, channel@, *metadata))
                &&& r.0.says(
                    job_id@,
                    if a.accepted {
                        "completed"@
                    } else {
                        "failed"@
                    },
                    final(s)@.progress_key,
                    or_nothing(opt_text(a.message)),
                )
            },
            Err(e) => {
                &&& final(s)@ == old(s)@.broken(
                    "updates.progress.check_failed"@,
                    "Could not check for updates via updater sidecar."@,
                )
                &&& r.1 == Err::<bool, String>(e)
                &&& r.0.says(job_id@, "failed"@, "updates.progress.check_failed"@, e@)
            },
        },
{
    proof {
        reveal_strlit("");
    }
    match ack {
        Ok(a) => {
            hydrate_installed_from_sidecar(status, channel, s);
            take_offer(s, metadata, channel);
            s.last_checked_at = now.to_string();
            let found = is_update_available(s);
            s.status = (if found {
                STATUS_UPDATE_AVAILABLE
            } else {
                STATUS_IDLE
            }).to_string();
            s.progress_key =
            text_or(
                a.progress_key,
                if found {
                    "updates.progress.update_available"
                } else {
                    "updates.progress.already_current"
                },
            );
            s.last_error = String::new();
            s.active_job_id = String::new();
            let job = FinishedJob {
                id: job_id.to_string(),
                status: (if a.accepted {
                    "completed"
                } else {
                    "failed"
                }).to_string(),
                progress_key: s.progress_key.clone(),
                error_message: text_or(a.message, ""),
            };
            proof {
                assert(""@ =~= Seq::<char>::empty());
            }
            (job, Ok(found))
        },
        Err(e) => {
            set_failure_state(
                s,
                "updates.progress.check_failed",
                "Could not check for updates via updater sidecar.",
            );
            let job = FinishedJob {
                id: job_id.to_string(),
                status: "failed".to_string(),
                progress_key: "updates.progress.check_failed".to_string(),
                error_message: e.clone(),
            };
            (job, Err(e))
        },
    }
}

impl Updates {
    /// The state after the update service took a job on.
    pub open spec fn started(self, ack: AckResponse, job_id: Seq<char>, key: Seq<char>, now: Seq<char>) -> Updates {
        Updates {
            last_attempt_at: now,
            status: match opt_text(ack.status) {
                Some(v) if !blank(v) => v,
                _ => STATUS_UPDATING@,
            },
            progress_key: match opt_text(ack.progress_key) {
                Some(v) => v,
                None => key,
            },
            last_error: Seq::empty(),
            active_job_id: match opt_text(ack.job_id) {
                Some(v) => v,
                None => job_id,
            },
            ..self
        }
    }

    /// The state after the update service turned a job down.
    pub open spec fn turned_down(self, message: Seq<char>, now: Seq<char>) -> Updates {
        Updates {
            last_attempt_at: now,
            status: STATUS_FAILED@,
            progress_key: "updates.progress.apply_failed"@,
            last_error: message,
            active_job_id: Seq::empty(),
            ..self
        }
    }

    /// The state in which the installed version is the one to go back to.
    pub open spec fn kept_installed(self) -> Updates {
        Updates {
            previous_version: self.installed_version,
            previous_digest: self.installed_digest,
            previous_release_version: self.installed_release_version,
            previous_build_number: self.installed_build_number,
            ..self
        }
    }

    /// The state in which tag and digest of the installed version are those to go
    /// back to.
    pub open spec fn kept_installed_image(self) -> Updates {
        Updates {
            previous_version: self.installed_version,
            previous_digest: self.installed_digest,
            ..self
        }
    }
}

/// Notes that the update service took a job on.
fn note_started(s: &mut UpdateState, ack: &AckResponse, job_id: &str, key: &str, now: &str)
    ensures
        final(s)@ == old(s)@.started(*ack, job_id@, key@, now@),
{
    s.last_attempt_at = now.to_string();
    s.status = STATUS_UPDATING.to_string();
    take_over(&mut s.status, &ack.status);
    s.progress_key = match &ack.progress_key {
        Some(v) => v.clone(),
        None => key.to_string(),
    };
    s.last_error = String::new();
    s.active_job_id = match &ack.job_id {
        Some(v) => v.clone(),
        None => job_id.to_string(),
    };
}

/// Notes that the update service turned a job down.
fn note_turned_down(s: &mut UpdateState, message: &str, now: &str)
    ensures
        final(s)@ == old(s)@.turned_down(message@, now@),
{
    s.last_attempt_at = now.to_string();
    s.status = STATUS_FAILED.to_string();
    s.progress_key = "updates.progress.apply_failed".to_string();
    s.last_error = message.to_string();
    s.active_job_id = String::new();
}

/// An entry of the journal.
fn journal(id: &str, status: &str, progress_key: &str, error_message: &str) -> (r: FinishedJob)
    ensures
        r.says(id@, status@, progress_key@, error_message@),
{
    FinishedJob {
        id: id.to_string(),
        status: status.to_string(),
        progress_key: progress_key.to_string(),
        error_message: error_message.to_string(),
    }
}

/// Takes the start of an update to its end: with the answer of the update
/// service, that the job runs or was turned down; without one, the failure.
pub fn finish_apply(
    s: &mut UpdateState,
    channel: &str,
    metadata: &ReleaseMetadata,
    ack: Result<AckResponse, String>,
    job_id: &str,
    now: &str,
) -> (r: (FinishedJob, Result<(), String>))
    ensures
        match ack {
            Ok(a) => if a.accepted {
                &&& final(s)@ == old(s)@.offered(*metadata).kept_installed().started(
                    a,
                    job_id@,
                    "updates.progress.restarting"@,
                    now@,
                )
                &&& r.1 is Ok
                &&& r.0.says(
                    job_id@,
                    "started"@,
                    final(s)@.progress_key,
                    or_nothing(opt_text(a.message)),
                )
            } else {
                &&& final(s)@ == old(s)@.offered(*metadata).turned_down(
                    "Updater sidecar rejected the update request."@,
                    now@,
                )
                &&& r.1 is Err
                &&& r.1->Err_0@ == "Updater sidecar rejected update request"@
                &&& r.0.says(
                    job_id@,
                    "failed"@,
                    final(s)@.progress_key,
                    "Updater sidecar rejected the update request."@,
                )
            },
            Err(e) => {
                &&& final(s)@ == old(s)@.broken(
                    "updates.progress.apply_failed"@,
                    "Could not reach updater sidecar for update."@,
                )
                &&& r.1 == Err::<(), String>(e)
                &&& r.0.says(job_id@, "failed"@, "updates.progress.apply_failed"@, e@)
            },
        },
{
    match ack {
        Ok(a) => {
            take_offer(s, metadata, channel);
            if a.accepted {
                s.previous_version = s.installed_version.clone();
                s.previous_digest = s.installed_digest.clone();
                s.previous_release_version = s.installed_release_version.clone();
                s.previous_build_number = s.installed_build_number.clone();
                note_started(s, &a, job_id, "updates.progress.restarting", now);
                let message = text_or(a.message, "");
                proof {
                    reveal_strlit("");
                    assert(""@ =~= Seq::<char>::empty());
                }
                let job = journal(job_id, "started", s.progress_key.as_str(), message.as_str());
                (job, Ok(()))
            } else {
                note_turned_down(s, "Updater sidecar rejected the update request.", now);
                let job = journal(
                    job_id,
                    "failed",
                    s.progress_key.as_str(),
                    "Updater sidecar rejected the update request.",
                );
                (job, Err("Updater sidecar rejected update request".to_string()))
            }
        },
        Err(e) => {
            set_failure_state(
                s,
                "updates.progress.apply_failed",
                "Could not reach updater sidecar for update.",
            );
            let job = journal(job_id, "failed", "updates.progress.apply_failed", e.as_str());
            (job, Err(e))
        },
    }
}

/// Takes the start of a rollback to its end: with the answer of the update
/// service, that the job runs or was turned down; without one, the failure.
pub fn finish_rollback(
    s: &mut UpdateState,
    ack: Result<AckResponse, String>,
    job_id: &str,
    now: &str,
) -> (r: (FinishedJob, Result<(), String>))
    ensures
        match ack {
            Ok(a) => if a.accepted {
                &&& final(s)@ == old(s)@.kept_installed_image().started(
                    a,
                    job_id@,
                    "updates.progress.rollback_restarting"@,
                    now@,
                )
                &&& r.1 is Ok
                &&& r.0.says(
                    job_id@,
                    "started"@,
                    final(s)@.progress_key,
                    or_nothing(opt_text(a.message)),
                )
            } else {
                &&& final(s)@ == old(s)@.turned_down(
                    "Updater sidecar rejected the rollback request."@,
                    now@,
                )
                &&& r.1 is Err
                &&& r.1->Err_0@ == "Updater sidecar rejected rollback request"@
                &&& r.0.says(
                    job_id@,
                    "failed"@,
                    final(s)@.progress_key,
                    "Updater sidecar rejected the rollback request."@,
                )
            },
            Err(e) => {
                &&& final(s)@ == old(s)@.broken(
                    "updates.progress.apply_failed"@,
                    "Could not reach updater sidecar for rollback."@,
                )
                &&& r.1 == Err::<(), String>(e)
                &&& r.0.says(job_id@, "failed"@, "updates.progress.apply_failed"@, e@)
            },
        },
{
    match ack {
        Ok(a) => {
            if a.accepted {
                s.previous_version = s.installed_version.clone();
                s.previous_digest = s.installed_digest.clone();
                note_started(s, &a, job_id, "updates.progress.rollback_restarting", now);
                let message = text_or(a.message, "");
                proof {
                    reveal_strlit("");
                    assert(""@ =~= Seq::<char>::empty());
                }
                let job = journal(job_id, "started", s.progress_key.as_str(), message.as_str());
                (job, Ok(()))
            } else {
                note_turned_down(s, "Updater sidecar rejected the rollback request.", now);
                let job = journal(
                    job_id,
                    "failed",
                    s.progress_key.as_str(),
                    "Updater sidecar rejected the rollback request.",
                );
                (job, Err("Updater sidecar rejected rollback request".to_string()))
            }
        },
        Err(e) => {
            set_failure_state(
                s,
                "updates.progress.apply_failed",
                "Could not reach updater sidecar for rollback.",
            );
            let job = journal(job_id, "failed", "updates.progress.apply_failed", e.as_str());
            (job, Err(e))
        },
    }
}

/// Whether an automatic check goes on to apply what it found.
pub fn auto_applies(settings: &UpdateSettings, has_update: bool) -> (r: bool)
    ensures
        r == (settings.auto_check && has_update && settings.auto_update),
{
    settings.auto_check && has_update && settings.auto_update
}

// ── What is stored ───────────────────────────────────────────────────────────

/// The settings as stored, as far as they can be read.
#[derive(Debug)]
pub struct SettingsRow {
    pub release_channel: Option<String>,
    pub auto_check: Option<i64>,
    pub auto_update: Option<i64>,
    pub installation_telemetry_opt_out: Option<i64>,
    pub external_url: Option<String>,
    pub push_notifications_enabled: Option<i64>,
}

/// The state as stored, as far as it can be read.
#[derive(Debug)]
pub struct StateRow {
    pub installed_version: Option<String>,
    pub installed_digest: Option<String>,
    pub installed_release_version: Option<String>,
    pub installed_build_number: Option<String>,
    pub available_version: Option<String>,
    pub available_digest: Option<String>,
    pub available_release_version: Option<String>,
    pub available_build_number: Option<String>,
    pub available_changelog_url: Option<String>,
    pub available_changelog_body: Option<String>,
    pub previous_version: Option<String>,
    pub previous_digest: Option<String>,
    pub previous_release_version: Option<String>,
    pub previous_build_number: Option<String>,
    pub last_checked_at: Option<String>,
    pub last_attempt_at: Option<String>,
    pub active_job_id: Option<String>,
    pub last_good_tag: Option<String>,
    pub last_good_digest: Option<String>,
    pub last_error: Option<String>,
    pub status: Option<String>,
    pub progress_key: Option<String>,
}

/// A text, or another one where it is missing.
pub open spec fn stored_text(o: Option<String>, other: Seq<char>) -> Seq<char> {
    match o {
        Some(s) => s@,
        None => other,
    }
}

/// Whether a flag is set, or what it is where it is missing.
pub open spec fn flag_or(o: Option<i64>, other: bool) -> bool {
    match o {
        Some(v) => v != 0,
        None => other,
    }
}

/// Whether a flag is set, or what it is where it is missing.
fn pick_flag(o: Option<i64>, other: bool) -> (r: bool)
    ensures
        r == flag_or(o, other),
{
    match o {
        Some(v) => v != 0,
        None => other,
    }
}

/// The settings: the stable channel with automatic checks where nothing else is
/// stored.
pub fn load_settings(row: SettingsRow) -> (r: UpdateSettings)
    ensures
        r.release_channel@ == stored_text(row.release_channel, "stable"@),
        r.auto_check == flag_or(row.auto_check, true),
        r.auto_update == flag_or(row.auto_update, false),
        r.installation_telemetry_opt_out == flag_or(row.installation_telemetry_opt_out, false),
        r.external_url@ == stored_text(row.external_url, ""@),
        r.push_notifications_enabled == flag_or(row.push_notifications_enabled, false),
{
    UpdateSettings {
        release_channel: text_or(row.release_channel, "stable"),
        auto_check: pick_flag(row.auto_check, true),
        auto_update: pick_flag(row.auto_update, false),
        installation_telemetry_opt_out: pick_flag(row.installation_telemetry_opt_out, false),
        external_url: text_or(row.external_url, ""),
        push_notifications_enabled: pick_flag(row.push_notifications_enabled, false),
    }
}

/// The state: idle where nothing else is stored.
pub fn load_state(row: StateRow) -> (r: UpdateState)
    ensures
        r.installed_version@ == stored_text(row.installed_version, ""@),
        r.installed_digest@ == stored_text(row.installed_digest, ""@),
        r.installed_release_version@ == stored_text(row.installed_release_version, ""@),
        r.installed_build_number@ == stored_text(row.installed_build_number, ""@),
        r.available_version@ == stored_text(row.available_version, ""@),
        r.available_digest@ == stored_text(row.available_digest, ""@),
        r.available_release_version@ == stored_text(row.available_release_version, ""@),
        r.available_build_number@ == stored_text(row.available_build_number, ""@),
        r.available_changelog_url@ == stored_text(row.available_changelog_url, ""@),
        r.available_changelog_body@ == stored_text(row.available_changelog_body, ""@),
        r.previous_version@ == stored_text(row.previous_version, ""@),
        r.previous_digest@ == stored_text(row.previous_digest, ""@),
        r.previous_release_version@ == stored_text(row.previous_release_version, ""@),
        r.previous_build_number@ == stored_text(row.previous_build_number, ""@),
        r.last_checked_at@ == stored_text(row.last_checked_at, ""@),
        r.last_attempt_at@ == stored_text(row.last_attempt_at, ""@),
        r.active_job_id@ == stored_text(row.active_job_id, ""@),
        r.last_good_tag@ == stored_text(row.last_good_tag, ""@),
        r.last_good_digest@ == stored_text(row.last_good_digest, ""@),
        r.last_error@ == stored_text(row.last_error, ""@),
        r.status@ == stored_text(row.status, STATUS_IDLE@),
        r.progress_key@ == stored_text(row.progress_key, "updates.progress.idle"@),
{
    UpdateState {
        installed_version: text_or(row.installed_version, ""),
        installed_digest: text_or(row.installed_digest, ""),
        installed_release_version: text_or(row.installed_release_version, ""),
        installed_build_number: text_or(row.installed_build_number, ""),
        available_version: text_or(row.available_version, ""),
        available_digest: text_or(row.available_digest, ""),
        available_release_version: text_or(row.available_release_version, ""),
        available_build_number: text_or(row.available_build_number, ""),
        available_changelog_url: text_or(row.available_changelog_url, ""),
        available_changelog_body: text_or(row.available_changelog_body, ""),
        previous_version: text_or(row.previous_version, ""),
        previous_digest: text_or(row.previous_digest, ""),
        previous_release_version: text_or(row.previous_release_version, ""),
        previous_build_number: text_or(row.previous_build_number, ""),
        last_checked_at: text_or(row.last_checked_at, ""),
        last_attempt_at: text_or(row.last_attempt_at, ""),
        active_job_id: text_or(row.active_job_id, ""),
        last_good_tag: text_or(row.last_good_tag, ""),
        last_good_digest: text_or(row.last_good_digest, ""),
        last_error: text_or(row.last_error, ""),
        status: text_or(row.status, STATUS_IDLE),
        progress_key: text_or(row.progress_key, "updates.progress.idle"),
    }
}

/// Where the metadata of a release channel is fetched.
pub fn release_metadata_address(base: &str, channel: &str) -> (r: String)
    ensures
        r@ == trimmed_end_of(base@, '/') + "?channel="@ + channel@,
{
    let mut out = text::trim_end_of(base, '/').to_string();
    out.append("?channel=");
    out.append(channel);
    out
}

/// Where the release channels are fetched.
pub fn channels_address(base: &str) -> (r: String)
    ensures
        r@ == trimmed_end_of(base@, '/') + "/channels"@,
{
    let mut out = text::trim_end_of(base, '/').to_string();
    out.append("/channels");
    out
}

// ── Keys and their texts ─────────────────────────────────────────────────────

/// The key of the text that says what is going on.
pub open spec fn status_key(status: Seq<char>) -> Seq<char> {
    if status == STATUS_CHECKING@ {
        "updates.state.checking"@
    } else if status == STATUS_UPDATE_AVAILABLE@ {
        "updates.state.update_available"@
    } else if status == STATUS_UPDATING@ {
        "updates.state.updating"@
    } else if status == STATUS_ROLLBACK_AVAILABLE@ {
        "updates.state.rollback_available"@
    } else if status == STATUS_FAILED@ {
        "updates.state.failed"@
    } else {
        "updates.state.idle"@
    }
}

/// The key of the text that says what is going on.
pub fn status_key_for(status: &str) -> (r: &'static str)
    ensures
        r@ == status_key(status@),
{
    if text::same(status, STATUS_CHECKING) {
        "updates.state.checking"
    } else if text::same(status, STATUS_UPDATE_AVAILABLE) {
        "updates.state.update_available"
    } else if text::same(status, STATUS_UPDATING) {
        "updates.state.updating"
    } else if text::same(status, STATUS_ROLLBACK_AVAILABLE) {
        "updates.state.rollback_available"
    } else if text::same(status, STATUS_FAILED) {
        "updates.state.failed"
    } else {
        "updates.state.idle"
    }
}

/// The English text of a key.
pub open spec fn text_of_key(key: Seq<char>) -> Seq<char> {
    if key == "updates.error.invalid_channel"@ {
        "Please choose a valid release channel."@
    } else if key == "updates.error.channel_save_failed"@ {
        "Could not save your release channel."@
    } else if key == "updates.error.auto_update_save_failed"@ {
        "Could not save automatic updates."@
    } else if key == "updates.error.installation_telemetry_save_failed"@ {
        "Could not save anonymous installation statistics setting."@
    } else if key == "updates.error.push_notifications_save_failed"@ {
        "Could not save push notification setting."@
    } else if key == "updates.error.public_origin_invalid"@ {
        "Enter a full web address like https://selu.example.com."@
    } else if key == "updates.error.public_origin_save_failed"@ {
        "Could not save the public web address."@
    } else if key == "updates.error.check_failed"@ {
        "Could not check for updates. Please try again."@
    } else if key == "updates.error.apply_failed"@ {
        "Update failed. Your previous version was kept when possible."@
    } else if key == "updates.error.rollback_failed"@ {
        "Rollback failed. Please check your Docker setup."@
    } else if key == "updates.flash.channel_saved"@ {
        "Release channel saved."@
    } else if key == "updates.flash.public_origin_saved"@ {
        "Public web address saved."@
    } else if key == "updates.flash.public_origin_applied"@ {
        "Current host applied as the public web address."@
    } else if key == "updates.flash.auto_update_saved"@ {
        "Automatic update setting saved."@
    } else if key == "updates.flash.installation_telemetry_saved"@ {
        "Anonymous installation statistics setting saved."@
    } else if key == "updates.flash.push_notifications_saved"@ {
        "Push notification setting saved."@
    } else if key == "updates.flash.check_available"@ {
        "Update check complete. A new version is available."@
    } else if key == "updates.flash.check_none"@ {
        "Update check complete. You are already up to date."@
    } else if key == "updates.flash.apply_started"@ {
        "Update started."@
    } else if key == "updates.flash.apply_done"@ {
        "Update complete."@
    } else if key == "updates.flash.rollback_started"@ {
        "Rollback started."@
    } else if key == "updates.flash.rollback_done"@ {
        "Rollback complete."@
    } else if key == "updates.state.idle"@ {
        "Idle"@
    } else if key == "updates.state.checking"@ {
        "Checking for updates"@
    } else if key == "updates.state.update_available"@ {
        "Update available"@
    } else if key == "updates.state.updating"@ {
        "Updating"@
    } else if key == "updates.state.rollback_available"@ {
        "Rollback available"@
    } else if key == "updates.state.failed"@ {
        "Needs attention"@
    } else if key == "updates.progress.idle"@ {
        "Waiting for the next check."@
    } else if key == "updates.progress.checking"@ {
        "Checking release metadata."@
    } else if key == "updates.progress.check_failed"@ {
        "Could not check for updates."@
    } else if key == "updates.progress.update_available"@ {
        "A newer version is ready."@
    } else if key == "updates.progress.preparing"@ {
        "Preparing update settings."@
    } else if key == "updates.progress.pulling"@ {
        "Downloading the new image."@
    } else if key == "updates.progress.restarting"@ {
        "Restarting Selu."@
    } else if key == "updates.progress.health_check"@ {
        "Running health checks."@
    } else if key == "updates.progress.apply_done"@ {
        "Update finished successfully."@
    } else if key == "updates.progress.apply_failed"@ {
        "Update failed."@
    } else if key == "updates.progress.rollback_ready"@ {
        "A rollback is available."@
    } else if key == "updates.progress.rollback_start"@ {
        "Starting rollback."@
    } else if key == "updates.progress.rollback_restarting"@ {
        "Restarting previous version."@
    } else if key == "updates.progress.rollback_done"@ {
        "Rollback finished successfully."@
    } else if key == "updates.progress.already_current"@ {
        "You are already on the latest version."@
    } else {
        "Done."@
    }
}

/// The English text of a key.
pub fn fallback_text_for_key(key: &str) -> (r: &'static str)
    ensures
        r@ == text_of_key(key@),
{
    if text::same(key, "updates.error.invalid_channel") {
        "Please choose a valid release channel."
    } else if text::same(key, "updates.error.channel_save_failed") {
        "Could not save your release channel."
    } else if text::same(key, "updates.error.auto_update_save_failed") {
        "Could not save automatic updates."
    } else if text::same(key, "updates.error.installation_telemetry_save_failed") {
        "Could not save anonymous installation statistics setting."
    } else if text::same(key, "updates.error.push_notifications_save_failed") {
        "Could not save push notification setting."
    } else if text::same(key, "updates.error.public_origin_invalid") {
        "Enter a full web address like https://selu.example.com."
    } else if text::same(key, "updates.error.public_origin_save_failed") {
        "Could not save the public web address."
    } else if text::same(key, "updates.error.check_failed") {
        "Could not check for updates. Please try again."
    } else if text::same(key, "updates.error.apply_failed") {
        "Update failed. Your previous version was kept when possible."
    } else if text::same(key, "updates.error.rollback_failed") {
        "Rollback failed. Please check your Docker setup."
    } else if text::same(key, "updates.flash.channel_saved") {
        "Release channel saved."
    } else if text::same(key, "updates.flash.public_origin_saved") {
        "Public web address saved."
    } else if text::same(key, "updates.flash.public_origin_applied") {
        "Current host applied as the public web address."
    } else if text::same(key, "updates.flash.auto_update_saved") {
        "Automatic update setting saved."
    } else if text::same(key, "updates.flash.installation_telemetry_saved") {
        "Anonymous installation statistics setting saved."
    } else if text::same(key, "updates.flash.push_notifications_saved") {
        "Push notification setting saved."
    } else if text::same(key, "updates.flash.check_available") {
        "Update check complete. A new version is available."
    } else if text::same(key, "updates.flash.check_none") {
        "Update check complete. You are already up to date."
    } else if text::same(key, "updates.flash.apply_started") {
        "Update started."
    } else if text::same(key, "updates.flash.apply_done") {
        "Update complete."
    } else if text::same(key, "updates.flash.rollback_started") {
        "Rollback started."
    } else if text::same(key, "updates.flash.rollback_done") {
        "Rollback complete."
    } else if text::same(key, "updates.state.idle") {
        "Idle"
    } else if text::same(key, "updates.state.checking") {
        "Checking for updates"
    } else if text::same(key, "updates.state.update_available") {
        "Update available"
    } else if text::same(key, "updates.state.updating") {
        "Updating"
    } else if text::same(key, "updates.state.rollback_available") {
        "Rollback available"
    } else if text::same(key, "updates.state.failed") {
        "Needs attention"
    } else if text::same(key, "updates.progress.idle") {
        "Waiting for the next check."
    } else if text::same(key, "updates.progress.checking") {
        "Checking release metadata."
    } else if text::same(key, "updates.progress.check_failed") {
        "Could not check for updates."
    } else if text::same(key, "updates.progress.update_available") {
        "A newer version is ready."
    } else if text::same(key, "updates.progress.preparing") {
        "Preparing update settings."
    } else if text::same(key, "updates.progress.pulling") {
        "Downloading the new image."
    } else if text::same(key, "updates.progress.restarting") {
        "Restarting Selu."
    } else if text::same(key, "updates.progress.health_check") {
        "Running health checks."
    } else if text::same(key, "updates.progress.apply_done") {
        "Update finished successfully."
    } else if text::same(key, "updates.progress.apply_failed") {
        "Update failed."
    } else if text::same(key, "updates.progress.rollback_ready") {
        "A rollback is available."
    } else if text::same(key, "updates.progress.rollback_start") {
        "Starting rollback."
    } else if text::same(key, "updates.progress.rollback_restarting") {
        "Restarting previous version."
    } else if text::same(key, "updates.progress.rollback_done") {
        "Rollback finished successfully."
    } else if text::same(key, "updates.progress.already_current") {
        "You are already on the latest version."
    } else {
        "Done."
    }
}

// ── The public address ───────────────────────────────────────────────────────

/// An address without white space at its ends and slashes at its end.
pub open spec fn tidy(input: Seq<char>) -> Seq<char> {
    trimmed_end_of(trimmed(input), '/')
}

/// The public address that was entered: one of the web, with a host and nothing
/// behind it, or what is wrong with it.
pub open spec fn vetted_origin(
    t: Seq<char>,
    parts: Option<(Seq<char>, Option<Seq<char>>, Seq<char>, bool, bool)>,
) -> Result<Seq<char>, Seq<char>> {
    if t.len() == 0 {
        Err("public web address is empty"@)
    } else {
        match parts {
            None => Err("invalid public web address"@),
            Some((scheme, host, path, has_query, has_fragment)) => if scheme != "http"@ && scheme
                != "https"@ {
                Err("public web address must use http or https"@)
            } else if blank(or_nothing(host)) {
                Err("public web address is missing a host"@)
            } else if path != "/"@ || has_query || has_fragment {
                Err("public web address must not include a path, query, or fragment"@)
            } else {
                Ok(t)
            },
        }
    }
}

/// Accepts a tidy address by its parts.
pub fn accept_public_origin(tidied: &str, parts: &Option<UrlParts>) -> (r: Result<String, String>)
    ensures
        crate::updater::image_ref::result_text(r) == vetted_origin(tidied@, parts_view(*parts)),
{
    if tidied.is_empty() {
        return Err("public web address is empty".to_string());
    }
    let p = match parts {
        Some(p) => p,
        None => {
            return Err("invalid public web address".to_string());
        },
    };
    if !text::same(p.scheme.as_str(), "http") && !text::same(p.scheme.as_str(), "https") {
        return Err("public web address must use http or https".to_string());
    }
    let no_host = match &p.host {
        Some(h) => text::is_blank(h.as_str()),
        None => true,
    };
    if no_host {
        return Err("public web address is missing a host".to_string());
    }
    if !text::same(p.path.as_str(), "/") || p.has_query || p.has_fragment {
        return Err(
            "public web address must not include a path, query, or fragment".to_string(),
        );
    }
    Ok(tidied.to_string())
}

/// The public address that was entered, in its tidy form.
pub fn normalize_public_origin(input: &str) -> (r: Result<String, String>)
    ensures
        crate::updater::image_ref::result_text(r) == vetted_origin(
            tidy(input@),
            url_parts(tidy(input@)),
        ),
{
    let tidied = text::trim_end_of(text::trim(input), '/');
    let parts = url::parse_url(tidied);
    accept_public_origin(tidied, &parts)
}

/// The public address that was stored, where there is one.
pub fn load_public_origin(stored: &str) -> (r: Option<String>)
    ensures
        opt_text(r) == if tidy(stored@).len() == 0 {
            None
        } else {
            Some(tidy(stored@))
        },
{
    let value = text::trim_end_of(text::trim(stored), '/');
    if value.is_empty() {
        None
    } else {
        Some(value.to_string())
    }
}

/// The origin that a browser sees, without the prefix and slashes at its end.
pub open spec fn bare_origin(external_origin: Seq<char>, base_path: Seq<char>) -> Seq<char> {
    let o = trimmed_end_of(external_origin, '/');
    if base_path.len() == 0 {
        o
    } else if base_path.is_suffix_of(o) {
        trimmed_end_of(o.subrange(0, o.len() - base_path.len()), '/')
    } else {
        trimmed_end_of(o, '/')
    }
}

/// The origin that a browser sees, without the prefix.
pub fn request_origin_without_base_path(external_origin: &str, base_path: &str) -> (r: String)
    ensures
        r@ == bare_origin(external_origin@, base_path@),
{
    let o = text::trim_end_of(external_origin, '/');
    if base_path.is_empty() {
        return o.to_string();
    }
    match text::strip_suffix(o, base_path) {
        Some(front) => text::trim_end_of(front, '/').to_string(),
        None => text::trim_end_of(o, '/').to_string(),
    }
}

// ── Forms ────────────────────────────────────────────────────────────────────

/// Back to the settings, with a key for something that went well.
pub fn redirect_with_success(base_path: &str, key: &str) -> (r: WebAnswer)
    ensures
        r@ == Sent::Redirect(base_path@ + "/system-updates?success_key="@ + key@),
{
    response::redirect_with(base_path, "/system-updates?success_key=", key)
}

/// Back to the settings, with a key for something that went wrong.
pub fn redirect_with_error(base_path: &str, key: &str) -> (r: WebAnswer)
    ensures
        r@ == Sent::Redirect(base_path@ + "/system-updates?error_key="@ + key@),
{
    response::redirect_with(base_path, "/system-updates?error_key=", key)
}

/// Back to the settings once something was to be saved.
fn saved(base_path: &str, done: bool, success_key: &str, error_key: &str) -> (r: WebAnswer)
    ensures
        r@ == Sent::Redirect(
            if done {
                base_path@ + "/system-updates?success_key="@ + success_key@
            } else {
                base_path@ + "/system-updates?error_key="@ + error_key@
            },
        ),
{
    if done {
        redirect_with_success(base_path, success_key)
    } else {
        redirect_with_error(base_path, error_key)
    }
}

/// A setting that is saved from the page.
#[derive(Debug, Clone, Copy, PartialEq, Eq, Structural)]
pub enum Setting {
    Channel,
    PublicOrigin,
    CurrentHost,
    AutoUpdate,
    InstallationTelemetry,
    PushNotifications,
}

/// The key of what is said once a setting was to be saved.
pub open spec fn setting_key(setting: Setting, done: bool) -> Seq<char> {
    match (setting, done) {
        (Setting::Channel, true) => "updates.flash.channel_saved"@,
        (Setting::Channel, false) => "updates.error.channel_save_failed"@,
        (Setting::PublicOrigin, true) => "updates.flash.public_origin_saved"@,
        (Setting::PublicOrigin, false) => "updates.error.public_origin_save_failed"@,
        (Setting::CurrentHost, true) => "updates.flash.public_origin_applied"@,
        (Setting::CurrentHost, false) => "updates.error.public_origin_save_failed"@,
        (Setting::AutoUpdate, true) => "updates.flash.auto_update_saved"@,
        (Setting::AutoUpdate, false) => "updates.error.auto_update_save_failed"@,
        (Setting::InstallationTelemetry, true) => "updates.flash.installation_telemetry_saved"@,
        (Setting::InstallationTelemetry, false) => "updates.error.installation_telemetry_save_failed"@,
        (Setting::PushNotifications, true) => "updates.flash.push_notifications_saved"@,
        (Setting::PushNotifications, false) => "updates.error.push_notifications_save_failed"@,
    }
}

/// Back to the settings once one of them was to be saved.
pub fn setting_saved(base_path: &str, setting: Setting, done: bool) -> (r: WebAnswer)
    ensures
        r@ == Sent::Redirect(
            if done {
                base_path@ + "/system-updates?success_key="@ + setting_key(setting, true)
            } else {
                base_path@ + "/system-updates?error_key="@ + setting_key(setting, false)
            },
        ),
{
    match setting {
        Setting::Channel => saved(
            base_path,
            done,
            "updates.flash.channel_saved",
            "updates.error.channel_save_failed",
        ),
        Setting::PublicOrigin => saved(
            base_path,
            done,
            "updates.flash.public_origin_saved",
            "updates.error.public_origin_save_failed",
        ),
        Setting::CurrentHost => saved(
            base_path,
            done,
            "updates.flash.public_origin_applied",
            "updates.error.public_origin_save_failed",
        ),
        Setting::AutoUpdate => saved(
            base_path,
            done,
            "updates.flash.auto_update_saved",
            "updates.error.auto_update_save_failed",
        ),
        Setting::InstallationTelemetry => saved(
            base_path,
            done,
            "updates.flash.installation_telemetry_saved",
            "updates.error.installation_telemetry_save_failed",
        ),
        Setting::PushNotifications => saved(
            base_path,
            done,
            "updates.flash.push_notifications_saved",
            "updates.error.push_notifications_save_failed",
        ),
    }
}

/// The release channel to save.
pub fn updates_set_channel(is_admin: bool, base_path: &str, form: &ChannelForm) -> (r: Verdict<
    String,
>)
    ensures
        if !is_admin {
            r.answers(Sent::Redirect(base_path@ + "/chat"@))
        } else if blank(form.release_channel@) {
            r.answers(
                Sent::Redirect(
                    base_path@ + "/system-updates?error_key="@ + "updates.error.invalid_channel"@,
                ),
            )
        } else {
            r matches Verdict::Proceed(c) && c@ == trimmed(form.release_channel@)
        },
{
    if !is_admin {
        return Verdict::Answer(response::redirect(base_path, "/chat"));
    }
    if text::is_blank(form.release_channel.as_str()) {
        return Verdict::Answer(redirect_with_error(base_path, "updates.error.invalid_channel"));
    }
    Verdict::Proceed(text::trim(form.release_channel.as_str()).to_string())
}

/// The public address to save.
pub fn updates_set_public_origin(is_admin: bool, base_path: &str, form: &PublicOriginForm) -> (r:
    Verdict<String>)
    ensures
        if !is_admin {
            r.answers(Sent::Redirect(base_path@ + "/chat"@))
        } else {
            match vetted_origin(tidy(form.external_url@), url_parts(tidy(form.external_url@))) {
                Ok(o) => r matches Verdict::Proceed(c) && c@ == o,
                Err(_) => r.answers(
                    Sent::Redirect(
                        base_path@ + "/system-updates?error_key="@
                            + "updates.error.public_origin_invalid"@,
                    ),
                ),
            }
        },
{
    if !is_admin {
        return Verdict::Answer(response::redirect(base_path, "/chat"));
    }
    match normalize_public_origin(form.external_url.as_str()) {
        Ok(o) => Verdict::Proceed(o),
        Err(_) => Verdict::Answer(
            redirect_with_error(base_path, "updates.error.public_origin_invalid"),
        ),
    }
}

/// The origin that the browser sees, as the public address to save.
pub fn updates_apply_current_host(is_admin: bool, base_path: &str, external_origin: &str) -> (r:
    Verdict<String>)
    ensures
        if !is_admin {
            r.answers(Sent::Redirect(base_path@ + "/chat"@))
        } else {
            let o = tidy(bare_origin(external_origin@, base_path@));
            match vetted_origin(o, url_parts(o)) {
                Ok(o) => r matches Verdict::Proceed(c) && c@ == o,
                Err(_) => r.answers(
                    Sent::Redirect(
                        base_path@ + "/system-updates?error_key="@
                            + "updates.error.public_origin_invalid"@,
                    ),
                ),
            }
        },
{
    if !is_admin {
        return Verdict::Answer(response::redirect(base_path, "/chat"));
    }
    let current = request_origin_without_base_path(external_origin, base_path);
    match normalize_public_origin(current.as_str()) {
        Ok(o) => Verdict::Proceed(o),
        Err(_) => Verdict::Answer(
            redirect_with_error(base_path, "updates.error.public_origin_invalid"),
        ),
    }
}

/// Whether a box of a form was ticked.
pub open spec fn ticked(field: Option<Seq<char>>) -> bool {
    field == Some("1"@)
}

/// Whether `r` is what becomes of a box of a form: one is saved where it was ticked, else
/// zero, and only for administrators.
pub open spec fn toggles(
    r: Verdict<i64>,
    is_admin: bool,
    base_path: Seq<char>,
    field: Option<Seq<char>>,
) -> bool {
    if !is_admin {
        r.answers(Sent::Redirect(base_path + "/chat"@))
    } else {
        r matches Verdict::Proceed(v) && v == if ticked(field) {
            1i64
        } else {
            0i64
        }
    }
}

/// Whether updates are to be applied by themselves, as saved.
pub fn updates_toggle_auto_update(is_admin: bool, base_path: &str, form: &ToggleForm) -> (r:
    Verdict<i64>)
    ensures
        toggles(r, is_admin, base_path@, opt_text(form.auto_update)),
{
    toggle(is_admin, base_path, &form.auto_update)
}

/// Whether installations are not to be counted, as saved.
pub fn updates_toggle_installation_telemetry(
    is_admin: bool,
    base_path: &str,
    form: &InstallationTelemetryForm,
) -> (r: Verdict<i64>)
    ensures
        toggles(r, is_admin, base_path@, opt_text(form.installation_telemetry_opt_out)),
{
    toggle(is_admin, base_path, &form.installation_telemetry_opt_out)
}

/// Whether notes are to be pushed to phones, as saved.
pub fn updates_toggle_push_notifications(
    is_admin: bool,
    base_path: &str,
    form: &PushNotificationsForm,
) -> (r: Verdict<i64>)
    ensures
        toggles(r, is_admin, base_path@, opt_text(form.push_notifications_enabled)),
{
    toggle(is_admin, base_path, &form.push_notifications_enabled)
}

/// The value to save for a box of a form: one where it was ticked, else zero.
fn toggle(is_admin: bool, base_path: &str, field: &Option<String>) -> (r: Verdict<i64>)
    ensures
        toggles(r, is_admin, base_path@, opt_text(*field)),
{
    if !is_admin {
        return Verdict::Answer(response::redirect(base_path, "/chat"));
    }
    match field {
        Some(f) => if text::same(f.as_str(), "1") {
            Verdict::Proceed(1)
        } else {
            Verdict::Proceed(0)
        },
        None => Verdict::Proceed(0),
    }
}

/// Back to the settings after a check; `found` is whether there is an update. A check that
/// failed is written into the state.
pub fn updates_check_now(
    is_admin: bool,
    base_path: &str,
    found: &Result<bool, String>,
    s: &mut UpdateState,
) -> (r: WebAnswer)
    ensures
        final(s)@ == if is_admin && found is Err {
            old(s)@.broken("updates.progress.check_failed"@, "Could not check for updates."@)
        } else {
            old(s)@
        },
        r@ == if !is_admin {
            Sent::Redirect(base_path@ + "/chat"@)
        } else {
            Sent::Redirect(
                base_path@ + match found {
                    Ok(true) => "/system-updates?success_key="@ + "updates.flash.check_available"@,
                    Ok(false) => "/system-updates?success_key="@ + "updates.flash.check_none"@,
                    Err(_) => "/system-updates?error_key="@ + "updates.error.check_failed"@,
                },
            )
        },
{
    if !is_admin {
        return response::redirect(base_path, "/chat");
    }
    let r = match found {
        Ok(true) => redirect_with_success(base_path, "updates.flash.check_available"),
        Ok(false) => redirect_with_success(base_path, "updates.flash.check_none"),
        Err(_) => {
            set_failure_state(s, "updates.progress.check_failed", "Could not check for updates.");
            redirect_with_error(base_path, "updates.error.check_failed")
        },
    };
    proof {
        assert(r@->Redirect_0 =~= base_path@ + match found {
            Ok(true) => "/system-updates?success_key="@ + "updates.flash.check_available"@,
            Ok(false) => "/system-updates?success_key="@ + "updates.flash.check_none"@,
            Err(_) => "/system-updates?error_key="@ + "updates.error.check_failed"@,
        });
    }
    r
}

/// Back to the settings once an update was to be applied.
pub fn updates_apply_now(is_admin: bool, base_path: &str, started: bool) -> (r: WebAnswer)
    ensures
        r@ == if !is_admin {
            Sent::Redirect(base_path@ + "/chat"@)
        } else {
            Sent::Redirect(
                if started {
                    base_path@ + "/system-updates?success_key="@ + "updates.flash.apply_started"@
                } else {
                    base_path@ + "/system-updates?error_key="@ + "updates.error.apply_failed"@
                },
            )
        },
{
    if !is_admin {
        return response::redirect(base_path, "/chat");
    }
    saved(base_path, started, "updates.flash.apply_started", "updates.error.apply_failed")
}

/// Back to the settings once an update was to be rolled back.
pub fn updates_rollback_now(is_admin: bool, base_path: &str, started: bool) -> (r: WebAnswer)
    ensures
        r@ == if !is_admin {
            Sent::Redirect(base_path@ + "/chat"@)
        } else {
            Sent::Redirect(
                if started {
                    base_path@ + "/system-updates?success_key="@ + "updates.flash.rollback_started"@
                } else {
                    base_path@ + "/system-updates?error_key="@ + "updates.error.rollback_failed"@
                },
            )
        },
{
    if !is_admin {
        return response::redirect(base_path, "/chat");
    }
    saved(base_path, started, "updates.flash.rollback_started", "updates.error.rollback_failed")
}

/// Whether `r` is the answer to a request that starts something from the page.
pub open spec fn answers_action(
    r: (u16, UpdateActionResponse),
    done: bool,
    message_key: Seq<char>,
    error_key: Seq<char>,
) -> bool {
    if done {
        r.0 == response::OK && r.1.ok && r.1.error_key is None && opt_text(r.1.message_key)
            == Some(message_key)
    } else {
        r.0 == response::BAD_REQUEST && !r.1.ok && opt_text(r.1.error_key) == Some(error_key)
            && r.1.message_key is None
    }
}

/// The answer once an update was to be applied from the page.
pub fn updates_apply_start(is_admin: bool, started: bool) -> (r: Verdict<
    (u16, UpdateActionResponse),
>)
    ensures
        if !is_admin {
            r.answers(Sent::Status(403))
        } else {
            r matches Verdict::Proceed(v) && answers_action(
                v,
                started,
                "updates.flash.apply_started"@,
                "updates.error.apply_failed"@,
            )
        },
{
    if !is_admin {
        return Verdict::Answer(WebAnswer::Status(response::FORBIDDEN));
    }
    Verdict::Proceed(
        action_response(started, "updates.flash.apply_started", "updates.error.apply_failed"),
    )
}

/// The answer once an update was to be rolled back from the page.
pub fn updates_rollback_start(is_admin: bool, started: bool) -> (r: Verdict<
    (u16, UpdateActionResponse),
>)
    ensures
        if !is_admin {
            r.answers(Sent::Status(403))
        } else {
            r matches Verdict::Proceed(v) && answers_action(
                v,
                started,
                "updates.flash.rollback_started"@,
                "updates.error.rollback_failed"@,
            )
        },
{
    if !is_admin {
        return Verdict::Answer(WebAnswer::Status(response::FORBIDDEN));
    }
    Verdict::Proceed(
        action_response(started, "updates.flash.rollback_started", "updates.error.rollback_failed"),
    )
}

/// The answer to a request that starts something from the page.
fn action_response(done: bool, message_key: &str, error_key: &str) -> (r: (
    u16,
    UpdateActionResponse,
))
    ensures
        answers_action(r, done, message_key@, error_key@),
{
    if done {
        (
            response::OK,
            UpdateActionResponse {
                ok: true,
                error_key: None,
                message_key: Some(message_key.to_string()),
            },
        )
    } else {
        (
            response::BAD_REQUEST,
            UpdateActionResponse {
                ok: false,
                error_key: Some(error_key.to_string()),
                message_key: None,
            },
        )
    }
}

/// The release channel that is saved, else the stable one.
pub fn release_channel(stored: Option<String>) -> (r: String)
    ensures
        r@ == match opt_text(stored) {
            Some(c) => c,
            None => "stable"@,
        },
{
    match stored {
        Some(c) => c,
        None => "stable".to_string(),
    }
}

/// Whether notes are pushed to phones, as saved.
pub fn push_notifications_enabled(stored: Option<i64>) -> (r: bool)
    ensures
        r == match stored {
            Some(v) => v != 0,
            None => false,
        },
{
    match stored {
        Some(v) => v != 0,
        None => false,
    }
}

/// The release channel that settings start with: the one of the environment, else
/// the stable one.
pub fn seeded_channel(from_env: Option<&str>) -> (r: String)
    ensures
        r@ == match text::opt_str(from_env) {
            Some(c) if !blank(c) => trimmed(c),
            _ => "stable"@,
        },
{
    match from_env {
        Some(c) => if text::is_blank(c) {
            "stable".to_string()
        } else {
            text::trim(c).to_string()
        },
        None => "stable".to_string(),
    }
}

/// The label of a release channel.
pub open spec fn channel_label(channel: Seq<char>) -> Seq<char> {
    if channel == "stable"@ {
        "Stable"@
    } else if channel == "unstable"@ {
        "Unstable"@
    } else {
        channel
    }
}

/// The release channels that can be chosen, as pairs of value and label.
pub open spec fn channel_pairs(v: Seq<ChannelOption>) -> Seq<(Seq<char>, Seq<char>)> {
    v.map_values(|o: ChannelOption| (o.value@, o.label@))
}

/// The release channels that can be chosen: those that were found, each with its
/// label, and the two known ones where none was.
pub fn channel_options(found: &Option<Vec<String>>) -> (r: Vec<ChannelOption>)
    ensures
        channel_pairs(r@) == match found {
            Some(v) if v@.len() > 0 => texts(v@).map_values(
                |c: Seq<char>| (c, channel_label(c)),
            ),
            _ => seq![("stable"@, "Stable"@), ("unstable"@, "Unstable"@)],
        },
{
    let mut out: Vec<ChannelOption> = Vec::new();
    match found {
        Some(v) => {
            let ghost want = texts(v@).map_values(|c: Seq<char>| (c, channel_label(c)));
            proof {
                assert(channel_pairs(out@) =~= want.take(0));
            }
            let mut i: usize = 0;
            while i < v.len()
                invariant
                    i <= v@.len(),
                    want == texts(v@).map_values(|c: Seq<char>| (c, channel_label(c))),
                    channel_pairs(out@) == want.take(i as int),
                decreases v@.len() - i,
            {
                let ghost before = channel_pairs(out@);
                let label = if text::same(v[i].as_str(), "stable") {
                    "Stable".to_string()
                } else if text::same(v[i].as_str(), "unstable") {
                    "Unstable".to_string()
                } else {
                    v[i].clone()
                };
                out.push(ChannelOption { value: v[i].clone(), label });
                proof {
                    assert(channel_pairs(out@) =~= before.push(want[i as int]));
                    assert(want.take(i + 1) =~= want.take(i as int).push(want[i as int]));
                }
                i += 1;
            }
            proof {
                assert(want.take(i as int) =~= want);
            }
            if v.len() > 0 {
                return out;
            }
        },
        None => {},
    }
    let mut known: Vec<ChannelOption> = Vec::new();
    known.push(ChannelOption { value: "stable".to_string(), label: "Stable".to_string() });
    known.push(ChannelOption { value: "unstable".to_string(), label: "Unstable".to_string() });
    proof {
        assert(channel_pairs(known@) =~= seq![("stable"@, "Stable"@), ("unstable"@, "Unstable"@)]);
    }
    known
}

// ── The page ─────────────────────────────────────────────────────────────────

/// What the settings page shows.
#[derive(Debug)]
pub struct SystemUpdatesPage {
    pub settings: UpdateSettings,
    pub available_channels: Vec<ChannelOption>,
    pub current_origin_display: String,
    pub installed_display: String,
    pub available_display: String,
    pub available_changelog_url: String,
    pub available_changelog_body: String,
    pub last_checked_at: String,
    pub last_attempt_at: String,
    pub active_job_id: String,
    pub last_error: String,
    pub update_available: bool,
    pub rollback_available: bool,
    pub status_key: String,
    pub status_fallback: String,
    pub progress_key: String,
    pub progress_fallback: String,
    pub error_key: Option<String>,
    pub error_fallback: Option<String>,
    pub success_key: Option<String>,
    pub success_fallback: Option<String>,
}

/// What could not be loaded for the settings page.
#[derive(Debug, Clone, Copy, PartialEq, Eq, Structural)]
pub enum LoadFault {
    Settings,
    Status,
}

/// The texts of a key, where there is one.
pub open spec fn key_text(key: Option<Seq<char>>) -> Option<Seq<char>> {
    match key {
        Some(k) => Some(text_of_key(k)),
        None => None,
    }
}

/// The text of a key, where there is one.
fn fallback_of(key: &Option<String>) -> (r: Option<String>)
    ensures
        opt_text(r) == key_text(opt_text(*key)),
{
    match key {
        Some(k) => Some(fallback_text_for_key(k.as_str()).to_string()),
        None => None,
    }
}

/// Whether a page shows the settings and how the updates stand.
pub open spec fn shows_settings(
    page: SystemUpdatesPage,
    settings: UpdateSettings,
    s: Updates,
    query: UpdatesQuery,
) -> bool {
    &&& page.settings == settings
    &&& page.installed_display@ == display_of(
        s.installed_release_version,
        s.installed_build_number,
        s.installed_version,
        s.installed_digest,
    )
    &&& page.available_display@ == display_of(
        s.available_release_version,
        s.available_build_number,
        s.available_version,
        s.available_digest,
    )
    &&& page.available_changelog_url@ == s.available_changelog_url
    &&& page.available_changelog_body@ == s.available_changelog_body
    &&& page.last_checked_at@ == s.last_checked_at
    &&& page.last_attempt_at@ == s.last_attempt_at
    &&& page.active_job_id@ == s.active_job_id
    &&& page.last_error@ == s.last_error
    &&& page.update_available == s.offers_update()
    &&& page.rollback_available == s.offers_rollback()
    &&& page.status_key@ == status_key(s.status)
    &&& page.status_fallback@ == text_of_key(status_key(s.status))
    &&& page.progress_key@ == s.progress_key
    &&& page.progress_fallback@ == text_of_key(s.progress_key)
    &&& page.error_key == query.error_key
    &&& opt_text(page.error_fallback) == key_text(opt_text(query.error_key))
    &&& page.success_key == query.success_key
    &&& opt_text(page.success_fallback) == key_text(opt_text(query.success_key))
}

/// The settings page, for administrators. `loaded` are the settings and the state as
/// stored, which is completed by `status`, what the update service says is installed.
pub fn updates_index(
    is_admin: bool,
    base_path: &str,
    external_origin: &str,
    loaded: Result<(UpdateSettings, UpdateState), LoadFault>,
    status: &Option<StatusResponse>,
    channels: Vec<ChannelOption>,
    query: UpdatesQuery,
) -> (r: Verdict<SystemUpdatesPage>)
    ensures
        if !is_admin {
            r.answers(Sent::Redirect(base_path@ + "/chat"@))
        } else {
            match loaded {
                Err(LoadFault::Settings) => r.answers(
                    Sent::Redirect(base_path@ + "/chat?error=Couldn%27t+load+Settings."@),
                ),
                Err(LoadFault::Status) => r.answers(
                    Sent::Redirect(base_path@ + "/chat?error=Couldn%27t+load+Settings+status."@),
                ),
                Ok(l) => r matches Verdict::Proceed(page) && page.available_channels == channels
                    && page.current_origin_display@ == bare_origin(external_origin@, base_path@)
                    && shows_settings(
                    page,
                    l.0,
                    l.1@.informed(*status).completed(l.0.release_channel@),
                    query,
                ),
            }
        },
{
    if !is_admin {
        return Verdict::Answer(response::redirect(base_path, "/chat"));
    }
    let (settings, stored) = match loaded {
        Ok(l) => l,
        Err(LoadFault::Settings) => {
            return Verdict::Answer(
                response::redirect(base_path, "/chat?error=Couldn%27t+load+Settings."),
            );
        },
        Err(LoadFault::Status) => {
            return Verdict::Answer(
                response::redirect(base_path, "/chat?error=Couldn%27t+load+Settings+status."),
            );
        },
    };
    let mut s = stored;
    hydrate_installed_from_sidecar(status, settings.release_channel.as_str(), &mut s);
    let status_key = status_key_for(s.status.as_str());
    Verdict::Proceed(
        SystemUpdatesPage {
            settings,
            available_channels: channels,
            current_origin_display: request_origin_without_base_path(external_origin, base_path),
            installed_display: format_release_display(
                s.installed_release_version.as_str(),
                s.installed_build_number.as_str(),
                s.installed_version.as_str(),
                s.installed_digest.as_str(),
            ),
            available_display: format_release_display(
                s.available_release_version.as_str(),
                s.available_build_number.as_str(),
                s.available_version.as_str(),
                s.available_digest.as_str(),
            ),
            update_available: is_update_available(&s),
            rollback_available: is_rollback_available(&s),
            status_key: status_key.to_string(),
            status_fallback: fallback_text_for_key(status_key).to_string(),
            progress_fallback: fallback_text_for_key(s.progress_key.as_str()).to_string(),
            available_changelog_url: s.available_changelog_url,
            available_changelog_body: s.available_changelog_body,
            last_checked_at: s.last_checked_at,
            last_attempt_at: s.last_attempt_at,
            active_job_id: s.active_job_id,
            last_error: s.last_error,
            progress_key: s.progress_key,
            error_fallback: fallback_of(&query.error_key),
            error_key: query.error_key,
            success_fallback: fallback_of(&query.success_key),
            success_key: query.success_key,
        },
    )
}

// ── Laws ─────────────────────────────────────────────────────────────────────

/// Once a job holds the slot, no second one can claim it: whatever a second one claims,
/// the state stays as the first one left it.
pub proof fn law_slot_is_exclusive(
    s: Updates,
    first: (Seq<char>, Seq<char>, Seq<char>, Option<Seq<char>>),
    second: (Seq<char>, Seq<char>, Seq<char>, Option<Seq<char>>),
)
    requires
        first.0.len() > 0,
    ensures
        ({
            let held = s.tried(first.0, first.1, first.2, first.3);
            &&& held.active_job_id.len() > 0
            &&& held.tried(second.0, second.1, second.2, second.3) == held
        }),
{
}

/// However a poll ends, the slot is free exactly where nothing is going on any
/// more, and an error stays only where something failed.
pub proof fn law_polled_state_is_settled(s: Updates, status: StatusResponse)
    requires
        !blank(s.active_job_id),
    ensures
        !s.polled(status).busy() ==> s.polled(status).active_job_id.len() == 0,
        s.polled(status).busy() ==> !blank(s.polled(status).active_job_id),
        !s.polled(status).busy() && status.status@ != STATUS_FAILED@ ==> s.polled(
            status,
        ).last_error.len() == 0,
{
}

/// While a job checks or updates, no update is offered.
pub proof fn law_no_offer_while_busy(s: Updates)
    requires
        s.busy(),
    ensures
        !s.offers_update(),
{
}

/// An update that was accepted keeps the version it replaces as the one to go back
/// to, so that a rollback can be asked for as soon as that version has a tag.
pub proof fn law_accepted_update_can_be_undone(
    s: Updates,
    m: ReleaseMetadata,
    ack: AckResponse,
    job_id: Seq<char>,
    key: Seq<char>,
    now: Seq<char>,
)
    requires
        !blank(s.installed_version),
    ensures
        ({
            let after = s.offered(m).kept_installed().started(ack, job_id, key, now);
            &&& after.offers_rollback()
            &&& after.previous_version == s.installed_version
            &&& after.previous_digest == s.installed_digest
            &&& after.previous_release_version == s.installed_release_version
            &&& after.previous_build_number == s.installed_build_number
        }),
{
}

/// Whether two states know the same of the installed version.
pub open spec fn same_installed(a: UpdateState, b: UpdateState) -> bool {
    &&& a.installed_version@ == b.installed_version@
    &&& a.installed_digest@ == b.installed_digest@
    &&& a.installed_release_version@ == b.installed_release_version@
    &&& a.installed_build_number@ == b.installed_build_number@
}

/// Whether two states know the same of the available version.
pub open spec fn same_available(a: UpdateState, b: UpdateState) -> bool {
    &&& a.available_version@ == b.available_version@
    &&& a.available_digest@ == b.available_digest@
    &&& a.available_release_version@ == b.available_release_version@
    &&& a.available_build_number@ == b.available_build_number@
    &&& a.available_changelog_url@ == b.available_changelog_url@
    &&& a.available_changelog_body@ == b.available_changelog_body@
}

/// Whether two states know the same of the version to go back to.
pub open spec fn same_previous(a: UpdateState, b: UpdateState) -> bool {
    &&& a.previous_version@ == b.previous_version@
    &&& a.previous_digest@ == b.previous_digest@
    &&& a.previous_release_version@ == b.previous_release_version@
    &&& a.previous_build_number@ == b.previous_build_number@
}

/// Whether a state knows of the available version what a release channel offers.
pub open spec fn knows_offer(s: UpdateState, m: ReleaseMetadata) -> bool {
    &&& s.available_version@ == m.tag@
    &&& s.available_digest@ == m.digest@
    &&& s.available_release_version@ == if trimmed(m.version@).len() > 0 {
        trimmed(m.version@)
    } else {
        trimmed(m.tag@)
    }
    &&& s.available_build_number@ == m.build_number@
    &&& s.available_changelog_url@ == m.changelog_url@
    &&& s.available_changelog_body@ == m.changelog_body@
}

/// The value of a state is made of its fields, each in its place.
proof fn lemma_fields(s: UpdateState)
    ensures
        s@.installed_version == s.installed_version@,
        s@.installed_digest == s.installed_digest@,
        s@.installed_release_version == s.installed_release_version@,
        s@.installed_build_number == s.installed_build_number@,
        s@.available_version == s.available_version@,
        s@.available_digest == s.available_digest@,
        s@.available_release_version == s.available_release_version@,
        s@.available_build_number == s.available_build_number@,
        s@.available_changelog_url == s.available_changelog_url@,
        s@.available_changelog_body == s.available_changelog_body@,
        s@.previous_version == s.previous_version@,
        s@.previous_digest == s.previous_digest@,
        s@.previous_release_version == s.previous_release_version@,
        s@.previous_build_number == s.previous_build_number@,
        s@.last_checked_at == s.last_checked_at@,
        s@.last_attempt_at == s.last_attempt_at@,
        s@.active_job_id == s.active_job_id@,
        s@.last_good_tag == s.last_good_tag@,
        s@.last_good_digest == s.last_good_digest@,
        s@.last_error == s.last_error@,
        s@.status == s.status@,
        s@.progress_key == s.progress_key@,
{
}

/// An update is offered exactly while nothing is checked or updated, and where the available
/// version is another than the installed one: by their digests where both have one, whatever
/// their tags, else by their tags.
pub proof fn law_update_is_offered_for_another_image(s: UpdateState, r: bool)
    requires
        call_ensures(is_update_available, (&s,), r),
    ensures
        s.status@ == "checking"@ || s.status@ == "updating"@ ==> !r,
        trimmed(s.available_version@).len() == 0 ==> !r,
        ({
            let free = s.status@ != "checking"@ && s.status@ != "updating"@;
            let digests = trimmed(s.available_digest@).len() > 0 && trimmed(
                s.installed_digest@,
            ).len() > 0;
            free && trimmed(s.available_version@).len() > 0 ==> (r <==> if digests {
                s.available_digest@ != s.installed_digest@
            } else {
                trimmed(s.installed_version@).len() > 0 && s.available_version@
                    != s.installed_version@
            })
        }),
{
    text::lemma_blank(s.available_version@);
    text::lemma_blank(s.available_digest@);
    text::lemma_blank(s.installed_digest@);
    text::lemma_blank(s.installed_version@);
}

/// There is a version to go back to exactly where one is known by its tag, or the state says so.
pub proof fn law_rollback_is_offered_for_a_previous_version(s: UpdateState, r: bool)
    requires
        call_ensures(is_rollback_available, (&s,), r),
    ensures
        r <==> trimmed(s.previous_version@).len() > 0 || s.status@ == "rollback_available"@,
{
    text::lemma_blank(s.previous_version@);
}

/// Completing what is known of the installed version leaves what is known already, and everything
/// but the installed version; what is missing is what the update service says of just that part;
/// the tag is at the least that of the channel.
pub proof fn law_installed_version_is_only_completed(
    status: Option<StatusResponse>,
    channel: &str,
    s: &mut UpdateState,
)
    requires
        call_ensures(hydrate_installed_from_sidecar, (&status, channel, s), ()),
    ensures
        same_available(*final(s), *old(s)),
        same_previous(*final(s), *old(s)),
        final(s).active_job_id@ == old(s).active_job_id@,
        final(s).status@ == old(s).status@,
        final(s).last_error@ == old(s).last_error@,
        trimmed(old(s).installed_version@).len() > 0 ==> final(s).installed_version@
            == old(s).installed_version@,
        trimmed(old(s).installed_digest@).len() > 0 ==> final(s).installed_digest@
            == old(s).installed_digest@,
        trimmed(old(s).installed_release_version@).len() > 0
            ==> final(s).installed_release_version@ == old(s).installed_release_version@,
        trimmed(old(s).installed_build_number@).len() > 0 ==> final(s).installed_build_number@
            == old(s).installed_build_number@,
        status matches Some(t) ==> {
            &&& trimmed(old(s).installed_version@).len() == 0 && said(t.installed_tag)
                ==> final(s).installed_version@ == t.installed_tag->0@
            &&& trimmed(old(s).installed_digest@).len() == 0 && said(t.installed_digest)
                ==> final(s).installed_digest@ == t.installed_digest->0@
            &&& trimmed(old(s).installed_release_version@).len() == 0 && said(t.installed_version)
                ==> final(s).installed_release_version@ == t.installed_version->0@
            &&& trimmed(old(s).installed_build_number@).len() == 0 && said(t.installed_build)
                ==> final(s).installed_build_number@ == t.installed_build->0@
        },
        trimmed(old(s).installed_version@).len() == 0 && (status is None || !said(
            status->0.installed_tag,
        )) ==> final(s).installed_version@ == channel@,
{
    lemma_fields(*old(s));
    lemma_fields(*final(s));
    text::lemma_blank(old(s).installed_version@);
    text::lemma_blank(old(s).installed_digest@);
    text::lemma_blank(old(s).installed_release_version@);
    text::lemma_blank(old(s).installed_build_number@);
    if status is Some {
        let t = status->0;
        if t.installed_tag is Some {
            text::lemma_blank(t.installed_tag->0@);
        }
        if t.installed_digest is Some {
            text::lemma_blank(t.installed_digest->0@);
        }
        if t.installed_version is Some {
            text::lemma_blank(t.installed_version->0@);
        }
        if t.installed_build is Some {
            text::lemma_blank(t.installed_build->0@);
        }
    }
}

/// Whether something is said, and more than white space.
pub open spec fn said(o: Option<String>) -> bool {
    o is Some && trimmed(o->0@).len() > 0
}

/// Whether a part of the state is what was said of it, or as before where nothing was said.
pub open spec fn takes(before: Seq<char>, word: Option<String>, after: Seq<char>) -> bool {
    if said(word) {
        after == word->0@
    } else {
        after == before
    }
}

proof fn lemma_takes(before: Seq<char>, word: Option<String>)
    ensures
        takes(before, word, taken(before, opt_text(word))),
{
    if word is Some {
        text::lemma_blank(word->0@);
    }
}

/// What the update service says of its job is taken over part by part: what it says of the
/// installed version as installed, and what it says of the previous one as previous. The available
/// version is left as it is. Once the job is over the slot is free, and only a failure leaves an
/// error behind.
pub proof fn law_poll_takes_over_what_was_said(
    s: &mut UpdateState,
    t: StatusResponse,
    r: Option<FinishedJob>,
)
    requires
        trimmed(s.active_job_id@).len() > 0,
        call_ensures(poll_job, (s, Ok(t)), r),
    ensures
        final(s).status@ == t.status@,
        same_available(*final(s), *old(s)),
        takes(old(s).progress_key@, t.progress_key, final(s).progress_key@),
        takes(old(s).installed_version@, t.installed_tag, final(s).installed_version@),
        takes(old(s).installed_digest@, t.installed_digest, final(s).installed_digest@),
        takes(
            old(s).installed_release_version@,
            t.installed_version,
            final(s).installed_release_version@,
        ),
        takes(old(s).installed_build_number@, t.installed_build, final(s).installed_build_number@),
        takes(old(s).previous_version@, t.previous_tag, final(s).previous_version@),
        takes(old(s).previous_digest@, t.previous_digest, final(s).previous_digest@),
        takes(
            old(s).previous_release_version@,
            t.previous_version,
            final(s).previous_release_version@,
        ),
        takes(old(s).previous_build_number@, t.previous_build, final(s).previous_build_number@),
        t.status@ == "updating"@ || t.status@ == "checking"@ ==> r is None && takes(
            old(s).active_job_id@,
            t.job_id,
            final(s).active_job_id@,
        ),
        t.status@ != "updating"@ && t.status@ != "checking"@ ==> {
            &&& final(s).active_job_id@.len() == 0
            &&& r is Some && r->0.id@ == old(s).active_job_id@
            &&& r->0.progress_key@ == final(s).progress_key@
            &&& r->0.error_message@ == final(s).last_error@
            &&& t.status@ == "failed"@ ==> r->0.status@ == "failed"@
            &&& t.status@ != "failed"@ ==> r->0.status@ == "completed"@
                && final(s).last_error@.len() == 0
            &&& t.status@ == "failed"@ && said(t.message) ==> final(s).last_error@
                == t.message->0@
        },
{
    lemma_fields(*old(s));
    lemma_fields(*final(s));
    text::lemma_blank(old(s).active_job_id@);
    lemma_takes(old(s).progress_key@, t.progress_key);
    lemma_takes(old(s).active_job_id@, t.job_id);
    lemma_takes(old(s).installed_version@, t.installed_tag);
    lemma_takes(old(s).installed_digest@, t.installed_digest);
    lemma_takes(old(s).installed_release_version@, t.installed_version);
    lemma_takes(old(s).installed_build_number@, t.installed_build);
    lemma_takes(old(s).previous_version@, t.previous_tag);
    lemma_takes(old(s).previous_digest@, t.previous_digest);
    lemma_takes(old(s).previous_release_version@, t.previous_version);
    lemma_takes(old(s).previous_build_number@, t.previous_build);
    if t.message is Some {
        text::lemma_blank(t.message->0@);
    }
}

/// A job whose service cannot be asked any more is over: it failed, the slot is free, and what is
/// known of versions stays. Without a job nothing changes.
pub proof fn law_lost_job_is_over(s: &mut UpdateState, e: String, r: Option<FinishedJob>)
    requires
        call_ensures(poll_job, (s, Err(e)), r),
    ensures
        same_installed(*final(s), *old(s)),
        same_available(*final(s), *old(s)),
        same_previous(*final(s), *old(s)),
        trimmed(old(s).active_job_id@).len() == 0 ==> final(s)@ == old(s)@ && r is None,
        trimmed(old(s).active_job_id@).len() > 0 ==> final(s).active_job_id@.len() == 0
            && final(s).status@ == "failed"@ && final(s).last_error@
            == "Lost contact with updater sidecar: "@ + e@ && r is Some && r->0.id@
            == old(s).active_job_id@ && r->0.status@ == "failed"@,
{
    lemma_fields(*old(s));
    lemma_fields(*final(s));
    text::lemma_blank(old(s).active_job_id@);
}

/// The slot is claimed exactly where it is free; it then is the job's, and what is known of
/// versions stays. Where it is not free nothing changes.
pub proof fn law_slot_is_claimed_where_free(
    s: &mut UpdateState,
    job_id: &str,
    status: &str,
    progress_key: &str,
    attempt: Option<&str>,
    r: bool,
)
    requires
        call_ensures(try_claim_active_job, (s, job_id, status, progress_key, attempt), r),
    ensures
        r <==> old(s).active_job_id@.len() == 0,
        !r ==> final(s)@ == old(s)@,
        r ==> final(s).active_job_id@ == job_id@ && final(s).status@ == status@
            && final(s).progress_key@ == progress_key@,
        r && attempt is Some ==> final(s).last_attempt_at@ == attempt->0@,
        same_installed(*final(s), *old(s)),
        same_available(*final(s), *old(s)),
        same_previous(*final(s), *old(s)),
        final(s).last_error@ == old(s).last_error@,
{
    lemma_fields(*old(s));
    lemma_fields(*final(s));
}

/// A failure is noted with its message and frees the slot; what is known of versions stays.
pub proof fn law_failure_frees_the_slot(s: &mut UpdateState, progress_key: &str, message: &str)
    requires
        call_ensures(set_failure_state, (s, progress_key, message), ()),
    ensures
        final(s).status@ == "failed"@,
        final(s).progress_key@ == progress_key@,
        final(s).last_error@ == message@,
        final(s).active_job_id@.len() == 0,
        same_installed(*final(s), *old(s)),
        same_available(*final(s), *old(s)),
        same_previous(*final(s), *old(s)),
{
    lemma_fields(*old(s));
    lemma_fields(*final(s));
}

/// What is asked of the update service is what the release channel offers, or what there is to go
/// back to: each part of a request is that part, and the request is the job's.
pub proof fn law_requests_are_what_is_known(
    job_id: &str,
    channel: &str,
    m: ReleaseMetadata,
    s: UpdateState,
    check: CheckRequest,
    apply: ApplyRequest,
    rollback: RollbackRequest,
)
    requires
        call_ensures(check_request, (job_id, channel, &m), check),
        call_ensures(apply_request, (job_id, channel, &m), apply),
        call_ensures(rollback_request, (job_id, channel, &s), rollback),
    ensures
        check.request_id@ == job_id@ && apply.request_id@ == job_id@ && rollback.request_id@
            == job_id@,
        check.channel@ == channel@ && apply.channel@ == channel@ && rollback.channel@ == channel@,
        check.target_tag@ == m.tag@ && apply.target_tag@ == m.tag@,
        check.target_digest@ == m.digest@ && apply.target_digest@ == m.digest@,
        trimmed(m.version@).len() > 0 ==> apply.target_version@ == trimmed(m.version@),
        trimmed(m.version@).len() == 0 ==> apply.target_version@ == trimmed(m.tag@),
        apply.target_build@ == m.build_number@,
        rollback.rollback_tag@ == s.previous_version@,
        rollback.rollback_digest@ == s.previous_digest@,
        rollback.rollback_version@ == s.previous_release_version@,
        rollback.rollback_build@ == s.previous_build_number@,
{
    lemma_fields(s);
    text::lemma_blank(m.version@);
}

/// What a channel offers is taken for a check exactly with a tag, and for an update exactly with a
/// tag and a digest; there is a rollback exactly with a previous version.
pub proof fn law_offers_are_vetted(
    m: ReleaseMetadata,
    s: UpdateState,
    check: Result<(), String>,
    apply: Result<(), String>,
    rollback: Result<(), String>,
)
    requires
        call_ensures(vet_check, (&m,), check),
        call_ensures(vet_apply, (&m,), apply),
        call_ensures(vet_rollback, (&s,), rollback),
    ensures
        check is Ok <==> trimmed(m.tag@).len() > 0,
        apply is Ok <==> trimmed(m.tag@).len() > 0 && trimmed(m.digest@).len() > 0,
        rollback is Ok <==> trimmed(s.previous_version@).len() > 0,
{
    lemma_fields(s);
    text::lemma_blank(m.tag@);
    text::lemma_blank(m.digest@);
    text::lemma_blank(s.previous_version@);
}

/// A check that was answered notes what the channel offers and when, frees the slot, and says that
/// there is an update exactly where the offer is another image than the installed one; the version
/// to go back to stays.
pub proof fn law_check_notes_the_offer(
    s: &mut UpdateState,
    status: Option<StatusResponse>,
    channel: &str,
    m: ReleaseMetadata,
    a: AckResponse,
    job_id: &str,
    now: &str,
    r: (FinishedJob, Result<bool, String>),
)
    requires
        call_ensures(finish_check, (s, &status, channel, &m, Ok(a), job_id, now), r),
    ensures
        knows_offer(*final(s), m),
        same_previous(*final(s), *old(s)),
        final(s).last_checked_at@ == now@,
        final(s).active_job_id@.len() == 0,
        final(s).last_error@.len() == 0,
        r.1 is Ok,
        r.1->Ok_0 ==> final(s).status@ == "update_available"@ && trimmed(m.tag@).len() > 0,
        !r.1->Ok_0 ==> final(s).status@ == "idle"@,
        r.1->Ok_0 && trimmed(m.digest@).len() > 0 && trimmed(final(s).installed_digest@).len() > 0
            ==> m.digest@ != final(s).installed_digest@,
        old(s).status@ != "checking"@ && old(s).status@ != "updating"@ && trimmed(m.tag@).len() > 0
            && trimmed(m.digest@).len() > 0 && trimmed(final(s).installed_digest@).len() > 0
            && m.digest@ != final(s).installed_digest@ ==> r.1->Ok_0,
        r.0.id@ == job_id@,
        r.0.status@ == (if a.accepted {
            "completed"@
        } else {
            "failed"@
        }),
{
    lemma_fields(*old(s));
    lemma_fields(*final(s));
    text::lemma_blank(m.version@);
    text::lemma_blank(m.tag@);
    text::lemma_blank(m.digest@);
    text::lemma_blank(final(s).installed_digest@);
}

/// An update that was taken on keeps what was installed as what to go back to, notes the offer, and
/// holds the slot; one that was turned down leaves what to go back to and frees the slot.
pub proof fn law_update_keeps_what_ran(
    s: &mut UpdateState,
    channel: &str,
    m: ReleaseMetadata,
    a: AckResponse,
    job_id: &str,
    now: &str,
    r: (FinishedJob, Result<(), String>),
)
    requires
        call_ensures(finish_apply, (s, channel, &m, Ok(a), job_id, now), r),
    ensures
        knows_offer(*final(s), m),
        same_installed(*final(s), *old(s)),
        final(s).last_attempt_at@ == now@,
        r.1 is Ok <==> a.accepted,
        r.0.id@ == job_id@,
        r.0.status@ == (if a.accepted {
            "started"@
        } else {
            "failed"@
        }),
        a.accepted ==> {
            &&& final(s).previous_version@ == old(s).installed_version@
            &&& final(s).previous_digest@ == old(s).installed_digest@
            &&& final(s).previous_release_version@ == old(s).installed_release_version@
            &&& final(s).previous_build_number@ == old(s).installed_build_number@
            &&& final(s).last_error@.len() == 0
            &&& a.job_id is Some ==> final(s).active_job_id@ == a.job_id->0@
            &&& a.job_id is None ==> final(s).active_job_id@ == job_id@
            &&& said(a.status) ==> final(s).status@ == a.status->0@
            &&& !said(a.status) ==> final(s).status@ == "updating"@
        },
        !a.accepted ==> same_previous(*final(s), *old(s)) && final(s).active_job_id@.len() == 0
            && final(s).status@ == "failed"@ && final(s).last_error@.len() > 0,
{
    lemma_fields(*old(s));
    lemma_fields(*final(s));
    text::lemma_blank(m.version@);
    if a.status is Some {
        text::lemma_blank(a.status->0@);
    }
    reveal_strlit("Updater sidecar rejected the update request.");
}

/// A rollback that was taken on makes the image that was installed the one to go back to, and holds
/// the slot; one that was turned down leaves what to go back to and frees the slot. What is
/// installed and what is available stay as they are known.
pub proof fn law_rollback_swaps_the_images(
    s: &mut UpdateState,
    a: AckResponse,
    job_id: &str,
    now: &str,
    r: (FinishedJob, Result<(), String>),
)
    requires
        call_ensures(finish_rollback, (s, Ok(a), job_id, now), r),
    ensures
        same_available(*final(s), *old(s)),
        same_installed(*final(s), *old(s)),
        final(s).last_attempt_at@ == now@,
        r.1 is Ok <==> a.accepted,
        r.0.id@ == job_id@,
        a.accepted ==> {
            &&& final(s).previous_version@ == old(s).installed_version@
            &&& final(s).previous_digest@ == old(s).installed_digest@
            &&& final(s).previous_release_version@ == old(s).previous_release_version@
            &&& final(s).previous_build_number@ == old(s).previous_build_number@
            &&& a.job_id is Some ==> final(s).active_job_id@ == a.job_id->0@
            &&& a.job_id is None ==> final(s).active_job_id@ == job_id@
            &&& said(a.status) ==> final(s).status@ == a.status->0@
            &&& !said(a.status) ==> final(s).status@ == "updating"@
        },
        !a.accepted ==> same_previous(*final(s), *old(s)) && final(s).active_job_id@.len() == 0
            && final(s).status@ == "failed"@ && final(s).last_error@.len() > 0,
{
    lemma_fields(*old(s));
    lemma_fields(*final(s));
    if a.status is Some {
        text::lemma_blank(a.status->0@);
    }
    reveal_strlit("Updater sidecar rejected the rollback request.");
}

/// An update service that is not reached changes no version: the job failed with the error, and the
/// slot is free.
pub proof fn law_unreached_service_changes_no_version(
    s: &mut UpdateState,
    channel: &str,
    m: ReleaseMetadata,
    e: String,
    job_id: &str,
    now: &str,
    r: (FinishedJob, Result<(), String>),
)
    requires
        call_ensures(finish_apply, (s, channel, &m, Err(e), job_id, now), r) || call_ensures(
            finish_rollback,
            (s, Err(e), job_id, now),
            r,
        ),
    ensures
        same_installed(*final(s), *old(s)),
        same_available(*final(s), *old(s)),
        same_previous(*final(s), *old(s)),
        final(s).status@ == "failed"@,
        final(s).active_job_id@.len() == 0,
        r.1 is Err && r.1->Err_0@ == e@,
        r.0.id@ == job_id@ && r.0.status@ == "failed"@ && r.0.error_message@ == e@,
{
    lemma_fields(*old(s));
    lemma_fields(*final(s));
}

/// The state is answered part by part as it is, and with what it offers.
pub proof fn law_answer_shows_the_state(
    s: UpdateState,
    r: UpdateJobStatusResponse,
    update: bool,
    rollback: bool,
)
    requires
        call_ensures(job_status_response, (&s,), r),
        call_ensures(is_update_available, (&s,), update),
        call_ensures(is_rollback_available, (&s,), rollback),
    ensures
        r.active_job_id@ == s.active_job_id@,
        r.status@ == s.status@,
        r.progress_key@ == s.progress_key@,
        r.last_error@ == s.last_error@,
        r.last_checked_at@ == s.last_checked_at@,
        r.last_attempt_at@ == s.last_attempt_at@,
        r.installed_version@ == s.installed_version@,
        r.installed_release_version@ == s.installed_release_version@,
        r.installed_build_number@ == s.installed_build_number@,
        r.available_version@ == s.available_version@,
        r.available_release_version@ == s.available_release_version@,
        r.available_build_number@ == s.available_build_number@,
        r.available_changelog_url@ == s.available_changelog_url@,
        r.available_changelog_body@ == s.available_changelog_body@,
        r.previous_version@ == s.previous_version@,
        r.previous_release_version@ == s.previous_release_version@,
        r.previous_build_number@ == s.previous_build_number@,
        r.update_available == update,
        r.rollback_available == rollback,
        r.installed_display@ == display_of(
            s.installed_release_version@,
            s.installed_build_number@,
            s.installed_version@,
            s.installed_digest@,
        ),
        r.available_display@ == display_of(
            s.available_release_version@,
            s.available_build_number@,
            s.available_version@,
            s.available_digest@,
        ),
        r.previous_display@ == display_of(
            s.previous_release_version@,
            s.previous_build_number@,
            s.previous_version@,
            s.previous_digest@,
        ),
{
    lemma_fields(s);
}

/// A version with a release is shown by it, and by its build where it has one, whatever its tag and
/// digest; without a release it is shown by its tag, and without a tag by its digest.
pub proof fn law_version_is_shown_by_its_release(
    release: &str,
    build: &str,
    tag: &str,
    digest: &str,
    r: String,
)
    requires
        call_ensures(format_release_display, (release, build, tag, digest), r),
    ensures
        trimmed(release@).len() > 0 && trimmed(build@).len() > 0 ==> r@ == trimmed(release@)
            + " (build "@ + trimmed(build@) + ")"@,
        trimmed(release@).len() > 0 && trimmed(build@).len() == 0 ==> r@ == trimmed(release@),
        trimmed(release@).len() == 0 && trimmed(digest@).len() == 0 ==> r@ == trimmed(tag@),
        trimmed(release@).len() == 0 && trimmed(tag@).len() > 0 ==> trimmed(tag@).is_prefix_of(r@),
        trimmed(release@).len() == 0 && trimmed(tag@).len() == 0 && trimmed(digest@).len() > 0
            ==> "sha256:"@.is_prefix_of(r@) && r@.len() <= 19,
{
    reveal_strlit("sha256:");
    let v = trimmed(tag@);
    if v.len() <= r@.len() {
        assert(trimmed(release@).len() == 0 && v.len() > 0 ==> r@.subrange(0, v.len() as int) =~= v);
    }
    if trimmed(release@).len() == 0 && v.len() == 0 && trimmed(digest@).len() > 0 {
        assert(r@.subrange(0, 7) =~= "sha256:"@);
    }
}

/// Only administrators save a setting, and what is saved is what the form says: the channel without
/// white space around it, and one or zero for a box by whether it was ticked.
pub proof fn law_settings_are_saved_as_entered(
    is_admin: bool,
    base_path: &str,
    channel: ChannelForm,
    auto: ToggleForm,
    telemetry: InstallationTelemetryForm,
    push: PushNotificationsForm,
    r: Verdict<String>,
    s: Verdict<i64>,
    t: Verdict<i64>,
    u: Verdict<i64>,
)
    requires
        call_ensures(updates_set_channel, (is_admin, base_path, &channel), r),
        call_ensures(updates_toggle_auto_update, (is_admin, base_path, &auto), s),
        call_ensures(
            updates_toggle_installation_telemetry,
            (is_admin, base_path, &telemetry),
            t,
        ),
        call_ensures(updates_toggle_push_notifications, (is_admin, base_path, &push), u),
    ensures
        r is Proceed <==> is_admin && trimmed(channel.release_channel@).len() > 0,
        s is Proceed <==> is_admin,
        t is Proceed <==> is_admin,
        u is Proceed <==> is_admin,
        r matches Verdict::Proceed(c) ==> c@ == trimmed(channel.release_channel@),
        s matches Verdict::Proceed(v) ==> v == (if box_is_ticked(auto.auto_update) {
            1i64
        } else {
            0i64
        }),
        t matches Verdict::Proceed(v) ==> v == (if box_is_ticked(
            telemetry.installation_telemetry_opt_out,
        ) {
            1i64
        } else {
            0i64
        }),
        u matches Verdict::Proceed(v) ==> v == (if box_is_ticked(push.push_notifications_enabled) {
            1i64
        } else {
            0i64
        }),
{
    text::lemma_blank(channel.release_channel@);
}

/// Whether a box of a form came with the value of one that is ticked.
pub open spec fn box_is_ticked(field: Option<String>) -> bool {
    field is Some && field->0@ == "1"@
}

/// A public address is saved only by administrators, and only one of the web that has a host and
/// nothing behind it; it is saved as entered, without white space around it and slashes at its end.
pub proof fn law_public_address_is_of_the_web(
    is_admin: bool,
    base_path: &str,
    form: PublicOriginForm,
    r: Verdict<String>,
)
    requires
        call_ensures(updates_set_public_origin, (is_admin, base_path, &form), r),
    ensures
        r matches Verdict::Proceed(c) ==> {
            let t = trimmed_end_of(trimmed(form.external_url@), '/');
            &&& is_admin
            &&& c@ == t
            &&& t.len() > 0
            &&& url_parts(t) matches Some((scheme, host, path, has_query, has_fragment)) && (scheme
                == "http"@ || scheme == "https"@) && host is Some && path == "/"@ && !has_query
                && !has_fragment
        },
{
    text::lemma_blank(Seq::<char>::empty());
}

/// Updates are applied by themselves only where both checking and applying by themselves are on and
/// there is an update; neither follows from nothing being stored.
pub proof fn law_updates_apply_only_where_wanted(
    row: SettingsRow,
    settings: UpdateSettings,
    has_update: bool,
    r: bool,
)
    requires
        call_ensures(load_settings, (row,), settings),
        call_ensures(auto_applies, (&settings, has_update), r),
    ensures
        row.auto_update is None ==> !r,
        r ==> has_update && row.auto_update->0 != 0 && row.auto_check != Some(0i64),
        has_update && row.auto_update is Some && row.auto_update->0 != 0 && row.auto_check is None
            ==> r,
        row.release_channel is Some ==> settings.release_channel@ == row.release_channel->0@,
        row.release_channel is None ==> settings.release_channel@ == "stable"@,
        row.external_url is Some ==> settings.external_url@ == row.external_url->0@,
        settings.installation_telemetry_opt_out <==> row.installation_telemetry_opt_out is Some
            && row.installation_telemetry_opt_out->0 != 0,
        settings.push_notifications_enabled <==> row.push_notifications_enabled is Some
            && row.push_notifications_enabled->0 != 0,
{
}

/// An address is taken as the public one exactly where it is a web address with a host and nothing behind
/// it; it is kept without white space around it and without slashes at its end.
pub proof fn law_public_address_is_kept_tidy(input: &str, r: Result<String, String>)
    requires
        call_ensures(normalize_public_origin, (input,), r),
    ensures
        ({
            let t = trimmed_end_of(trimmed(input@), '/');
            &&& r is Ok <==> t.len() > 0 && (url_parts(t) matches Some(
                (scheme, host, path, has_query, has_fragment),
            ) && (scheme == "http"@ || scheme == "https"@) && host is Some && trimmed(
                host->0,
            ).len() > 0 && path == "/"@ && !has_query && !has_fragment)
            &&& r matches Ok(o) ==> o@ == t
        }),
{
    let t = trimmed_end_of(trimmed(input@), '/');
    if let Some((_, host, _, _, _)) = url_parts(t) {
        if let Some(h) = host {
            text::lemma_blank(h);
        }
    }
    text::lemma_blank(Seq::<char>::empty());
}

/// The address that a request came to is known without the prefix that it ends with.
pub proof fn law_prefix_is_no_part_of_the_address(
    external_origin: &str,
    base_path: &str,
    origin: Seq<char>,
    r: String,
)
    requires
        call_ensures(request_origin_without_base_path, (external_origin, base_path), r),
        external_origin@ == origin + base_path@,
        base_path@.len() > 0,
        base_path@.last() != '/',
    ensures
        r@ == trimmed_end_of(origin, '/'),
{
    let o = external_origin@;
    assert(o.last() == base_path@.last());
    text::lemma_trim_end(o, text::being('/'), o.len() as int);
    assert(o.subrange(0, o.len() as int) =~= o);
    assert(o.subrange(o.len() - base_path@.len(), o.len() as int) =~= base_path@);
    assert(o.subrange(0, o.len() - base_path@.len()) =~= origin);
}

/// What is stored of the updates is loaded as it is, each part in its place; what is not stored is
/// empty, and the state is idle.
pub proof fn law_state_is_loaded_as_stored(row: StateRow, r: UpdateState)
    requires
        call_ensures(load_state, (row,), r),
    ensures
        row.installed_version is Some ==> r.installed_version@ == row.installed_version->0@,
        row.installed_digest is Some ==> r.installed_digest@ == row.installed_digest->0@,
        row.installed_release_version is Some ==> r.installed_release_version@
            == row.installed_release_version->0@,
        row.installed_build_number is Some ==> r.installed_build_number@
            == row.installed_build_number->0@,
        row.available_version is Some ==> r.available_version@ == row.available_version->0@,
        row.available_digest is Some ==> r.available_digest@ == row.available_digest->0@,
        row.available_release_version is Some ==> r.available_release_version@
            == row.available_release_version->0@,
        row.available_build_number is Some ==> r.available_build_number@
            == row.available_build_number->0@,
        row.available_changelog_url is Some ==> r.available_changelog_url@
            == row.available_changelog_url->0@,
        row.available_changelog_body is Some ==> r.available_changelog_body@
            == row.available_changelog_body->0@,
        row.previous_version is Some ==> r.previous_version@ == row.previous_version->0@,
        row.previous_digest is Some ==> r.previous_digest@ == row.previous_digest->0@,
        row.previous_release_version is Some ==> r.previous_release_version@
            == row.previous_release_version->0@,
        row.previous_build_number is Some ==> r.previous_build_number@
            == row.previous_build_number->0@,
        row.last_checked_at is Some ==> r.last_checked_at@ == row.last_checked_at->0@,
        row.last_attempt_at is Some ==> r.last_attempt_at@ == row.last_attempt_at->0@,
        row.active_job_id is Some ==> r.active_job_id@ == row.active_job_id->0@,
        row.last_good_tag is Some ==> r.last_good_tag@ == row.last_good_tag->0@,
        row.last_good_digest is Some ==> r.last_good_digest@ == row.last_good_digest->0@,
        row.last_error is Some ==> r.last_error@ == row.last_error->0@,
        row.status is Some ==> r.status@ == row.status->0@,
        row.status is None ==> r.status@ == "idle"@,
        row.progress_key is Some ==> r.progress_key@ == row.progress_key->0@,
        row.progress_key is None ==> r.progress_key@ == "updates.progress.idle"@,
        row.active_job_id is None ==> r.active_job_id@ == ""@,
        row.available_version is None ==> r.available_version@ == ""@,
        row.previous_version is None ==> r.previous_version@ == ""@,
{
}

/// Whether a setting was saved leads back to the settings, with what happened to that setting.
pub proof fn law_setting_outcome_is_told(
    base_path: &str,
    setting: Setting,
    saved: WebAnswer,
    failed: WebAnswer,
)
    requires
        call_ensures(setting_saved, (base_path, setting, true), saved),
        call_ensures(setting_saved, (base_path, setting, false), failed),
    ensures
        ({
            let name = match setting {
                Setting::Channel => "channel"@,
                Setting::PublicOrigin => "public_origin"@,
                Setting::CurrentHost => "public_origin"@,
                Setting::AutoUpdate => "auto_update"@,
                Setting::InstallationTelemetry => "installation_telemetry"@,
                Setting::PushNotifications => "push_notifications"@,
            };
            let done = if setting is CurrentHost {
                "_applied"@
            } else {
                "_saved"@
            };
            &&& saved@ == Sent::Redirect(
                base_path@ + "/system-updates?success_key="@ + ("updates.flash."@ + name + done),
            )
            &&& failed@ == Sent::Redirect(
                base_path@ + "/system-updates?error_key="@ + ("updates.error."@ + name
                    + "_save_failed"@),
            )
        }),
{
    reveal_strlit("updates.flash.");
    reveal_strlit("updates.error.");
    reveal_strlit("_save_failed");
    reveal_strlit("_saved");
    reveal_strlit("_applied");
    reveal_strlit("channel");
    reveal_strlit("public_origin");
    reveal_strlit("auto_update");
    reveal_strlit("installation_telemetry");
    reveal_strlit("push_notifications");
    reveal_strlit("updates.flash.channel_saved");
    reveal_strlit("updates.error.channel_save_failed");
    reveal_strlit("updates.flash.public_origin_saved");
    reveal_strlit("updates.flash.public_origin_applied");
    reveal_strlit("updates.error.public_origin_save_failed");
    reveal_strlit("updates.flash.auto_update_saved");
    reveal_strlit("updates.error.auto_update_save_failed");
    reveal_strlit("updates.flash.installation_telemetry_saved");
    reveal_strlit("updates.error.installation_telemetry_save_failed");
    reveal_strlit("updates.flash.push_notifications_saved");
    reveal_strlit("updates.error.push_notifications_save_failed");
    assert("updates.flash."@ + "channel"@ + "_saved"@ =~= "updates.flash.channel_saved"@);
    assert("updates.error."@ + "channel"@ + "_save_failed"@
        =~= "updates.error.channel_save_failed"@);
    assert("updates.flash."@ + "public_origin"@ + "_saved"@
        =~= "updates.flash.public_origin_saved"@);
    assert("updates.flash."@ + "public_origin"@ + "_applied"@
        =~= "updates.flash.public_origin_applied"@);
    assert("updates.error."@ + "public_origin"@ + "_save_failed"@
        =~= "updates.error.public_origin_save_failed"@);
    assert("updates.flash."@ + "auto_update"@ + "_saved"@ =~= "updates.flash.auto_update_saved"@);
    assert("updates.error."@ + "auto_update"@ + "_save_failed"@
        =~= "updates.error.auto_update_save_failed"@);
    assert("updates.flash."@ + "installation_telemetry"@ + "_saved"@
        =~= "updates.flash.installation_telemetry_saved"@);
    assert("updates.error."@ + "installation_telemetry"@ + "_save_failed"@
        =~= "updates.error.installation_telemetry_save_failed"@);
    assert("updates.flash."@ + "push_notifications"@ + "_saved"@
        =~= "updates.flash.push_notifications_saved"@);
    assert("updates.error."@ + "push_notifications"@ + "_save_failed"@
        =~= "updates.error.push_notifications_save_failed"@);
}

/// Whether a job was started is told to administrators only, with success or with an error and never
/// with both.
pub proof fn law_started_job_is_told(
    is_admin: bool,
    started: bool,
    apply: Verdict<(u16, UpdateActionResponse)>,
    rollback: Verdict<(u16, UpdateActionResponse)>,
)
    requires
        call_ensures(updates_apply_start, (is_admin, started), apply),
        call_ensures(updates_rollback_start, (is_admin, started), rollback),
    ensures
        apply is Proceed <==> is_admin,
        rollback is Proceed <==> is_admin,
        apply matches Verdict::Proceed(v) ==> {
            &&& v.1.ok == started
            &&& v.0 == if started {
                200u16
            } else {
                400u16
            }
            &&& opt_text(v.1.message_key) == if started {
                Some("updates.flash.apply_started"@)
            } else {
                None
            }
            &&& opt_text(v.1.error_key) == if started {
                None
            } else {
                Some("updates.error.apply_failed"@)
            }
        },
        rollback matches Verdict::Proceed(v) ==> {
            &&& v.1.ok == started
            &&& v.0 == if started {
                200u16
            } else {
                400u16
            }
            &&& opt_text(v.1.message_key) == if started {
                Some("updates.flash.rollback_started"@)
            } else {
                None
            }
            &&& opt_text(v.1.error_key) == if started {
                None
            } else {
                Some("updates.error.rollback_failed"@)
            }
        },
{
}

/// A check that failed is noted as a failure and frees the slot; one that did not changes nothing more.
pub proof fn law_failed_check_is_noted(
    is_admin: bool,
    base_path: &str,
    found: Result<bool, String>,
    s: &mut UpdateState,
    r: WebAnswer,
)
    requires
        call_ensures(updates_check_now, (is_admin, base_path, &found, s), r),
    ensures
        !is_admin || found is Ok ==> final(s)@ == old(s)@,
        is_admin && found is Err ==> {
            &&& final(s)@.status == "failed"@
            &&& final(s)@.active_job_id.len() == 0
            &&& final(s)@.progress_key == "updates.progress.check_failed"@
            &&& final(s)@.last_error.len() > 0
            &&& final(s)@.installed_version == old(s)@.installed_version
            &&& final(s)@.available_version == old(s)@.available_version
            &&& final(s)@.previous_version == old(s)@.previous_version
        },
        !is_admin ==> r@ == Sent::Redirect(base_path@ + "/chat"@),
        is_admin && found == Ok::<bool, String>(true) ==> r@ == Sent::Redirect(
            base_path@ + ("/system-updates?success_key="@ + "updates.flash.check_available"@),
        ),
        is_admin && found == Ok::<bool, String>(false) ==> r@ == Sent::Redirect(
            base_path@ + ("/system-updates?success_key="@ + "updates.flash.check_none"@),
        ),
        is_admin && found is Err ==> r@ == Sent::Redirect(
            base_path@ + ("/system-updates?error_key="@ + "updates.error.check_failed"@),
        ),
{
    reveal_strlit("Could not check for updates.");
}

/// The channels that were found are offered, each in its place and under its own name; the two that there
/// always are, where none was found.
pub proof fn law_found_channels_are_offered(
    found: Option<Vec<String>>,
    r: Vec<ChannelOption>,
    i: int,
)
    requires
        call_ensures(channel_options, (&found,), r),
    ensures
        found matches Some(v) ==> (v@.len() > 0 ==> r@.len() == v@.len() && (0 <= i < v@.len()
            ==> r@[i].value@ == v@[i]@ && (v@[i]@ == "stable"@ ==> r@[i].label@ == "Stable"@) && (
        v@[i]@ == "unstable"@ ==> r@[i].label@ == "Unstable"@) && (v@[i]@ != "stable"@ && v@[i]@
            != "unstable"@ ==> r@[i].label@ == v@[i]@))),
        found is None || found->0@.len() == 0 ==> r@.len() == 2 && r@[0].value@ == "stable"@
            && r@[0].label@ == "Stable"@ && r@[1].value@ == "unstable"@ && r@[1].label@
            == "Unstable"@,
{
    reveal_strlit("stable");
    reveal_strlit("unstable");
    assert("stable"@.len() == 6 && "unstable"@.len() == 8);
    let p = channel_pairs(r@);
    assert(p.len() == r@.len());
    if found is Some && found->0@.len() > 0 {
        let v = found->0;
        assert(texts(v@).len() == v@.len());
        if 0 <= i < v@.len() {
            assert(texts(v@)[i] == v@[i]@);
            assert(p[i] == (r@[i].value@, r@[i].label@));
        }
    } else {
        assert(p[0] == (r@[0].value@, r@[0].label@));
        assert(p[1] == (r@[1].value@, r@[1].label@));
    }
}

/// The page shows the settings and the state of the updates as they are, with what is known of the
/// installed version; to administrators only.
pub proof fn law_page_shows_the_state(
    is_admin: bool,
    base_path: &str,
    external_origin: &str,
    settings: UpdateSettings,
    state: UpdateState,
    channels: Vec<ChannelOption>,
    query: UpdatesQuery,
    r: Verdict<SystemUpdatesPage>,
)
    requires
        call_ensures(
            updates_index,
            (
                is_admin,
                base_path,
                external_origin,
                Ok::<(UpdateSettings, UpdateState), LoadFault>((settings, state)),
                &None::<StatusResponse>,
                channels,
                query,
            ),
            r,
        ),
    ensures
        r is Proceed <==> is_admin,
        r matches Verdict::Proceed(page) ==> {
            &&& page.settings == settings
            &&& page.available_channels == channels
            &&& page.available_changelog_url@ == state.available_changelog_url@
            &&& page.available_changelog_body@ == state.available_changelog_body@
            &&& page.last_checked_at@ == state.last_checked_at@
            &&& page.last_attempt_at@ == state.last_attempt_at@
            &&& page.active_job_id@ == state.active_job_id@
            &&& page.last_error@ == state.last_error@
            &&& page.progress_key@ == state.progress_key@
            &&& page.error_key == query.error_key
            &&& page.success_key == query.success_key
            &&& page.error_fallback is Some <==> query.error_key is Some
            &&& page.success_fallback is Some <==> query.success_key is Some
            &&& trimmed(state.previous_version@).len() > 0 ==> page.rollback_available
            &&& page.update_available ==> state.status@ != "checking"@ && state.status@
                != "updating"@ && trimmed(state.available_version@).len() > 0
        },
{
    text::lemma_blank(state.previous_version@);
    text::lemma_blank(state.available_version@);
}

/// Each state has a key of its own, and any other word counts as idle.
pub proof fn law_states_have_their_keys(status: &str, r: &'static str)
    requires
        call_ensures(status_key_for, (status,), r),
    ensures
        status@ == "checking"@ ==> r@ == "updates.state.checking"@,
        status@ == "update_available"@ ==> r@ == "updates.state.update_available"@,
        status@ == "updating"@ ==> r@ == "updates.state.updating"@,
        status@ == "rollback_available"@ ==> r@ == "updates.state.rollback_available"@,
        status@ == "failed"@ ==> r@ == "updates.state.failed"@,
        status@ != "checking"@ && status@ != "update_available"@ && status@ != "updating"@
            && status@ != "rollback_available"@ && status@ != "failed"@ ==> r@
            == "updates.state.idle"@,
{
    reveal_strlit("checking");
    reveal_strlit("update_available");
    reveal_strlit("updating");
    reveal_strlit("rollback_available");
    reveal_strlit("failed");
    assert("checking"@.len() == 8 && "update_available"@.len() == 16 && "updating"@.len() == 8
        && "rollback_available"@.len() == 18 && "failed"@.len() == 6);
    assert("checking"@[0] != "updating"@[0]);
}

} // verus!
