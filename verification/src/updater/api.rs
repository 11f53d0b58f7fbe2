//! The requests that the update service takes, and how it answers them.
use vstd::prelude::*;
use vstd::string::*;
use crate::text;
use crate::text::{blank, lowered, occurs_in, opt_str, opt_text, trimmed};
use crate::updater::bridge;
use crate::updater::runtime::Runtime;
use crate::updater::types::{
    AckResponse, ApplyRequest, CheckRequest, EnsureWhatsappBridgeRequest, InstalledImageState,
    RollbackRequest, RuntimeState, StatusResponse, StopWhatsappBridgeRequest,
    WhatsappBridgeChatsResponse, WhatsappBridgeStatusResponse,
};

verus! {

pub const HTTP_OK: u16 = 200;

pub const HTTP_ACCEPTED: u16 = 202;

pub const HTTP_BAD_REQUEST: u16 = 400;

pub const HTTP_UNAUTHORIZED: u16 = 401;

pub const HTTP_CONFLICT: u16 = 409;

pub const HTTP_INTERNAL_SERVER_ERROR: u16 = 500;

/// An answer, as a value.
pub struct Ack {
    pub accepted: bool,
    pub job_id: Option<Seq<char>>,
    pub status: Option<Seq<char>>,
    pub progress_key: Option<Seq<char>>,
    pub message: Option<Seq<char>>,
}

impl AckResponse {
    pub open spec fn view(&self) -> Ack {
        Ack {
            accepted: self.accepted,
            job_id: opt_text(self.job_id),
            status: opt_text(self.status),
            progress_key: opt_text(self.progress_key),
            message: opt_text(self.message),
        }
    }
}

/// A refusal with a message.
pub open spec fn refusal(message: Seq<char>) -> Ack {
    Ack {
        accepted: false,
        job_id: None,
        status: Some("failed"@),
        progress_key: Some("updates.progress.apply_failed"@),
        message: Some(message),
    }
}

/// A refusal with a message.
pub fn rejected(message: &str) -> (r: AckResponse)
    ensures
        r@ == refusal(message@),
{
    AckResponse {
        accepted: false,
        job_id: None,
        status: Some("failed".to_string()),
        progress_key: Some("updates.progress.apply_failed".to_string()),
        message: Some(message.to_string()),
    }
}

/// Whether a request may be served: no secret is configured, or the request
/// carries exactly the configured one.
pub open spec fn may_serve(shared_secret: Seq<char>, received: Option<Seq<char>>) -> bool {
    blank(shared_secret) || received == Some(trimmed(shared_secret))
}

/// Whether a request may be served.
pub fn is_authorized(shared_secret: &str, received: Option<&str>) -> (r: bool)
    ensures
        r == may_serve(shared_secret@, opt_str(received)),
{
    if text::is_blank(shared_secret) {
        return true;
    }
    match received {
        Some(v) => text::same(v, text::trim(shared_secret)),
        None => false,
    }
}

// ── Checking for an update ───────────────────────────────────────────────────

/// The refusal of a check, where it is refused.
pub fn refuse_check(authorized: bool, req: &CheckRequest) -> (r: Option<(u16, AckResponse)>)
    ensures
        if !authorized {
            r matches Some(a) && a.0 == HTTP_UNAUTHORIZED && a.1@ == refusal(
                "Unauthorized updater request"@,
            )
        } else if blank(req.target_tag@) {
            r matches Some(a) && a.0 == HTTP_BAD_REQUEST && a.1@ == refusal(
                "Check request must include target tag"@,
            )
        } else {
            r is None
        },
{
    if !authorized {
        return Some((HTTP_UNAUTHORIZED, rejected("Unauthorized updater request")));
    }
    if text::is_blank(req.target_tag.as_str()) {
        return Some((HTTP_BAD_REQUEST, rejected("Check request must include target tag")));
    }
    None
}

/// Whether what was asked about differs from what is installed: by digest where
/// both have one, else by tag.
pub open spec fn differs(req: CheckRequest, installed: InstalledImageState) -> bool {
    if !blank(req.target_digest@) && !blank(installed.digest@) {
        trimmed(req.target_digest@) != trimmed(installed.digest@)
    } else {
        trimmed(installed.tag@) != trimmed(req.target_tag@)
    }
}

/// The answer to a check that was not refused.
pub fn answer_check(req: &CheckRequest, installed: Option<InstalledImageState>) -> (r: (
    u16,
    AckResponse,
))
    ensures
        match installed {
            None => r.0 == HTTP_INTERNAL_SERVER_ERROR && r.1@ == refusal(
                "Could not determine installed version"@,
            ),
            Some(i) => r.0 == HTTP_OK && r.1@ == (Ack {
                accepted: true,
                job_id: Some(req.request_id@),
                status: Some(
                    if differs(*req, i) {
                        "update_available"@
                    } else {
                        "idle"@
                    },
                ),
                progress_key: Some(
                    if differs(*req, i) {
                        "updates.progress.update_available"@
                    } else {
                        "updates.progress.already_current"@
                    },
                ),
                message: Some(
                    "Channel "@ + req.channel@ + " checked"@ + (if differs(*req, i) {
                        ": update available"@
                    } else {
                        ""@
                    }) + " (digest-aware check)"@,
                ),
            }),
        },
{
    let installed = match installed {
        Some(i) => i,
        None => {
            return (HTTP_INTERNAL_SERVER_ERROR, rejected("Could not determine installed version"));
        },
    };
    let has_update = if !text::is_blank(req.target_digest.as_str()) && !text::is_blank(
        installed.digest.as_str(),
    ) {
        !text::same(
            text::trim(req.target_digest.as_str()),
            text::trim(installed.digest.as_str()),
        )
    } else {
        !text::same(text::trim(installed.tag.as_str()), text::trim(req.target_tag.as_str()))
    };
    let mut message = "Channel ".to_string();
    message.append(req.channel.as_str());
    message.append(" checked");
    message.append(
        if has_update {
            ": update available"
        } else {
            ""
        },
    );
    message.append(" (digest-aware check)");
    (
        HTTP_OK,
        AckResponse {
            accepted: true,
            job_id: Some(req.request_id.clone()),
            status: Some(
                (if has_update {
                    "update_available"
                } else {
                    "idle"
                }).to_string(),
            ),
            progress_key: Some(
                (if has_update {
                    "updates.progress.update_available"
                } else {
                    "updates.progress.already_current"
                }).to_string(),
            ),
            message: Some(message),
        },
    )
}

// ── Starting a job ───────────────────────────────────────────────────────────

/// What is wrong with a request to start a job, with the code of the answer.
pub open spec fn start_fault(
    authorized: bool,
    tag: Seq<char>,
    digest: Seq<char>,
    incomplete: Seq<char>,
    runtime: Runtime,
) -> Option<(u16, Seq<char>)> {
    if !authorized {
        Some((HTTP_UNAUTHORIZED, "Unauthorized updater request"@))
    } else if blank(tag) || blank(digest) {
        Some((HTTP_BAD_REQUEST, incomplete))
    } else if runtime.job is Some {
        Some((HTTP_CONFLICT, "Another update job is already running"@))
    } else {
        None
    }
}

/// Answers a request for an update. Where it is accepted the service has the job
/// from then on, and the caller is to run it.
pub fn begin_apply(authorized: bool, req: &ApplyRequest, runtime: &mut RuntimeState) -> (r: (
    u16,
    AckResponse,
))
    ensures
        match start_fault(
            authorized,
            req.target_tag@,
            req.target_digest@,
            "Update request must include tag and digest"@,
            old(runtime)@,
        ) {
            Some(f) => r.0 == f.0 && r.1@ == refusal(f.1) && *final(runtime) == *old(runtime),
            None => {
                &&& r.0 == HTTP_ACCEPTED
                &&& r.1@ == (Ack {
                    accepted: true,
                    job_id: Some(req.request_id@),
                    status: Some("updating"@),
                    progress_key: Some("updates.progress.preparing"@),
                    message: Some(
                        "Applying "@ + req.target_tag@ + " from channel "@ + req.channel@,
                    ),
                })
                &&& final(runtime)@ == old(runtime)@.doing(
                    Some(req.request_id@),
                    "updating"@,
                    "updates.progress.preparing"@,
                    "Update started"@,
                )
            },
        },
{
    if !authorized {
        return (HTTP_UNAUTHORIZED, rejected("Unauthorized updater request"));
    }
    if text::is_blank(req.target_tag.as_str()) || text::is_blank(req.target_digest.as_str()) {
        return (HTTP_BAD_REQUEST, rejected("Update request must include tag and digest"));
    }
    if runtime.active_job_id.is_some() {
        return (HTTP_CONFLICT, rejected("Another update job is already running"));
    }
    runtime.set_runtime(
        Some(req.request_id.clone()),
        "updating",
        "updates.progress.preparing",
        "Update started",
    );
    let mut message = "Applying ".to_string();
    message.append(req.target_tag.as_str());
    message.append(" from channel ");
    message.append(req.channel.as_str());
    (
        HTTP_ACCEPTED,
        AckResponse {
            accepted: true,
            job_id: Some(req.request_id.clone()),
            status: Some("updating".to_string()),
            progress_key: Some("updates.progress.preparing".to_string()),
            message: Some(message),
        },
    )
}

/// Answers a request for a rollback. Where it is accepted the service has the job
/// from then on, and the caller is to run it.
pub fn begin_rollback(authorized: bool, req: &RollbackRequest, runtime: &mut RuntimeState) -> (r: (
    u16,
    AckResponse,
))
    ensures
        match start_fault(
            authorized,
            req.rollback_tag@,
            req.rollback_digest@,
            "Rollback request must include tag and digest"@,
            old(runtime)@,
        ) {
            Some(f) => r.0 == f.0 && r.1@ == refusal(f.1) && *final(runtime) == *old(runtime),
            None => {
                &&& r.0 == HTTP_ACCEPTED
                &&& r.1@ == (Ack {
                    accepted: true,
                    job_id: Some(req.request_id@),
                    status: Some("updating"@),
                    progress_key: Some("updates.progress.rollback_start"@),
                    message: Some(
                        "Rolling back to "@ + req.rollback_tag@ + " from channel "@ + req.channel@,
                    ),
                })
                &&& final(runtime)@ == old(runtime)@.doing(
                    Some(req.request_id@),
                    "updating"@,
                    "updates.progress.rollback_start"@,
                    "Rollback started"@,
                )
            },
        },
{
    if !authorized {
        return (HTTP_UNAUTHORIZED, rejected("Unauthorized updater request"));
    }
    if text::is_blank(req.rollback_tag.as_str()) || text::is_blank(req.rollback_digest.as_str()) {
        return (HTTP_BAD_REQUEST, rejected("Rollback request must include tag and digest"));
    }
    if runtime.active_job_id.is_some() {
        return (HTTP_CONFLICT, rejected("Another update job is already running"));
    }
    runtime.set_runtime(
        Some(req.request_id.clone()),
        "updating",
        "updates.progress.rollback_start",
        "Rollback started",
    );
    let mut message = "Rolling back to ".to_string();
    message.append(req.rollback_tag.as_str());
    message.append(" from channel ");
    message.append(req.channel.as_str());
    (
        HTTP_ACCEPTED,
        AckResponse {
            accepted: true,
            job_id: Some(req.request_id.clone()),
            status: Some("updating".to_string()),
            progress_key: Some("updates.progress.rollback_start".to_string()),
            message: Some(message),
        },
    )
}

/// Notes that an update ended: where it failed, the service says so and is free
/// again.
pub fn end_apply(runtime: &mut RuntimeState, outcome: &Result<(), String>)
    ensures
        final(runtime)@ == match outcome {
            Ok(_) => old(runtime)@,
            Err(_) => old(runtime)@.doing(
                None,
                "failed"@,
                "updates.progress.apply_failed"@,
                "Update failed in updater sidecar"@,
            ),
        },
{
    if outcome.is_err() {
        runtime.set_runtime(
            None,
            "failed",
            "updates.progress.apply_failed",
            "Update failed in updater sidecar",
        );
    }
}

/// Notes that a rollback ended: where it failed, the service says so and is free
/// again.
pub fn end_rollback(runtime: &mut RuntimeState, outcome: &Result<(), String>)
    ensures
        final(runtime)@ == match outcome {
            Ok(_) => old(runtime)@,
            Err(_) => old(runtime)@.doing(
                None,
                "failed"@,
                "updates.progress.apply_failed"@,
                "Rollback failed in updater sidecar"@,
            ),
        },
{
    if outcome.is_err() {
        runtime.set_runtime(
            None,
            "failed",
            "updates.progress.apply_failed",
            "Rollback failed in updater sidecar",
        );
    }
}

// ── The message bridge ───────────────────────────────────────────────────────

/// The refusal of a request to start the bridge, where it is refused.
pub fn refuse_ensure(authorized: bool, req: &EnsureWhatsappBridgeRequest) -> (r: Option<
    (u16, AckResponse),
>)
    ensures
        if !authorized {
            r matches Some(a) && a.0 == HTTP_UNAUTHORIZED && a.1@ == refusal(
                "Unauthorized updater request"@,
            )
        } else if blank(req.channel@) {
            r matches Some(a) && a.0 == HTTP_BAD_REQUEST && a.1@ == refusal(
                "Channel is required to ensure WhatsApp bridge"@,
            )
        } else if blank(req.inbound_url@) || blank(req.inbound_token@) {
            r matches Some(a) && a.0 == HTTP_BAD_REQUEST && a.1@ == refusal(
                "Inbound URL and token are required to ensure WhatsApp bridge"@,
            )
        } else {
            r is None
        },
{
    if !authorized {
        return Some((HTTP_UNAUTHORIZED, rejected("Unauthorized updater request")));
    }
    if text::is_blank(req.channel.as_str()) {
        return Some(
            (HTTP_BAD_REQUEST, rejected("Channel is required to ensure WhatsApp bridge")),
        );
    }
    if text::is_blank(req.inbound_url.as_str()) || text::is_blank(req.inbound_token.as_str()) {
        return Some(
            (
                HTTP_BAD_REQUEST,
                rejected("Inbound URL and token are required to ensure WhatsApp bridge"),
            ),
        );
    }
    None
}

/// An answer about the bridge.
pub open spec fn bridge_ack(
    accepted: bool,
    request_id: Seq<char>,
    status: Seq<char>,
    message: Seq<char>,
) -> Ack {
    Ack {
        accepted,
        job_id: Some(request_id),
        status: Some(status),
        progress_key: None,
        message: Some(message),
    }
}

/// An answer about the bridge.
fn bridge_answer(accepted: bool, request_id: &str, status: &str, message: &str) -> (r: AckResponse)
    ensures
        r@ == bridge_ack(accepted, request_id@, status@, message@),
{
    AckResponse {
        accepted,
        job_id: Some(request_id.to_string()),
        status: Some(status.to_string()),
        progress_key: None,
        message: Some(message.to_string()),
    }
}

/// The answer to a request to start the bridge that was carried out.
pub fn answer_ensure(req: &EnsureWhatsappBridgeRequest, outcome: &Result<(), String>) -> (r: (
    u16,
    AckResponse,
))
    ensures
        match outcome {
            Ok(_) => r.0 == HTTP_OK && r.1@ == bridge_ack(
                true,
                req.request_id@,
                "idle"@,
                "WhatsApp bridge is running"@,
            ),
            Err(e) => r.0 == HTTP_INTERNAL_SERVER_ERROR && r.1@ == bridge_ack(
                false,
                req.request_id@,
                "failed"@,
                friendly_bridge_error(e@),
            ),
        },
{
    match outcome {
        Ok(_) => (
            HTTP_OK,
            bridge_answer(true, req.request_id.as_str(), "idle", "WhatsApp bridge is running"),
        ),
        Err(e) => {
            let message = user_friendly_whatsapp_bridge_error(e.as_str());
            (
                HTTP_INTERNAL_SERVER_ERROR,
                bridge_answer(false, req.request_id.as_str(), "failed", message.as_str()),
            )
        },
    }
}

/// The refusal of a request to stop the bridge, where it is refused.
pub fn refuse_stop(authorized: bool) -> (r: Option<(u16, AckResponse)>)
    ensures
        if authorized {
            r is None
        } else {
            r matches Some(a) && a.0 == HTTP_UNAUTHORIZED && a.1@ == refusal(
                "Unauthorized updater request"@,
            )
        },
{
    if authorized {
        None
    } else {
        Some((HTTP_UNAUTHORIZED, rejected("Unauthorized updater request")))
    }
}

/// The answer to a request to stop the bridge that was carried out.
pub fn answer_stop(req: &StopWhatsappBridgeRequest, outcome: &Result<(), String>) -> (r: (
    u16,
    AckResponse,
))
    ensures
        match outcome {
            Ok(_) => r.0 == HTTP_OK && r.1@ == bridge_ack(
                true,
                req.request_id@,
                "idle"@,
                "WhatsApp bridge stopped"@,
            ),
            Err(_) => r.0 == HTTP_INTERNAL_SERVER_ERROR && r.1@ == bridge_ack(
                false,
                req.request_id@,
                "failed"@,
                "Could not stop WhatsApp bridge"@,
            ),
        },
{
    match outcome {
        Ok(_) => (
            HTTP_OK,
            bridge_answer(true, req.request_id.as_str(), "idle", "WhatsApp bridge stopped"),
        ),
        Err(_) => (
            HTTP_INTERNAL_SERVER_ERROR,
            bridge_answer(
                false,
                req.request_id.as_str(),
                "failed",
                "Could not stop WhatsApp bridge",
            ),
        ),
    }
}

/// The answer to a question about the state of the bridge; `found` is what was
/// found out, where the request may be served.
pub fn whatsapp_bridge_status(
    authorized: bool,
    found: Result<WhatsappBridgeStatusResponse, String>,
) -> (r: (u16, WhatsappBridgeStatusResponse))
    ensures
        if !authorized {
            r.0 == HTTP_UNAUTHORIZED && bridge::plain_status(
                r.1,
                false,
                "Unauthorized updater request"@,
            )
        } else {
            match found {
                Ok(s) => r.0 == HTTP_OK && r.1 == s,
                Err(_) => r.0 == HTTP_INTERNAL_SERVER_ERROR && bridge::plain_status(
                    r.1,
                    false,
                    "Could not read WhatsApp bridge status"@,
                ),
            }
        },
{
    if !authorized {
        return (
            HTTP_UNAUTHORIZED,
            bridge::status_without_session(false, "Unauthorized updater request"),
        );
    }
    match found {
        Ok(s) => (HTTP_OK, s),
        Err(_) => (
            HTTP_INTERNAL_SERVER_ERROR,
            bridge::status_without_session(false, "Could not read WhatsApp bridge status"),
        ),
    }
}

/// The answer to a question about the chats of the bridge; `found` is what was
/// found out, where the request may be served.
pub fn whatsapp_bridge_chats(
    authorized: bool,
    found: Result<WhatsappBridgeChatsResponse, String>,
) -> (r: (u16, WhatsappBridgeChatsResponse))
    ensures
        if !authorized {
            r.0 == HTTP_UNAUTHORIZED && bridge::no_chats(
                r.1,
                false,
                "Unauthorized updater request"@,
            )
        } else {
            match found {
                Ok(s) => r.0 == HTTP_OK && r.1 == s,
                Err(_) => r.0 == HTTP_INTERNAL_SERVER_ERROR && bridge::no_chats(
                    r.1,
                    false,
                    "Could not load WhatsApp chats"@,
                ),
            }
        },
{
    if !authorized {
        return (
            HTTP_UNAUTHORIZED,
            bridge::chats_without_session(false, "Unauthorized updater request"),
        );
    }
    match found {
        Ok(s) => (HTTP_OK, s),
        Err(_) => (
            HTTP_INTERNAL_SERVER_ERROR,
            bridge::chats_without_session(false, "Could not load WhatsApp chats"),
        ),
    }
}

/// What a user is told of an error that kept the bridge from starting.
pub open spec fn friendly_bridge_error(err: Seq<char>) -> Seq<char> {
    let e = lowered(err);
    if occurs_in(e, "connection refused"@) || occurs_in(e, "cannot connect to the docker daemon"@)
        || occurs_in(e, "failed to connect to docker daemon"@) {
        "Could not start WhatsApp bridge: Docker is not running. Start Docker and try again."@
    } else if occurs_in(e, "permission denied"@) {
        "Could not start WhatsApp bridge: Docker permission denied for this user."@
    } else if occurs_in(e, "pull access denied"@) || occurs_in(e, "manifest unknown"@)
        || occurs_in(e, "not found"@) {
        "Could not start WhatsApp bridge: bridge image could not be pulled."@
    } else if occurs_in(e, "invalid reference format"@) {
        "Could not start WhatsApp bridge: invalid bridge image reference. Check UPDATER__WHATSAPP_BRIDGE_IMAGE_REPO."@
    } else {
        "Could not start WhatsApp bridge. Please try again."@
    }
}

/// What a user is told of an error that kept the bridge from starting.
pub fn user_friendly_whatsapp_bridge_error(err: &str) -> (r: String)
    ensures
        r@ == friendly_bridge_error(err@),
{
    let e = text::to_lower(err);
    let e = e.as_str();
    if text::contains(e, "connection refused") || text::contains(
        e,
        "cannot connect to the docker daemon",
    ) || text::contains(e, "failed to connect to docker daemon") {
        return "Could not start WhatsApp bridge: Docker is not running. Start Docker and try again.".to_string();
    }
    if text::contains(e, "permission denied") {
        return "Could not start WhatsApp bridge: Docker permission denied for this user.".to_string();
    }
    if text::contains(e, "pull access denied") || text::contains(e, "manifest unknown")
        || text::contains(e, "not found") {
        return "Could not start WhatsApp bridge: bridge image could not be pulled.".to_string();
    }
    if text::contains(e, "invalid reference format") {
        return "Could not start WhatsApp bridge: invalid bridge image reference. Check UPDATER__WHATSAPP_BRIDGE_IMAGE_REPO.".to_string();
    }
    "Could not start WhatsApp bridge. Please try again.".to_string()
}

// ── The state of the service ─────────────────────────────────────────────────

/// A text, where it is not empty.
pub open spec fn if_any(s: Seq<char>) -> Option<Seq<char>> {
    if s.len() == 0 {
        None
    } else {
        Some(s)
    }
}

/// A text, where it is not empty.
fn any_text(s: &str) -> (r: Option<String>)
    ensures
        opt_text(r) == if_any(s@),
{
    if s.is_empty() {
        None
    } else {
        Some(s.to_string())
    }
}

/// The state as it is answered, as a value.
pub struct StatusView {
    pub status: Seq<char>,
    pub progress_key: Option<Seq<char>>,
    pub message: Option<Seq<char>>,
    pub job_id: Option<Seq<char>>,
    pub installed_tag: Option<Seq<char>>,
    pub installed_digest: Option<Seq<char>>,
    pub installed_version: Option<Seq<char>>,
    pub installed_build: Option<Seq<char>>,
    pub previous_tag: Option<Seq<char>>,
    pub previous_digest: Option<Seq<char>>,
    pub previous_version: Option<Seq<char>>,
    pub previous_build: Option<Seq<char>>,
}

impl StatusResponse {
    pub open spec fn view(&self) -> StatusView {
        StatusView {
            status: self.status@,
            progress_key: opt_text(self.progress_key),
            message: opt_text(self.message),
            job_id: opt_text(self.job_id),
            installed_tag: opt_text(self.installed_tag),
            installed_digest: opt_text(self.installed_digest),
            installed_version: opt_text(self.installed_version),
            installed_build: opt_text(self.installed_build),
            previous_tag: opt_text(self.previous_tag),
            previous_digest: opt_text(self.previous_digest),
            previous_version: opt_text(self.previous_version),
            previous_build: opt_text(self.previous_build),
        }
    }
}

/// The answer to a question that may not be served.
pub open spec fn closed_status() -> StatusView {
    StatusView {
        status: "failed"@,
        progress_key: Some("updates.progress.apply_failed"@),
        message: Some("Unauthorized updater request"@),
        job_id: None,
        installed_tag: None,
        installed_digest: None,
        installed_version: None,
        installed_build: None,
        previous_tag: None,
        previous_digest: None,
        previous_version: None,
        previous_build: None,
    }
}

/// The state of the service as it is answered: the installed image as it was
/// found on this machine, where it was, and the installed version from the
/// environment file where the service knows none itself.
pub open spec fn open_status(
    runtime: Runtime,
    installed: Option<InstalledImageState>,
    env_version: Seq<char>,
    env_build: Seq<char>,
) -> StatusView {
    StatusView {
        status: runtime.status,
        progress_key: Some(runtime.progress_key),
        message: if_any(runtime.message),
        job_id: runtime.job,
        installed_tag: if_any(
            match installed {
                Some(i) => i.tag@,
                None => runtime.installed.tag,
            },
        ),
        installed_digest: if_any(
            match installed {
                Some(i) => i.digest@,
                None => runtime.installed.digest,
            },
        ),
        installed_version: if_any(
            if blank(runtime.installed.version) {
                env_version
            } else {
                runtime.installed.version
            },
        ),
        installed_build: if_any(
            if blank(runtime.installed.build) {
                env_build
            } else {
                runtime.installed.build
            },
        ),
        previous_tag: if_any(runtime.previous.tag),
        previous_digest: if_any(runtime.previous.digest),
        previous_version: if_any(runtime.previous.version),
        previous_build: if_any(runtime.previous.build),
    }
}

/// Answers a question about the state of the service.
pub fn update_status(
    authorized: bool,
    runtime: &RuntimeState,
    installed: Option<InstalledImageState>,
    env_version: &str,
    env_build: &str,
) -> (r: (u16, StatusResponse))
    ensures
        if authorized {
            r.0 == HTTP_OK && r.1@ == open_status(runtime@, installed, env_version@, env_build@)
        } else {
            r.0 == HTTP_UNAUTHORIZED && r.1@ == closed_status()
        },
{
    if !authorized {
        return (
            HTTP_UNAUTHORIZED,
            StatusResponse {
                status: "failed".to_string(),
                progress_key: Some("updates.progress.apply_failed".to_string()),
                message: Some("Unauthorized updater request".to_string()),
                job_id: None,
                installed_tag: None,
                installed_digest: None,
                installed_version: None,
                installed_build: None,
                previous_tag: None,
                previous_digest: None,
                previous_version: None,
                previous_build: None,
            },
        );
    }
    let (tag, digest) = match &installed {
        Some(i) => (i.tag.as_str(), i.digest.as_str()),
        None => (runtime.installed_tag.as_str(), runtime.installed_digest.as_str()),
    };
    let version = if text::is_blank(runtime.installed_version.as_str()) {
        env_version
    } else {
        runtime.installed_version.as_str()
    };
    let build = if text::is_blank(runtime.installed_build.as_str()) {
        env_build
    } else {
        runtime.installed_build.as_str()
    };
    let job_id = match &runtime.active_job_id {
        Some(j) => Some(j.clone()),
        None => None,
    };
    (
        HTTP_OK,
        StatusResponse {
            status: runtime.status.clone(),
            progress_key: Some(runtime.progress_key.clone()),
            message: any_text(runtime.message.as_str()),
            job_id,
            installed_tag: any_text(tag),
            installed_digest: any_text(digest),
            installed_version: any_text(version),
            installed_build: any_text(build),
            previous_tag: any_text(runtime.previous_tag.as_str()),
            previous_digest: any_text(runtime.previous_digest.as_str()),
            previous_version: any_text(runtime.previous_version.as_str()),
            previous_build: any_text(runtime.previous_build.as_str()),
        },
    )
}

// ── Laws ─────────────────────────────────────────────────────────────────────

/// While a job runs no other one is accepted: whatever is asked for, the request
/// is refused.
pub proof fn law_one_job_at_a_time(
    authorized: bool,
    tag: Seq<char>,
    digest: Seq<char>,
    incomplete: Seq<char>,
    runtime: Runtime,
)
    requires
        runtime.job is Some,
    ensures
        start_fault(authorized, tag, digest, incomplete, runtime) is Some,
{
}

/// With a secret configured, a request without it is never served.
pub proof fn law_secret_is_needed(shared_secret: Seq<char>, received: Option<Seq<char>>)
    requires
        !blank(shared_secret),
        received != Some(trimmed(shared_secret)),
    ensures
        !may_serve(shared_secret, received),
{
}

/// With a secret configured, a request is served exactly where it carries that secret; without
/// one, every request is.
pub proof fn law_secret_opens(shared_secret: &str, received: Option<&str>, r: bool)
    requires
        call_ensures(is_authorized, (shared_secret, received), r),
    ensures
        trimmed(shared_secret@).len() == 0 ==> r,
        trimmed(shared_secret@).len() > 0 ==> (r <==> received is Some && received->0@ == trimmed(
            shared_secret@,
        )),
{
    text::lemma_blank(shared_secret@);
}

/// A check is refused exactly where it may not be served or names no tag, and is then not
/// accepted.
pub proof fn law_check_needs_a_tag(
    authorized: bool,
    req: CheckRequest,
    r: Option<(u16, AckResponse)>,
)
    requires
        call_ensures(refuse_check, (authorized, &req), r),
    ensures
        r is None <==> authorized && trimmed(req.target_tag@).len() > 0,
        r matches Some(a) ==> !a.1.accepted && a.1.job_id is None && a.0 == (if authorized {
            400u16
        } else {
            401u16
        }),
{
    text::lemma_blank(req.target_tag@);
}

/// A check finds an update exactly where another image was asked about than is installed. Where
/// both have a digest it alone counts, whatever their tags; else the tags count. White space
/// around them does not.
pub proof fn law_check_tells_images_apart(
    req: CheckRequest,
    installed: InstalledImageState,
    r: (u16, AckResponse),
)
    requires
        call_ensures(answer_check, (&req, Some(installed)), r),
    ensures
        r.0 == 200 && r.1.accepted,
        r.1.job_id is Some && r.1.job_id->0@ == req.request_id@,
        ({
            let update = r.1.status->0@ == "update_available"@;
            let asked = trimmed(req.target_digest@);
            let present = trimmed(installed.digest@);
            &&& r.1.status is Some && r.1.progress_key is Some
            &&& asked.len() > 0 && present.len() > 0 ==> (update <==> asked != present)
            &&& asked.len() == 0 || present.len() == 0 ==> (update <==> trimmed(req.target_tag@)
                != trimmed(installed.tag@))
            &&& !update ==> r.1.status->0@ == "idle"@ && r.1.progress_key->0@
                == "updates.progress.already_current"@
            &&& update ==> r.1.progress_key->0@ == "updates.progress.update_available"@
        }),
{
    text::lemma_blank(req.target_digest@);
    text::lemma_blank(installed.digest@);
    reveal_strlit("update_available");
    reveal_strlit("idle");
    assert("update_available"@.len() == 16 && "idle"@.len() == 4);
}

/// A check of a machine on which nothing could be found out fails.
pub proof fn law_check_needs_the_machine(req: CheckRequest, r: (u16, AckResponse))
    requires
        call_ensures(answer_check, (&req, None), r),
    ensures
        r.0 == 500 && !r.1.accepted && r.1.status->0@ == "failed"@ && r.1.job_id is None,
{
}

/// An update is accepted exactly where the request may be served, names a tag and a digest, and
/// no job runs. The service then has the request's job and is updating; what it knows of versions
/// stays. A request that is not accepted changes nothing.
pub proof fn law_update_is_accepted_once(
    authorized: bool,
    req: ApplyRequest,
    runtime: &mut RuntimeState,
    r: (u16, AckResponse),
)
    requires
        call_ensures(begin_apply, (authorized, &req, runtime), r),
    ensures
        r.1.accepted <==> authorized && trimmed(req.target_tag@).len() > 0 && trimmed(
            req.target_digest@,
        ).len() > 0 && old(runtime).active_job_id is None,
        r.1.accepted ==> {
            &&& r.0 == 202
            &&& r.1.job_id is Some && r.1.job_id->0@ == req.request_id@
            &&& final(runtime).active_job_id is Some && final(runtime).active_job_id->0@
                == req.request_id@
            &&& final(runtime).status@ == "updating"@ && r.1.status->0@ == "updating"@
            &&& final(runtime)@.installed == old(runtime)@.installed
            &&& final(runtime)@.previous == old(runtime)@.previous
            &&& r.1.message->0@ == "Applying "@ + req.target_tag@ + " from channel "@
                + req.channel@
        },
        !r.1.accepted ==> *final(runtime) == *old(runtime) && r.1.job_id is None,
        !authorized ==> r.0 == 401,
        r.0 == 409 ==> old(runtime).active_job_id is Some,
{
    text::lemma_blank(req.target_tag@);
    text::lemma_blank(req.target_digest@);
}

/// A rollback is accepted exactly where the request may be served, names a tag and a digest,
/// and no job runs. The service then has the request's job and is updating; what it knows of
/// versions stays. A request that is not accepted changes nothing.
pub proof fn law_rollback_is_accepted_once(
    authorized: bool,
    req: RollbackRequest,
    runtime: &mut RuntimeState,
    r: (u16, AckResponse),
)
    requires
        call_ensures(begin_rollback, (authorized, &req, runtime), r),
    ensures
        r.1.accepted <==> authorized && trimmed(req.rollback_tag@).len() > 0 && trimmed(
            req.rollback_digest@,
        ).len() > 0 && old(runtime).active_job_id is None,
        r.1.accepted ==> {
            &&& r.0 == 202
            &&& r.1.job_id is Some && r.1.job_id->0@ == req.request_id@
            &&& final(runtime).active_job_id is Some && final(runtime).active_job_id->0@
                == req.request_id@
            &&& final(runtime).status@ == "updating"@ && r.1.status->0@ == "updating"@
            &&& final(runtime)@.installed == old(runtime)@.installed
            &&& final(runtime)@.previous == old(runtime)@.previous
            &&& r.1.message->0@ == "Rolling back to "@ + req.rollback_tag@ + " from channel "@
                + req.channel@
        },
        !r.1.accepted ==> *final(runtime) == *old(runtime) && r.1.job_id is None,
        !authorized ==> r.0 == 401,
        r.0 == 409 ==> old(runtime).active_job_id is Some,
{
    text::lemma_blank(req.rollback_tag@);
    text::lemma_blank(req.rollback_digest@);
}

/// A job that failed leaves the service free and saying so, with what it knows of versions; one
/// that went well leaves the service as the job left it.
pub proof fn law_failed_update_frees_the_service(
    runtime: &mut RuntimeState,
    outcome: Result<(), String>,
)
    requires
        call_ensures(end_apply, (runtime, &outcome), ()),
    ensures
        outcome is Err ==> final(runtime).active_job_id is None && final(runtime).status@
            == "failed"@ && final(runtime)@.installed == old(runtime)@.installed
            && final(runtime)@.previous == old(runtime)@.previous,
        outcome is Ok ==> final(runtime)@ == old(runtime)@,
{
}

/// A rollback that failed leaves the service free and saying so, with what it knows of versions;
/// one that went well leaves the service as the job left it.
pub proof fn law_failed_rollback_frees_the_service(
    runtime: &mut RuntimeState,
    outcome: Result<(), String>,
)
    requires
        call_ensures(end_rollback, (runtime, &outcome), ()),
    ensures
        outcome is Err ==> final(runtime).active_job_id is None && final(runtime).status@
            == "failed"@ && final(runtime)@.installed == old(runtime)@.installed
            && final(runtime)@.previous == old(runtime)@.previous,
        outcome is Ok ==> final(runtime)@ == old(runtime)@,
{
}

/// The bridge is started only where a request may be served and says where messages go: a
/// channel, an address and a token.
pub proof fn law_bridge_needs_its_address(
    authorized: bool,
    req: EnsureWhatsappBridgeRequest,
    r: Option<(u16, AckResponse)>,
)
    requires
        call_ensures(refuse_ensure, (authorized, &req), r),
    ensures
        r is None <==> authorized && trimmed(req.channel@).len() > 0 && trimmed(
            req.inbound_url@,
        ).len() > 0 && trimmed(req.inbound_token@).len() > 0,
        r matches Some(a) ==> !a.1.accepted && a.0 == (if authorized {
            400u16
        } else {
            401u16
        }),
{
    text::lemma_blank(req.channel@);
    text::lemma_blank(req.inbound_url@);
    text::lemma_blank(req.inbound_token@);
}

/// What became of a request about the bridge is answered to that request: as accepted exactly
/// where it went well.
pub proof fn law_bridge_answers_its_request(
    req: EnsureWhatsappBridgeRequest,
    stop: StopWhatsappBridgeRequest,
    outcome: Result<(), String>,
    r: (u16, AckResponse),
    s: (u16, AckResponse),
)
    requires
        call_ensures(answer_ensure, (&req, &outcome), r),
        call_ensures(answer_stop, (&stop, &outcome), s),
    ensures
        r.1.accepted == outcome is Ok && s.1.accepted == outcome is Ok,
        r.1.job_id is Some && r.1.job_id->0@ == req.request_id@,
        s.1.job_id is Some && s.1.job_id->0@ == stop.request_id@,
        outcome is Ok ==> r.0 == 200 && s.0 == 200 && r.1.status->0@ == "idle"@ && s.1.status->0@
            == "idle"@,
        outcome is Err ==> r.0 == 500 && s.0 == 500 && r.1.status->0@ == "failed"@
            && s.1.status->0@ == "failed"@,
        outcome is Ok ==> r.1.message->0@ == "WhatsApp bridge is running"@ && s.1.message->0@
            == "WhatsApp bridge stopped"@,
{
}

/// Nothing is told of the bridge to a request that may not be served, and what was found out is
/// handed on as it is to one that may.
pub proof fn law_bridge_is_told_to_the_authorized(
    authorized: bool,
    found: Result<WhatsappBridgeStatusResponse, String>,
    chats: Result<WhatsappBridgeChatsResponse, String>,
    r: (u16, WhatsappBridgeStatusResponse),
    s: (u16, WhatsappBridgeChatsResponse),
)
    requires
        call_ensures(whatsapp_bridge_status, (authorized, found), r),
        call_ensures(whatsapp_bridge_chats, (authorized, chats), s),
    ensures
        !authorized ==> r.0 == 401 && s.0 == 401 && r.1.qr_data_url is None && s.1.chats@.len() == 0,
        authorized && found is Ok ==> r == (200u16, found->Ok_0),
        authorized && chats is Ok ==> s == (200u16, chats->Ok_0),
        authorized && found is Err ==> r.0 == 500 && !r.1.running && r.1.qr_data_url is None,
        authorized && chats is Err ==> s.0 == 500 && !s.1.running && s.1.chats@.len() == 0,
{
}

/// What a user is told of an error goes by what the error is about, whatever its case: an engine
/// that is not reached first, then one that may not be used, then an image that is not to be had.
pub proof fn law_bridge_errors_are_told_apart(err: &str, r: String)
    requires
        call_ensures(user_friendly_whatsapp_bridge_error, (err,), r),
    ensures
        ({
            let e = lowered(err@);
            let away = occurs_in(e, "connection refused"@) || occurs_in(
                e,
                "cannot connect to the docker daemon"@,
            ) || occurs_in(e, "failed to connect to docker daemon"@);
            let denied = occurs_in(e, "permission denied"@);
            let missing = occurs_in(e, "pull access denied"@) || occurs_in(e, "manifest unknown"@)
                || occurs_in(e, "not found"@);
            &&& away ==> r@
                == "Could not start WhatsApp bridge: Docker is not running. Start Docker and try again."@
            &&& !away && denied ==> r@
                == "Could not start WhatsApp bridge: Docker permission denied for this user."@
            &&& !away && !denied && missing ==> r@
                == "Could not start WhatsApp bridge: bridge image could not be pulled."@
            &&& !away && !denied && !missing && !occurs_in(e, "invalid reference format"@) ==> r@
                == "Could not start WhatsApp bridge. Please try again."@
        }),
{
}

/// The state that is answered is that of the service: its job, what it does, what it knows of the
/// version before; what is installed is what was found on this machine, where it was found. A
/// request that may not be served is told none of it.
pub proof fn law_status_is_that_of_the_service(
    authorized: bool,
    runtime: RuntimeState,
    installed: Option<InstalledImageState>,
    env_version: &str,
    env_build: &str,
    r: (u16, StatusResponse),
)
    requires
        call_ensures(update_status, (authorized, &runtime, installed, env_version, env_build), r),
    ensures
        !authorized ==> r.0 == 401 && r.1.job_id is None && r.1.installed_tag is None
            && r.1.installed_digest is None && r.1.installed_version is None
            && r.1.installed_build is None && r.1.previous_tag is None && r.1.previous_digest is None
            && r.1.previous_version is None && r.1.previous_build is None,
        authorized ==> {
            &&& r.0 == 200
            &&& r.1.status@ == runtime.status@
            &&& r.1.progress_key is Some && r.1.progress_key->0@ == runtime.progress_key@
            &&& opt_text(r.1.job_id) == opt_text(runtime.active_job_id)
            &&& told(r.1.message, runtime.message@)
            &&& installed matches Some(i) ==> told(r.1.installed_tag, i.tag@) && told(
                r.1.installed_digest,
                i.digest@,
            )
            &&& installed is None ==> told(r.1.installed_tag, runtime.installed_tag@) && told(
                r.1.installed_digest,
                runtime.installed_digest@,
            )
            &&& trimmed(runtime.installed_version@).len() > 0 ==> told(
                r.1.installed_version,
                runtime.installed_version@,
            )
            &&& trimmed(runtime.installed_version@).len() == 0 ==> told(
                r.1.installed_version,
                env_version@,
            )
            &&& trimmed(runtime.installed_build@).len() > 0 ==> told(
                r.1.installed_build,
                runtime.installed_build@,
            )
            &&& trimmed(runtime.installed_build@).len() == 0 ==> told(
                r.1.installed_build,
                env_build@,
            )
            &&& told(r.1.previous_tag, runtime.previous_tag@)
            &&& told(r.1.previous_digest, runtime.previous_digest@)
            &&& told(r.1.previous_version, runtime.previous_version@)
            &&& told(r.1.previous_build, runtime.previous_build@)
        },
{
    text::lemma_blank(runtime.installed_version@);
    text::lemma_blank(runtime.installed_build@);
}

/// Whether an answer tells a text: as it is, and nothing where it is empty.
pub open spec fn told(answer: Option<String>, s: Seq<char>) -> bool {
    (answer is None <==> s.len() == 0) && (answer is Some ==> answer->0@ == s)
}

} // verus!
