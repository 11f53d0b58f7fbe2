//! The container of the message bridge: how it is started, stopped and asked.
use vstd::prelude::*;
use vstd::string::*;
use crate::clock;
use crate::clock::{stamp, Moment};
use crate::text;
use crate::text::{
    ahead_of, blank, decimal, last_place, lowered, occurs_in, opt_text, texts, trimmed,
};
use crate::updater::compose::strings;
use crate::updater::image_ref;
use crate::updater::image_ref::{glued, is_tag_char, repository_of};
use crate::updater::images::names_nothing;
use crate::updater::storage::WHATSAPP_RETENTION_DAYS;
use crate::updater::types::{
    ImageIdentity, UpdaterConfig, WhatsappBridgeChat, WhatsappBridgeChatsResponse,
    WhatsappBridgeStatusResponse,
};

verus! {

// ── The image of the bridge ──────────────────────────────────────────────────

/// Whether a repository is given with a tag: its last colon follows its last
/// slash.
pub open spec fn has_tag(repo: Seq<char>) -> bool {
    match last_place(repo, ':') {
        Some(colon) => colon > match last_place(repo, '/') {
            Some(slash) => slash,
            None => 0,
        },
        None => false,
    }
}

/// Whether a repository is given with a tag.
pub fn image_repo_has_tag(repo: &str) -> (r: bool)
    ensures
        r == has_tag(repo@),
{
    let last_slash: usize = match text::find_last(repo, '/') {
        Some(i) => i,
        None => 0,
    };
    match text::find_last(repo, ':') {
        Some(colon) => colon > last_slash,
        None => false,
    }
}

/// Whether a channel can be a tag.
pub open spec fn taggable(channel: Seq<char>) -> bool {
    forall|i: int| 0 <= i < channel.len() ==> is_tag_char(#[trigger] channel[i])
}

/// Whether a channel can be a tag.
fn is_taggable(channel: &str) -> (r: bool)
    ensures
        r == taggable(channel@),
{
    let v = text::chars_of(channel);
    let mut i: usize = 0;
    while i < v.len()
        invariant
            i <= v@.len(),
            v@ == channel@,
            forall|j: int| 0 <= j < i ==> is_tag_char(#[trigger] v@[j]),
        decreases v@.len() - i,
    {
        let c = v[i];
        if !(text::char_is_alnum(c) || c == '_' || c == '-' || c == '.') {
            return false;
        }
        i += 1;
    }
    true
}

/// The image of the bridge: the repository as it is given where it has a tag or
/// a digest, else with the channel as its tag.
pub open spec fn bridge_image(repo: Seq<char>, channel: Seq<char>) -> Result<Seq<char>, Seq<char>> {
    let r = trimmed(repo);
    if blank(repo) {
        Err("UPDATER__WHATSAPP_BRIDGE_IMAGE_REPO must not be empty"@)
    } else if !taggable(channel) {
        Err(
            "Invalid WhatsApp bridge channel '"@ + channel
                + "'. Use only letters, numbers, '.', '_' or '-'."@,
        )
    } else if occurs_in(r, "@"@) || has_tag(r) {
        Ok(r)
    } else {
        Ok(r + ":"@ + channel)
    }
}

/// The image of the bridge.
pub fn resolve_whatsapp_bridge_image_ref(repo: &str, channel: &str) -> (r: Result<String, String>)
    ensures
        image_ref::result_text(r) == bridge_image(repo@, channel@),
{
    if text::is_blank(repo) {
        return Err("UPDATER__WHATSAPP_BRIDGE_IMAGE_REPO must not be empty".to_string());
    }
    let repo = text::trim(repo);
    if !is_taggable(channel) {
        return Err(
            glued(
                "Invalid WhatsApp bridge channel '",
                channel,
                "'. Use only letters, numbers, '.', '_' or '-'.",
            ),
        );
    }
    if text::contains(repo, "@") || image_repo_has_tag(repo) {
        return Ok(repo.to_string());
    }
    Ok(glued(repo, ":", channel))
}

/// Whether an image comes from a registry: it is named by digest, or its first
/// segment looks like a host.
pub open spec fn from_registry(image: Seq<char>) -> bool {
    let i = trimmed(image);
    let host = ahead_of(i, "/"@);
    ||| occurs_in(i, "@"@)
    ||| occurs_in(host, "."@)
    ||| lowered(host) == "localhost"@
    ||| occurs_in(i, "/"@) && occurs_in(host, ":"@)
}

/// Whether the image of the bridge is to be pulled.
pub fn should_pull_whatsapp_bridge_image(image: &str) -> (r: bool)
    ensures
        r == (!blank(image@) && from_registry(image@)),
{
    if text::is_blank(image) {
        return false;
    }
    let image = text::trim(image);
    if text::contains(image, "@") {
        return true;
    }
    let host = text::before_text(image, "/");
    let small = text::to_lower(host);
    text::contains(host, ".") || text::same(small.as_str(), "localhost") || (text::contains(
        image,
        "/",
    ) && text::contains(host, ":"))
}

// ── Starting it ──────────────────────────────────────────────────────────────

/// What the bridge is started with.
pub struct BridgePlan {
    pub image: String,
    pub container: String,
    pub volume: String,
    pub repository: String,
}

/// What is wrong with a request to start the bridge, before anything is done.
pub open spec fn bridge_fault(
    config: UpdaterConfig,
    channel: Seq<char>,
    inbound_url: Seq<char>,
    inbound_token: Seq<char>,
) -> Option<Seq<char>> {
    if blank(channel) {
        Some("Channel is required"@)
    } else if blank(inbound_url) || blank(inbound_token) {
        Some("Inbound URL and token are required"@)
    } else {
        match bridge_image(config.whatsapp_bridge_image_repo@, trimmed(channel)) {
            Err(e) => Some(e),
            Ok(_) => if blank(config.whatsapp_bridge_container_name@) || blank(
                config.whatsapp_bridge_data_volume@,
            ) {
                Some("WhatsApp bridge container name and data volume must be configured"@)
            } else if repository_of(config.whatsapp_bridge_image_repo@) is None {
                Some("WhatsApp bridge image repository must not be empty"@)
            } else {
                None
            },
        }
    }
}

/// What the bridge is to be started with; nothing where it is disabled.
pub fn bridge_plan(
    config: &UpdaterConfig,
    channel: &str,
    inbound_url: &str,
    inbound_token: &str,
) -> (r: Result<Option<BridgePlan>, String>)
    ensures
        if !config.whatsapp_bridge_enabled {
            r matches Ok(None)
        } else {
            match bridge_fault(*config, channel@, inbound_url@, inbound_token@) {
                Some(e) => r is Err && r->Err_0@ == e,
                None => r matches Ok(Some(p)) && bridge_image(
                    config.whatsapp_bridge_image_repo@,
                    trimmed(channel@),
                ) == Ok::<Seq<char>, Seq<char>>(p.image@) && p.container@ == trimmed(
                    config.whatsapp_bridge_container_name@,
                ) && p.volume@ == trimmed(config.whatsapp_bridge_data_volume@) && repository_of(
                    config.whatsapp_bridge_image_repo@,
                ) == Some(p.repository@),
            }
        },
{
    if !config.whatsapp_bridge_enabled {
        return Ok(None);
    }
    if text::is_blank(channel) {
        return Err("Channel is required".to_string());
    }
    if text::is_blank(inbound_url) || text::is_blank(inbound_token) {
        return Err("Inbound URL and token are required".to_string());
    }
    let image = match resolve_whatsapp_bridge_image_ref(
        config.whatsapp_bridge_image_repo.as_str(),
        text::trim(channel),
    ) {
        Ok(image) => image,
        Err(e) => {
            return Err(e);
        },
    };
    if text::is_blank(config.whatsapp_bridge_container_name.as_str()) || text::is_blank(
        config.whatsapp_bridge_data_volume.as_str(),
    ) {
        return Err(
            "WhatsApp bridge container name and data volume must be configured".to_string(),
        );
    }
    let repository = match image_ref::repository_from_image_ref(
        config.whatsapp_bridge_image_repo.as_str(),
    ) {
        Some(repository) => repository,
        None => {
            return Err("WhatsApp bridge image repository must not be empty".to_string());
        },
    };
    Ok(
        Some(
            BridgePlan {
                image,
                container: text::trim(config.whatsapp_bridge_container_name.as_str()).to_string(),
                volume: text::trim(config.whatsapp_bridge_data_volume.as_str()).to_string(),
                repository,
            },
        ),
    )
}

/// The arguments by which the bridge can be reached: by its name in a network,
/// else by a port of this machine.
pub open spec fn reach_args(network: Seq<char>, container: Seq<char>, port: nat) -> Seq<Seq<char>> {
    if network.len() == 0 {
        seq![
            "-p"@,
            "127.0.0.1:"@ + decimal(port) + ":3200"@,
            "--add-host"@,
            "host.docker.internal:host-gateway"@,
        ]
    } else {
        seq!["--network"@, network, "--network-alias"@, container]
    }
}

/// The command line that starts the bridge.
pub open spec fn bridge_run_line(
    image: Seq<char>,
    container: Seq<char>,
    volume: Seq<char>,
    inbound_url: Seq<char>,
    inbound_token: Seq<char>,
    outbound_auth: Seq<char>,
    network: Seq<char>,
    port: nat,
) -> Seq<Seq<char>> {
    seq![
        "run"@,
        "-d"@,
        "--restart"@,
        "unless-stopped"@,
        "--name"@,
        container,
        "-v"@,
        volume + ":/data"@,
        "-e"@,
        "SELU_INBOUND_URL="@ + trimmed(inbound_url),
        "-e"@,
        "SELU_INBOUND_TOKEN="@ + trimmed(inbound_token),
    ] + (if blank(outbound_auth) {
        Seq::empty()
    } else {
        seq!["-e"@, "BRIDGE_EXPECT_AUTH="@ + trimmed(outbound_auth)]
    }) + reach_args(network, container, port) + seq![image]
}

/// `a` followed by `b`.
fn paired(a: &str, b: &str) -> (r: String)
    ensures
        r@ == a@ + b@,
{
    let mut out = a.to_string();
    out.append(b);
    out
}

/// The command line that starts the bridge.
pub fn bridge_run_args(
    plan: &BridgePlan,
    inbound_url: &str,
    inbound_token: &str,
    outbound_auth: &str,
    network: &str,
    port: u16,
) -> (r: Vec<String>)
    ensures
        texts(r@) == bridge_run_line(
            plan.image@,
            plan.container@,
            plan.volume@,
            inbound_url@,
            inbound_token@,
            outbound_auth@,
            network@,
            port as nat,
        ),
{
    let mount = paired(plan.volume.as_str(), ":/data");
    let url = paired("SELU_INBOUND_URL=", text::trim(inbound_url));
    let token = paired("SELU_INBOUND_TOKEN=", text::trim(inbound_token));
    let mut args = strings(
        &[
            "run",
            "-d",
            "--restart",
            "unless-stopped",
            "--name",
            plan.container.as_str(),
            "-v",
            mount.as_str(),
            "-e",
            url.as_str(),
            "-e",
            token.as_str(),
        ],
    );
    let ghost head = seq![
        "run"@,
        "-d"@,
        "--restart"@,
        "unless-stopped"@,
        "--name"@,
        plan.container@,
        "-v"@,
        plan.volume@ + ":/data"@,
        "-e"@,
        "SELU_INBOUND_URL="@ + trimmed(inbound_url@),
        "-e"@,
        "SELU_INBOUND_TOKEN="@ + trimmed(inbound_token@),
    ];
    proof {
        assert(texts(args@) =~= head);
    }
    if !text::is_blank(outbound_auth) {
        args.push("-e".to_string());
        args.push(paired("BRIDGE_EXPECT_AUTH=", text::trim(outbound_auth)));
    }
    let ghost more = head + (if blank(outbound_auth@) {
        Seq::empty()
    } else {
        seq!["-e"@, "BRIDGE_EXPECT_AUTH="@ + trimmed(outbound_auth@)]
    });
    proof {
        assert(texts(args@) =~= more);
    }
    if network.is_empty() {
        let n = text::number(port as u64);
        args.push("-p".to_string());
        args.push(glued("127.0.0.1:", n.as_str(), ":3200"));
        args.push("--add-host".to_string());
        args.push("host.docker.internal:host-gateway".to_string());
    } else {
        args.push("--network".to_string());
        args.push(network.to_string());
        args.push("--network-alias".to_string());
        args.push(plan.container.clone());
    }
    proof {
        assert(texts(args@) =~= more + reach_args(network@, plan.container@, port as nat));
    }
    args.push(plan.image.clone());
    proof {
        assert(texts(args@) =~= bridge_run_line(
            plan.image@,
            plan.container@,
            plan.volume@,
            inbound_url@,
            inbound_token@,
            outbound_auth@,
            network@,
            port as nat,
        ));
    }
    args
}

/// The previous image of the bridge and its deadline once it was started: the
/// image that ran, with a new deadline, where another one runs now; else what was
/// noted before.
pub fn retained_bridge_image(
    running: &Option<ImageIdentity>,
    current: &ImageIdentity,
    noted_ref: &str,
    noted_deadline: &str,
    now: &Moment,
) -> (r: (String, String))
    requires
        now.dated(0),
        now.dated(WHATSAPP_RETENTION_DAYS as int),
    ensures
        match running {
            Some(previous) if previous.immutable_ref@ != current.immutable_ref@ => r.0@
                == previous.immutable_ref@ && r.1@ == stamp(*now, WHATSAPP_RETENTION_DAYS as int),
            _ => r.0@ == noted_ref@ && r.1@ == noted_deadline@,
        },
{
    match running {
        Some(previous) => {
            if !text::same(previous.immutable_ref.as_str(), current.immutable_ref.as_str()) {
                return (
                    previous.immutable_ref.clone(),
                    clock::stamp_after(now, WHATSAPP_RETENTION_DAYS),
                );
            }
        },
        None => {},
    }
    (noted_ref.to_string(), noted_deadline.to_string())
}

// ── Stopping it ──────────────────────────────────────────────────────────────

/// The container and the volume of the bridge; nothing where it is disabled.
pub fn stop_plan(config: &UpdaterConfig) -> (r: Result<Option<(String, String)>, String>)
    ensures
        if !config.whatsapp_bridge_enabled {
            r matches Ok(None)
        } else if blank(config.whatsapp_bridge_container_name@) {
            r is Err && r->Err_0@ == "WhatsApp bridge container name must be configured"@
        } else if blank(config.whatsapp_bridge_data_volume@) {
            r is Err && r->Err_0@ == "WhatsApp bridge data volume must be configured"@
        } else {
            r matches Ok(Some(p)) && p.0@ == trimmed(config.whatsapp_bridge_container_name@)
                && p.1@ == trimmed(config.whatsapp_bridge_data_volume@)
        },
{
    if !config.whatsapp_bridge_enabled {
        return Ok(None);
    }
    if text::is_blank(config.whatsapp_bridge_container_name.as_str()) {
        return Err("WhatsApp bridge container name must be configured".to_string());
    }
    if text::is_blank(config.whatsapp_bridge_data_volume.as_str()) {
        return Err("WhatsApp bridge data volume must be configured".to_string());
    }
    Ok(
        Some(
            (
                text::trim(config.whatsapp_bridge_container_name.as_str()).to_string(),
                text::trim(config.whatsapp_bridge_data_volume.as_str()).to_string(),
            ),
        ),
    )
}

/// Whether the data of the bridge may be cleared after its container was removed:
/// it was, or there was none.
pub fn may_clear_after_removal(removal: &Result<(), String>) -> (r: bool)
    ensures
        r == match removal {
            Ok(_) => true,
            Err(e) => occurs_in(e@, "No such container"@),
        },
{
    match removal {
        Ok(_) => true,
        Err(e) => text::contains(e.as_str(), "No such container"),
    }
}

/// Whether the removal of a volume leaves none behind: it went well, or there was
/// none.
pub fn volume_is_gone(removal: &Result<(), String>) -> (r: bool)
    ensures
        r == match removal {
            Ok(_) => true,
            Err(e) => occurs_in(e@, "No such volume"@),
        },
{
    match removal {
        Ok(_) => true,
        Err(e) => text::contains(e.as_str(), "No such volume"),
    }
}

/// Whether a source of a mount is a path of this machine, and not the name of a
/// volume.
pub fn is_bind_mount_source(source: &str) -> (r: bool)
    ensures
        r == occurs_in(trimmed(source@), "/"@),
{
    text::contains(text::trim(source), "/")
}

/// The command line that clears the data of the bridge in a directory of this machine, or
/// why there is none.
pub open spec fn clear_line(
    config: UpdaterConfig,
    helper_name: Seq<char>,
    mount_path: Seq<char>,
    channel: Seq<char>,
) -> Result<Seq<Seq<char>>, Seq<char>> {
    let c = if blank(channel) {
        "stable"@
    } else {
        trimmed(channel)
    };
    match bridge_image(config.whatsapp_bridge_image_repo@, c) {
        Err(e) => Err(e),
        Ok(image) => Ok(
            seq![
                "run"@,
                "--rm"@,
                "--name"@,
                helper_name,
                "--entrypoint"@,
                "sh"@,
                "-v"@,
                mount_path + ":/data"@,
                image,
                "-c"@,
                "rm -rf /data/auth && mkdir -p /data/auth"@,
            ],
        ),
    }
}

/// The command line that clears the data of the bridge in a directory of this machine.
pub fn clear_bind_mount_command(
    config: &UpdaterConfig,
    helper_name: &str,
    mount_path: &str,
    channel: &str,
) -> (r: Result<Vec<String>, String>)
    ensures
        match clear_line(*config, helper_name@, mount_path@, channel@) {
            Ok(line) => r is Ok && texts(r->Ok_0@) == line,
            Err(e) => r is Err && r->Err_0@ == e,
        },
{
    let channel = if text::is_blank(channel) {
        "stable"
    } else {
        text::trim(channel)
    };
    let image = match resolve_whatsapp_bridge_image_ref(
        config.whatsapp_bridge_image_repo.as_str(),
        channel,
    ) {
        Ok(image) => image,
        Err(e) => {
            return Err(e);
        },
    };
    let mount = paired(mount_path, ":/data");
    let args = strings(
        &[
            "run",
            "--rm",
            "--name",
            helper_name,
            "--entrypoint",
            "sh",
            "-v",
            mount.as_str(),
            image.as_str(),
            "-c",
            "rm -rf /data/auth && mkdir -p /data/auth",
        ],
    );
    proof {
        assert(texts(args@) =~= seq![
            "run"@,
            "--rm"@,
            "--name"@,
            helper_name@,
            "--entrypoint"@,
            "sh"@,
            "-v"@,
            mount_path@ + ":/data"@,
            image@,
            "-c"@,
            "rm -rf /data/auth && mkdir -p /data/auth"@,
        ]);
    }
    Ok(args)
}

// ── Asking it ────────────────────────────────────────────────────────────────

/// Whether the bridge runs, from what the container engine said; an error that
/// names no missing container is passed on.
pub fn bridge_is_running(inspected: Result<String, String>) -> (r: Result<bool, String>)
    ensures
        match inspected {
            Ok(v) => r == Ok::<bool, String>(trimmed(v@) == "true"@),
            Err(e) => if names_nothing(e@) {
                r == Ok::<bool, String>(false)
            } else {
                r == Err::<bool, String>(e)
            },
        },
{
    match inspected {
        Ok(v) => Ok(text::same(text::trim(v.as_str()), "true")),
        Err(e) => {
            if crate::updater::images::is_missing(e.as_str()) {
                Ok(false)
            } else {
                Err(e)
            }
        },
    }
}

/// The addresses at which the bridge may answer, in the order in which they are
/// tried.
pub fn bridge_base_urls(config: &UpdaterConfig) -> (r: Vec<String>)
    ensures
        texts(r@) == seq![
            "http://"@ + trimmed(config.whatsapp_bridge_container_name@) + ":3200"@,
            "http://127.0.0.1:"@ + decimal(config.whatsapp_bridge_port as nat),
        ],
{
    let mut out: Vec<String> = Vec::new();
    out.push(
        glued("http://", text::trim(config.whatsapp_bridge_container_name.as_str()), ":3200"),
    );
    let n = text::number(config.whatsapp_bridge_port as u64);
    out.push(paired("http://127.0.0.1:", n.as_str()));
    proof {
        assert(texts(out@) =~= seq![
            "http://"@ + trimmed(config.whatsapp_bridge_container_name@) + ":3200"@,
            "http://127.0.0.1:"@ + decimal(config.whatsapp_bridge_port as nat),
        ]);
    }
    out
}

/// What the bridge says of its session.
pub struct BridgeSessionStatus {
    pub connection_state: String,
    pub requires_qr: bool,
    pub qr_available: bool,
    pub jid: Option<String>,
    pub last_error: Option<String>,
}

/// Whether a picture to scan is to be fetched for a session.
pub fn wants_qr(session: &BridgeSessionStatus) -> (r: bool)
    ensures
        r == (session.requires_qr && session.qr_available),
{
    session.requires_qr && session.qr_available
}

/// A status without a session.
pub open spec fn plain_status(r: WhatsappBridgeStatusResponse, running: bool, message: Seq<char>) -> bool {
    &&& r.running == running
    &&& r.connection_state is None
    &&& !r.requires_qr
    &&& r.qr_data_url is None
    &&& r.jid is None
    &&& r.last_error is None
    &&& opt_text(r.message) == Some(message)
}

/// A status without a session.
pub fn status_without_session(running: bool, message: &str) -> (r: WhatsappBridgeStatusResponse)
    ensures
        plain_status(r, running, message@),
{
    WhatsappBridgeStatusResponse {
        running,
        connection_state: None,
        requires_qr: false,
        qr_data_url: None,
        jid: None,
        last_error: None,
        message: Some(message.to_string()),
    }
}

/// What is answered about the bridge before it is asked itself: that it is
/// disabled, is not configured, or does not run; nothing where it runs.
pub fn status_before_session(
    config: &UpdaterConfig,
    inspected: Result<String, String>,
) -> (r: Result<Option<WhatsappBridgeStatusResponse>, String>)
    ensures
        if !config.whatsapp_bridge_enabled {
            r matches Ok(Some(s)) && plain_status(s, false, "WhatsApp bridge is disabled"@)
        } else if blank(config.whatsapp_bridge_container_name@) {
            r is Err && r->Err_0@ == "WhatsApp bridge container name must be configured"@
        } else {
            match inspected {
                Ok(v) => if trimmed(v@) == "true"@ {
                    r matches Ok(None)
                } else {
                    r matches Ok(Some(s)) && plain_status(
                        s,
                        false,
                        "WhatsApp bridge is not running"@,
                    )
                },
                Err(e) => if names_nothing(e@) {
                    r matches Ok(Some(s)) && plain_status(
                        s,
                        false,
                        "WhatsApp bridge is not running"@,
                    )
                } else {
                    r is Err && r->Err_0@ == e@
                },
            }
        },
{
    if !config.whatsapp_bridge_enabled {
        return Ok(Some(status_without_session(false, "WhatsApp bridge is disabled")));
    }
    if text::is_blank(config.whatsapp_bridge_container_name.as_str()) {
        return Err("WhatsApp bridge container name must be configured".to_string());
    }
    match bridge_is_running(inspected) {
        Ok(true) => Ok(None),
        Ok(false) => Ok(Some(status_without_session(false, "WhatsApp bridge is not running"))),
        Err(e) => Err(e),
    }
}

/// What is answered about a running bridge: its session, where one of its
/// addresses gave one.
pub fn status_of_session(
    session: Option<BridgeSessionStatus>,
    qr_data_url: Option<String>,
) -> (r: WhatsappBridgeStatusResponse)
    ensures
        match session {
            Some(s) => {
                &&& r.running
                &&& r.connection_state == Some(s.connection_state)
                &&& r.requires_qr == s.requires_qr
                &&& r.qr_data_url == if s.requires_qr && s.qr_available {
                    qr_data_url
                } else {
                    None
                }
                &&& r.jid == s.jid
                &&& r.last_error == s.last_error
                &&& opt_text(r.message) == Some("WhatsApp bridge is running"@)
            },
            None => plain_status(
                r,
                true,
                "WhatsApp bridge is running, but session status is unavailable"@,
            ),
        },
{
    match session {
        Some(s) => {
            let shown = if wants_qr(&s) {
                qr_data_url
            } else {
                None
            };
            WhatsappBridgeStatusResponse {
                running: true,
                connection_state: Some(s.connection_state),
                requires_qr: s.requires_qr,
                qr_data_url: shown,
                jid: s.jid,
                last_error: s.last_error,
                message: Some("WhatsApp bridge is running".to_string()),
            }
        },
        None => status_without_session(
            true,
            "WhatsApp bridge is running, but session status is unavailable",
        ),
    }
}

/// The chats that the bridge gave, and the state of its connection.
pub struct BridgeChatsResponse {
    pub chats: Vec<WhatsappBridgeChat>,
    pub connection_state: String,
}

/// A list of no chats.
pub open spec fn no_chats(r: WhatsappBridgeChatsResponse, running: bool, message: Seq<char>) -> bool {
    &&& r.running == running
    &&& r.connection_state is None
    &&& r.chats@.len() == 0
    &&& opt_text(r.message) == Some(message)
}

/// A list of no chats.
pub fn chats_without_session(running: bool, message: &str) -> (r: WhatsappBridgeChatsResponse)
    ensures
        no_chats(r, running, message@),
{
    WhatsappBridgeChatsResponse {
        running,
        connection_state: None,
        chats: Vec::new(),
        message: Some(message.to_string()),
    }
}

/// What is answered about chats before the bridge is asked itself.
pub fn chats_before_session(
    config: &UpdaterConfig,
    inspected: Result<String, String>,
) -> (r: Result<Option<WhatsappBridgeChatsResponse>, String>)
    ensures
        if !config.whatsapp_bridge_enabled {
            r matches Ok(Some(s)) && no_chats(s, false, "WhatsApp bridge is disabled"@)
        } else if blank(config.whatsapp_bridge_container_name@) {
            r is Err && r->Err_0@ == "WhatsApp bridge container name must be configured"@
        } else {
            match inspected {
                Ok(v) => if trimmed(v@) == "true"@ {
                    r matches Ok(None)
                } else {
                    r matches Ok(Some(s)) && no_chats(s, false, "WhatsApp bridge is not running"@)
                },
                Err(e) => if names_nothing(e@) {
                    r matches Ok(Some(s)) && no_chats(s, false, "WhatsApp bridge is not running"@)
                } else {
                    r is Err && r->Err_0@ == e@
                },
            }
        },
{
    if !config.whatsapp_bridge_enabled {
        return Ok(Some(chats_without_session(false, "WhatsApp bridge is disabled")));
    }
    if text::is_blank(config.whatsapp_bridge_container_name.as_str()) {
        return Err("WhatsApp bridge container name must be configured".to_string());
    }
    match bridge_is_running(inspected) {
        Ok(true) => Ok(None),
        Ok(false) => Ok(Some(chats_without_session(false, "WhatsApp bridge is not running"))),
        Err(e) => Err(e),
    }
}

/// What is answered about the chats of a running bridge.
pub fn chats_of_session(found: Option<BridgeChatsResponse>) -> (r: WhatsappBridgeChatsResponse)
    ensures
        match found {
            Some(c) => {
                &&& r.running
                &&& r.connection_state == Some(c.connection_state)
                &&& r.chats == c.chats
                &&& opt_text(r.message) == Some("WhatsApp chats loaded"@)
            },
            None => no_chats(r, true, "WhatsApp bridge is running, but chats are unavailable"@),
        },
{
    match found {
        Some(c) => WhatsappBridgeChatsResponse {
            running: true,
            connection_state: Some(c.connection_state),
            chats: c.chats,
            message: Some("WhatsApp chats loaded".to_string()),
        },
        None => chats_without_session(
            true,
            "WhatsApp bridge is running, but chats are unavailable",
        ),
    }
}

// ── Laws ─────────────────────────────────────────────────────────────────────

/// Whether a command line gives an option with a value.
pub open spec fn gives(line: Seq<Seq<char>>, option: Seq<char>, value: Seq<char>) -> bool {
    exists|i: int|
        0 <= i < line.len() - 1 && #[trigger] line[i] == option && line[i + 1] == value
}

/// The bridge is run from exactly the image of its plan, under the container's name of its plan
/// and over its volume, and is told where messages go and with which token. It is told which
/// authorization to expect exactly where one is given. In a network it is reached by its name,
/// and without one at its port of this machine.
pub proof fn law_bridge_runs_with_what_it_was_given(
    plan: BridgePlan,
    inbound_url: &str,
    inbound_token: &str,
    outbound_auth: &str,
    network: &str,
    port: u16,
    r: Vec<String>,
)
    requires
        call_ensures(
            bridge_run_args,
            (&plan, inbound_url, inbound_token, outbound_auth, network, port),
            r,
        ),
    ensures
        ({
            let line = texts(r@);
            &&& line[0] == "run"@ && line[1] == "-d"@
            &&& line.last() == plan.image@
            &&& gives(line, "--restart"@, "unless-stopped"@)
            &&& gives(line, "--name"@, plan.container@)
            &&& gives(line, "-v"@, plan.volume@ + ":/data"@)
            &&& gives(line, "-e"@, "SELU_INBOUND_URL="@ + trimmed(inbound_url@))
            &&& gives(line, "-e"@, "SELU_INBOUND_TOKEN="@ + trimmed(inbound_token@))
            &&& trimmed(outbound_auth@).len() > 0 ==> gives(
                line,
                "-e"@,
                "BRIDGE_EXPECT_AUTH="@ + trimmed(outbound_auth@),
            )
            &&& network@.len() > 0 ==> gives(line, "--network"@, network@) && gives(
                line,
                "--network-alias"@,
                plan.container@,
            )
            &&& network@.len() == 0 ==> gives(
                line,
                "-p"@,
                "127.0.0.1:"@ + decimal(port as nat) + ":3200"@,
            ) && gives(line, "--add-host"@, "host.docker.internal:host-gateway"@)
            &&& line.len() == 17 + (if trimmed(outbound_auth@).len() > 0 {
                2int
            } else {
                0int
            })
        }),
{
    text::lemma_blank(outbound_auth@);
    let line = texts(r@);
    let i: int = if blank(outbound_auth@) {
        12
    } else {
        14
    };
    assert(line[2] == "--restart"@ && line[3] == "unless-stopped"@);
    assert(line[4] == "--name"@ && line[5] == plan.container@);
    assert(line[6] == "-v"@ && line[7] == plan.volume@ + ":/data"@);
    assert(line[8] == "-e"@ && line[9] == "SELU_INBOUND_URL="@ + trimmed(inbound_url@));
    assert(line[10] == "-e"@ && line[11] == "SELU_INBOUND_TOKEN="@ + trimmed(inbound_token@));
    if !blank(outbound_auth@) {
        assert(line[12] == "-e"@ && line[13] == "BRIDGE_EXPECT_AUTH="@ + trimmed(outbound_auth@));
    }
    if network@.len() > 0 {
        assert(line[i] == "--network"@ && line[i + 1] == network@);
        assert(line[i + 2] == "--network-alias"@ && line[i + 3] == plan.container@);
    } else {
        assert(line[i] == "-p"@ && line[i + 1] == "127.0.0.1:"@ + decimal(port as nat)
            + ":3200"@);
        assert(line[i + 2] == "--add-host"@ && line[i + 3] == "host.docker.internal:host-gateway"@);
    }
}

/// The image of the bridge is the configured one where that names a tag or a digest, whatever the
/// channel; else it is the configured repository at the tag of the channel. A channel that cannot
/// be a tag is refused.
pub proof fn law_bridge_image_is_the_configured_one(
    repo: &str,
    channel: &str,
    r: Result<String, String>,
)
    requires
        call_ensures(resolve_whatsapp_bridge_image_ref, (repo, channel), r),
    ensures
        r is Ok <==> trimmed(repo@).len() > 0 && taggable(channel@),
        r matches Ok(image) ==> {
            let pinned = occurs_in(trimmed(repo@), "@"@) || has_tag(trimmed(repo@));
            (pinned ==> image@ == trimmed(repo@)) && (!pinned ==> image@ == trimmed(repo@) + ":"@
                + channel@)
        },
{
    text::lemma_blank(repo@);
}

/// A plan for the bridge is made from the configuration alone: its container and its volume are
/// the configured ones, and its image is of the configured repository. There is none while the
/// bridge is disabled, whatever is asked for.
pub proof fn law_bridge_plan_is_the_configured_one(
    config: UpdaterConfig,
    channel: &str,
    inbound_url: &str,
    inbound_token: &str,
    r: Result<Option<BridgePlan>, String>,
)
    requires
        call_ensures(bridge_plan, (&config, channel, inbound_url, inbound_token), r),
    ensures
        !config.whatsapp_bridge_enabled <==> r == Ok::<Option<BridgePlan>, String>(None),
        r matches Ok(Some(p)) ==> {
            &&& p.container@ == trimmed(config.whatsapp_bridge_container_name@)
            &&& p.volume@ == trimmed(config.whatsapp_bridge_data_volume@)
            &&& Some(p.repository@) == repository_of(config.whatsapp_bridge_image_repo@)
            &&& bridge_image(config.whatsapp_bridge_image_repo@, trimmed(channel@)) == Ok::<
                Seq<char>,
                Seq<char>,
            >(p.image@)
            &&& trimmed(channel@).len() > 0
            &&& trimmed(inbound_url@).len() > 0
            &&& trimmed(inbound_token@).len() > 0
            &&& p.container@.len() > 0
            &&& p.volume@.len() > 0
        },
{
    text::lemma_blank(channel@);
    text::lemma_blank(inbound_url@);
    text::lemma_blank(inbound_token@);
    text::lemma_blank(config.whatsapp_bridge_container_name@);
    text::lemma_blank(config.whatsapp_bridge_data_volume@);
}

/// Of two images that ran one after the other the former is kept for fourteen days; while the
/// same one runs on, what was noted stays.
pub proof fn law_former_bridge_is_kept(
    running: Option<ImageIdentity>,
    current: ImageIdentity,
    noted_ref: &str,
    noted_deadline: &str,
    now: Moment,
    r: (String, String),
)
    requires
        call_ensures(
            retained_bridge_image,
            (&running, &current, noted_ref, noted_deadline, &now),
            r,
        ),
    ensures
        running is Some && running->0.immutable_ref@ != current.immutable_ref@ ==> r.0@
            == running->0.immutable_ref@ && r.1@ == clock::rfc3339_of(
            (now.secs + 14 * 86_400) as i64,
            now.nanos,
        ),
        running is None || running->0.immutable_ref@ == current.immutable_ref@ ==> r.0@
            == noted_ref@ && r.1@ == noted_deadline@,
{
}

/// A directory is cleared by a helper of the bridge's own image, which sees that directory alone
/// and clears only what the bridge knows of a phone in it.
pub proof fn law_only_the_mount_is_cleared(
    config: UpdaterConfig,
    helper_name: &str,
    mount_path: &str,
    channel: &str,
    r: Result<Vec<String>, String>,
)
    requires
        call_ensures(clear_bind_mount_command, (&config, helper_name, mount_path, channel), r),
    ensures
        r matches Ok(line) ==> {
            let l = texts(line@);
            &&& l[0] == "run"@ && l[1] == "--rm"@
            &&& gives(l, "--name"@, helper_name@)
            &&& gives(l, "-v"@, mount_path@ + ":/data"@)
            &&& gives(l, "--entrypoint"@, "sh"@)
            &&& gives(l, "-c"@, "rm -rf /data/auth && mkdir -p /data/auth"@)
            &&& l.len() == 11
            &&& bridge_image(
                config.whatsapp_bridge_image_repo@,
                if trimmed(channel@).len() == 0 {
                    "stable"@
                } else {
                    trimmed(channel@)
                },
            ) == Ok::<Seq<char>, Seq<char>>(l[8])
        },
{
    text::lemma_blank(channel@);
    if r is Ok {
        let l = texts(r->Ok_0@);
        assert(l[2] == "--name"@ && l[3] == helper_name@);
        assert(l[6] == "-v"@ && l[7] == mount_path@ + ":/data"@);
        assert(l[4] == "--entrypoint"@ && l[5] == "sh"@);
        assert(l[9] == "-c"@ && l[10] == "rm -rf /data/auth && mkdir -p /data/auth"@);
    }
}

/// Nothing is told of a session of a bridge that does not run: the answer is ready before the
/// bridge is asked, exactly unless the container engine said that it runs.
pub proof fn law_stopped_bridge_has_no_session(
    config: UpdaterConfig,
    inspected: Result<String, String>,
    r: Result<Option<WhatsappBridgeStatusResponse>, String>,
    s: Result<Option<WhatsappBridgeChatsResponse>, String>,
)
    requires
        call_ensures(status_before_session, (&config, inspected), r),
        call_ensures(chats_before_session, (&config, inspected), s),
        config.whatsapp_bridge_enabled,
        trimmed(config.whatsapp_bridge_container_name@).len() > 0,
    ensures
        r == Ok::<Option<WhatsappBridgeStatusResponse>, String>(None) <==> inspected is Ok
            && trimmed(inspected->Ok_0@) == "true"@,
        s == Ok::<Option<WhatsappBridgeChatsResponse>, String>(None) <==> inspected is Ok
            && trimmed(inspected->Ok_0@) == "true"@,
        r matches Ok(Some(a)) ==> !a.running && a.jid is None && a.qr_data_url is None,
        s matches Ok(Some(a)) ==> !a.running && a.chats@.len() == 0,
{
    text::lemma_blank(config.whatsapp_bridge_container_name@);
}

/// The session of a running bridge is told as it is, and the picture to scan only while it is
/// needed and there is one.
pub proof fn law_session_is_told_as_it_is(
    session: BridgeSessionStatus,
    qr: Option<String>,
    r: WhatsappBridgeStatusResponse,
)
    requires
        call_ensures(status_of_session, (Some(session), qr), r),
    ensures
        r.running,
        r.connection_state is Some && r.connection_state->0@ == session.connection_state@,
        r.requires_qr == session.requires_qr,
        r.qr_data_url is Some <==> session.requires_qr && session.qr_available && qr is Some,
        r.qr_data_url is Some ==> r.qr_data_url == qr,
        r.jid == session.jid,
        r.last_error == session.last_error,
{
}

/// An image that names where it is kept is pulled: one with a digest, or with a registry ahead of its
/// first slash, that is with a host that has a dot or a port in it or is the own machine.
pub proof fn law_images_of_a_registry_are_pulled(
    image: &str,
    host: Seq<char>,
    rest: Seq<char>,
    r: bool,
)
    requires
        call_ensures(should_pull_whatsapp_bridge_image, (image,), r),
        trimmed(image@) == host + "/"@ + rest,
        forall|i: int| 0 <= i < host.len() ==> #[trigger] host[i] != '/',
    ensures
        r <==> occurs_in(trimmed(image@), "@"@) || occurs_in(host, "."@) || occurs_in(host, ":"@)
            || lowered(host) == "localhost"@,
{
    reveal_strlit("/");
    let i = trimmed(image@);
    let n = host.len() as int;
    assert(i.subrange(n, n + 1) =~= "/"@);
    assert(text::occurs(i, "/"@, n));
    assert forall|j: int| 0 <= j < n implies !text::occurs(i, "/"@, j) by {
        if text::occurs(i, "/"@, j) {
            assert(i.subrange(j, j + 1)[0] == i[j]);
            assert(i[j] == host[j]);
        }
    }
    text::lemma_find_at(i, "/"@, 0, n);
    assert(i.subrange(0, n) =~= host);
    assert(occurs_in(i, "/"@));
    text::lemma_blank(image@);
}

/// A bridge that cannot be found does not run; any other failure is told as it is.
pub proof fn law_missing_bridge_does_not_run(inspected: Result<String, String>, r: Result<bool, String>)
    requires
        call_ensures(bridge_is_running, (inspected,), r),
    ensures
        inspected matches Ok(v) ==> (r matches Ok(b) && (b <==> trimmed(v@) == "true"@)),
        inspected matches Err(e) ==> if occurs_in(e@, "No such object"@) || occurs_in(
            e@,
            "No such container"@,
        ) {
            r == Ok::<bool, String>(false)
        } else {
            r == Err::<bool, String>(e)
        },
{
}

/// Without a session nothing of one is told but whether the bridge runs, and why.
pub proof fn law_no_session_no_chats(
    running: bool,
    message: &str,
    status: WhatsappBridgeStatusResponse,
    chats: WhatsappBridgeChatsResponse,
)
    requires
        call_ensures(status_without_session, (running, message), status),
        call_ensures(chats_without_session, (running, message), chats),
    ensures
        status.running == running && chats.running == running,
        status.connection_state is None && chats.connection_state is None,
        !status.requires_qr && status.qr_data_url is None && status.jid is None
            && status.last_error is None,
        chats.chats@.len() == 0,
        opt_text(status.message) == Some(message@) && opt_text(chats.message) == Some(message@),
{
}

/// The chats of a session are the ones that were found, with how it is connected.
pub proof fn law_chats_are_the_found_ones(
    found: Option<BridgeChatsResponse>,
    r: WhatsappBridgeChatsResponse,
)
    requires
        call_ensures(chats_of_session, (found,), r),
    ensures
        r.running,
        found matches Some(c) ==> r.chats@ == c.chats@ && opt_text(r.connection_state) == Some(
            c.connection_state@,
        ),
        found is None ==> r.chats@.len() == 0 && r.connection_state is None,
        r.message is Some,
{
}

} // verus!
