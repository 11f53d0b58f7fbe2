//! The pipe to WhatsApp, through a bridge that the update service runs.
use vstd::prelude::*;
use vstd::string::*;
use crate::text;
use crate::text::{blank, decimal, lowered, occurs_in, opt_str, opt_text, trimmed, trimmed_end_of};
use crate::updater::types::{
    AckResponse, EnsureWhatsappBridgeRequest, WhatsappBridgeChat, WhatsappBridgeChatsResponse,
    WhatsappBridgeStatusResponse,
};
use crate::web::config::AppConfig;
use crate::web::people;
use crate::web::people::{
    adds_person, Added, AddPersonForm, AllowedPerson, FlashQuery, NewPerson, PipePage, UserOption,
};
use crate::web::pipes::NewPipe;
use crate::web::response;
use crate::web::response::{Sent, Verdict, WebAnswer};
use crate::web::url;
use crate::web::url::percent_encoded;

verus! {

pub const DEFAULT_BRIDGE_OUTBOUND_URL_DOCKER: &'static str = "http://selu-whatsapp-bridge:3200/webhooks/selu/outbound";

pub const DEFAULT_BRIDGE_OUTBOUND_URL_LOCAL: &'static str = "http://127.0.0.1:3200/webhooks/selu/outbound";

pub const DEFAULT_SELU_INBOUND_ORIGIN_DOCKER: &'static str = "http://selu";

pub const DEFAULT_SELU_INBOUND_ORIGIN_LOCAL: &'static str = "http://host.docker.internal";

// ── Types ────────────────────────────────────────────────────────────────────

#[derive(Debug, Clone)]
pub struct WhatsappDetail {
    pub config_id: String,
    pub name: String,
    pub bridge_url: String,
    pub active: bool,
    pub pipe_id: String,
    pub agent_name: String,
    pub inbound_token: String,
}

#[derive(Debug, Clone)]
pub struct BridgeStatusView {
    pub running: bool,
    pub connection_state: Option<String>,
    pub connection_state_key: Option<String>,
    pub requires_qr: bool,
    pub qr_data_url: Option<String>,
    pub jid: Option<String>,
    pub last_error: Option<String>,
    pub message: Option<String>,
    pub message_key: Option<String>,
}

#[derive(Debug)]
pub struct WhatsappSetupForm {
    pub name: String,
    pub outbound_auth: Option<String>,
    /// Pairs of a sender and a user, with a colon between the two and commas
    /// between the pairs.
    pub people: Option<String>,
}

#[derive(Debug)]
pub struct ChatsSearchQuery {
    pub q: Option<String>,
}

#[derive(Debug)]
pub struct ChatOption {
    pub sender_ref: String,
    pub label: String,
}

#[derive(Debug)]
pub struct ChatSearchResponse {
    pub ok: bool,
    pub running: bool,
    pub connection_state: Option<String>,
    pub message: Option<String>,
    pub chats: Vec<ChatOption>,
}

/// A pipe as stored.
pub fn load_whatsapp_config(
    id: Option<String>,
    name: String,
    bridge_url: String,
    active: i64,
    pipe_id: String,
    agent_name: String,
    inbound_token: String,
) -> (r: WhatsappDetail)
    ensures
        r.config_id@ == match opt_text(id) {
            Some(i) => i,
            None => Seq::<char>::empty(),
        },
        r.name == name,
        r.bridge_url == bridge_url,
        r.active == (active != 0),
        r.pipe_id == pipe_id,
        r.agent_name == agent_name,
        r.inbound_token == inbound_token,
{
    WhatsappDetail {
        config_id: match id {
            Some(i) => i,
            None => String::new(),
        },
        name,
        bridge_url,
        active: active != 0,
        pipe_id,
        agent_name,
        inbound_token,
    }
}

// ── Addresses ────────────────────────────────────────────────────────────────

/// Whether an address is one of this machine.
pub open spec fn is_local(address: Seq<char>) -> bool {
    occurs_in(lowered(address), "localhost"@) || occurs_in(lowered(address), "127.0.0.1"@)
}

/// Whether an address is one of this machine.
fn names_this_machine(address: &str) -> (r: bool)
    ensures
        r == is_local(address@),
{
    let a = text::to_lower(address);
    text::contains(a.as_str(), "localhost") || text::contains(a.as_str(), "127.0.0.1")
}

/// The address that messages are sent to the bridge at.
pub fn managed_bridge_outbound_url(config: &AppConfig) -> (r: String)
    ensures
        r@ == if is_local(config.updater_url@) {
            DEFAULT_BRIDGE_OUTBOUND_URL_LOCAL@
        } else {
            DEFAULT_BRIDGE_OUTBOUND_URL_DOCKER@
        },
{
    if names_this_machine(config.updater_url.as_str()) {
        DEFAULT_BRIDGE_OUTBOUND_URL_LOCAL.to_string()
    } else {
        DEFAULT_BRIDGE_OUTBOUND_URL_DOCKER.to_string()
    }
}

/// The origin that the bridge reaches the assistant at: the public one where it is
/// not one of this machine, else the one inside the containers' network, or of the
/// host where the updater runs on this machine.
pub open spec fn inbound_origin(config: AppConfig, public_base_url: Seq<char>) -> Seq<char> {
    if !blank(public_base_url) && !is_local(trimmed(public_base_url)) {
        trimmed_end_of(trimmed(public_base_url), '/')
    } else {
        (if is_local(config.updater_url@) {
            DEFAULT_SELU_INBOUND_ORIGIN_LOCAL@
        } else {
            DEFAULT_SELU_INBOUND_ORIGIN_DOCKER@
        }) + ":"@ + decimal(config.server.port as nat) + config.prefix()
    }
}

/// The origin that the bridge reaches the assistant at.
pub fn managed_bridge_inbound_origin(config: &AppConfig, public_base_url: &str) -> (r: String)
    ensures
        r@ == inbound_origin(*config, public_base_url@),
{
    if !text::is_blank(public_base_url) {
        let external = text::trim(public_base_url);
        if !names_this_machine(external) {
            return text::trim_end_of(external, '/').to_string();
        }
    }
    let mut origin = if names_this_machine(config.updater_url.as_str()) {
        DEFAULT_SELU_INBOUND_ORIGIN_LOCAL.to_string()
    } else {
        DEFAULT_SELU_INBOUND_ORIGIN_DOCKER.to_string()
    };
    let port = text::number(config.server.port as u64);
    origin.append(":");
    origin.append(port.as_str());
    origin.append(config.base_path());
    origin
}

/// The address that the bridge hands messages in at.
pub open spec fn inbound_url(config: AppConfig, public_base_url: Seq<char>, pipe_id: Seq<char>) -> Seq<
    char,
> {
    inbound_origin(config, public_base_url) + "/api/pipes/"@ + pipe_id + "/inbound"@
}

/// The address that the bridge hands messages in at.
pub fn managed_bridge_inbound_url(config: &AppConfig, public_base_url: &str, pipe_id: &str) -> (r:
    String)
    ensures
        r@ == inbound_url(*config, public_base_url@, pipe_id@),
{
    let mut url = managed_bridge_inbound_origin(config, public_base_url);
    url.append("/api/pipes/");
    url.append(pipe_id);
    url.append("/inbound");
    url
}

// ── Keys ─────────────────────────────────────────────────────────────────────

/// The key of a message about the bridge.
pub open spec fn message_key(message: Seq<char>) -> Option<Seq<char>> {
    if message == "WhatsApp bridge is disabled"@ {
        Some("wa.status.bridge_disabled"@)
    } else if message == "WhatsApp bridge is not running"@ {
        Some("wa.status.bridge_not_running"@)
    } else if message == "WhatsApp bridge is running"@ {
        Some("wa.status.bridge_running"@)
    } else if message == "WhatsApp bridge is running, but session status is unavailable"@ {
        Some("wa.status.bridge_running_session_unavailable"@)
    } else if message == "WhatsApp chats loaded"@ {
        Some("wa.status.chats_loaded"@)
    } else if message == "WhatsApp bridge is running, but chats are unavailable"@ {
        Some("wa.status.bridge_running_chats_unavailable"@)
    } else {
        None
    }
}

/// The key of a message about the bridge.
pub fn whatsapp_bridge_message_key(message: &str) -> (r: Option<&'static str>)
    ensures
        opt_str(r) == message_key(message@),
{
    if text::same(message, "WhatsApp bridge is disabled") {
        Some("wa.status.bridge_disabled")
    } else if text::same(message, "WhatsApp bridge is not running") {
        Some("wa.status.bridge_not_running")
    } else if text::same(message, "WhatsApp bridge is running") {
        Some("wa.status.bridge_running")
    } else if text::same(
        message,
        "WhatsApp bridge is running, but session status is unavailable",
    ) {
        Some("wa.status.bridge_running_session_unavailable")
    } else if text::same(message, "WhatsApp chats loaded") {
        Some("wa.status.chats_loaded")
    } else if text::same(message, "WhatsApp bridge is running, but chats are unavailable") {
        Some("wa.status.bridge_running_chats_unavailable")
    } else {
        None
    }
}

/// The key of the state of a connection.
pub open spec fn connection_key(state: Seq<char>) -> Option<Seq<char>> {
    let s = lowered(trimmed(state));
    if s == "open"@ {
        Some("wa.connection.open"@)
    } else if s == "connected"@ {
        Some("wa.connection.connected"@)
    } else if s == "connecting"@ {
        Some("wa.connection.connecting"@)
    } else if s == "close"@ || s == "closed"@ {
        Some("wa.connection.closed"@)
    } else if s == "disconnected"@ {
        Some("wa.connection.disconnected"@)
    } else if s == "qr"@ || s == "scan"@ {
        Some("wa.connection.qr"@)
    } else if s == "pairing"@ {
        Some("wa.connection.pairing"@)
    } else {
        None
    }
}

/// The key of the state of a connection.
pub fn whatsapp_connection_state_key(state: &str) -> (r: Option<&'static str>)
    ensures
        opt_str(r) == connection_key(state@),
{
    let small = text::to_lower(text::trim(state));
    let s = small.as_str();
    if text::same(s, "open") {
        Some("wa.connection.open")
    } else if text::same(s, "connected") {
        Some("wa.connection.connected")
    } else if text::same(s, "connecting") {
        Some("wa.connection.connecting")
    } else if text::same(s, "close") || text::same(s, "closed") {
        Some("wa.connection.closed")
    } else if text::same(s, "disconnected") {
        Some("wa.connection.disconnected")
    } else if text::same(s, "qr") || text::same(s, "scan") {
        Some("wa.connection.qr")
    } else if text::same(s, "pairing") {
        Some("wa.connection.pairing")
    } else {
        None
    }
}

/// A text of the program as a string of its own.
fn owned(o: Option<&'static str>) -> (r: Option<String>)
    ensures
        opt_text(r) == opt_str(o),
{
    match o {
        Some(s) => Some(s.to_string()),
        None => None,
    }
}

/// What is shown of the bridge.
pub fn load_bridge_status(status: WhatsappBridgeStatusResponse) -> (r: BridgeStatusView)
    ensures
        r.running == status.running,
        r.connection_state == status.connection_state,
        opt_text(r.connection_state_key) == match opt_text(status.connection_state) {
            Some(s) => connection_key(s),
            None => None,
        },
        r.requires_qr == status.requires_qr,
        r.qr_data_url == status.qr_data_url,
        r.jid == status.jid,
        r.last_error == status.last_error,
        r.message == status.message,
        opt_text(r.message_key) == match opt_text(status.message) {
            Some(m) => message_key(m),
            None => None,
        },
{
    let state_key = match &status.connection_state {
        Some(s) => owned(whatsapp_connection_state_key(s.as_str())),
        None => None,
    };
    let text_key = match &status.message {
        Some(m) => owned(whatsapp_bridge_message_key(m.as_str())),
        None => None,
    };
    BridgeStatusView {
        running: status.running,
        connection_state_key: state_key,
        connection_state: status.connection_state,
        requires_qr: status.requires_qr,
        qr_data_url: status.qr_data_url,
        jid: status.jid,
        last_error: status.last_error,
        message_key: text_key,
        message: status.message,
    }
}

// ── Searching chats ──────────────────────────────────────────────────────────

/// The sender and the label of each chat that the bridge gave.
pub open spec fn bridge_chat_pairs(v: Seq<WhatsappBridgeChat>) -> Seq<(Seq<char>, Seq<char>)> {
    v.map_values(|c: WhatsappBridgeChat| (c.sender_ref@, c.label@))
}

/// The sender and the label of each chat that can be chosen.
pub open spec fn option_pairs(v: Seq<ChatOption>) -> Seq<(Seq<char>, Seq<char>)> {
    v.map_values(|c: ChatOption| (c.sender_ref@, c.label@))
}

/// The chats of the bridge as they can be chosen.
pub fn map_chat_search_response(resp: WhatsappBridgeChatsResponse) -> (r: ChatSearchResponse)
    ensures
        r.ok,
        r.running == resp.running,
        r.connection_state == resp.connection_state,
        r.message == resp.message,
        option_pairs(r.chats@) == bridge_chat_pairs(resp.chats@),
{
    let mut chats: Vec<ChatOption> = Vec::new();
    let ghost want = bridge_chat_pairs(resp.chats@);
    let mut i: usize = 0;
    proof {
        assert(option_pairs(chats@) =~= want.take(0));
    }
    while i < resp.chats.len()
        invariant
            i <= resp.chats@.len(),
            want == bridge_chat_pairs(resp.chats@),
            option_pairs(chats@) == want.take(i as int),
        decreases resp.chats@.len() - i,
    {
        let ghost before = option_pairs(chats@);
        chats.push(
            ChatOption {
                sender_ref: resp.chats[i].sender_ref.clone(),
                label: resp.chats[i].label.clone(),
            },
        );
        proof {
            assert(option_pairs(chats@) =~= before.push(want[i as int]));
            assert(want.take(i + 1) =~= want.take(i as int).push(want[i as int]));
        }
        i += 1;
    }
    proof {
        assert(want.take(i as int) =~= want);
    }
    ChatSearchResponse {
        ok: true,
        running: resp.running,
        connection_state: resp.connection_state,
        message: resp.message,
        chats,
    }
}

/// Why chats could not be searched.
#[derive(Debug, Clone, Copy, PartialEq, Eq, Structural)]
pub enum SearchFailure {
    NoService,
    NoAnswer,
}

/// What an administrator searches chats for; every one of them where nothing is said.
pub fn searched_for(is_admin: bool, query: ChatsSearchQuery) -> (r: Verdict<String>)
    ensures
        if is_admin {
            r matches Verdict::Proceed(q) && q@ == match opt_text(query.q) {
                Some(words) => words,
                None => Seq::<char>::empty(),
            }
        } else {
            r.answers(Sent::Status(403))
        },
{
    if !is_admin {
        return Verdict::Answer(WebAnswer::Status(response::FORBIDDEN));
    }
    match query.q {
        Some(words) => Verdict::Proceed(words),
        None => Verdict::Proceed(String::new()),
    }
}

/// The answer to a search for chats.
pub fn whatsapp_search_chats(
    is_admin: bool,
    found: Result<WhatsappBridgeChatsResponse, SearchFailure>,
) -> (r: Verdict<ChatSearchResponse>)
    ensures
        match r {
            Verdict::Answer(a) => !is_admin && a@ == Sent::Status(403),
            Verdict::Proceed(p) => is_admin && match found {
                Ok(resp) => p.ok && p.running == resp.running && p.connection_state
                    == resp.connection_state && p.message == resp.message && option_pairs(p.chats@)
                    == bridge_chat_pairs(resp.chats@),
                Err(f) => !p.ok && !p.running && p.connection_state is None && p.chats@.len() == 0
                    && opt_text(p.message) == Some(
                    match f {
                        SearchFailure::NoService => "Could not reach updates service"@,
                        SearchFailure::NoAnswer => "Could not load chats right now"@,
                    },
                ),
            },
        },
{
    if !is_admin {
        return Verdict::Answer(WebAnswer::Status(response::FORBIDDEN));
    }
    match found {
        Ok(resp) => Verdict::Proceed(map_chat_search_response(resp)),
        Err(f) => Verdict::Proceed(
            ChatSearchResponse {
                ok: false,
                running: false,
                connection_state: None,
                message: Some(
                    match f {
                        SearchFailure::NoService => "Could not reach updates service".to_string(),
                        SearchFailure::NoAnswer => "Could not load chats right now".to_string(),
                    },
                ),
                chats: Vec::new(),
            },
        ),
    }
}

// ── Setting a pipe up ────────────────────────────────────────────────────────

/// A pipe to create, once the bridge runs.
pub struct WhatsappPipe {
    pub pipe: NewPipe,
    pub name: String,
    pub bridge_url: String,
    pub people: Vec<(String, String)>,
}

/// The pipe that a form asks for. `already` is whether there is one, and
/// `first_user` the first user that there is.
pub fn whatsapp_setup_submit(
    is_admin: bool,
    base_path: &str,
    form: &WhatsappSetupForm,
    config: &AppConfig,
    already: bool,
    first_user: Option<String>,
) -> (r: Verdict<WhatsappPipe>)
    ensures
        ({
            let owner = match opt_text(form.people) {
                Some(list) => match people::first_owner(text::pieces(list, ',')) {
                    Some(u) => Some(u),
                    None => opt_text(first_user),
                },
                None => opt_text(first_user),
            };
            if !is_admin {
                r.answers(Sent::Status(response::FORBIDDEN))
            } else if blank(form.name@) {
                r.answers(
                    Sent::Redirect(
                        base_path@
                            + "/pipes/whatsapp/setup?error=Please+fill+in+all+required+fields"@,
                    ),
                )
            } else if already {
                r.answers(
                    Sent::Redirect(
                        base_path@
                            + "/pipes/whatsapp/setup?error=WhatsApp+is+already+set+up.+Remove+the+existing+WhatsApp+pipe+first."@,
                    ),
                )
            } else {
                match owner {
                    None => r.answers(
                        Sent::Redirect(
                            base_path@
                                + "/pipes/whatsapp/setup?error=You+need+at+least+one+user.+Create+one+in+Users+first."@,
                        ),
                    ),
                    Some(u) => r matches Verdict::Proceed(p) && p.pipe.is_stored(
                        u,
                        "WhatsApp: "@ + trimmed(form.name@),
                        "webhook"@,
                        p.bridge_url@,
                        match opt_text(form.outbound_auth) {
                            Some(a) if !blank(a) => Some(a),
                            _ => None,
                        },
                    ) && p.name@ == trimmed(form.name@) && p.bridge_url@ == (if is_local(
                        config.updater_url@,
                    ) {
                        DEFAULT_BRIDGE_OUTBOUND_URL_LOCAL@
                    } else {
                        DEFAULT_BRIDGE_OUTBOUND_URL_DOCKER@
                    }) && people::pair_views(p.people@) == match opt_text(form.people) {
                        Some(list) => people::people_in(text::pieces(list, ',')),
                        None => Seq::empty(),
                    },
                }
            }
        }),
{
    if !is_admin {
        return Verdict::Answer(WebAnswer::Status(response::FORBIDDEN));
    }
    if text::is_blank(form.name.as_str()) {
        return Verdict::Answer(
            response::redirect(
                base_path,
                "/pipes/whatsapp/setup?error=Please+fill+in+all+required+fields",
            ),
        );
    }
    if already {
        return Verdict::Answer(
            response::redirect(
                base_path,
                "/pipes/whatsapp/setup?error=WhatsApp+is+already+set+up.+Remove+the+existing+WhatsApp+pipe+first.",
            ),
        );
    }
    let list = match &form.people {
        Some(p) => Some(p.as_str()),
        None => None,
    };
    let owner = match people::find_pipe_owner(list, first_user) {
        Some(u) => u,
        None => {
            return Verdict::Answer(
                response::redirect(
                    base_path,
                    "/pipes/whatsapp/setup?error=You+need+at+least+one+user.+Create+one+in+Users+first.",
                ),
            );
        },
    };
    let outbound_auth = match &form.outbound_auth {
        Some(a) => if text::is_blank(a.as_str()) {
            None
        } else {
            Some(a.clone())
        },
        None => None,
    };
    let name = text::trim(form.name.as_str()).to_string();
    let mut pipe_name = "WhatsApp: ".to_string();
    pipe_name.append(name.as_str());
    let bridge_url = managed_bridge_outbound_url(config);
    Verdict::Proceed(
        WhatsappPipe {
            pipe: NewPipe {
                user_id: owner,
                name: pipe_name,
                transport: "webhook",
                outbound_url: bridge_url.clone(),
                outbound_auth,
                default_agent_id: None,
            },
            name,
            bridge_url,
            people: people::sender_mappings(list),
        },
    )
}

/// What the update service is asked to start the bridge with.
pub fn ensure_request(
    request_id: &str,
    channel: Option<&str>,
    config: &AppConfig,
    public_base_url: &str,
    pipe_id: &str,
    inbound_token: &str,
    outbound_auth: &Option<String>,
) -> (r: EnsureWhatsappBridgeRequest)
    ensures
        r.request_id@ == request_id@,
        r.channel@ == match opt_str(channel) {
            Some(c) => c,
            None => "stable"@,
        },
        r.inbound_url@ == inbound_url(*config, public_base_url@, pipe_id@),
        r.inbound_token@ == inbound_token@,
        r.outbound_auth@ == match opt_text(*outbound_auth) {
            Some(a) => a,
            None => Seq::<char>::empty(),
        },
{
    EnsureWhatsappBridgeRequest {
        request_id: request_id.to_string(),
        channel: (match channel {
            Some(c) => c,
            None => "stable",
        }).to_string(),
        inbound_url: managed_bridge_inbound_url(config, public_base_url, pipe_id),
        inbound_token: inbound_token.to_string(),
        outbound_auth: match outbound_auth {
            Some(a) => a.clone(),
            None => String::new(),
        },
    }
}

/// Back to the setup, with a message as its error.
pub open spec fn setup_trouble(base_path: Seq<char>, message: Seq<char>) -> Seq<char> {
    base_path + "/pipes/whatsapp/setup?error="@ + percent_encoded(message)
}

/// Back to the setup, with a message as its error.
fn setup_message(base_path: &str, message: &str) -> (r: WebAnswer)
    ensures
        r@ == Sent::Redirect(setup_trouble(base_path@, message@)),
{
    let m = url::encode(message);
    response::redirect_with(base_path, "/pipes/whatsapp/setup?error=", m.as_str())
}

/// How asking the update service to start the bridge went.
pub enum BridgeStart {
    NoService,
    Answered(AckResponse),
    NotReached(String),
}

/// Whether a pipe may be created: the bridge has to run.
pub fn bridge_started(base_path: &str, start: &BridgeStart) -> (r: Verdict<()>)
    ensures
        match start {
            BridgeStart::NoService => r.answers(
                Sent::Redirect(
                    base_path@
                        + "/pipes/whatsapp/setup?error=Couldn%27t+start+WhatsApp+bridge.+Please+check+updates+service+and+try+again."@,
                ),
            ),
            BridgeStart::Answered(a) => if a.accepted {
                r is Proceed
            } else {
                r.answers(
                    Sent::Redirect(
                        setup_trouble(
                            base_path@,
                            match opt_text(a.message) {
                                Some(m) => m,
                                None => "Could not start WhatsApp bridge. Please try again."@,
                            },
                        ),
                    ),
                )
            },
            BridgeStart::NotReached(e) => r.answers(
                Sent::Redirect(
                    setup_trouble(base_path@, "Couldn't start WhatsApp bridge. "@ + e@),
                ),
            ),
        },
{
    match start {
        BridgeStart::NoService => Verdict::Answer(
            response::redirect(
                base_path,
                "/pipes/whatsapp/setup?error=Couldn%27t+start+WhatsApp+bridge.+Please+check+updates+service+and+try+again.",
            ),
        ),
        BridgeStart::Answered(a) => {
            if a.accepted {
                return Verdict::Proceed(());
            }
            let m = match &a.message {
                Some(m) => m.clone(),
                None => "Could not start WhatsApp bridge. Please try again.".to_string(),
            };
            Verdict::Answer(setup_message(base_path, m.as_str()))
        },
        BridgeStart::NotReached(e) => {
            let mut m = "Couldn't start WhatsApp bridge. ".to_string();
            m.append(e.as_str());
            Verdict::Answer(setup_message(base_path, m.as_str()))
        },
    }
}

/// How far a pipe that was to be created has come.
#[derive(Debug, Clone, Copy, PartialEq, Eq, Structural)]
pub enum WhatsappProgress {
    NoPipe,
    NoConfig,
    Created,
}

/// Where a pipe that was to be created leads.
pub fn whatsapp_created(base_path: &str, config_id: &str, progress: WhatsappProgress) -> (r:
    WebAnswer)
    ensures
        r@ == Sent::Redirect(
            match progress {
                WhatsappProgress::NoPipe => base_path@
                    + "/pipes/whatsapp/setup?error=Failed+to+create+pipe"@,
                WhatsappProgress::NoConfig => base_path@
                    + "/pipes/whatsapp/setup?error=Failed+to+create+WhatsApp+config"@,
                WhatsappProgress::Created => base_path@ + "/pipes/whatsapp/"@ + config_id@
                    + "?msg=WhatsApp+pipe+set+up+successfully!"@,
            },
        ),
{
    match progress {
        WhatsappProgress::NoPipe => response::redirect(
            base_path,
            "/pipes/whatsapp/setup?error=Failed+to+create+pipe",
        ),
        WhatsappProgress::NoConfig => response::redirect(
            base_path,
            "/pipes/whatsapp/setup?error=Failed+to+create+WhatsApp+config",
        ),
        WhatsappProgress::Created => response::redirect_about(
            base_path,
            "/pipes/whatsapp/",
            config_id,
            "?msg=WhatsApp+pipe+set+up+successfully!",
        ),
    }
}

// ── People ───────────────────────────────────────────────────────────────────

/// Somebody who is added to a pipe. `pipe_id` is the pipe of the configuration, where it is
/// there.
pub fn whatsapp_add_person(
    is_admin: bool,
    base_path: &str,
    config_id: &str,
    form: &AddPersonForm,
    pipe_id: Option<String>,
) -> (r: Verdict<NewPerson>)
    ensures
        if !is_admin {
            r.answers(Sent::Status(response::FORBIDDEN))
        } else if form.user_id@.len() == 0 || blank(form.sender_ref@) {
            r.answers(
                Sent::Redirect(
                    base_path@ + "/pipes/whatsapp/"@ + config_id@
                        + "?error=wa.detail.person.missing"@,
                ),
            )
        } else {
            adds_person(r, base_path@, pipe_id, *form)
        },
{
    if !is_admin {
        return Verdict::Answer(WebAnswer::Status(response::FORBIDDEN));
    }
    if !people::person_is_complete(form) {
        return Verdict::Answer(
            response::redirect_about(
                base_path,
                "/pipes/whatsapp/",
                config_id,
                "?error=wa.detail.person.missing",
            ),
        );
    }
    people::add_person(base_path, pipe_id, form)
}

/// Where somebody who was to be added leads.
pub fn whatsapp_person_added(base_path: &str, config_id: &str, added: Added) -> (r: WebAnswer)
    ensures
        r@ == Sent::Redirect(
            base_path@ + "/pipes/whatsapp/"@ + config_id@ + match added {
                Added::Done => "?msg=pipes.person.added"@,
                Added::Twice => "?error=wa.detail.person.exists"@,
                Added::Failed => "?error=pipes.person.add.error"@,
            },
        ),
{
    let more = match added {
        Added::Done => "?msg=pipes.person.added",
        Added::Twice => "?error=wa.detail.person.exists",
        Added::Failed => "?error=pipes.person.add.error",
    };
    response::redirect_about(base_path, "/pipes/whatsapp/", config_id, more)
}

// ── Starting up ──────────────────────────────────────────────────────────────

/// The active pipe, as stored.
#[derive(Debug)]
pub struct ActivePipe {
    pub pipe_id: String,
    pub inbound_token: String,
    pub outbound_auth: Option<String>,
}

/// What is done about the bridge when the program starts.
#[derive(Debug)]
pub enum BridgeAtStart {
    /// Nothing: whether there is an active pipe could not be found out.
    Leave,
    /// It is stopped: nothing needs it.
    Stop,
    /// The update service is asked for it.
    Ensure(EnsureWhatsappBridgeRequest),
}

/// What is done about the bridge when the program starts: it runs exactly while there is
/// an active pipe. `channel` is the release channel of the environment.
pub fn ensure_bridge_for_active_pipe(
    active: Result<Option<ActivePipe>, String>,
    request_id: &str,
    channel: Option<&str>,
    config: &AppConfig,
    public_base_url: &str,
) -> (r: BridgeAtStart)
    ensures
        match active {
            Err(_) => r is Leave,
            Ok(None) => r is Stop,
            Ok(Some(pipe)) => r matches BridgeAtStart::Ensure(q) && q.request_id@ == request_id@
                && q.channel@ == (match opt_str(channel) {
                Some(c) => c,
                None => "stable"@,
            }) && q.inbound_url@ == inbound_url(*config, public_base_url@, pipe.pipe_id@)
                && q.inbound_token@ == pipe.inbound_token@ && q.outbound_auth@ == (match opt_text(
                pipe.outbound_auth,
            ) {
                Some(a) => a,
                None => Seq::<char>::empty(),
            }),
        },
{
    match active {
        Err(_) => BridgeAtStart::Leave,
        Ok(None) => BridgeAtStart::Stop,
        Ok(Some(pipe)) => BridgeAtStart::Ensure(
            ensure_request(
                request_id,
                channel,
                config,
                public_base_url,
                pipe.pipe_id.as_str(),
                pipe.inbound_token.as_str(),
                &pipe.outbound_auth,
            ),
        ),
    }
}

// ── Removing a pipe ──────────────────────────────────────────────────────────

/// How far a pipe that was to be removed has come.
#[derive(Debug, Clone, Copy, PartialEq, Eq, Structural)]
pub enum Removal {
    NotThere,
    NotLoaded,
    NotDeactivated,
    BridgeNotCleared,
    Done,
}

/// What is said of a pipe that was to be removed, where it was not, or not wholly.
pub open spec fn removal_error(removal: Removal) -> Option<Seq<char>> {
    match removal {
        Removal::NotThere => Some("Couldn't find that WhatsApp pipe."@),
        Removal::NotLoaded => Some(
            "Couldn't remove the WhatsApp pipe right now. Please try again."@,
        ),
        Removal::NotDeactivated => Some(
            "Couldn't remove the WhatsApp pipe right now. Please try again."@,
        ),
        Removal::BridgeNotCleared => Some(
            "The WhatsApp pipe was removed, but the old phone connection could not be cleared. Please try again or restart updates service."@,
        ),
        Removal::Done => None,
    }
}

/// Where a pipe that was to be removed leads.
pub fn whatsapp_delete(is_admin: bool, base_path: &str, removal: Removal) -> (r: WebAnswer)
    ensures
        r@ == if !is_admin {
            Sent::Status(403)
        } else {
            Sent::Redirect(
                match removal_error(removal) {
                    Some(e) => base_path@ + "/pipes?error="@ + percent_encoded(e),
                    None => base_path@ + "/pipes?msg=Pipe+removed"@,
                },
            )
        },
{
    if !is_admin {
        return WebAnswer::Status(response::FORBIDDEN);
    }
    let error = match removal {
        Removal::NotThere => "Couldn't find that WhatsApp pipe.",
        Removal::NotLoaded => "Couldn't remove the WhatsApp pipe right now. Please try again.",
        Removal::NotDeactivated => "Couldn't remove the WhatsApp pipe right now. Please try again.",
        Removal::BridgeNotCleared => "The WhatsApp pipe was removed, but the old phone connection could not be cleared. Please try again or restart updates service.",
        Removal::Done => {
            return response::redirect(base_path, "/pipes?msg=Pipe+removed");
        },
    };
    let m = url::encode(error);
    response::redirect_with(base_path, "/pipes?error=", m.as_str())
}

/// Whether the bridge was stopped, from the answer of the update service.
pub fn bridge_stopped(ack: &AckResponse) -> (r: Result<(), String>)
    ensures
        if ack.accepted {
            r is Ok
        } else {
            r is Err && r->Err_0@ == match opt_text(ack.message) {
                Some(m) => m,
                None => "Updates service rejected WhatsApp bridge cleanup"@,
            }
        },
{
    if ack.accepted {
        return Ok(());
    }
    match &ack.message {
        Some(m) => Err(m.clone()),
        None => Err("Updates service rejected WhatsApp bridge cleanup".to_string()),
    }
}

// ── The pages of a pipe ──────────────────────────────────────────────────────

/// The page that sets a pipe up: whether there is one, and what went wrong.
#[derive(Debug)]
pub struct WhatsappSetupPage {
    pub already_configured: bool,
    pub error: Option<String>,
}

/// The page that sets a pipe up, for administrators; others are led to the chat.
pub fn whatsapp_setup_page(is_admin: bool, base_path: &str, already: bool, query: FlashQuery) -> (r:
    Verdict<WhatsappSetupPage>)
    ensures
        if is_admin {
            r == Verdict::<WhatsappSetupPage>::Proceed(
                WhatsappSetupPage { already_configured: already, error: query.error },
            )
        } else {
            r.answers(Sent::Redirect(base_path@ + "/chat"@))
        },
{
    match response::admin_page(is_admin, base_path) {
        Verdict::Answer(a) => Verdict::Answer(a),
        Verdict::Proceed(_) => Verdict::Proceed(
            WhatsappSetupPage { already_configured: already, error: query.error },
        ),
    }
}

/// The page of a pipe, with the address that the bridge hands messages to.
#[derive(Debug)]
pub struct WhatsappPage {
    pub page: PipePage<WhatsappDetail, AllowedPerson>,
    pub inbound_url: String,
    pub bridge_status: Option<BridgeStatusView>,
}

/// The page of a pipe, with the address that the bridge hands messages to.
pub fn whatsapp_detail(
    is_admin: bool,
    base_path: &str,
    config: Option<WhatsappDetail>,
    people: Vec<AllowedPerson>,
    users: Vec<UserOption>,
    query: FlashQuery,
    app: &AppConfig,
    public_base_url: &str,
    bridge_status: Option<BridgeStatusView>,
) -> (r: Verdict<WhatsappPage>)
    ensures
        if !is_admin {
            r.answers(Sent::Redirect(base_path@ + "/chat"@))
        } else {
            match config {
                Some(c) => r matches Verdict::Proceed(p) && p.page == (PipePage {
                    config: c,
                    people,
                    users,
                    flash: query.msg,
                    error: query.error,
                }) && p.inbound_url@ == inbound_url(*app, public_base_url@, c.pipe_id@)
                    && p.bridge_status == bridge_status,
                None => r.answers(Sent::Redirect(base_path@ + "/pipes"@)),
            }
        },
{
    match people::pipe_page(is_admin, base_path, config, people, users, query) {
        Verdict::Answer(a) => Verdict::Answer(a),
        Verdict::Proceed(page) => {
            let inbound_url = managed_bridge_inbound_url(
                app,
                public_base_url,
                page.config.pipe_id.as_str(),
            );
            Verdict::Proceed(WhatsappPage { page, inbound_url, bridge_status })
        },
    }
}

/// The person who is taken from those who may write through a pipe, by an administrator.
pub fn whatsapp_remove_person(is_admin: bool, ref_id: String) -> (r: Verdict<String>)
    ensures
        if is_admin {
            r == Verdict::Proceed(ref_id)
        } else {
            r.answers(Sent::Status(403))
        },
{
    people::person_to_remove(is_admin, ref_id)
}

// ── Laws ─────────────────────────────────────────────────────────────────────

/// A pipe is set up only by an administrator and only where there is none. It is named after the
/// form, owned by a user, and answers go to the bridge: on this machine where the updater is, else
/// in the containers' network. An authorization of the form goes with them.
pub proof fn law_whatsapp_pipe_is_what_the_form_says(
    is_admin: bool,
    base_path: &str,
    form: WhatsappSetupForm,
    config: AppConfig,
    already: bool,
    first_user: Option<String>,
    p: WhatsappPipe,
)
    requires
        call_ensures(
            whatsapp_setup_submit,
            (is_admin, base_path, &form, &config, already, first_user),
            Verdict::Proceed(p),
        ),
    ensures
        is_admin && !already,
        p.name@ == trimmed(form.name@) && p.name@.len() > 0,
        p.pipe.name@ == "WhatsApp: "@ + trimmed(form.name@),
        p.pipe.transport@ == "webhook"@,
        p.pipe.outbound_url@ == p.bridge_url@,
        p.pipe.default_agent_id is None,
        ({
            let a = lowered(config.updater_url@);
            let here = occurs_in(a, "localhost"@) || occurs_in(a, "127.0.0.1"@);
            &&& here ==> p.bridge_url@ == "http://127.0.0.1:3200/webhooks/selu/outbound"@
            &&& !here ==> p.bridge_url@ == "http://selu-whatsapp-bridge:3200/webhooks/selu/outbound"@
        }),
        p.pipe.outbound_auth is Some <==> form.outbound_auth is Some && trimmed(
            form.outbound_auth->0@,
        ).len() > 0,
        p.pipe.outbound_auth is Some ==> p.pipe.outbound_auth->0@ == form.outbound_auth->0@,
        form.people is None ==> first_user is Some && p.pipe.user_id@ == first_user->0@
            && p.people@.len() == 0,
        form.people is Some ==> people::pair_views(p.people@) == people::people_in(
            text::pieces(form.people->0@, ','),
        ),
{
    text::lemma_blank(form.name@);
    if form.outbound_auth is Some {
        text::lemma_blank(form.outbound_auth->0@);
    }
    assert(people::pair_views(p.people@).len() == p.people@.len());
}

/// The bridge hands messages in for its own pipe: at the public address where that is not one of
/// this machine, else at an address inside, with the assistant's port.
pub proof fn law_bridge_hands_in_for_its_pipe(
    config: AppConfig,
    public_base_url: &str,
    pipe_id: &str,
    r: String,
)
    requires
        call_ensures(managed_bridge_inbound_url, (&config, public_base_url, pipe_id), r),
    ensures
        ({
            let public = trimmed(public_base_url@);
            let local = |s: Seq<char>|
                occurs_in(lowered(s), "localhost"@) || occurs_in(lowered(s), "127.0.0.1"@);
            let tail = "/api/pipes/"@ + pipe_id@ + "/inbound"@;
            &&& tail.is_suffix_of(r@)
            &&& public.len() > 0 && !local(public) ==> r@ == trimmed_end_of(public, '/') + tail
            &&& (public.len() == 0 || local(public)) && local(config.updater_url@)
                ==> "http://host.docker.internal:"@.is_prefix_of(r@)
            &&& (public.len() == 0 || local(public)) && !local(config.updater_url@)
                ==> "http://selu:"@.is_prefix_of(r@)
        }),
{
    text::lemma_blank(public_base_url@);
    let o = inbound_origin(config, public_base_url@);
    let tail = "/api/pipes/"@ + pipe_id@ + "/inbound"@;
    assert(r@ =~= o + tail);
    assert(r@.subrange(r@.len() - tail.len(), r@.len() as int) =~= tail);
    reveal_strlit("http://host.docker.internal:");
    reveal_strlit("http://host.docker.internal");
    reveal_strlit("http://selu:");
    reveal_strlit("http://selu");
    reveal_strlit(":");
    let a = "http://host.docker.internal:"@;
    let b = "http://selu:"@;
    if o.len() >= a.len() && a.len() <= r@.len() {
        if blank(public_base_url@) || is_local(trimmed(public_base_url@)) {
            if is_local(config.updater_url@) {
                assert(r@.subrange(0, a.len() as int) =~= a);
            }
        }
    }
    if b.len() <= r@.len() && (blank(public_base_url@) || is_local(trimmed(public_base_url@)))
        && !is_local(config.updater_url@) {
        assert(r@.subrange(0, b.len() as int) =~= b);
    }
}

/// The update service is asked for the bridge of the pipe: with its address, its token and its
/// authorization, on the channel or the stable one.
pub proof fn law_bridge_is_asked_for_its_pipe(
    request_id: &str,
    channel: Option<&str>,
    config: AppConfig,
    public_base_url: &str,
    pipe_id: &str,
    inbound_token: &str,
    outbound_auth: Option<String>,
    r: EnsureWhatsappBridgeRequest,
    url: String,
)
    requires
        call_ensures(
            ensure_request,
            (
                request_id,
                channel,
                &config,
                public_base_url,
                pipe_id,
                inbound_token,
                &outbound_auth,
            ),
            r,
        ),
        call_ensures(managed_bridge_inbound_url, (&config, public_base_url, pipe_id), url),
    ensures
        r.request_id@ == request_id@,
        r.channel@ == (if channel is Some {
            channel->0@
        } else {
            "stable"@
        }),
        r.inbound_url@ == url@,
        r.inbound_token@ == inbound_token@,
        outbound_auth is Some ==> r.outbound_auth@ == outbound_auth->0@,
        outbound_auth is None ==> r.outbound_auth@.len() == 0,
{
}

/// When the program starts, the bridge is asked for exactly where there is an active pipe, and for
/// that pipe; it is stopped where there is none, and left alone where that is not known.
pub proof fn law_bridge_runs_while_a_pipe_is_active(
    active: Result<Option<ActivePipe>, String>,
    request_id: &str,
    channel: Option<&str>,
    config: AppConfig,
    public_base_url: &str,
    r: BridgeAtStart,
)
    requires
        call_ensures(
            ensure_bridge_for_active_pipe,
            (active, request_id, channel, &config, public_base_url),
            r,
        ),
    ensures
        r is Ensure <==> active is Ok && active->Ok_0 is Some,
        r is Stop <==> active is Ok && active->Ok_0 is None,
        r is Leave <==> active is Err,
        r matches BridgeAtStart::Ensure(q) ==> {
            let pipe = active->Ok_0->0;
            &&& q.request_id@ == request_id@
            &&& q.inbound_token@ == pipe.inbound_token@
            &&& ("/api/pipes/"@ + pipe.pipe_id@ + "/inbound"@).is_suffix_of(q.inbound_url@)
            &&& pipe.outbound_auth is Some ==> q.outbound_auth@ == pipe.outbound_auth->0@
        },
{
    if active is Ok && active->Ok_0 is Some {
        let pipe = active->Ok_0->0;
        let u = inbound_url(config, public_base_url@, pipe.pipe_id@);
        let tail = "/api/pipes/"@ + pipe.pipe_id@ + "/inbound"@;
        assert(u.subrange(u.len() - tail.len(), u.len() as int) =~= tail);
    }
}

/// Somebody is added only by an administrator, to the pipe of the configuration, as the user and the
/// sender of the form.
pub proof fn law_whatsapp_person_is_added_as_entered(
    is_admin: bool,
    base_path: &str,
    config_id: &str,
    form: AddPersonForm,
    pipe_id: Option<String>,
    r: Verdict<NewPerson>,
)
    requires
        call_ensures(whatsapp_add_person, (is_admin, base_path, config_id, &form, pipe_id), r),
    ensures
        r is Proceed <==> is_admin && form.user_id@.len() > 0 && trimmed(form.sender_ref@).len() > 0
            && pipe_id is Some,
        r matches Verdict::Proceed(n) ==> n.pipe_id@ == pipe_id->0@ && n.user_id@ == form.user_id@
            && n.sender_ref@ == form.sender_ref@,
{
    text::lemma_blank(form.sender_ref@);
}

/// How the bridge is doing is shown as it was told, and a connection under the key of its own word,
/// whatever its case and the white space around it.
pub proof fn law_bridge_status_is_shown_as_told(
    status: WhatsappBridgeStatusResponse,
    r: BridgeStatusView,
)
    requires
        call_ensures(load_bridge_status, (status,), r),
    ensures
        r.running == status.running && r.requires_qr == status.requires_qr,
        r.connection_state == status.connection_state && r.qr_data_url == status.qr_data_url,
        r.jid == status.jid && r.last_error == status.last_error && r.message == status.message,
        status.connection_state is None ==> r.connection_state_key is None,
        status.message is None ==> r.message_key is None,
        status.connection_state matches Some(state) ==> {
            let word = lowered(trimmed(state@));
            let key = opt_text(r.connection_state_key);
            &&& key == Some("wa.connection.open"@) <==> word == "open"@
            &&& key == Some("wa.connection.connected"@) <==> word == "connected"@
            &&& key == Some("wa.connection.connecting"@) <==> word == "connecting"@
            &&& key == Some("wa.connection.closed"@) <==> word == "close"@ || word == "closed"@
            &&& key == Some("wa.connection.disconnected"@) <==> word == "disconnected"@
            &&& key == Some("wa.connection.qr"@) <==> word == "qr"@ || word == "scan"@
            &&& key == Some("wa.connection.pairing"@) <==> word == "pairing"@
        },
{
    reveal_strlit("open");
    reveal_strlit("connected");
    reveal_strlit("connecting");
    reveal_strlit("close");
    reveal_strlit("closed");
    reveal_strlit("disconnected");
    reveal_strlit("qr");
    reveal_strlit("scan");
    reveal_strlit("pairing");
    reveal_strlit("wa.connection.open");
    reveal_strlit("wa.connection.connected");
    reveal_strlit("wa.connection.connecting");
    reveal_strlit("wa.connection.closed");
    reveal_strlit("wa.connection.disconnected");
    reveal_strlit("wa.connection.qr");
    reveal_strlit("wa.connection.pairing");
    assert("open"@.len() == 4 && "scan"@.len() == 4 && "open"@[0] != "scan"@[0]);
    assert("wa.connection.open"@.len() == 18 && "wa.connection.connected"@.len() == 23
        && "wa.connection.connecting"@.len() == 24 && "wa.connection.closed"@.len() == 20
        && "wa.connection.disconnected"@.len() == 26 && "wa.connection.qr"@.len() == 16
        && "wa.connection.pairing"@.len() == 21);
    assert("connected"@.len() == 9 && "connecting"@.len() == 10 && "close"@.len() == 5
        && "closed"@.len() == 6 && "disconnected"@.len() == 12 && "qr"@.len() == 2
        && "pairing"@.len() == 7);
}

/// The chats that are offered are those of the bridge, each in its place with its own sender and label;
/// to administrators only, and none where the bridge could not be asked.
pub proof fn law_offered_chats_are_the_bridges(
    is_admin: bool,
    found: Result<WhatsappBridgeChatsResponse, SearchFailure>,
    r: Verdict<ChatSearchResponse>,
    i: int,
)
    requires
        call_ensures(whatsapp_search_chats, (is_admin, found), r),
    ensures
        r is Proceed <==> is_admin,
        r matches Verdict::Proceed(p) ==> (p.ok <==> found is Ok),
        r matches Verdict::Proceed(p) ==> (found is Err ==> p.chats@.len() == 0 && !p.running),
        r matches Verdict::Proceed(p) ==> (found matches Ok(resp) ==> {
            &&& p.running == resp.running && p.connection_state == resp.connection_state
            &&& p.chats@.len() == resp.chats@.len()
            &&& 0 <= i < resp.chats@.len() ==> p.chats@[i].sender_ref@ == resp.chats@[i].sender_ref@
                && p.chats@[i].label@ == resp.chats@[i].label@
        }),
{
    if let Verdict::Proceed(p) = r {
        if let Ok(resp) = found {
            let a = option_pairs(p.chats@);
            let b = bridge_chat_pairs(resp.chats@);
            assert(a.len() == p.chats@.len() && b.len() == resp.chats@.len());
            if 0 <= i < resp.chats@.len() {
                assert(a[i] == (p.chats@[i].sender_ref@, p.chats@[i].label@));
                assert(b[i] == (resp.chats@[i].sender_ref@, resp.chats@[i].label@));
            }
        }
    }
}

/// A pipe is set up only where the bridge was started, and every failure leads back to the setup.
pub proof fn law_setup_needs_its_bridge(base_path: &str, start: BridgeStart, r: Verdict<()>)
    requires
        call_ensures(bridge_started, (base_path, &start), r),
    ensures
        r is Proceed <==> (start matches BridgeStart::Answered(a) && a.accepted),
        start matches BridgeStart::Answered(a) ==> (!a.accepted && a.message is Some ==> r.answers(
            Sent::Redirect(
                base_path@ + "/pipes/whatsapp/setup?error="@ + percent_encoded(a.message->0@),
            ),
        )),
        start matches BridgeStart::NotReached(e) ==> r.answers(
            Sent::Redirect(
                base_path@ + "/pipes/whatsapp/setup?error="@ + percent_encoded(
                    "Couldn't start WhatsApp bridge. "@ + e@,
                ),
            ),
        ),
{
}

/// A removal is told as done exactly where the pipe and its connection are gone.
pub proof fn law_removal_is_told_when_done(
    is_admin: bool,
    base_path: &str,
    removal: Removal,
    r: WebAnswer,
)
    requires
        call_ensures(whatsapp_delete, (is_admin, base_path, removal), r),
    ensures
        r@ == Sent::Status(403) <==> !is_admin,
        is_admin && removal is Done ==> r@ == Sent::Redirect(
            base_path@ + "/pipes?msg=Pipe+removed"@,
        ),
        is_admin && removal !is Done ==> exists|e: Seq<char>|
            r@ == Sent::Redirect(base_path@ + "/pipes?error="@ + #[trigger] percent_encoded(e))
                && e.len() > 0,
{
    reveal_strlit("Couldn't find that WhatsApp pipe.");
    reveal_strlit("Couldn't remove the WhatsApp pipe right now. Please try again.");
    reveal_strlit(
        "The WhatsApp pipe was removed, but the old phone connection could not be cleared. Please try again or restart updates service.",
    );
    if let Some(e) = removal_error(removal) {
        assert(e.len() > 0);
    }
}

/// Messages go to the bridge on this machine exactly where the update service is reached on it; and the
/// bridge hands them in at the public address, unless that too is on this machine.
pub proof fn law_bridge_is_reached_where_it_runs(
    config: AppConfig,
    public_base_url: &str,
    outbound: String,
    inbound: String,
)
    requires
        call_ensures(managed_bridge_outbound_url, (&config,), outbound),
        call_ensures(managed_bridge_inbound_origin, (&config, public_base_url), inbound),
    ensures
        ({
            let local = |s: Seq<char>|
                occurs_in(lowered(s), "localhost"@) || occurs_in(lowered(s), "127.0.0.1"@);
            let public = trimmed(public_base_url@);
            let behind = ":"@ + decimal(config.server.port as nat) + config.prefix();
            &&& local(config.updater_url@) ==> outbound@
                == "http://127.0.0.1:3200/webhooks/selu/outbound"@
            &&& !local(config.updater_url@) ==> outbound@
                == "http://selu-whatsapp-bridge:3200/webhooks/selu/outbound"@
            &&& public.len() > 0 && !local(public) ==> inbound@ == trimmed_end_of(public, '/')
            &&& (public.len() == 0 || local(public)) && local(config.updater_url@) ==> inbound@
                =~= "http://host.docker.internal"@ + behind
            &&& (public.len() == 0 || local(public)) && !local(config.updater_url@) ==> inbound@
                =~= "http://selu"@ + behind
        }),
{
    text::lemma_blank(public_base_url@);
}

} // verus!
