//! The pipe to iMessage, through a BlueBubbles server.
use vstd::prelude::*;
use vstd::string::*;
use crate::text;
use crate::text::{blank, byte_len, cuts_at, first_bytes, joined, opt_text, texts, trimmed,
    trimmed_end_of};
use crate::web::people;
use crate::web::people::{
    adds_person, shows_pipe, Added, AddPersonForm, FlashQuery, NewPerson, PipePage, UserOption,
};
use crate::web::pipes::NewPipe;
use crate::web::response;
use crate::web::response::{Sent, Verdict, WebAnswer};
use crate::web::telegram::PipeProgress;

verus! {

#[derive(Debug, Clone)]
pub struct ImessageDetail {
    pub config_id: String,
    pub name: String,
    pub server_url: String,
    pub chat_guid: String,
    pub active: bool,
    pub pipe_id: String,
    pub agent_name: String,
}

/// Somebody who may write through a pipe, with the name that they sign in with.
#[derive(Debug, Clone)]
pub struct AllowedPerson {
    pub ref_id: String,
    pub display_name: String,
    pub username: String,
    pub sender_ref: String,
    pub initials: String,
}

#[derive(Debug)]
pub struct ImessageSetupForm {
    pub name: String,
    pub server_url: String,
    pub server_password: String,
    pub chat_guid: String,
    /// Pairs of a phone number and a user, with a colon between the two and commas
    /// between the pairs.
    pub people: Option<String>,
}

#[derive(Debug)]
pub struct BbProxyRequest {
    pub server_url: String,
    pub server_password: String,
}

/// A chat that can be chosen.
#[derive(Debug)]
pub struct BbChatInfo {
    pub guid: String,
    pub display_name: String,
    pub participants: Vec<String>,
    pub is_group: bool,
    pub last_message: String,
}

#[derive(Debug)]
pub struct BbProxyResponse {
    pub ok: bool,
    pub error: Option<String>,
    pub chats: Option<Vec<BbChatInfo>>,
}

/// A chat as the server gives it: its participants by their addresses, where they
/// have one.
pub struct BbApiChat {
    pub guid: Option<String>,
    pub display_name: Option<String>,
    pub participants: Vec<Option<String>>,
    pub has_group_id: bool,
    pub last_message: Option<String>,
}

/// Somebody who may write through a pipe.
pub fn allowed_person(
    ref_id: Option<String>,
    display_name: String,
    username: String,
    sender_ref: String,
) -> (r: AllowedPerson)
    ensures
        r.ref_id@ == match opt_text(ref_id) {
            Some(i) => i,
            None => Seq::<char>::empty(),
        },
        r.display_name == display_name,
        r.username == username,
        r.sender_ref == sender_ref,
        r.initials@ == people::initials_of(display_name@),
{
    let initials = people::initials(display_name.as_str());
    AllowedPerson {
        ref_id: match ref_id {
            Some(i) => i,
            None => String::new(),
        },
        display_name,
        username,
        sender_ref,
        initials,
    }
}

/// A pipe as stored.
pub fn load_imessage_config(
    id: Option<String>,
    name: String,
    server_url: String,
    chat_guid: String,
    active: i64,
    pipe_id: String,
    agent_name: String,
) -> (r: ImessageDetail)
    ensures
        r.config_id@ == match opt_text(id) {
            Some(i) => i,
            None => Seq::<char>::empty(),
        },
        r.name == name,
        r.server_url == server_url,
        r.chat_guid == chat_guid,
        r.active == (active != 0),
        r.pipe_id == pipe_id,
        r.agent_name == agent_name,
{
    ImessageDetail {
        config_id: match id {
            Some(i) => i,
            None => String::new(),
        },
        name,
        server_url,
        chat_guid,
        active: active != 0,
        pipe_id,
        agent_name,
    }
}

// ── Asking the server for its chats ──────────────────────────────────────────

/// The address that a server is asked for its chats at.
pub fn chat_query_url(server_url: &str) -> (r: String)
    ensures
        r@ == trimmed_end_of(server_url@, '/') + "/api/v1/chat/query"@,
{
    let mut url = text::trim_end_of(server_url, '/').to_string();
    url.append("/api/v1/chat/query");
    url
}

/// What a server is asked for its chats with.
#[derive(Debug)]
pub struct BbCall {
    pub url: String,
    /// The password, which goes with the address.
    pub password: String,
    /// What each chat comes with.
    pub with: [&'static str; 2],
    pub limit: u32,
    pub sort: &'static str,
    pub timeout_secs: u64,
}

/// What a server is asked for its chats with, by an administrator.
pub fn bb_call(is_admin: bool, request: BbProxyRequest) -> (r: Verdict<BbCall>)
    ensures
        if is_admin {
            r matches Verdict::Proceed(c) && c.url@ == trimmed_end_of(request.server_url@, '/')
                + "/api/v1/chat/query"@ && c.password == request.server_password && c.with@[0]@
                == "lastMessage"@ && c.with@[1]@ == "participants"@ && c.limit == 50 && c.sort@
                == "lastmessage"@ && c.timeout_secs == 10
        } else {
            r.answers(Sent::Status(403))
        },
{
    if !is_admin {
        return Verdict::Answer(WebAnswer::Status(response::FORBIDDEN));
    }
    Verdict::Proceed(
        BbCall {
            url: chat_query_url(request.server_url.as_str()),
            password: request.server_password,
            with: ["lastMessage", "participants"],
            limit: 50,
            sort: "lastmessage",
            timeout_secs: 10,
        },
    )
}

/// Why a server gave no chats.
pub enum BbFailure {
    TimedOut,
    NotReached,
    NotConnected(String),
    /// It answered with an error: the code, and the code with its text.
    Refused(u16, String),
    NotRead,
    NotUnderstood,
}

/// What is said where a server gave no chats.
pub open spec fn failure_text(server_url: Seq<char>, failure: BbFailure) -> Seq<char> {
    match failure {
        BbFailure::TimedOut => "Connection timed out. Is the BlueBubbles server running?"@,
        BbFailure::NotReached => "Cannot reach "@ + trimmed_end_of(server_url, '/')
            + ". Is the server URL correct and the server running? If Selu runs in Docker, use http://host.docker.internal:PORT instead of localhost."@,
        BbFailure::NotConnected(e) => "Connection failed: "@ + e@,
        BbFailure::Refused(code, status) => if code == 401 {
            "Invalid password. Check your BlueBubbles server password."@
        } else if code == 404 {
            "BlueBubbles returned 404. Make sure the server URL includes the correct port (e.g. http://host.docker.internal:1234)."@
        } else {
            "BlueBubbles returned error "@ + status@ + "."@
        },
        BbFailure::NotRead => "Failed to read response from BlueBubbles."@,
        BbFailure::NotUnderstood =>
        "Got an unexpected response from BlueBubbles. Check the Selu logs for details."@,
    }
}

/// What is said where a server gave no chats.
fn describe_failure(server_url: &str, failure: &BbFailure) -> (r: String)
    ensures
        r@ == failure_text(server_url@, *failure),
{
    match failure {
        BbFailure::TimedOut => "Connection timed out. Is the BlueBubbles server running?".to_string(),
        BbFailure::NotReached => {
            let mut m = "Cannot reach ".to_string();
            m.append(text::trim_end_of(server_url, '/'));
            m.append(
                ". Is the server URL correct and the server running? If Selu runs in Docker, use http://host.docker.internal:PORT instead of localhost.",
            );
            m
        },
        BbFailure::NotConnected(e) => {
            let mut m = "Connection failed: ".to_string();
            m.append(e.as_str());
            m
        },
        BbFailure::Refused(code, status) => {
            if *code == 401 {
                "Invalid password. Check your BlueBubbles server password.".to_string()
            } else if *code == 404 {
                "BlueBubbles returned 404. Make sure the server URL includes the correct port (e.g. http://host.docker.internal:1234).".to_string()
            } else {
                let mut m = "BlueBubbles returned error ".to_string();
                m.append(status.as_str());
                m.append(".");
                m
            }
        },
        BbFailure::NotRead => "Failed to read response from BlueBubbles.".to_string(),
        BbFailure::NotUnderstood => "Got an unexpected response from BlueBubbles. Check the Selu logs for details.".to_string(),
    }
}

/// A message as it is shown in a list: cut where it is longer than 80 bytes.
pub open spec fn preview(message: Seq<char>) -> Seq<char> {
    if byte_len(message) > 80 {
        first_bytes(message, 77) + "..."@
    } else {
        message
    }
}

/// Whether a message can be cut for a list.
pub open spec fn can_preview(message: Seq<char>) -> bool {
    byte_len(message) > 80 ==> cuts_at(message, 77)
}

/// A message as it is shown in a list.
pub fn preview_message(message: String) -> (r: String)
    requires
        can_preview(message@),
    ensures
        r@ == preview(message@),
{
    if text::byte_count(message.as_str()) > 80 {
        let mut out = text::head_bytes(message.as_str(), 77).to_string();
        out.append("...");
        out
    } else {
        message
    }
}

/// The texts of the addresses that there are.
pub open spec fn addresses(v: Seq<Option<String>>) -> Seq<Seq<char>> {
    v.filter_map(|a: Option<String>| opt_text(a))
}

/// The addresses that there are.
fn pick_addresses(v: &Vec<Option<String>>) -> (r: Vec<String>)
    ensures
        texts(r@) == addresses(v@),
{
    let ghost f = |a: Option<String>| opt_text(a);
    let mut out: Vec<String> = Vec::new();
    let mut i: usize = 0;
    proof {
        assert(texts(out@) =~= v@.take(0).filter_map(f));
    }
    while i < v.len()
        invariant
            i <= v@.len(),
            f == (|a: Option<String>| opt_text(a)),
            texts(out@) == v@.take(i as int).filter_map(f),
        decreases v@.len() - i,
    {
        let ghost before = texts(out@);
        proof {
            v@.lemma_filter_map_take_succ(f, i as int);
            assert(before + Seq::<Seq<char>>::empty() =~= before);
        }
        match &v[i] {
            Some(a) => {
                out.push(a.clone());
                proof {
                    assert(texts(out@) =~= before.push(a@));
                    assert(before + seq![a@] =~= before.push(a@));
                }
            },
            None => {},
        }
        i += 1;
    }
    proof {
        assert(v@.take(i as int) =~= v@);
    }
    out
}

/// The name of a chat: its own, else its participants, else that it is unknown.
pub open spec fn chat_name(name: Option<Seq<char>>, participants: Seq<Seq<char>>) -> Seq<char> {
    match name {
        Some(n) if n.len() > 0 => n,
        _ => if participants.len() == 0 {
            "Unknown"@
        } else {
            joined(participants, ", "@)
        },
    }
}

/// A chat as it can be chosen, as a value.
pub struct Chat {
    pub guid: Seq<char>,
    pub display_name: Seq<char>,
    pub participants: Seq<Seq<char>>,
    pub is_group: bool,
    pub last_message: Seq<char>,
}

impl BbChatInfo {
    pub open spec fn view(&self) -> Chat {
        Chat {
            guid: self.guid@,
            display_name: self.display_name@,
            participants: texts(self.participants@),
            is_group: self.is_group,
            last_message: self.last_message@,
        }
    }
}

/// The words of the last message, if any.
pub open spec fn last_words(c: BbApiChat) -> Seq<char> {
    match opt_text(c.last_message) {
        Some(m) => m,
        None => Seq::empty(),
    }
}

/// A chat as it can be chosen; nothing for one without an ID.
pub open spec fn chat_of(c: BbApiChat) -> Option<Chat> {
    match opt_text(c.guid) {
        None => None,
        Some(guid) => Some(
            Chat {
                guid,
                display_name: chat_name(opt_text(c.display_name), addresses(c.participants@)),
                participants: addresses(c.participants@),
                is_group: c.has_group_id || addresses(c.participants@).len() > 1,
                last_message: preview(last_words(c)),
            },
        ),
    }
}

/// The view of a chat, where there is one.
pub open spec fn chat_view(c: Option<BbChatInfo>) -> Option<Chat> {
    match c {
        Some(v) => Some(v@),
        None => None,
    }
}

/// A chat as it can be chosen.
fn choose_chat(c: &BbApiChat) -> (r: Option<BbChatInfo>)
    requires
        c.guid is Some ==> can_preview(last_words(*c)),
    ensures
        chat_view(r) == chat_of(*c),
{
    let guid = match &c.guid {
        Some(g) => g.clone(),
        None => {
            return None;
        },
    };
    let participants = pick_addresses(&c.participants);
    proof {
        assert(texts(participants@).len() == participants@.len());
    }
    let own = match &c.display_name {
        Some(n) => n.clone(),
        None => String::new(),
    };
    let display_name = if !own.as_str().is_empty() {
        own
    } else if participants.len() == 0 {
        "Unknown".to_string()
    } else {
        text::join(&participants, ", ")
    };
    let is_group = c.has_group_id || participants.len() > 1;
    let words = match &c.last_message {
        Some(m) => m.clone(),
        None => String::new(),
    };
    Some(
        BbChatInfo {
            guid,
            display_name,
            participants,
            is_group,
            last_message: preview_message(words),
        },
    )
}

/// The chats that a list holds.
pub open spec fn chat_views(v: Seq<BbChatInfo>) -> Seq<Chat> {
    v.map_values(|c: BbChatInfo| c@)
}

/// Whether `r` answers with the chats of a server, or with why there are none.
pub open spec fn answers_chats(
    r: BbProxyResponse,
    server_url: Seq<char>,
    found: Result<Vec<BbApiChat>, BbFailure>,
) -> bool {
    match found {
        Ok(v) => r.ok && r.error is None && (r.chats matches Some(c) && chat_views(c@)
            == v@.filter_map(|c: BbApiChat| chat_of(c))),
        Err(f) => !r.ok && opt_text(r.error) == Some(failure_text(server_url, f))
            && r.chats is None,
    }
}

/// Whether the chats that a server gave can be listed: the last message of each that has
/// an ID can be cut.
pub open spec fn can_be_listed(found: Result<Vec<BbApiChat>, BbFailure>) -> bool {
    found matches Ok(v) ==> forall|i: int|
        0 <= i < v@.len() && (#[trigger] v@[i]).guid is Some ==> can_preview(last_words(v@[i]))
}

/// The answer with the chats of a server, or with why there are none, for administrators.
pub fn bb_proxy_chats(
    is_admin: bool,
    server_url: &str,
    found: Result<Vec<BbApiChat>, BbFailure>,
) -> (r: Verdict<BbProxyResponse>)
    requires
        can_be_listed(found),
    ensures
        if !is_admin {
            r.answers(Sent::Status(403))
        } else {
            r matches Verdict::Proceed(p) && answers_chats(p, server_url@, found)
        },
{
    if !is_admin {
        return Verdict::Answer(WebAnswer::Status(response::FORBIDDEN));
    }
    Verdict::Proceed(list_chats(server_url, found))
}

/// The answer with the chats of a server, or with why there are none.
fn list_chats(server_url: &str, found: Result<Vec<BbApiChat>, BbFailure>) -> (r: BbProxyResponse)
    requires
        can_be_listed(found),
    ensures
        answers_chats(r, server_url@, found),
{
    let data = match found {
        Ok(v) => v,
        Err(f) => {
            return BbProxyResponse {
                ok: false,
                error: Some(describe_failure(server_url, &f)),
                chats: None,
            };
        },
    };
    let ghost f = |c: BbApiChat| chat_of(c);
    let mut chats: Vec<BbChatInfo> = Vec::new();
    let mut i: usize = 0;
    proof {
        assert(chat_views(chats@) =~= data@.take(0).filter_map(f));
    }
    while i < data.len()
        invariant
            i <= data@.len(),
            f == (|c: BbApiChat| chat_of(c)),
            forall|i: int|
                0 <= i < data@.len() && (#[trigger] data@[i]).guid is Some ==> can_preview(
                    last_words(data@[i]),
                ),
            chat_views(chats@) == data@.take(i as int).filter_map(f),
        decreases data@.len() - i,
    {
        let ghost before = chat_views(chats@);
        proof {
            data@.lemma_filter_map_take_succ(f, i as int);
            assert(before + Seq::<Chat>::empty() =~= before);
        }
        match choose_chat(&data[i]) {
            Some(c) => {
                let ghost cv = c@;
                chats.push(c);
                proof {
                    assert(chat_views(chats@) =~= before.push(cv));
                    assert(before + seq![cv] =~= before.push(cv));
                }
            },
            None => {},
        }
        i += 1;
    }
    proof {
        assert(data@.take(i as int) =~= data@);
    }
    BbProxyResponse { ok: true, error: None, chats: Some(chats) }
}

// ── Setting a pipe up ────────────────────────────────────────────────────────

/// A pipe to create, with the server behind it.
pub struct ImessagePipe {
    pub pipe: NewPipe,
    pub name: String,
    pub server_url: String,
    pub server_password: String,
    pub chat_guid: String,
    pub people: Vec<(String, String)>,
}

/// The pipe that a form asks for. `first_user` is the first user that there is.
pub fn imessage_setup_submit(
    is_admin: bool,
    base_path: &str,
    form: &ImessageSetupForm,
    first_user: Option<String>,
) -> (r: Verdict<ImessagePipe>)
    ensures
        ({
            let owner = match opt_text(form.people) {
                Some(list) => match people::first_owner(text::pieces(list, ',')) {
                    Some(u) => Some(u),
                    None => opt_text(first_user),
                },
                None => opt_text(first_user),
            };
            if !is_admin {
                r.answers(Sent::Status(response::FORBIDDEN))
            } else if blank(form.name@) || blank(form.server_url@) || form.server_password@.len()
                == 0 || blank(form.chat_guid@) {
                r.answers(
                    Sent::Redirect(
                        base_path@
                            + "/pipes/imessage/setup?error=Please+fill+in+all+required+fields"@,
                    ),
                )
            } else {
                match owner {
                    None => r.answers(
                        Sent::Redirect(
                            base_path@
                                + "/pipes/imessage/setup?error=You+need+at+least+one+user.+Create+one+in+Users+first."@,
                        ),
                    ),
                    Some(u) => r matches Verdict::Proceed(p) && p.pipe.is_stored(
                        u,
                        "iMessage: "@ + trimmed(form.name@),
                        "webhook"@,
                        "internal://bluebubbles"@,
                        None,
                    ) && p.name@ == form.name@ && p.server_url@ == form.server_url@
                        && p.server_password@ == form.server_password@ && p.chat_guid@
                        == form.chat_guid@ && people::pair_views(p.people@)
                        == match opt_text(form.people) {
                        Some(list) => people::people_in(text::pieces(list, ',')),
                        None => Seq::empty(),
                    },
                }
            }
        }),
{
    if !is_admin {
        return Verdict::Answer(WebAnswer::Status(response::FORBIDDEN));
    }
    if text::is_blank(form.name.as_str()) || text::is_blank(form.server_url.as_str())
        || form.server_password.as_str().is_empty() || text::is_blank(form.chat_guid.as_str()) {
        return Verdict::Answer(
            response::redirect(
                base_path,
                "/pipes/imessage/setup?error=Please+fill+in+all+required+fields",
            ),
        );
    }
    let list = match &form.people {
        Some(p) => Some(p.as_str()),
        None => None,
    };
    let owner = match people::find_pipe_owner(list, first_user) {
        Some(u) => u,
        None => {
            return Verdict::Answer(
                response::redirect(
                    base_path,
                    "/pipes/imessage/setup?error=You+need+at+least+one+user.+Create+one+in+Users+first.",
                ),
            );
        },
    };
    let mut pipe_name = "iMessage: ".to_string();
    pipe_name.append(text::trim(form.name.as_str()));
    Verdict::Proceed(
        ImessagePipe {
            pipe: NewPipe {
                user_id: owner,
                name: pipe_name,
                transport: "webhook",
                outbound_url: "internal://bluebubbles".to_string(),
                outbound_auth: None,
                default_agent_id: None,
            },
            name: form.name.clone(),
            server_url: form.server_url.clone(),
            server_password: form.server_password.clone(),
            chat_guid: form.chat_guid.clone(),
            people: people::sender_mappings(list),
        },
    )
}

/// Where a pipe that was to be created leads.
pub fn imessage_created(base_path: &str, config_id: &str, progress: PipeProgress) -> (r: WebAnswer)
    ensures
        r@ == Sent::Redirect(
            match progress {
                PipeProgress::NoPipe => base_path@
                    + "/pipes/imessage/setup?error=Failed+to+create+pipe"@,
                PipeProgress::NoConfig => base_path@
                    + "/pipes/imessage/setup?error=Failed+to+create+adapter+config"@,
                PipeProgress::Created => base_path@ + "/pipes/imessage/"@ + config_id@
                    + "?msg=iMessage+pipe+set+up+successfully!"@,
            },
        ),
{
    match progress {
        PipeProgress::NoPipe => response::redirect(
            base_path,
            "/pipes/imessage/setup?error=Failed+to+create+pipe",
        ),
        PipeProgress::NoConfig => response::redirect(
            base_path,
            "/pipes/imessage/setup?error=Failed+to+create+adapter+config",
        ),
        PipeProgress::Created => response::redirect_about(
            base_path,
            "/pipes/imessage/",
            config_id,
            "?msg=iMessage+pipe+set+up+successfully!",
        ),
    }
}

/// Somebody who is added to a pipe. `pipe_id` is the pipe of the configuration, where it is
/// there.
pub fn imessage_add_person(
    is_admin: bool,
    base_path: &str,
    config_id: &str,
    form: &AddPersonForm,
    pipe_id: Option<String>,
) -> (r: Verdict<NewPerson>)
    ensures
        if !is_admin {
            r.answers(Sent::Status(response::FORBIDDEN))
        } else if form.user_id@.len() == 0 || blank(form.sender_ref@) {
            r.answers(
                Sent::Redirect(
                    base_path@ + "/pipes/imessage/"@ + config_id@
                        + "?error=Please+fill+in+both+fields"@,
                ),
            )
        } else {
            adds_person(r, base_path@, pipe_id, *form)
        },
{
    if !is_admin {
        return Verdict::Answer(WebAnswer::Status(response::FORBIDDEN));
    }
    if !people::person_is_complete(form) {
        return Verdict::Answer(
            response::redirect_about(
                base_path,
                "/pipes/imessage/",
                config_id,
                "?error=Please+fill+in+both+fields",
            ),
        );
    }
    people::add_person(base_path, pipe_id, form)
}

/// Where somebody who was to be added leads.
pub fn imessage_person_added(base_path: &str, config_id: &str, added: Added) -> (r: WebAnswer)
    ensures
        r@ == Sent::Redirect(
            base_path@ + "/pipes/imessage/"@ + config_id@ + match added {
                Added::Done => "?msg=Person+added"@,
                Added::Twice => "?error=This+phone+number+is+already+added"@,
                Added::Failed => "?error=Failed+to+add+person.+Please+try+again."@,
            },
        ),
{
    let more = match added {
        Added::Done => "?msg=Person+added",
        Added::Twice => "?error=This+phone+number+is+already+added",
        Added::Failed => "?error=Failed+to+add+person.+Please+try+again.",
    };
    response::redirect_about(base_path, "/pipes/imessage/", config_id, more)
}

/// The webhook that is dropped when its pipe is removed, where one was registered.
/// `config` is the webhook of the pipe, where the pipe can be read.
pub fn imessage_delete(is_admin: bool, config: Option<Option<String>>) -> (r: Verdict<
    Option<String>,
>)
    ensures
        if is_admin {
            r == Verdict::Proceed(
                match config {
                    Some(webhook) => webhook,
                    None => None,
                },
            )
        } else {
            r.answers(Sent::Status(403))
        },
{
    if !is_admin {
        return Verdict::Answer(WebAnswer::Status(response::FORBIDDEN));
    }
    match config {
        Some(webhook) => Verdict::Proceed(webhook),
        None => Verdict::Proceed(None),
    }
}

/// The page that sets a pipe up: who can own it, and what went wrong.
#[derive(Debug)]
pub struct ImessageSetupPage {
    pub users: Vec<UserOption>,
    pub error: Option<String>,
}

/// The page that sets a pipe up, for administrators; others are led to the chat.
pub fn imessage_setup_page(
    is_admin: bool,
    base_path: &str,
    users: Vec<UserOption>,
    query: FlashQuery,
) -> (r: Verdict<ImessageSetupPage>)
    ensures
        if is_admin {
            r == Verdict::<ImessageSetupPage>::Proceed(
                ImessageSetupPage { users, error: query.error },
            )
        } else {
            r.answers(Sent::Redirect(base_path@ + "/chat"@))
        },
{
    match response::admin_page(is_admin, base_path) {
        Verdict::Answer(a) => Verdict::Answer(a),
        Verdict::Proceed(_) => Verdict::Proceed(ImessageSetupPage { users, error: query.error }),
    }
}

/// The page of a pipe.
pub fn imessage_detail(
    is_admin: bool,
    base_path: &str,
    config: Option<ImessageDetail>,
    people: Vec<AllowedPerson>,
    users: Vec<UserOption>,
    query: FlashQuery,
) -> (r: Verdict<PipePage<ImessageDetail, AllowedPerson>>)
    ensures
        shows_pipe(r, is_admin, base_path@, config, people, users, query),
{
    people::pipe_page(is_admin, base_path, config, people, users, query)
}

/// The person who is taken from those who may write through a pipe, by an administrator.
pub fn imessage_remove_person(is_admin: bool, ref_id: String) -> (r: Verdict<String>)
    ensures
        if is_admin {
            r == Verdict::Proceed(ref_id)
        } else {
            r.answers(Sent::Status(403))
        },
{
    people::person_to_remove(is_admin, ref_id)
}

// ── Laws ─────────────────────────────────────────────────────────────────────

/// A pipe is set up only by an administrator. Its server, password and chat are those of the form as
/// entered, it is owned by a user, named after the form, and lets in whom the form's list names.
pub proof fn law_imessage_pipe_is_what_the_form_says(
    is_admin: bool,
    base_path: &str,
    form: ImessageSetupForm,
    first_user: Option<String>,
    p: ImessagePipe,
)
    requires
        call_ensures(
            imessage_setup_submit,
            (is_admin, base_path, &form, first_user),
            Verdict::Proceed(p),
        ),
    ensures
        is_admin,
        p.name@ == form.name@ && trimmed(form.name@).len() > 0,
        p.server_url@ == form.server_url@ && trimmed(form.server_url@).len() > 0,
        p.server_password@ == form.server_password@ && form.server_password@.len() > 0,
        p.chat_guid@ == form.chat_guid@ && trimmed(form.chat_guid@).len() > 0,
        p.pipe.name@ == "iMessage: "@ + trimmed(form.name@),
        p.pipe.transport@ == "webhook"@,
        p.pipe.outbound_url@ == "internal://bluebubbles"@,
        p.pipe.outbound_auth is None,
        p.pipe.default_agent_id is None,
        form.people is None ==> first_user is Some && p.pipe.user_id@ == first_user->0@
            && p.people@.len() == 0,
        form.people is Some ==> people::pair_views(p.people@) == people::people_in(
            text::pieces(form.people->0@, ','),
        ),
{
    text::lemma_blank(form.name@);
    text::lemma_blank(form.server_url@);
    text::lemma_blank(form.chat_guid@);
    assert(people::pair_views(p.people@).len() == p.people@.len());
}

/// Somebody is added only by an administrator, to the pipe of the configuration, as the user and the
/// sender of the form.
pub proof fn law_imessage_person_is_added_as_entered(
    is_admin: bool,
    base_path: &str,
    config_id: &str,
    form: AddPersonForm,
    pipe_id: Option<String>,
    r: Verdict<NewPerson>,
)
    requires
        call_ensures(imessage_add_person, (is_admin, base_path, config_id, &form, pipe_id), r),
    ensures
        r is Proceed <==> is_admin && form.user_id@.len() > 0 && trimmed(form.sender_ref@).len() > 0
            && pipe_id is Some,
        r matches Verdict::Proceed(n) ==> n.pipe_id@ == pipe_id->0@ && n.user_id@ == form.user_id@
            && n.sender_ref@ == form.sender_ref@,
{
    text::lemma_blank(form.sender_ref@);
}

/// The chats that are offered are those of the server that have an ID, each under its own: a chat is
/// shown by its own name where it has one, and counts as a group with more than one other in it.
pub proof fn law_offered_chats_are_the_servers(
    chats: Vec<BbApiChat>,
    r: BbProxyResponse,
    server_url: Seq<char>,
    i: int,
)
    requires
        answers_chats(r, server_url, Ok(chats)),
        0 <= i < chats@.len(),
        chats@[i].guid is Some,
    ensures
        exists|k: int|
            0 <= k < r.chats->0@.len() && {
                let c = #[trigger] r.chats->0@[k];
                &&& c.guid@ == chats@[i].guid->0@
                &&& chats@[i].display_name is Some && chats@[i].display_name->0@.len() > 0
                    ==> c.display_name@ == chats@[i].display_name->0@
                &&& texts(c.participants@) == addresses(chats@[i].participants@)
                &&& c.is_group <==> chats@[i].has_group_id || c.participants@.len() > 1
            },
{
    let f = |c: BbApiChat| chat_of(c);
    text::lemma_item_is_kept(chats@, f, i);
    let x = chat_of(chats@[i])->0;
    let views = chat_views(r.chats->0@);
    let k = choose|k: int| 0 <= k < views.len() && views[k] == x;
    let c = r.chats->0@[k];
    assert(views[k] == c@);
    assert(texts(c.participants@).len() == c.participants@.len());
}

/// A message is shown in full where it is short, and else by its start, with dots.
pub proof fn law_long_messages_are_cut(message: String, r: String)
    requires
        can_preview(message@),
        call_ensures(preview_message, (message,), r),
    ensures
        byte_len(message@) <= 80 ==> r@ == message@,
        byte_len(message@) > 80 ==> r@ == first_bytes(message@, 77) + "..."@,
{
}

} // verus!
