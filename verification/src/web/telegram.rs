//! The pipe to Telegram.
use vstd::prelude::*;
use vstd::string::*;
use crate::text;
use crate::text::{blank, decimal_int, opt_text, trimmed};
use crate::web::people;
use crate::web::people::{
    adds_person, offers_user, shows_pipe, Added, AddPersonForm, AllowedPerson, FlashQuery,
    NewPerson, PipePage, StoredName, UserOption,
};
use crate::web::pipes::NewPipe;
use crate::web::response;
use crate::web::response::{Sent, Verdict, WebAnswer};

verus! {

#[derive(Debug, Clone)]
pub struct TelegramDetail {
    pub config_id: String,
    pub name: String,
    pub bot_username: String,
    pub chat_id: String,
    pub active: bool,
    pub pipe_id: String,
    pub agent_name: String,
}

#[derive(Debug)]
pub struct TelegramSetupForm {
    pub name: String,
    pub bot_token: String,
    pub chat_id: String,
    /// Pairs of a Telegram user and a user, with a colon between the two and commas
    /// between the pairs.
    pub people: Option<String>,
}

#[derive(Debug)]
pub struct TgProxyRequest {
    pub bot_token: String,
}

#[derive(Debug)]
pub struct TgProxyResponse {
    pub ok: bool,
    pub error: Option<String>,
    pub bot_username: Option<String>,
    pub chats: Option<Vec<TgChatInfo>>,
}

#[derive(Debug)]
pub struct TgChatInfo {
    pub chat_id: String,
    pub display_name: String,
    pub chat_type: String,
    pub last_message: String,
}

/// A pipe as stored: its ID, its name, its chat, whether it is active, the pipe it
/// belongs to and its agent.
pub fn load_telegram_config(
    id: Option<String>,
    name: String,
    chat_id: String,
    active: i64,
    pipe_id: String,
    agent_name: String,
) -> (r: TelegramDetail)
    ensures
        r.config_id@ == match opt_text(id) {
            Some(i) => i,
            None => Seq::<char>::empty(),
        },
        r.name == name,
        r.bot_username@.len() == 0,
        r.chat_id == chat_id,
        r.active == (active != 0),
        r.pipe_id == pipe_id,
        r.agent_name == agent_name,
{
    TelegramDetail {
        config_id: match id {
            Some(i) => i,
            None => String::new(),
        },
        name,
        bot_username: String::new(),
        chat_id,
        active: active != 0,
        pipe_id,
        agent_name,
    }
}

/// The bot token that an administrator tries, without white space at its ends.
pub fn tried_token(is_admin: bool, request: &TgProxyRequest) -> (r: Verdict<String>)
    ensures
        if is_admin {
            r matches Verdict::Proceed(t) && t@ == trimmed(request.bot_token@)
        } else {
            r.answers(Sent::Status(403))
        },
{
    if !is_admin {
        return Verdict::Answer(WebAnswer::Status(response::FORBIDDEN));
    }
    Verdict::Proceed(text::trim(request.bot_token.as_str()).to_string())
}

/// The answer to a bot token: the name of the bot and its recent chats, none where
/// they could not be fetched, or the error of the token.
pub fn tg_proxy_chats(
    is_admin: bool,
    bot: Result<String, String>,
    chats: Option<Vec<TgChatInfo>>,
) -> (r: Verdict<TgProxyResponse>)
    ensures
        match r {
            Verdict::Answer(a) => !is_admin && a@ == Sent::Status(403),
            Verdict::Proceed(p) => is_admin && match bot {
                Ok(name) => {
                    &&& p.ok
                    &&& p.error is None
                    &&& p.bot_username == Some(name)
                    &&& match chats {
                        Some(c) => p.chats == Some(c),
                        None => p.chats matches Some(c) && c@.len() == 0,
                    }
                },
                Err(e) => {
                    &&& !p.ok
                    &&& p.error == Some(e)
                    &&& p.bot_username is None
                    &&& p.chats is None
                },
            },
        },
{
    if !is_admin {
        return Verdict::Answer(WebAnswer::Status(response::FORBIDDEN));
    }
    Verdict::Proceed(
        match bot {
            Ok(name) => TgProxyResponse {
                ok: true,
                error: None,
                bot_username: Some(name),
                chats: Some(
                    match chats {
                        Some(c) => c,
                        None => Vec::new(),
                    },
                ),
            },
            Err(e) => TgProxyResponse {
                ok: false,
                error: Some(e),
                bot_username: None,
                chats: None,
            },
        },
    )
}

/// Whether an origin is reached by HTTPS, which Telegram asks of webhooks.
pub fn is_https(external_origin: &str) -> (r: bool)
    ensures
        r == "https://"@.is_prefix_of(external_origin@),
{
    text::starts_with(external_origin, "https://")
}

/// The way back where HTTPS is missing.
pub open spec fn needs_https(base_path: Seq<char>) -> Seq<char> {
    base_path
        + "/pipes?error=Telegram+requires+HTTPS.+Access+Selu+via+HTTPS+or+set+SELU__EXTERNAL_URL+to+an+https://+address."@
}

/// The way back where HTTPS is missing.
fn ask_for_https(base_path: &str) -> (r: WebAnswer)
    ensures
        r@ == Sent::Redirect(needs_https(base_path@)),
{
    response::redirect(
        base_path,
        "/pipes?error=Telegram+requires+HTTPS.+Access+Selu+via+HTTPS+or+set+SELU__EXTERNAL_URL+to+an+https://+address.",
    )
}

/// The page that sets up a pipe: who can own it, and what went wrong.
#[derive(Debug)]
pub struct TelegramSetupPage {
    pub users: Vec<UserOption>,
    pub error: Option<String>,
}

/// The page that sets up a pipe, for administrators who came over HTTPS.
pub fn telegram_setup_page(
    is_admin: bool,
    base_path: &str,
    external_origin: &str,
    rows: Vec<StoredName>,
    query: FlashQuery,
) -> (r: Verdict<TelegramSetupPage>)
    ensures
        if !is_admin {
            r.answers(Sent::Redirect(base_path@ + "/chat"@))
        } else if !"https://"@.is_prefix_of(external_origin@) {
            r.answers(Sent::Redirect(needs_https(base_path@)))
        } else {
            r matches Verdict::Proceed(p) && p.error == query.error && p.users@.len()
                == rows@.len() && forall|i: int|
                0 <= i < rows@.len() ==> offers_user(#[trigger] p.users@[i], rows@[i])
        },
{
    if !is_admin {
        return Verdict::Answer(response::redirect(base_path, "/chat"));
    }
    if !is_https(external_origin) {
        return Verdict::Answer(ask_for_https(base_path));
    }
    Verdict::Proceed(TelegramSetupPage { users: people::user_options(rows), error: query.error })
}

/// A pipe to create, with the bot behind it.
pub struct TelegramPipe {
    pub pipe: NewPipe,
    pub name: String,
    pub bot_token: String,
    pub chat_id: String,
    pub people: Vec<(String, String)>,
}

/// The pipe that a form asks for. `first_user` is the first user that there is.
pub fn telegram_setup_submit(
    is_admin: bool,
    base_path: &str,
    external_origin: &str,
    form: &TelegramSetupForm,
    first_user: Option<String>,
) -> (r: Verdict<TelegramPipe>)
    ensures
        ({
            let owner = match opt_text(form.people) {
                Some(list) => match people::first_owner(text::pieces(list, ',')) {
                    Some(u) => Some(u),
                    None => opt_text(first_user),
                },
                None => opt_text(first_user),
            };
            if !is_admin {
                r.answers(Sent::Status(response::FORBIDDEN))
            } else if !"https://"@.is_prefix_of(external_origin@) {
                r.answers(Sent::Redirect(needs_https(base_path@)))
            } else if blank(form.name@) || blank(form.bot_token@) || blank(form.chat_id@) {
                r.answers(
                    Sent::Redirect(
                        base_path@
                            + "/pipes/telegram/setup?error=Please+fill+in+all+required+fields"@,
                    ),
                )
            } else {
                match owner {
                    None => r.answers(
                        Sent::Redirect(
                            base_path@
                                + "/pipes/telegram/setup?error=You+need+at+least+one+user.+Create+one+in+Users+first."@,
                        ),
                    ),
                    Some(u) => r matches Verdict::Proceed(p) && p.pipe.is_stored(
                        u,
                        "Telegram: "@ + trimmed(form.name@),
                        "webhook"@,
                        "internal://telegram"@,
                        None,
                    ) && p.name@ == trimmed(form.name@) && p.bot_token@
                        == trimmed(form.bot_token@) && p.chat_id@ == trimmed(form.chat_id@)
                        && people::pair_views(p.people@) == match opt_text(form.people) {
                        Some(list) => people::people_in(text::pieces(list, ',')),
                        None => Seq::empty(),
                    },
                }
            }
        }),
{
    if !is_admin {
        return Verdict::Answer(WebAnswer::Status(response::FORBIDDEN));
    }
    if !is_https(external_origin) {
        return Verdict::Answer(ask_for_https(base_path));
    }
    if text::is_blank(form.name.as_str()) || text::is_blank(form.bot_token.as_str())
        || text::is_blank(form.chat_id.as_str()) {
        return Verdict::Answer(
            response::redirect(
                base_path,
                "/pipes/telegram/setup?error=Please+fill+in+all+required+fields",
            ),
        );
    }
    let list = match &form.people {
        Some(p) => Some(p.as_str()),
        None => None,
    };
    let owner = match people::find_pipe_owner(list, first_user) {
        Some(u) => u,
        None => {
            return Verdict::Answer(
                response::redirect(
                    base_path,
                    "/pipes/telegram/setup?error=You+need+at+least+one+user.+Create+one+in+Users+first.",
                ),
            );
        },
    };
    let name = text::trim(form.name.as_str()).to_string();
    let mut pipe_name = "Telegram: ".to_string();
    pipe_name.append(name.as_str());
    Verdict::Proceed(
        TelegramPipe {
            pipe: NewPipe {
                user_id: owner,
                name: pipe_name,
                transport: "webhook",
                outbound_url: "internal://telegram".to_string(),
                outbound_auth: None,
                default_agent_id: None,
            },
            name,
            bot_token: text::trim(form.bot_token.as_str()).to_string(),
            chat_id: text::trim(form.chat_id.as_str()).to_string(),
            people: people::sender_mappings(list),
        },
    )
}

/// How far a pipe that was to be created has come.
#[derive(Debug, Clone, Copy, PartialEq, Eq, Structural)]
pub enum PipeProgress {
    NoPipe,
    NoConfig,
    Created,
}

/// Where a pipe that was to be created leads.
pub fn telegram_created(base_path: &str, config_id: &str, progress: PipeProgress) -> (r: WebAnswer)
    ensures
        r@ == Sent::Redirect(
            match progress {
                PipeProgress::NoPipe => base_path@
                    + "/pipes/telegram/setup?error=Failed+to+create+pipe"@,
                PipeProgress::NoConfig => base_path@
                    + "/pipes/telegram/setup?error=Failed+to+create+adapter+config"@,
                PipeProgress::Created => base_path@ + "/pipes/telegram/"@ + config_id@
                    + "?msg=Telegram+pipe+set+up+successfully!"@,
            },
        ),
{
    match progress {
        PipeProgress::NoPipe => response::redirect(
            base_path,
            "/pipes/telegram/setup?error=Failed+to+create+pipe",
        ),
        PipeProgress::NoConfig => response::redirect(
            base_path,
            "/pipes/telegram/setup?error=Failed+to+create+adapter+config",
        ),
        PipeProgress::Created => response::redirect_about(
            base_path,
            "/pipes/telegram/",
            config_id,
            "?msg=Telegram+pipe+set+up+successfully!",
        ),
    }
}

/// Somebody who is added to a pipe. `pipe_id` is the pipe of the configuration, where it is
/// there.
pub fn telegram_add_person(
    is_admin: bool,
    base_path: &str,
    config_id: &str,
    form: &AddPersonForm,
    pipe_id: Option<String>,
) -> (r: Verdict<NewPerson>)
    ensures
        if !is_admin {
            r.answers(Sent::Status(response::FORBIDDEN))
        } else if form.user_id@.len() == 0 || blank(form.sender_ref@) {
            r.answers(
                Sent::Redirect(
                    base_path@ + "/pipes/telegram/"@ + config_id@
                        + "?error=Please+fill+in+both+fields"@,
                ),
            )
        } else {
            adds_person(r, base_path@, pipe_id, *form)
        },
{
    if !is_admin {
        return Verdict::Answer(WebAnswer::Status(response::FORBIDDEN));
    }
    if !people::person_is_complete(form) {
        return Verdict::Answer(
            response::redirect_about(
                base_path,
                "/pipes/telegram/",
                config_id,
                "?error=Please+fill+in+both+fields",
            ),
        );
    }
    people::add_person(base_path, pipe_id, form)
}

/// Where somebody who was to be added leads.
pub fn telegram_person_added(base_path: &str, config_id: &str, added: Added) -> (r: WebAnswer)
    ensures
        r@ == Sent::Redirect(
            base_path@ + "/pipes/telegram/"@ + config_id@ + match added {
                Added::Done => "?msg=Person+added"@,
                Added::Twice => "?error=This+Telegram+user+is+already+added"@,
                Added::Failed => "?error=Failed+to+add+person.+Please+try+again."@,
            },
        ),
{
    let more = match added {
        Added::Done => "?msg=Person+added",
        Added::Twice => "?error=This+Telegram+user+is+already+added",
        Added::Failed => "?error=Failed+to+add+person.+Please+try+again.",
    };
    response::redirect_about(base_path, "/pipes/telegram/", config_id, more)
}

// ── Webhooks ─────────────────────────────────────────────────────────────────

/// What Telegram says of a webhook.
pub struct WebhookInfo {
    pub url: String,
    pub pending_update_count: i64,
    pub last_error_message: Option<String>,
}

/// The address of a webhook as it is shown.
pub open spec fn webhook_url_text(url: Seq<char>) -> Seq<char> {
    if url.len() == 0 {
        "<span class=\"text-amber-400\" data-i18n=\"tg.troubleshoot.nourl\">No webhook URL set</span>"@
    } else {
        "<code class=\"font-mono text-xs bg-surface-alt px-2 py-1 rounded break-all\">"@
            + url
            + "</code>"@
    }
}

/// The last error of a webhook as it is shown, where there is one.
pub open spec fn webhook_error_text(message: Option<Seq<char>>) -> Seq<char> {
    match message {
        Some(m) => "<div class=\"flex items-start gap-2 mt-2\">\n                        <span class=\"text-rosie text-xs\">&#9888;</span>\n                        <span class=\"text-xs text-rosie\">"@
                + m
                + "</span>\n                    </div>"@,
        None => Seq::empty(),
    }
}

/// What is shown of a webhook.
pub open spec fn webhook_text(url: Seq<char>, pending: int, message: Option<Seq<char>>) -> Seq<char> {
    "<div class=\"space-y-2 text-sm animate-fadein\">\n                    <div class=\"flex items-center gap-3\">\n                        <span class=\"text-txt-muted w-28\" data-i18n=\"tg.troubleshoot.url\">Webhook URL</span>\n                        <div class=\"flex-1 min-w-0\">"@
        + webhook_url_text(url)
        + "</div>\n                    </div>\n                    <div class=\"flex items-center gap-3\">\n                        <span class=\"text-txt-muted w-28\" data-i18n=\"tg.troubleshoot.pending\">Pending</span>\n                        <span class=\"text-txt-heading\">"@
        + decimal_int(pending)
        + "</span>\n                    </div>\n                    "@
        + webhook_error_text(message)
        + "\n                </div>"@
}

/// What is shown of a webhook, or that Telegram could not be asked.
pub open spec fn checked_text(info: Option<WebhookInfo>) -> Seq<char> {
    match info {
        Some(i) => webhook_text(
            i.url@,
            i.pending_update_count as int,
            opt_text(i.last_error_message),
        ),
        None => "<div class=\"text-sm text-rosie animate-fadein\">Could not reach Telegram. Please try again.</div>"@,
    }
}

/// The answer to an administrator who checks the webhook of a pipe. `known` is whether the
/// pipe is there, and `info` what Telegram said.
pub fn telegram_check_webhook(is_admin: bool, known: bool, info: &Option<WebhookInfo>) -> (r:
    WebAnswer)
    ensures
        r@ == if !is_admin {
            Sent::Status(403)
        } else if !known {
            Sent::Status(404)
        } else {
            Sent::Html(checked_text(*info))
        },
{
    if !is_admin {
        return WebAnswer::Status(response::FORBIDDEN);
    }
    if !known {
        return WebAnswer::Status(response::NOT_FOUND);
    }
    WebAnswer::Html(describe_webhook(info))
}

/// What is shown of a webhook, or that Telegram could not be asked.
fn describe_webhook(info: &Option<WebhookInfo>) -> (r: String)
    ensures
        r@ == checked_text(*info),
{
    let info = match info {
        Some(i) => i,
        None => {
            return "<div class=\"text-sm text-rosie animate-fadein\">Could not reach Telegram. Please try again.</div>".to_string();
        },
    };
    let url_display = if info.url.as_str().is_empty() {
        "<span class=\"text-amber-400\" data-i18n=\"tg.troubleshoot.nourl\">No webhook URL set</span>".to_string()
    } else {
        let mut out = "<code class=\"font-mono text-xs bg-surface-alt px-2 py-1 rounded break-all\">".to_string();
        out.append(info.url.as_str());
        out.append("</code>");
        out
    };
    let error_html = match &info.last_error_message {
        Some(m) => {
            let mut out = "<div class=\"flex items-start gap-2 mt-2\">\n                        <span class=\"text-rosie text-xs\">&#9888;</span>\n                        <span class=\"text-xs text-rosie\">".to_string();
            out.append(m.as_str());
            out.append("</span>\n                    </div>");
            out
        },
        None => String::new(),
    };
    let pending = text::signed_number(info.pending_update_count);
    let mut out = "<div class=\"space-y-2 text-sm animate-fadein\">\n                    <div class=\"flex items-center gap-3\">\n                        <span class=\"text-txt-muted w-28\" data-i18n=\"tg.troubleshoot.url\">Webhook URL</span>\n                        <div class=\"flex-1 min-w-0\">".to_string();
    out.append(url_display.as_str());
    out.append("</div>\n                    </div>\n                    <div class=\"flex items-center gap-3\">\n                        <span class=\"text-txt-muted w-28\" data-i18n=\"tg.troubleshoot.pending\">Pending</span>\n                        <span class=\"text-txt-heading\">");
    out.append(pending.as_str());
    out.append("</span>\n                    </div>\n                    ");
    out.append(error_html.as_str());
    out.append("\n                </div>");
    out
}

/// The token to ask Telegram with, for administrators, where the pipe is there.
pub fn webhook_token(is_admin: bool, token: Option<String>) -> (r: Verdict<String>)
    ensures
        if !is_admin {
            r.answers(Sent::Status(403))
        } else {
            match token {
                Some(t) => r == Verdict::Proceed(t),
                None => r.answers(Sent::Status(404)),
            }
        },
{
    if !is_admin {
        return Verdict::Answer(WebAnswer::Status(response::FORBIDDEN));
    }
    match token {
        Some(t) => Verdict::Proceed(t),
        None => Verdict::Answer(WebAnswer::Status(response::NOT_FOUND)),
    }
}

/// The bot whose webhook is dropped when its pipe is removed, where its token can be had.
pub fn telegram_delete(is_admin: bool, token: Option<String>) -> (r: Verdict<Option<String>>)
    ensures
        if is_admin {
            r == Verdict::Proceed(token)
        } else {
            r.answers(Sent::Status(403))
        },
{
    if is_admin {
        Verdict::Proceed(token)
    } else {
        Verdict::Answer(WebAnswer::Status(response::FORBIDDEN))
    }
}

/// What is shown to somebody who wants to register a webhook without HTTPS.
pub open spec fn https_only_text() -> Seq<char> {
    "<div class=\"text-sm text-rosie animate-fadein\" data-i18n=\"tg.troubleshoot.httpsonly\">Webhook registration requires HTTPS. Access Selu via HTTPS first.</div>"@
}

/// Whether a webhook may be registered anew: by an administrator, who came over HTTPS.
pub fn may_reregister(is_admin: bool, external_origin: &str) -> (r: Verdict<()>)
    ensures
        if !is_admin {
            r.answers(Sent::Status(403))
        } else if !"https://"@.is_prefix_of(external_origin@) {
            r.answers(Sent::Html(https_only_text()))
        } else {
            r is Proceed
        },
{
    if !is_admin {
        return Verdict::Answer(WebAnswer::Status(response::FORBIDDEN));
    }
    if is_https(external_origin) {
        Verdict::Proceed(())
    } else {
        Verdict::Answer(
            response::html(
                "<div class=\"text-sm text-rosie animate-fadein\" data-i18n=\"tg.troubleshoot.httpsonly\">Webhook registration requires HTTPS. Access Selu via HTTPS first.</div>",
            ),
        )
    }
}

/// The answer once a webhook was to be registered anew; `outcome` is how that went, where
/// it was allowed.
pub fn telegram_reregister_webhook(
    is_admin: bool,
    external_origin: &str,
    outcome: &Result<(), String>,
) -> (r: WebAnswer)
    ensures
        r@ == if !is_admin {
            Sent::Status(403)
        } else if !"https://"@.is_prefix_of(external_origin@) {
            Sent::Html(https_only_text())
        } else {
            Sent::Html(
                match outcome {
                    Ok(_) => "<div class=\"text-sm text-emerald-400 animate-fadein\" data-i18n=\"tg.troubleshoot.registered\">Webhook re-registered successfully!</div>"@,
                    Err(e) => "<div class=\"text-sm text-rosie animate-fadein\">"@ + e@
                        + "</div>"@,
                },
            )
        },
{
    match may_reregister(is_admin, external_origin) {
        Verdict::Answer(a) => {
            return a;
        },
        Verdict::Proceed(_) => {},
    }
    match outcome {
        Ok(_) => response::html(
            "<div class=\"text-sm text-emerald-400 animate-fadein\" data-i18n=\"tg.troubleshoot.registered\">Webhook re-registered successfully!</div>",
        ),
        Err(e) => {
            let mut out = "<div class=\"text-sm text-rosie animate-fadein\">".to_string();
            out.append(e.as_str());
            out.append("</div>");
            WebAnswer::Html(out)
        },
    }
}

/// The person who is taken from those who may write through a pipe, by an administrator.
pub fn telegram_remove_person(is_admin: bool, ref_id: String) -> (r: Verdict<String>)
    ensures
        if is_admin {
            r == Verdict::Proceed(ref_id)
        } else {
            r.answers(Sent::Status(403))
        },
{
    people::person_to_remove(is_admin, ref_id)
}

/// The page of a pipe, and whether its webhook can be registered anew from there.
pub fn telegram_detail(
    is_admin: bool,
    base_path: &str,
    external_origin: &str,
    config: Option<TelegramDetail>,
    people: Vec<AllowedPerson>,
    users: Vec<UserOption>,
    query: FlashQuery,
) -> (r: (Verdict<PipePage<TelegramDetail, AllowedPerson>>, bool))
    ensures
        shows_pipe(r.0, is_admin, base_path@, config, people, users, query),
        r.1 == "https://"@.is_prefix_of(external_origin@),
{
    (
        people::pipe_page(is_admin, base_path, config, people, users, query),
        is_https(external_origin),
    )
}

// ── Laws ─────────────────────────────────────────────────────────────────────

/// A pipe is set up only by an administrator and where the assistant is reached safely. Its bot has
/// the token of the form and writes to the chat of the form, each without white space around it; it
/// is owned by a user, named after the form, and lets in whom the form's list names.
pub proof fn law_telegram_pipe_is_what_the_form_says(
    is_admin: bool,
    base_path: &str,
    external_origin: &str,
    form: TelegramSetupForm,
    first_user: Option<String>,
    p: TelegramPipe,
)
    requires
        call_ensures(
            telegram_setup_submit,
            (is_admin, base_path, external_origin, &form, first_user),
            Verdict::Proceed(p),
        ),
    ensures
        is_admin,
        "https://"@.is_prefix_of(external_origin@),
        p.name@ == trimmed(form.name@) && p.name@.len() > 0,
        p.bot_token@ == trimmed(form.bot_token@) && p.bot_token@.len() > 0,
        p.chat_id@ == trimmed(form.chat_id@) && p.chat_id@.len() > 0,
        p.pipe.name@ == "Telegram: "@ + trimmed(form.name@),
        p.pipe.transport@ == "webhook"@,
        p.pipe.outbound_url@ == "internal://telegram"@,
        p.pipe.outbound_auth is None,
        p.pipe.default_agent_id is None,
        form.people is None ==> first_user is Some && p.pipe.user_id@ == first_user->0@
            && p.people@.len() == 0,
        form.people is Some ==> people::pair_views(p.people@) == people::people_in(
            text::pieces(form.people->0@, ','),
        ),
{
    text::lemma_blank(form.name@);
    text::lemma_blank(form.bot_token@);
    text::lemma_blank(form.chat_id@);
    assert(people::pair_views(p.people@).len() == p.people@.len());
}

/// Somebody is added only by an administrator, to the pipe of the configuration, as the user and the
/// sender of the form.
pub proof fn law_telegram_person_is_added_as_entered(
    is_admin: bool,
    base_path: &str,
    config_id: &str,
    form: AddPersonForm,
    pipe_id: Option<String>,
    r: Verdict<NewPerson>,
)
    requires
        call_ensures(telegram_add_person, (is_admin, base_path, config_id, &form, pipe_id), r),
    ensures
        r is Proceed <==> is_admin && form.user_id@.len() > 0 && trimmed(form.sender_ref@).len() > 0
            && pipe_id is Some,
        r matches Verdict::Proceed(n) ==> n.pipe_id@ == pipe_id->0@ && n.user_id@ == form.user_id@
            && n.sender_ref@ == form.sender_ref@,
{
    text::lemma_blank(form.sender_ref@);
}

/// Telegram is offered only to administrators, and only where it can reach the server: over HTTPS.
pub proof fn law_telegram_needs_https(
    is_admin: bool,
    base_path: &str,
    external_origin: &str,
    rows: Vec<StoredName>,
    query: FlashQuery,
    page: Verdict<TelegramSetupPage>,
    again: Verdict<()>,
)
    requires
        call_ensures(
            telegram_setup_page,
            (is_admin, base_path, external_origin, rows, query),
            page,
        ),
        call_ensures(may_reregister, (is_admin, external_origin), again),
    ensures
        page is Proceed <==> is_admin && "https://"@.is_prefix_of(external_origin@),
        again is Proceed <==> is_admin && "https://"@.is_prefix_of(external_origin@),
        page matches Verdict::Proceed(p) ==> p.error == query.error && p.users@.len()
            == rows@.len(),
{
}

/// A webhook is told about only to administrators, of a pipe that there is.
pub proof fn law_webhook_is_told_of_to_administrators(
    is_admin: bool,
    known: bool,
    info: Option<WebhookInfo>,
    external_origin: &str,
    outcome: Result<(), String>,
    checked: WebAnswer,
    again: WebAnswer,
)
    requires
        call_ensures(telegram_check_webhook, (is_admin, known, &info), checked),
        call_ensures(telegram_reregister_webhook, (is_admin, external_origin, &outcome), again),
    ensures
        checked is Html <==> is_admin && known,
        checked@ == Sent::Status(403) <==> !is_admin,
        checked@ == Sent::Status(404) <==> is_admin && !known,
        again is Html <==> is_admin,
        again@ == Sent::Status(403) <==> !is_admin,
{
}

} // verus!
