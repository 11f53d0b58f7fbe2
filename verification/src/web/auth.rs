//! Signing in and out, and the first user.
use vstd::prelude::*;
use vstd::string::*;
use crate::clock;
use crate::clock::{utc_text, Moment};
use crate::text;
use crate::text::{blank, opt_str, trimmed};
use crate::web::password;
use crate::web::password::{password_verdict, PasswordCheck};
use crate::web::providers;
use crate::web::response;
use crate::web::response::{Sent, Verdict, WebAnswer};

verus! {

/// How many days a session lasts.
pub const SESSION_TTL_DAYS: i64 = 7;

/// The name of the cookie that holds a session.
pub const SESSION_COOKIE: &'static str = "selu_session";

#[derive(Debug)]
pub struct LoginForm {
    pub username: String,
    pub password: String,
}

/// The user that a request comes from.
#[derive(Debug, Clone)]
pub struct AuthUser {
    pub user_id: String,
    pub username: String,
    pub display_name: String,
    pub is_admin: bool,
}

#[derive(Debug)]
pub struct SetupForm {
    pub username: String,
    pub display_name: String,
    pub password: String,
}

/// The user of a session that was found, or the way to the login page.
pub fn auth_user(base_path: &str, row: Option<(String, String, String, i64)>) -> (r: Verdict<
    AuthUser,
>)
    ensures
        match row {
            Some(u) => r matches Verdict::Proceed(a) && a.user_id == u.0 && a.username == u.1
                && a.display_name == u.2 && a.is_admin == (u.3 != 0),
            None => r.answers(Sent::Redirect(base_path@ + "/login"@)),
        },
{
    match row {
        Some((user_id, username, display_name, is_admin)) => Verdict::Proceed(
            AuthUser { user_id, username, display_name, is_admin: is_admin != 0 },
        ),
        None => Verdict::Answer(response::redirect(base_path, "/login")),
    }
}

/// The login page leads to the setup while there is no user.
pub fn login_page(base_path: &str, users: i64) -> (r: Option<WebAnswer>)
    ensures
        if users == 0 {
            r matches Some(a) && a@ == Sent::Redirect(base_path@ + "/setup"@)
        } else {
            r is None
        },
{
    if users == 0 {
        Some(response::redirect(base_path, "/setup"))
    } else {
        None
    }
}

/// The setup page leads to the login once there is a user.
pub fn setup_page(base_path: &str, users: i64) -> (r: Option<WebAnswer>)
    ensures
        if users > 0 {
            r matches Some(a) && a@ == Sent::Redirect(base_path@ + "/login"@)
        } else {
            r is None
        },
{
    if users > 0 {
        Some(response::redirect(base_path, "/login"))
    } else {
        None
    }
}

/// What is said to whoever could not be signed in, whatever the reason.
pub open spec fn login_error() -> Seq<char> {
    "Invalid username or password."@
}

/// How signing in goes: it works where the password belongs to the hash that is stored
/// for the name.
pub open spec fn login_outcome(stored: Option<Seq<char>>, password: Seq<char>) -> Result<
    (),
    Seq<char>,
> {
    match stored {
        Some(h) if password_verdict(h, password) == Some(true) => Ok(()),
        _ => Err(login_error()),
    }
}

/// Whether somebody may sign in: the name is known, and the password belongs to
/// the stored hash. `stored` is the hash of the user of that name, if there is
/// one.
pub fn login_submit(form: &LoginForm, stored: Option<&str>) -> (r: Result<(), String>)
    ensures
        match login_outcome(opt_str(stored), form.password@) {
            Ok(_) => r is Ok,
            Err(e) => r is Err && r->Err_0@ == e,
        },
{
    match stored {
        Some(h) => judge_login(password::check_password(h, form.password.as_str())),
        None => Err("Invalid username or password.".to_string()),
    }
}

/// Whether somebody may sign in whose password was held against the stored hash.
pub fn judge_login(check: PasswordCheck) -> (r: Result<(), String>)
    ensures
        if check == PasswordCheck::Belongs {
            r is Ok
        } else {
            r is Err && r->Err_0@ == login_error()
        },
{
    match check {
        PasswordCheck::Belongs => Ok(()),
        _ => Err("Invalid username or password.".to_string()),
    }
}

/// The name that a user is looked up by.
pub fn login_name(form: &LoginForm) -> (r: String)
    ensures
        r@ == trimmed(form.username@),
{
    text::trim(form.username.as_str()).to_string()
}

/// The moment that a session which starts now ends at, as it is stored.
pub open spec fn expiry_text(now: Moment) -> Seq<char> {
    utc_text((now.secs + 604_800) as i64, now.nanos, "%Y-%m-%d %H:%M:%S"@)
}

/// The moment that a session which starts now ends at, as it is stored.
pub fn session_expiry(now: &Moment) -> (r: String)
    requires
        now.dated(0),
        now.dated(SESSION_TTL_DAYS as int),
    ensures
        r@ == expiry_text(*now),
{
    let m = Moment { secs: now.secs + SESSION_TTL_DAYS * 86_400, nanos: now.nanos };
    clock::format_utc(&m, "%Y-%m-%d %H:%M:%S")
}

/// The path that the cookie of a session is sent to.
pub fn cookie_path(base_path: &str) -> (r: String)
    ensures
        r@ == if base_path@.len() == 0 {
            "/"@
        } else {
            base_path@ + "/"@
        },
{
    if base_path.is_empty() {
        "/".to_string()
    } else {
        let mut out = base_path.to_string();
        out.append("/");
        out
    }
}

/// The first user, as entered.
#[derive(Debug)]
pub struct NewAdmin {
    pub username: String,
    pub display_name: String,
}

/// Whether `n` is the first user that a form asks for.
pub open spec fn is_asked_for(n: NewAdmin, form: SetupForm) -> bool {
    &&& n.username@ == trimmed(form.username@)
    &&& n.display_name@ == if blank(form.display_name@) {
        trimmed(form.username@)
    } else {
        trimmed(form.display_name@)
    }
}

/// The first user that a form asks for; none where there is one already, and an
/// error where the name or the password is missing.
pub fn vet_setup(base_path: &str, users: i64, form: &SetupForm) -> (r: Verdict<
    Result<NewAdmin, String>,
>)
    ensures
        if users > 0 {
            r.answers(Sent::Redirect(base_path@ + "/login"@))
        } else if blank(form.username@) || form.password@.len() == 0 {
            r matches Verdict::Proceed(Err(e)) && e@ == "Username and password are required."@
        } else {
            r matches Verdict::Proceed(Ok(n)) && is_asked_for(n, *form)
        },
{
    if users > 0 {
        return Verdict::Answer(response::redirect(base_path, "/login"));
    }
    if text::is_blank(form.username.as_str()) || form.password.as_str().is_empty() {
        return Verdict::Proceed(Err("Username and password are required.".to_string()));
    }
    let username = text::trim(form.username.as_str()).to_string();
    let display_name = if text::is_blank(form.display_name.as_str()) {
        username.clone()
    } else {
        text::trim(form.display_name.as_str()).to_string()
    };
    Verdict::Proceed(Ok(NewAdmin { username, display_name }))
}

/// The first user with the hash of their password, where there is one.
pub fn with_hash(admin: NewAdmin, hash: Option<String>) -> (r: Verdict<
    Result<(NewAdmin, String), String>,
>)
    ensures
        match hash {
            Some(h) => r == Verdict::<Result<(NewAdmin, String), String>>::Proceed(Ok((admin, h))),
            None => r.answers(Sent::Status(500)),
        },
{
    match hash {
        Some(h) => Verdict::Proceed(Ok((admin, h))),
        None => Verdict::Answer(WebAnswer::Status(response::INTERNAL_SERVER_ERROR)),
    }
}

/// The first user that a form asks for, with a hash of their password; none where
/// there is a user already, and an error where the name or the password is missing.
pub fn setup_submit(base_path: &str, users: i64, form: &SetupForm) -> (r: Verdict<
    Result<(NewAdmin, String), String>,
>)
    ensures
        if users > 0 {
            r.answers(Sent::Redirect(base_path@ + "/login"@))
        } else if blank(form.username@) || form.password@.len() == 0 {
            r matches Verdict::Proceed(Err(e)) && e@ == "Username and password are required."@
        } else {
            match r {
                Verdict::Answer(a) => a@ == Sent::Status(500),
                Verdict::Proceed(Ok(p)) => is_asked_for(p.0, *form) && password_verdict(
                    p.1@,
                    form.password@,
                ) == Some(true),
                Verdict::Proceed(Err(_)) => false,
            }
        },
{
    match vet_setup(base_path, users, form) {
        Verdict::Answer(a) => Verdict::Answer(a),
        Verdict::Proceed(Err(e)) => Verdict::Proceed(Err(e)),
        Verdict::Proceed(Ok(admin)) => {
            let hash = password::hash_password(form.password.as_str());
            with_hash(admin, hash)
        },
    }
}

/// A provider that is stored when the first user is.
#[derive(Debug, PartialEq, Eq)]
pub struct SeededProvider {
    pub id: &'static str,
    pub display_name: &'static str,
    pub api_key_encrypted: &'static str,
    pub base_url: &'static str,
    pub active: bool,
}

impl SeededProvider {
    /// Whether a provider is stored under an ID and a name, active but with nothing of what
    /// it needs.
    pub open spec fn is_seed(self, id: Seq<char>, display_name: Seq<char>) -> bool {
        &&& self.id@ == id
        &&& self.display_name@ == display_name
        &&& self.api_key_encrypted@ == ""@
        &&& self.base_url@ == ""@
        &&& self.active
    }
}

/// A provider that is stored when the first user is.
fn seed(id: &'static str, display_name: &'static str) -> (r: SeededProvider)
    ensures
        r.is_seed(id@, display_name@),
{
    SeededProvider { id, display_name, api_key_encrypted: "", base_url: "", active: true }
}

/// The providers that are stored when the first user is, unless they are there.
pub fn seeded_providers() -> (r: Vec<SeededProvider>)
    ensures
        r@.len() == 3,
        r@[0].is_seed("bedrock"@, providers::bedrock_meta().display_name),
        r@[1].is_seed("anthropic"@, providers::anthropic_meta().display_name),
        r@[2].is_seed("openai"@, providers::openai_meta().display_name),
{
    let mut out: Vec<SeededProvider> = Vec::new();
    out.push(seed("bedrock", providers::bedrock().display_name));
    out.push(seed("anthropic", providers::anthropic().display_name));
    out.push(seed("openai", providers::openai().display_name));
    out
}

// ── Laws ─────────────────────────────────────────────────────────────────────

/// No provider that is stored with the first user counts as connected: its user has to set
/// it up first.
pub proof fn law_seeds_are_not_connected(seed: SeededProvider, name: Seq<char>)
    requires
        seed.is_seed("bedrock"@, name) || seed.is_seed("anthropic"@, name) || seed.is_seed(
            "openai"@,
            name,
        ),
    ensures
        !providers::is_connected(seed.id@, Some(seed.api_key_encrypted@), Some(seed.base_url@)),
{
    reveal_strlit("");
    reveal_strlit("bedrock");
    reveal_strlit("anthropic");
    reveal_strlit("openai");
    reveal_strlit("ollama");
    assert(""@ =~= Seq::<char>::empty());
    assert("bedrock"@.len() == 7 && "anthropic"@.len() == 9 && "openai"@.len() == 6
        && "ollama"@.len() == 6);
    assert("openai"@[1] != "ollama"@[1]);
}

/// Whoever could not be signed in is told the same, whether the name is unknown,
/// the stored hash is none, or the password is wrong.
pub proof fn law_login_errors_are_alike(
    a: Option<Seq<char>>,
    p: Seq<char>,
    b: Option<Seq<char>>,
    q: Seq<char>,
)
    requires
        login_outcome(a, p) is Err,
        login_outcome(b, q) is Err,
    ensures
        login_outcome(a, p) == login_outcome(b, q),
{
}

/// Somebody signs in exactly with the password that belongs to the hash that is stored for them.
pub proof fn law_only_the_password_signs_in(
    form: LoginForm,
    stored: Option<&str>,
    r: Result<(), String>,
)
    requires
        call_ensures(login_submit, (&form, stored), r),
    ensures
        r is Ok <==> stored is Some && password_verdict(stored->0@, form.password@) == Some(true),
{
}

/// The user of a session is the stored one in every part.
pub proof fn law_session_is_the_stored_user(
    base_path: &str,
    row: Option<(String, String, String, i64)>,
    r: Verdict<AuthUser>,
)
    requires
        call_ensures(auth_user, (base_path, row), r),
    ensures
        r is Proceed <==> row is Some,
        r matches Verdict::Proceed(u) ==> (row matches Some((id, name, shown, admin)) && u.user_id@
            == id@ && u.username@ == name@ && u.display_name@ == shown@ && (u.is_admin <==> admin
            != 0)),
{
}

/// A first user is set up only while there is none, with a name and a password, is called as the
/// form calls them, and signs in with the password of the form.
pub proof fn law_first_user_is_what_the_form_says(
    base_path: &str,
    users: i64,
    form: SetupForm,
    admin: NewAdmin,
    hash: String,
)
    requires
        call_ensures(
            setup_submit,
            (base_path, users, &form),
            Verdict::Proceed(Ok((admin, hash))),
        ),
    ensures
        users <= 0,
        trimmed(form.username@).len() > 0 && form.password@.len() > 0,
        admin.username@ == trimmed(form.username@),
        trimmed(form.display_name@).len() > 0 ==> admin.display_name@ == trimmed(form.display_name@),
        trimmed(form.display_name@).len() == 0 ==> admin.display_name@ == trimmed(form.username@),
        password_verdict(hash@, form.password@) == Some(true),
{
    text::lemma_blank(form.username@);
    text::lemma_blank(form.display_name@);
}

/// The login and the setup are never both shown: without a user the login leads to the setup, and
/// with one the setup to the login.
pub proof fn law_login_or_setup(
    base_path: &str,
    users: i64,
    login: Option<WebAnswer>,
    setup: Option<WebAnswer>,
)
    requires
        users >= 0,
        call_ensures(login_page, (base_path, users), login),
        call_ensures(setup_page, (base_path, users), setup),
    ensures
        login is None <==> users > 0,
        setup is None <==> users == 0,
{
}

/// A session that starts now ends in a week.
pub proof fn law_session_lasts_a_week(now: Moment, r: String)
    requires
        call_ensures(session_expiry, (&now,), r),
    ensures
        r@ == utc_text((now.secs + 7 * 24 * 3600) as i64, now.nanos, "%Y-%m-%d %H:%M:%S"@),
{
}

/// The first administrator is taken as entered: under the name without white space around it, and shown
/// under the entered display name, or else under that name. Nobody is taken without a name or a
/// password, nor once there are users.
pub proof fn law_first_administrator_is_taken_as_entered(
    base_path: &str,
    users: i64,
    form: SetupForm,
    r: Verdict<Result<NewAdmin, String>>,
)
    requires
        call_ensures(vet_setup, (base_path, users, &form), r),
    ensures
        r is Answer <==> users > 0,
        r matches Verdict::Proceed(Ok(n)) ==> {
            &&& trimmed(form.username@).len() > 0 && form.password@.len() > 0
            &&& n.username@ == trimmed(form.username@)
            &&& trimmed(form.display_name@).len() > 0 ==> n.display_name@ == trimmed(
                form.display_name@,
            )
            &&& trimmed(form.display_name@).len() == 0 ==> n.display_name@ == trimmed(
                form.username@,
            )
        },
        r matches Verdict::Proceed(Err(e)) ==> (trimmed(form.username@).len() == 0
            || form.password@.len() == 0) && e@ == "Username and password are required."@,
{
    text::lemma_blank(form.username@);
    text::lemma_blank(form.display_name@);
}

/// Whoever has the right password is let in, and nobody else; why not is not told.
pub proof fn law_only_the_right_password_is_let_in(check: PasswordCheck, r: Result<(), String>)
    requires
        call_ensures(judge_login, (check,), r),
    ensures
        r is Ok <==> check == PasswordCheck::Belongs,
        r matches Err(e) ==> e@ == "Invalid username or password."@,
{
}

} // verus!
