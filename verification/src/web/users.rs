//! The users page: who there is, and what each may do.
use vstd::prelude::*;
use vstd::string::*;
use crate::text;
use crate::text::{blank, lowered, occurs_in, opt_str, opt_text, pieces, texts, trimmed};
use crate::web::password;
use crate::web::password::{check_of, password_verdict, PasswordCheck};
use crate::web::response;
use crate::web::response::{Sent, Verdict, WebAnswer};

verus! {

/// The entry that stands for no agent at all.
pub const NO_AGENTS_SENTINEL: &'static str = "__none__";

#[derive(Debug, Clone)]
pub struct UserRow {
    pub id: String,
    pub username: String,
    pub display_name: String,
    pub is_admin: bool,
    pub language: String,
    pub created_at: String,
    /// The agents that the user may use; all where there are none.
    pub allowed_agents: Vec<String>,
}

#[derive(Debug, Clone)]
pub struct AgentInfo {
    pub id: String,
    pub name: String,
}

#[derive(Debug)]
pub struct UsersQuery {
    pub error: Option<String>,
    pub success: Option<String>,
}

#[derive(Debug)]
pub struct CreateUserForm {
    pub username: String,
    pub display_name: String,
    pub password: String,
    pub language: String,
    pub is_admin: Option<String>,
}

#[derive(Debug)]
pub struct ChangePasswordForm {
    pub current_password: String,
    pub new_password: String,
    pub confirm_password: String,
}

#[derive(Debug)]
pub struct SetLanguageForm {
    pub language: String,
}

#[derive(Debug)]
pub struct SetAgentsForm {
    /// The agents by their IDs, with commas between them; none stands for all.
    pub agents: Option<String>,
}

/// Whether a text is in a list.
pub fn lists(v: &Vec<String>, x: &str) -> (r: bool)
    ensures
        r == texts(v@).contains(x@),
{
    let mut i: usize = 0;
    while i < v.len()
        invariant
            i <= v@.len(),
            forall|j: int| 0 <= j < i ==> (#[trigger] texts(v@)[j]) != x@,
        decreases v@.len() - i,
    {
        if text::same(v[i].as_str(), x) {
            proof {
                assert(texts(v@)[i as int] == x@);
            }
            return true;
        }
        i += 1;
    }
    false
}

impl UserRow {
    /// Whether an agent is among those of the user.
    pub fn has_agent(&self, agent_id: &String) -> (r: bool)
        ensures
            r == texts(self.allowed_agents@).contains(agent_id@),
    {
        lists(&self.allowed_agents, agent_id.as_str())
    }

    /// Whether the user may use no agent at all.
    pub fn has_no_agents(&self) -> (r: bool)
        ensures
            r == texts(self.allowed_agents@).contains(NO_AGENTS_SENTINEL@),
    {
        lists(&self.allowed_agents, NO_AGENTS_SENTINEL)
    }
}

// ── Messages ─────────────────────────────────────────────────────────────────

/// The errors that the page knows.
pub open spec fn is_known_error(code: Seq<char>) -> bool {
    ||| code == "duplicate"@
    ||| code == "hash_failed"@
    ||| code == "username_required"@
    ||| code == "create_failed"@
    ||| code == "agents_save_failed"@
    ||| code == "current_password_required"@
    ||| code == "new_password_required"@
    ||| code == "confirm_password_required"@
    ||| code == "password_mismatch"@
    ||| code == "password_too_short"@
    ||| code == "wrong_current_password"@
    ||| code == "verify_failed"@
    ||| code == "password_change_failed"@
}

/// The key of the text for an error.
pub fn error_key(code: &str) -> (r: String)
    ensures
        r@ == "users.error."@ + if is_known_error(code@) {
            code@
        } else {
            "unexpected"@
        },
{
    let known = text::same(code, "duplicate") || text::same(code, "hash_failed") || text::same(
        code,
        "username_required",
    ) || text::same(code, "create_failed") || text::same(code, "agents_save_failed")
        || text::same(code, "current_password_required") || text::same(
        code,
        "new_password_required",
    ) || text::same(code, "confirm_password_required") || text::same(code, "password_mismatch")
        || text::same(code, "password_too_short") || text::same(code, "wrong_current_password")
        || text::same(code, "verify_failed") || text::same(code, "password_change_failed");
    let mut out = "users.error.".to_string();
    if known {
        out.append(code);
    } else {
        out.append("unexpected");
    }
    out
}

/// The key of the text for something that went well.
pub fn success_key(code: &str) -> (r: &'static str)
    ensures
        r@ == if code@ == "password_changed"@ {
            "users.success.password_changed"@
        } else {
            "users.success.saved"@
        },
{
    if text::same(code, "password_changed") {
        "users.success.password_changed"
    } else {
        "users.success.saved"
    }
}

/// Back to the users, with an error.
pub fn users_error(base_path: &str, code: &str) -> (r: WebAnswer)
    ensures
        r@ == Sent::Redirect(base_path@ + "/users?error="@ + code@),
{
    response::redirect_with(base_path, "/users?error=", code)
}

// ── Users and their agents ───────────────────────────────────────────────────

/// A user as stored.
pub struct StoredUser {
    pub id: Option<String>,
    pub username: String,
    pub display_name: String,
    pub is_admin: i64,
    pub language: String,
    pub created_at: String,
}

/// The pairs of user and agent.
pub open spec fn access_pairs(v: Seq<(String, String)>) -> Seq<(Seq<char>, Seq<char>)> {
    v.map_values(|p: (String, String)| (p.0@, p.1@))
}

/// The agents that the pairs give a user, in their order.
pub open spec fn agents_of(pairs: Seq<(Seq<char>, Seq<char>)>, user: Seq<char>) -> Seq<Seq<char>> {
    pairs.filter_map(
        |p: (Seq<char>, Seq<char>)|
            if p.0 == user {
                Some(p.1)
            } else {
                None
            },
    )
}

/// The agents that the pairs give a user.
pub fn allowed_agents(access: &Vec<(String, String)>, user_id: &str) -> (r: Vec<String>)
    ensures
        texts(r@) == agents_of(access_pairs(access@), user_id@),
{
    let ghost all = access_pairs(access@);
    let ghost f = |p: (Seq<char>, Seq<char>)|
        if p.0 == user_id@ {
            Some(p.1)
        } else {
            None
        };
    let mut out: Vec<String> = Vec::new();
    let mut i: usize = 0;
    proof {
        assert(texts(out@) =~= all.take(0).filter_map(f));
    }
    while i < access.len()
        invariant
            i <= access@.len(),
            all == access_pairs(access@),
            f == (|p: (Seq<char>, Seq<char>)|
                if p.0 == user_id@ {
                    Some(p.1)
                } else {
                    None
                }),
            texts(out@) == all.take(i as int).filter_map(f),
        decreases access@.len() - i,
    {
        let ghost before = texts(out@);
        proof {
            all.lemma_filter_map_take_succ(f, i as int);
            assert(all[i as int] == (access@[i as int].0@, access@[i as int].1@));
        }
        if text::same(access[i].0.as_str(), user_id) {
            out.push(access[i].1.clone());
            proof {
                assert(texts(out@) =~= before.push(access@[i as int].1@));
                assert(before + seq![access@[i as int].1@] =~= before.push(
                    access@[i as int].1@,
                ));
            }
        } else {
            proof {
                assert(before + Seq::<Seq<char>>::empty() =~= before);
            }
        }
        i += 1;
    }
    proof {
        assert(all.take(i as int) =~= all);
    }
    out
}

/// The ID of a stored user, or nothing.
pub open spec fn id_of(user: StoredUser) -> Seq<char> {
    match opt_text(user.id) {
        Some(id) => id,
        None => Seq::<char>::empty(),
    }
}

/// Whether a user ahead of the one at `i` has the same ID.
pub open spec fn is_repeated(stored: Seq<StoredUser>, i: int) -> bool {
    exists|j: int| 0 <= j < i && id_of(#[trigger] stored[j]) == id_of(stored[i])
}

/// Whether `row` lists the stored user at `i`. The agents of an ID go to the first user
/// with it.
pub open spec fn lists_user(
    row: UserRow,
    stored: Seq<StoredUser>,
    i: int,
    access: Seq<(Seq<char>, Seq<char>)>,
) -> bool {
    &&& row.id@ == id_of(stored[i])
    &&& row.username@ == stored[i].username@
    &&& row.display_name@ == stored[i].display_name@
    &&& row.is_admin == (stored[i].is_admin != 0)
    &&& row.language@ == stored[i].language@
    &&& row.created_at@ == stored[i].created_at@
    &&& texts(row.allowed_agents@) == if is_repeated(stored, i) {
        Seq::empty()
    } else {
        agents_of(access, id_of(stored[i]))
    }
}

/// The ID of a stored user, or nothing.
fn stored_id(user: &StoredUser) -> (r: String)
    ensures
        r@ == id_of(*user),
{
    match &user.id {
        Some(id) => id.clone(),
        None => String::new(),
    }
}

/// Whether a user ahead of the one at `i` has the same ID.
fn repeats(stored: &Vec<StoredUser>, i: usize) -> (r: bool)
    requires
        i < stored@.len(),
    ensures
        r == is_repeated(stored@, i as int),
{
    let id = stored_id(&stored[i]);
    let mut j: usize = 0;
    while j < i
        invariant
            j <= i < stored@.len(),
            id@ == id_of(stored@[i as int]),
            forall|k: int| 0 <= k < j ==> id_of(#[trigger] stored@[k]) != id@,
        decreases i - j,
    {
        let other = stored_id(&stored[j]);
        if text::same(other.as_str(), id.as_str()) {
            return true;
        }
        j += 1;
    }
    false
}

/// The stored users as listed.
fn list_users(stored: &Vec<StoredUser>, access: &Vec<(String, String)>) -> (r: Vec<UserRow>)
    ensures
        r@.len() == stored@.len(),
        forall|i: int|
            0 <= i < r@.len() ==> lists_user(#[trigger] r@[i], stored@, i, access_pairs(access@)),
{
    let mut out: Vec<UserRow> = Vec::new();
    let mut i: usize = 0;
    while i < stored.len()
        invariant
            i <= stored@.len(),
            out@.len() == i,
            forall|k: int|
                0 <= k < i ==> lists_user(
                    #[trigger] out@[k],
                    stored@,
                    k,
                    access_pairs(access@),
                ),
        decreases stored@.len() - i,
    {
        let user = &stored[i];
        let id = stored_id(user);
        let allowed: Vec<String> = if repeats(stored, i) {
            Vec::new()
        } else {
            allowed_agents(access, id.as_str())
        };
        proof {
            if is_repeated(stored@, i as int) {
                assert(texts(allowed@) =~= Seq::<Seq<char>>::empty());
            }
        }
        out.push(
            UserRow {
                id,
                username: user.username.clone(),
                display_name: user.display_name.clone(),
                is_admin: user.is_admin != 0,
                language: user.language.clone(),
                created_at: user.created_at.clone(),
                allowed_agents: allowed,
            },
        );
        i += 1;
    }
    out
}

/// The IDs and names of agents.
pub open spec fn info_texts(v: Seq<AgentInfo>) -> Seq<(Seq<char>, Seq<char>)> {
    v.map_values(|a: AgentInfo| (a.id@, a.name@))
}

/// An agent that can be given to users: every one but the default agent, which everybody
/// has.
pub open spec fn grantable(a: AgentInfo) -> Option<(Seq<char>, Seq<char>)> {
    if a.id@ == "default"@ {
        None
    } else {
        Some((a.id@, a.name@))
    }
}

/// The agents that can be given to users.
fn pick_grantable(agents: &Vec<AgentInfo>) -> (r: Vec<AgentInfo>)
    ensures
        info_texts(r@) == agents@.filter_map(|a: AgentInfo| grantable(a)),
{
    let ghost f = |a: AgentInfo| grantable(a);
    let mut out: Vec<AgentInfo> = Vec::new();
    let mut i: usize = 0;
    proof {
        assert(info_texts(out@) =~= agents@.take(0).filter_map(f));
    }
    while i < agents.len()
        invariant
            i <= agents@.len(),
            f == (|a: AgentInfo| grantable(a)),
            info_texts(out@) == agents@.take(i as int).filter_map(f),
        decreases agents@.len() - i,
    {
        let ghost before = info_texts(out@);
        proof {
            agents@.lemma_filter_map_take_succ(f, i as int);
            assert(before + Seq::<(Seq<char>, Seq<char>)>::empty() =~= before);
        }
        if !text::same(agents[i].id.as_str(), "default") {
            let info = AgentInfo { id: agents[i].id.clone(), name: agents[i].name.clone() };
            let ghost e = (info.id@, info.name@);
            out.push(info);
            proof {
                assert(info_texts(out@) =~= before.push(e));
                assert(before + seq![e] =~= before.push(e));
            }
        }
        i += 1;
    }
    proof {
        assert(agents@.take(i as int) =~= agents@);
    }
    out
}

/// The page of the users.
#[derive(Debug)]
pub struct UsersPage {
    pub users: Vec<UserRow>,
    pub all_agents: Vec<AgentInfo>,
    pub error_key: Option<String>,
    pub success_key: Option<String>,
}

/// The page of the users. Only an administrator sees others, and the agents that can be
/// given to them.
pub fn users_index(
    is_admin: bool,
    stored: &Vec<StoredUser>,
    access: &Vec<(String, String)>,
    agents: &Vec<AgentInfo>,
    query: &UsersQuery,
) -> (r: UsersPage)
    ensures
        if is_admin {
            &&& r.users@.len() == stored@.len()
            &&& forall|i: int|
                0 <= i < r.users@.len() ==> lists_user(
                    #[trigger] r.users@[i],
                    stored@,
                    i,
                    access_pairs(access@),
                )
            &&& info_texts(r.all_agents@) == agents@.filter_map(|a: AgentInfo| grantable(a))
        } else {
            r.users@.len() == 0 && r.all_agents@.len() == 0
        },
        opt_text(r.error_key) == match opt_text(query.error) {
            Some(code) => Some(
                "users.error."@ + if is_known_error(code) {
                    code
                } else {
                    "unexpected"@
                },
            ),
            None => None,
        },
        opt_text(r.success_key) == match opt_text(query.success) {
            Some(code) => Some(
                if code == "password_changed"@ {
                    "users.success.password_changed"@
                } else {
                    "users.success.saved"@
                },
            ),
            None => None,
        },
{
    let (users, all_agents): (Vec<UserRow>, Vec<AgentInfo>) = if is_admin {
        (list_users(stored, access), pick_grantable(agents))
    } else {
        (Vec::new(), Vec::new())
    };
    UsersPage {
        users,
        all_agents,
        error_key: match &query.error {
            Some(code) => Some(error_key(code.as_str())),
            None => None,
        },
        success_key: match &query.success {
            Some(code) => Some(success_key(code.as_str()).to_string()),
            None => None,
        },
    }
}

// ── Creating a user ──────────────────────────────────────────────────────────

/// The language that a user is set to: English or German, and German where
/// neither was chosen.
pub open spec fn language_of(chosen: Seq<char>) -> Seq<char> {
    if chosen == "en"@ || chosen == "de"@ {
        chosen
    } else {
        "de"@
    }
}

/// The language that a user is set to.
pub fn pick_language(chosen: &str) -> (r: String)
    ensures
        r@ == language_of(chosen@),
{
    if text::same(chosen, "en") || text::same(chosen, "de") {
        chosen.to_string()
    } else {
        "de".to_string()
    }
}

/// A user to create.
#[derive(Debug)]
pub struct NewUser {
    pub username: String,
    pub display_name: String,
    pub is_admin: i32,
    pub language: String,
}

/// Whether `u` is the user that a form asks for.
pub open spec fn is_asked_for(u: NewUser, form: CreateUserForm) -> bool {
    &&& u.username@ == trimmed(form.username@)
    &&& u.display_name@ == if blank(form.display_name@) {
        form.username@
    } else {
        trimmed(form.display_name@)
    }
    &&& u.is_admin == if opt_text(form.is_admin) == Some("on"@) {
        1i32
    } else {
        0i32
    }
    &&& u.language@ == language_of(form.language@)
}

/// The user that a form asks for, before the password is hashed.
pub fn vet_new_user(is_admin: bool, base_path: &str, form: &CreateUserForm) -> (r: Verdict<NewUser>)
    ensures
        if !is_admin {
            r.answers(Sent::Redirect(base_path@ + "/chat"@))
        } else if blank(form.username@) || form.password@.len() == 0 {
            r.answers(Sent::Redirect(base_path@ + "/users?error="@ + "username_required"@))
        } else {
            r matches Verdict::Proceed(u) && is_asked_for(u, *form)
        },
{
    if !is_admin {
        return Verdict::Answer(response::redirect(base_path, "/chat"));
    }
    if text::is_blank(form.username.as_str()) || form.password.as_str().is_empty() {
        return Verdict::Answer(users_error(base_path, "username_required"));
    }
    let display_name = if text::is_blank(form.display_name.as_str()) {
        form.username.clone()
    } else {
        text::trim(form.display_name.as_str()).to_string()
    };
    let ticked = match &form.is_admin {
        Some(v) => text::same(v.as_str(), "on"),
        None => false,
    };
    Verdict::Proceed(
        NewUser {
            username: text::trim(form.username.as_str()).to_string(),
            display_name,
            is_admin: if ticked {
                1
            } else {
                0
            },
            language: pick_language(form.language.as_str()),
        },
    )
}

/// A user to create with the hash of their password, where there is one.
pub fn with_hash(base_path: &str, user: NewUser, hash: Option<String>) -> (r: Verdict<
    (NewUser, String),
>)
    ensures
        match hash {
            Some(h) => r == Verdict::<(NewUser, String)>::Proceed((user, h)),
            None => r.answers(Sent::Redirect(base_path@ + "/users?error="@ + "hash_failed"@)),
        },
{
    match hash {
        Some(h) => Verdict::Proceed((user, h)),
        None => Verdict::Answer(users_error(base_path, "hash_failed")),
    }
}

/// The user that a form asks for, with a hash of their password.
pub fn users_create(is_admin: bool, base_path: &str, form: &CreateUserForm) -> (r: Verdict<
    (NewUser, String),
>)
    ensures
        if !is_admin {
            r.answers(Sent::Redirect(base_path@ + "/chat"@))
        } else if blank(form.username@) || form.password@.len() == 0 {
            r.answers(Sent::Redirect(base_path@ + "/users?error="@ + "username_required"@))
        } else {
            match r {
                Verdict::Answer(a) => a@ == Sent::Redirect(
                    base_path@ + "/users?error="@ + "hash_failed"@,
                ),
                Verdict::Proceed(p) => is_asked_for(p.0, *form) && password_verdict(
                    p.1@,
                    form.password@,
                ) == Some(true),
            }
        },
{
    match vet_new_user(is_admin, base_path, form) {
        Verdict::Answer(a) => Verdict::Answer(a),
        Verdict::Proceed(user) => {
            let hash = password::hash_password(form.password.as_str());
            with_hash(base_path, user, hash)
        },
    }
}

/// Where a user to create leads once the database answered; `error` is its error.
/// The name is taken where the error speaks of something unique.
pub fn user_created(base_path: &str, error: Option<&str>) -> (r: WebAnswer)
    ensures
        r@ == Sent::Redirect(
            match opt_str(error) {
                None => base_path@ + "/users"@,
                Some(e) => base_path@ + "/users?error="@ + if occurs_in(lowered(e), "unique"@) {
                    "duplicate"@
                } else {
                    "create_failed"@
                },
            },
        ),
{
    match error {
        None => response::redirect(base_path, "/users"),
        Some(e) => {
            let small = text::to_lower(e);
            if text::contains(small.as_str(), "unique") {
                users_error(base_path, "duplicate")
            } else {
                users_error(base_path, "create_failed")
            }
        },
    }
}

// ── Changing a password ──────────────────────────────────────────────────────

/// What is wrong with a form that changes a password.
pub open spec fn password_fault(form: ChangePasswordForm) -> Option<Seq<char>> {
    if form.current_password@.len() == 0 {
        Some("current_password_required"@)
    } else if form.new_password@.len() == 0 {
        Some("new_password_required"@)
    } else if form.confirm_password@.len() == 0 {
        Some("confirm_password_required"@)
    } else if form.new_password@ != form.confirm_password@ {
        Some("password_mismatch"@)
    } else if text::byte_len(form.new_password@) < 8 {
        Some("password_too_short"@)
    } else {
        None
    }
}

/// What is wrong with a form that changes a password.
pub fn vet_password_change(form: &ChangePasswordForm) -> (r: Option<&'static str>)
    ensures
        opt_str(r) == password_fault(*form),
{
    if form.current_password.as_str().is_empty() {
        return Some("current_password_required");
    }
    if form.new_password.as_str().is_empty() {
        return Some("new_password_required");
    }
    if form.confirm_password.as_str().is_empty() {
        return Some("confirm_password_required");
    }
    if !text::same(form.new_password.as_str(), form.confirm_password.as_str()) {
        return Some("password_mismatch");
    }
    if text::byte_count(form.new_password.as_str()) < 8 {
        return Some("password_too_short");
    }
    None
}

/// What is wrong with the current password that was entered.
pub open spec fn current_fault(check: Option<PasswordCheck>) -> Option<Seq<char>> {
    match check {
        None => Some("verify_failed"@),
        Some(PasswordCheck::NoHash) => Some("verify_failed"@),
        Some(PasswordCheck::Differs) => Some("wrong_current_password"@),
        Some(PasswordCheck::Belongs) => None,
    }
}

/// What is wrong with the current password that was entered, once it was held
/// against the stored hash, where there was one.
pub fn judge_current(check: Option<PasswordCheck>) -> (r: Option<&'static str>)
    ensures
        opt_str(r) == current_fault(check),
{
    match check {
        None => Some("verify_failed"),
        Some(PasswordCheck::NoHash) => Some("verify_failed"),
        Some(PasswordCheck::Differs) => Some("wrong_current_password"),
        Some(PasswordCheck::Belongs) => None,
    }
}

/// The new hash of a user who changes their password, or the way back with what
/// is wrong. `stored` is the hash before, where it could be loaded.
pub fn users_change_password(
    base_path: &str,
    form: &ChangePasswordForm,
    stored: Option<&str>,
) -> (r: Verdict<String>)
    ensures
        match password_fault(*form) {
            Some(code) => r.answers(Sent::Redirect(base_path@ + "/users?error="@ + code)),
            None => match current_fault(
                match stored {
                    Some(h) => Some(check_of(password_verdict(h@, form.current_password@))),
                    None => None,
                },
            ) {
                Some(code) => r.answers(Sent::Redirect(base_path@ + "/users?error="@ + code)),
                None => match r {
                    Verdict::Answer(a) => a@ == Sent::Redirect(
                        base_path@ + "/users?error="@ + "hash_failed"@,
                    ),
                    Verdict::Proceed(h) => password_verdict(h@, form.new_password@) == Some(true),
                },
            },
        },
{
    match vet_password_change(form) {
        Some(code) => {
            return Verdict::Answer(users_error(base_path, code));
        },
        None => {},
    }
    let check = match stored {
        Some(h) => Some(password::check_password(h, form.current_password.as_str())),
        None => None,
    };
    match judge_current(check) {
        Some(code) => {
            return Verdict::Answer(users_error(base_path, code));
        },
        None => {},
    }
    match password::hash_password(form.new_password.as_str()) {
        Some(h) => Verdict::Proceed(h),
        None => Verdict::Answer(users_error(base_path, "hash_failed")),
    }
}

/// Which sessions of a user end when the password changes: all but the one that
/// it was changed in.
pub fn session_is_revoked(session_user: &str, session_id: &str, user_id: &str, current: Option<&str>)
    -> (r: bool)
    ensures
        r == (session_user@ == user_id@ && opt_str(current) != Some(session_id@)),
{
    if !text::same(session_user, user_id) {
        return false;
    }
    match current {
        Some(c) => !text::same(c, session_id),
        None => true,
    }
}

/// Where a password change leads once the database answered.
pub fn password_changed(base_path: &str, done: bool) -> (r: WebAnswer)
    ensures
        r@ == Sent::Redirect(
            if done {
                base_path@ + "/users?success="@ + "password_changed"@
            } else {
                base_path@ + "/users?error="@ + "password_change_failed"@
            },
        ),
{
    if done {
        response::redirect_with(base_path, "/users?success=", "password_changed")
    } else {
        users_error(base_path, "password_change_failed")
    }
}

// ── Rights ───────────────────────────────────────────────────────────────────

/// Whether somebody may delete a user, or change what they may do: only an
/// administrator may, and never on their own account.
pub fn may_change_user(is_admin: bool, user_id: &str, target_id: &str) -> (r: bool)
    ensures
        r == (is_admin && user_id@ != target_id@),
{
    is_admin && !text::same(user_id, target_id)
}

/// The right of a user after it was flipped; nothing for a user that is not
/// there.
pub fn flipped_admin(current: Option<i64>) -> (r: Option<i32>)
    ensures
        r == match current {
            Some(v) => Some(
                if v != 0 {
                    0i32
                } else {
                    1i32
                },
            ),
            None => None,
        },
{
    match current {
        Some(v) => Some(
            if v != 0 {
                0
            } else {
                1
            },
        ),
        None => None,
    }
}

/// The user who is deleted, by an administrator who is not that user.
pub fn users_delete(is_admin: bool, user_id: &str, target_id: &str) -> (r: Verdict<String>)
    ensures
        if is_admin && user_id@ != target_id@ {
            r matches Verdict::Proceed(id) && id@ == target_id@
        } else {
            r.answers(Sent::Status(403))
        },
{
    if may_change_user(is_admin, user_id, target_id) {
        Verdict::Proceed(target_id.to_string())
    } else {
        Verdict::Answer(WebAnswer::Status(response::FORBIDDEN))
    }
}

/// What a user's right is flipped to. `current` is what it is, where the user is there.
pub fn users_toggle_admin(is_admin: bool, user_id: &str, target_id: &str, current: Option<i64>) -> (r:
    Verdict<i32>)
    ensures
        if !is_admin || user_id@ == target_id@ {
            r.answers(Sent::Status(403))
        } else {
            match current {
                Some(v) => r == Verdict::<i32>::Proceed(
                    if v != 0 {
                        0i32
                    } else {
                        1i32
                    },
                ),
                None => r.answers(Sent::Status(404)),
            }
        },
{
    if !may_change_user(is_admin, user_id, target_id) {
        return Verdict::Answer(WebAnswer::Status(response::FORBIDDEN));
    }
    match flipped_admin(current) {
        Some(v) => Verdict::Proceed(v),
        None => Verdict::Answer(WebAnswer::Status(response::NOT_FOUND)),
    }
}

/// What is shown of a user whose right was to be flipped.
pub fn admin_toggled(base_path: &str, id: &str, is_admin: i32, done: bool) -> (r: WebAnswer)
    ensures
        r@ == if done {
            Sent::Html(admin_badge_text(base_path@, id@, is_admin == 1))
        } else {
            Sent::Status(500)
        },
{
    if done {
        WebAnswer::Html(admin_badge(base_path, id, is_admin == 1))
    } else {
        WebAnswer::Status(response::INTERNAL_SERVER_ERROR)
    }
}

/// The language that a user is set to by an administrator.
pub fn users_set_language(is_admin: bool, form: &SetLanguageForm) -> (r: Verdict<String>)
    ensures
        if is_admin {
            r matches Verdict::Proceed(l) && l@ == language_of(form.language@)
        } else {
            r.answers(Sent::Status(403))
        },
{
    if is_admin {
        Verdict::Proceed(pick_language(form.language.as_str()))
    } else {
        Verdict::Answer(WebAnswer::Status(response::FORBIDDEN))
    }
}

/// What is shown of a user whose language was to be set.
pub fn language_set(base_path: &str, id: &str, language: &str, done: bool) -> (r: WebAnswer)
    ensures
        r@ == if done {
            Sent::Html(language_select_text(base_path@, id@, language@))
        } else {
            Sent::Status(500)
        },
{
    if done {
        WebAnswer::Html(language_select(base_path, id, language))
    } else {
        WebAnswer::Status(response::INTERNAL_SERVER_ERROR)
    }
}

/// The agents that a form names.
pub open spec fn named_items(list: Seq<char>) -> Seq<Seq<char>> {
    pieces(list, ',').filter_map(
        |p: Seq<char>|
            if trimmed(p).len() == 0 {
                None
            } else {
                Some(trimmed(p))
            },
    )
}

/// The items of a list with commas between them, without white space and without
/// empty ones.
pub fn split_items(list: &str) -> (r: Vec<String>)
    ensures
        texts(r@) == named_items(list@),
{
    let parts = text::split(list, ',');
    let ghost all = texts(parts@);
    let ghost f = |p: Seq<char>|
        if trimmed(p).len() == 0 {
            None
        } else {
            Some(trimmed(p))
        };
    let mut out: Vec<String> = Vec::new();
    let mut i: usize = 0;
    proof {
        assert(texts(out@) =~= all.take(0).filter_map(f));
    }
    while i < parts.len()
        invariant
            i <= parts@.len(),
            all == texts(parts@),
            f == (|p: Seq<char>|
                if trimmed(p).len() == 0 {
                    None
                } else {
                    Some(trimmed(p))
                }),
            texts(out@) == all.take(i as int).filter_map(f),
        decreases parts@.len() - i,
    {
        let ghost before = texts(out@);
        proof {
            all.lemma_filter_map_take_succ(f, i as int);
            assert(all[i as int] == parts@[i as int]@);
        }
        let t = text::trim(parts[i].as_str());
        if !t.is_empty() {
            out.push(t.to_string());
            proof {
                assert(texts(out@) =~= before.push(t@));
                assert(before + seq![t@] =~= before.push(t@));
            }
        } else {
            proof {
                assert(before + Seq::<Seq<char>>::empty() =~= before);
            }
        }
        i += 1;
    }
    proof {
        assert(all.take(i as int) =~= all);
    }
    out
}

/// The agents that a form gives a user, where an administrator sent it.
pub fn users_set_agents(is_admin: bool, base_path: &str, form: &SetAgentsForm) -> (r: Verdict<
    Vec<String>,
>)
    ensures
        if is_admin {
            r matches Verdict::Proceed(v) && texts(v@) == named_items(
                match opt_text(form.agents) {
                    Some(a) => a,
                    None => Seq::empty(),
                },
            )
        } else {
            r.answers(Sent::Redirect(base_path@ + "/chat"@))
        },
{
    if !is_admin {
        return Verdict::Answer(response::redirect(base_path, "/chat"));
    }
    match &form.agents {
        Some(a) => Verdict::Proceed(split_items(a.as_str())),
        None => {
            proof {
                reveal_strlit("");
                assert(""@ =~= Seq::<char>::empty());
            }
            Verdict::Proceed(split_items(""))
        },
    }
}

/// Where the agents of a user that were to be saved lead.
pub fn agents_set(base_path: &str, done: bool) -> (r: WebAnswer)
    ensures
        r@ == Sent::Redirect(
            if done {
                base_path@ + "/users"@
            } else {
                base_path@ + "/users?error="@ + "agents_save_failed"@
            },
        ),
{
    if done {
        response::redirect(base_path, "/users")
    } else {
        users_error(base_path, "agents_save_failed")
    }
}

// ── Pieces of the page ───────────────────────────────────────────────────────

/// The button that shows and flips the right of a user.
pub open spec fn admin_badge_text(base_path: Seq<char>, id: Seq<char>, is_admin: bool) -> Seq<char> {
    if is_admin {
        "<button class=\"inline-flex items-center px-2 py-0.5 rounded-full text-xs font-medium bg-coral/10 text-coral border border-coral/20 cursor-pointer hover:bg-coral/20 transition-colors\"\n                    hx-post=\""@
            + base_path
            + "/users/"@
            + id
            + "/toggle-admin\"\n                    hx-target=\"closest td\"\n                    hx-swap=\"innerHTML\"\n                    data-i18n=\"users.admin\">Admin</button>"@
    } else {
        "<button class=\"inline-flex items-center px-2 py-0.5 rounded-full text-xs font-medium bg-surface-alt text-txt-muted border border-edge cursor-pointer hover:bg-sidebar-hover transition-colors\"\n                    hx-post=\""@
            + base_path
            + "/users/"@
            + id
            + "/toggle-admin\"\n                    hx-target=\"closest td\"\n                    hx-swap=\"innerHTML\"\n                    data-i18n=\"users.user\">User</button>"@
    }
}

/// The button that shows and flips the right of a user.
pub fn admin_badge(base_path: &str, id: &str, is_admin: bool) -> (r: String)
    ensures
        r@ == admin_badge_text(base_path@, id@, is_admin),
{
    if is_admin {
        let mut out = "<button class=\"inline-flex items-center px-2 py-0.5 rounded-full text-xs font-medium bg-coral/10 text-coral border border-coral/20 cursor-pointer hover:bg-coral/20 transition-colors\"\n                    hx-post=\"".to_string();
        out.append(base_path);
        out.append("/users/");
        out.append(id);
        out.append("/toggle-admin\"\n                    hx-target=\"closest td\"\n                    hx-swap=\"innerHTML\"\n                    data-i18n=\"users.admin\">Admin</button>");
        out
    } else {
        let mut out = "<button class=\"inline-flex items-center px-2 py-0.5 rounded-full text-xs font-medium bg-surface-alt text-txt-muted border border-edge cursor-pointer hover:bg-sidebar-hover transition-colors\"\n                    hx-post=\"".to_string();
        out.append(base_path);
        out.append("/users/");
        out.append(id);
        out.append("/toggle-admin\"\n                    hx-target=\"closest td\"\n                    hx-swap=\"innerHTML\"\n                    data-i18n=\"users.user\">User</button>");
        out
    }
}

/// The mark of the chosen language.
pub open spec fn mark(chosen: bool) -> Seq<char> {
    if chosen {
        "selected"@
    } else {
        ""@
    }
}

/// The list that the language of a user is chosen from.
pub open spec fn language_select_text(base_path: Seq<char>, id: Seq<char>, language: Seq<char>) -> Seq<char> {
    "<select name=\"language\"\n                hx-post=\""@
        + base_path
        + "/users/"@
        + id
        + "/language\"\n                hx-target=\"closest td\"\n                hx-swap=\"innerHTML\"\n                class=\"bg-surface-input border border-edge rounded-lg px-2 py-1 text-xs text-txt-heading focus:outline-none focus:border-coral focus:ring-1 focus:ring-coral/50 transition cursor-pointer\">\n            <option value=\"de\" "@
        + mark(language == "de"@)
        + ">Deutsch</option>\n            <option value=\"en\" "@
        + mark(language == "en"@)
        + ">English</option>\n        </select>"@
}

/// The list that the language of a user is chosen from.
pub fn language_select(base_path: &str, id: &str, language: &str) -> (r: String)
    ensures
        r@ == language_select_text(base_path@, id@, language@),
{
    let de_sel = if text::same(language, "de") {
        "selected"
    } else {
        ""
    };
    let en_sel = if text::same(language, "en") {
        "selected"
    } else {
        ""
    };
    let mut out = "<select name=\"language\"\n                hx-post=\"".to_string();
    out.append(base_path);
    out.append("/users/");
    out.append(id);
    out.append("/language\"\n                hx-target=\"closest td\"\n                hx-swap=\"innerHTML\"\n                class=\"bg-surface-input border border-edge rounded-lg px-2 py-1 text-xs text-txt-heading focus:outline-none focus:border-coral focus:ring-1 focus:ring-coral/50 transition cursor-pointer\">\n            <option value=\"de\" ");
    out.append(de_sel);
    out.append(">Deutsch</option>\n            <option value=\"en\" ");
    out.append(en_sel);
    out.append(">English</option>\n        </select>");
    out
}

// ── Laws ─────────────────────────────────────────────────────────────────────

/// No item of a list is empty or has white space at an end.
pub proof fn law_items_are_trimmed(list: Seq<char>, i: int)
    requires
        0 <= i < named_items(list).len(),
    ensures
        named_items(list)[i].len() > 0,
        trimmed(named_items(list)[i]) == named_items(list)[i],
{
    let f = |p: Seq<char>|
        if trimmed(p).len() == 0 {
            None
        } else {
            Some(trimmed(p))
        };
    let x = named_items(list)[i];
    assert(named_items(list).contains(x));
    pieces(list, ',').lemma_filter_map_contains(f, x);
    let p = choose|p: Seq<char>| pieces(list, ',').contains(p) && f(p) == Some(x);
    text::lemma_trimmed_twice(p);
}

/// A user is created only by an administrator and only with a name and a password. They are called
/// as the form calls them, and have the right of an administrator exactly where its box came with
/// the word of one that is ticked.
pub proof fn law_new_user_is_what_the_form_says(
    is_admin: bool,
    base_path: &str,
    form: CreateUserForm,
    r: Verdict<NewUser>,
)
    requires
        call_ensures(vet_new_user, (is_admin, base_path, &form), r),
    ensures
        r is Proceed <==> is_admin && trimmed(form.username@).len() > 0 && form.password@.len() > 0,
        r matches Verdict::Proceed(u) ==> {
            &&& u.username@ == trimmed(form.username@)
            &&& trimmed(form.display_name@).len() > 0 ==> u.display_name@ == trimmed(
                form.display_name@,
            )
            &&& trimmed(form.display_name@).len() == 0 ==> u.display_name@ == form.username@
            &&& u.is_admin == 1 <==> form.is_admin is Some && form.is_admin->0@ == "on"@
            &&& u.is_admin == 0 || u.is_admin == 1
            &&& u.language@ == "en"@ || u.language@ == "de"@
            &&& form.language@ == "en"@ || form.language@ == "de"@ ==> u.language@ == form.language@
            &&& form.language@ != "en"@ ==> u.language@ == "de"@
        },
{
    text::lemma_blank(form.username@);
    text::lemma_blank(form.display_name@);
}

/// A user who was created signs in with the password of their form, under the name of their form.
pub proof fn law_created_user_can_sign_in(
    is_admin: bool,
    base_path: &str,
    form: CreateUserForm,
    user: NewUser,
    hash: String,
)
    requires
        call_ensures(users_create, (is_admin, base_path, &form), Verdict::Proceed((user, hash))),
    ensures
        is_admin,
        password_verdict(hash@, form.password@) == Some(true),
        user.username@ == trimmed(form.username@),
        user.is_admin == 1 <==> form.is_admin is Some && form.is_admin->0@ == "on"@,
{
}

/// A password is changed only by whoever knows the one before, to one that was entered twice alike
/// and has at least eight bytes; the new hash is one of the new password.
pub proof fn law_password_changes_with_the_old_one(
    base_path: &str,
    form: ChangePasswordForm,
    stored: Option<&str>,
    hash: String,
)
    requires
        call_ensures(users_change_password, (base_path, &form, stored), Verdict::Proceed(hash)),
    ensures
        stored is Some,
        password_verdict(stored->0@, form.current_password@) == Some(true),
        form.new_password@ == form.confirm_password@,
        text::byte_len(form.new_password@) >= 8,
        form.current_password@.len() > 0,
        password_verdict(hash@, form.new_password@) == Some(true),
{
}

/// What is said of a form that changes a password is about what is wrong with it, and a form with
/// nothing wrong goes on.
pub proof fn law_password_form_is_judged(form: ChangePasswordForm, r: Option<&'static str>)
    requires
        call_ensures(vet_password_change, (&form,), r),
    ensures
        r is None <==> form.current_password@.len() > 0 && form.new_password@.len() > 0
            && form.new_password@ == form.confirm_password@ && text::byte_len(form.new_password@)
            >= 8,
        form.current_password@.len() > 0 && form.new_password@.len() > 0
            && form.confirm_password@.len() > 0 && form.new_password@ != form.confirm_password@
            ==> r is Some && r->0@ == "password_mismatch"@,
{
}

/// When a password changes, every session of that user ends but the one it was changed in, and no
/// session of anybody else does.
pub proof fn law_other_sessions_end(
    session_user: &str,
    session_id: &str,
    user_id: &str,
    current: Option<&str>,
    r: bool,
)
    requires
        call_ensures(session_is_revoked, (session_user, session_id, user_id, current), r),
    ensures
        session_user@ != user_id@ ==> !r,
        current is Some && current->0@ == session_id@ ==> !r,
        session_user@ == user_id@ && (current is None || current->0@ != session_id@) ==> r,
{
}

/// Nobody deletes their own account or changes their own rights, and nobody but an administrator
/// those of others; a right that is flipped twice is as before.
pub proof fn law_rights_are_those_of_others(
    is_admin: bool,
    user_id: &str,
    target_id: &str,
    current: i64,
    deleted: Verdict<String>,
    flipped: Verdict<i32>,
    back: Option<i32>,
)
    requires
        call_ensures(users_delete, (is_admin, user_id, target_id), deleted),
        call_ensures(users_toggle_admin, (is_admin, user_id, target_id, Some(current)), flipped),
        flipped is Proceed ==> call_ensures(
            flipped_admin,
            (Some(flipped->Proceed_0 as i64),),
            back,
        ),
    ensures
        deleted is Proceed <==> is_admin && user_id@ != target_id@,
        flipped is Proceed <==> is_admin && user_id@ != target_id@,
        deleted matches Verdict::Proceed(id) ==> id@ == target_id@,
        flipped matches Verdict::Proceed(v) ==> (v == 1 <==> current == 0) && (v == 0 <==> current
            != 0) && (back == Some(1i32) <==> current != 0),
{
}

/// The agents of a user are exactly those that are paired with them.
pub proof fn law_agents_are_the_users_own(
    access: Vec<(String, String)>,
    user_id: &str,
    r: Vec<String>,
    agent: Seq<char>,
)
    requires
        call_ensures(allowed_agents, (&access, user_id), r),
    ensures
        texts(r@).contains(agent) <==> (exists|i: int|
            0 <= i < access@.len() && (#[trigger] access@[i]).0@ == user_id@ && access@[i].1@
                == agent),
{
    let pairs = access_pairs(access@);
    let f = |p: (Seq<char>, Seq<char>)|
        if p.0 == user_id@ {
            Some(p.1)
        } else {
            None
        };
    assert(agents_of(pairs, user_id@) == pairs.filter_map(f));
    if texts(r@).contains(agent) {
        pairs.lemma_filter_map_contains(f, agent);
        let p = choose|p: (Seq<char>, Seq<char>)| pairs.contains(p) && f(p) == Some(agent);
        let i = choose|i: int| 0 <= i < pairs.len() && pairs[i] == p;
        assert(access@[i].0@ == user_id@ && access@[i].1@ == agent);
    }
    if exists|i: int|
        0 <= i < access@.len() && (#[trigger] access@[i]).0@ == user_id@ && access@[i].1@ == agent {
        let i = choose|i: int|
            0 <= i < access@.len() && (#[trigger] access@[i]).0@ == user_id@ && access@[i].1@
                == agent;
        assert(pairs[i] == (user_id@, agent));
        text::lemma_item_is_kept(pairs, f, i);
    }
}

/// The page of the users lists each stored user as they are, and only to administrators; it offers
/// no agent that everybody has.
pub proof fn law_users_are_listed_as_stored(
    is_admin: bool,
    stored: Vec<StoredUser>,
    access: Vec<(String, String)>,
    agents: Vec<AgentInfo>,
    query: UsersQuery,
    r: UsersPage,
    i: int,
)
    requires
        call_ensures(users_index, (is_admin, &stored, &access, &agents, &query), r),
    ensures
        !is_admin ==> r.users@.len() == 0 && r.all_agents@.len() == 0,
        is_admin ==> r.users@.len() == stored@.len(),
        is_admin && 0 <= i < stored@.len() ==> {
            &&& stored@[i].id is Some ==> r.users@[i].id@ == stored@[i].id->0@
            &&& r.users@[i].username@ == stored@[i].username@
            &&& r.users@[i].display_name@ == stored@[i].display_name@
            &&& r.users@[i].is_admin <==> stored@[i].is_admin != 0
            &&& r.users@[i].language@ == stored@[i].language@
            &&& r.users@[i].created_at@ == stored@[i].created_at@
        },
        0 <= i < r.all_agents@.len() ==> r.all_agents@[i].id@ != "default"@,
{
    if is_admin && 0 <= i < stored@.len() {
        assert(lists_user(r.users@[i], stored@, i, access_pairs(access@)));
    }
    if 0 <= i < r.all_agents@.len() {
        let f = |a: AgentInfo| grantable(a);
        let x = info_texts(r.all_agents@)[i];
        assert(info_texts(r.all_agents@).contains(x));
        agents@.lemma_filter_map_contains(f, x);
        let a = choose|a: AgentInfo| agents@.contains(a) && f(a) == Some(x);
        assert(x.0 == r.all_agents@[i].id@);
    }
}

/// A language is set only by an administrator, and is one that there is.
pub proof fn law_language_is_one_there_is(is_admin: bool, form: SetLanguageForm, r: Verdict<String>)
    requires
        call_ensures(users_set_language, (is_admin, &form), r),
    ensures
        r is Proceed <==> is_admin,
        r matches Verdict::Proceed(l) ==> (l@ == "en"@ <==> form.language@ == "en"@) && (l@ == "de"@
            || l@ == "en"@),
{
    reveal_strlit("en");
    reveal_strlit("de");
    assert("en"@[0] != "de"@[0]);
}

/// A password is changed only by whoever has the right current one; a wrong one is told as such, and
/// one that could not be checked as that.
pub proof fn law_current_password_is_judged(check: Option<PasswordCheck>, r: Option<&'static str>)
    requires
        call_ensures(judge_current, (check,), r),
    ensures
        r is None <==> check == Some(PasswordCheck::Belongs),
        check == Some(PasswordCheck::Differs) ==> r is Some && r->0@ == "wrong_current_password"@,
        check is None || check == Some(PasswordCheck::NoHash) ==> r is Some && r->0@
            == "verify_failed"@,
{
}

/// A change that was made is shown, and one that failed is told as a failure.
pub proof fn law_changes_are_shown(
    base_path: &str,
    id: &str,
    is_admin: i32,
    language: &str,
    done: bool,
    toggled: WebAnswer,
    badge: String,
    set: WebAnswer,
    choice: String,
)
    requires
        call_ensures(admin_toggled, (base_path, id, is_admin, done), toggled),
        call_ensures(admin_badge, (base_path, id, is_admin == 1), badge),
        call_ensures(language_set, (base_path, id, language, done), set),
        call_ensures(language_select, (base_path, id, language), choice),
    ensures
        done ==> toggled@ == Sent::Html(badge@) && set@ == Sent::Html(choice@),
        !done ==> toggled@ == Sent::Status(500) && set@ == Sent::Status(500),
{
}

} // verus!
