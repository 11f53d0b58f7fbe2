//! The pipes that messages come in and go out through.
use vstd::prelude::*;
use vstd::string::*;
use crate::text;
use crate::text::{blank, opt_text, trimmed};
use crate::web::integrations::ImessageDetail;
use crate::web::people;
use crate::web::people::{StoredName, UserOption};
use crate::web::response;
use crate::web::response::{Sent, Verdict, WebAnswer};
use crate::web::text_map::TextMap;
use crate::web::url;
use crate::web::url::percent_encoded;

verus! {

#[derive(Debug, Clone)]
pub struct ImessagePipeView {
    pub config_id: String,
    pub name: String,
    pub server_url: String,
    pub owner_name: String,
}

#[derive(Debug, Clone)]
pub struct OtherPipeView {
    pub id: String,
    pub name: String,
    pub transport: String,
    pub owner_name: String,
}

/// What is shown of a pipe that was just created.
pub struct PipeCreatedFlash {
    pub pipe_id: String,
    pub inbound_token: String,
    pub inbound_url: String,
}

#[derive(Debug)]
pub struct PipesQuery {
    pub created: Option<String>,
    pub pipe_id: Option<String>,
    pub token: Option<String>,
    pub error: Option<String>,
    pub msg: Option<String>,
}

#[derive(Debug)]
pub struct WebhookCreateForm {
    pub user_id: String,
    pub name: String,
    pub outbound_url: String,
    pub outbound_auth: Option<String>,
}

#[derive(Debug)]
pub struct WebCreateForm {
    pub user_id: String,
    pub name: String,
}

#[derive(Debug)]
pub struct SimpleErrorQuery {
    pub error: Option<String>,
}

/// A pipe as stored.
pub struct PipeRow {
    pub id: Option<String>,
    pub user_id: String,
    pub name: String,
    pub transport: String,
    pub active: i64,
}

// ── The list ─────────────────────────────────────────────────────────────────

/// The ID of a pipe, or nothing.
pub open spec fn pipe_id_of(row: PipeRow) -> Seq<char> {
    match opt_text(row.id) {
        Some(i) => i,
        None => Seq::empty(),
    }
}

/// The name of the user that owns a pipe: by way of the pipe's owner and the names
/// of the users, as far as they are known.
pub open spec fn owner_of(owners: TextMap, names: TextMap, pipe_id: Seq<char>) -> Seq<char> {
    match owners.at(pipe_id) {
        Some(user) => match names.at(user) {
            Some(name) => name,
            None => Seq::empty(),
        },
        None => Seq::empty(),
    }
}

/// The name of the user that owns a pipe.
pub fn owner_name(owners: &TextMap, names: &TextMap, pipe_id: &str) -> (r: String)
    ensures
        r@ == owner_of(*owners, *names, pipe_id@),
{
    match owners.get(pipe_id) {
        Some(user) => match names.get(user.as_str()) {
            Some(name) => name,
            None => String::new(),
        },
        None => String::new(),
    }
}

/// Whether a list of configurations has one of a pipe.
pub open spec fn has_config(configs: Seq<ImessageDetail>, pipe_id: Seq<char>) -> bool {
    exists|i: int| 0 <= i < configs.len() && (#[trigger] configs[i]).pipe_id@ == pipe_id
}

/// Whether a list of configurations has one of a pipe.
fn is_configured(configs: &Vec<ImessageDetail>, pipe_id: &str) -> (r: bool)
    ensures
        r == has_config(configs@, pipe_id@),
{
    let mut i: usize = 0;
    while i < configs.len()
        invariant
            i <= configs@.len(),
            forall|j: int| 0 <= j < i ==> (#[trigger] configs@[j]).pipe_id@ != pipe_id@,
        decreases configs@.len() - i,
    {
        if text::same(configs[i].pipe_id.as_str(), pipe_id) {
            return true;
        }
        i += 1;
    }
    false
}

/// An iMessage pipe as listed, as a value: its configuration, name, server and
/// owner.
pub open spec fn imessage_entry(c: ImessageDetail, owners: TextMap, names: TextMap) -> Option<
    (Seq<char>, Seq<char>, Seq<char>, Seq<char>),
> {
    if c.active {
        Some((c.config_id@, c.name@, c.server_url@, owner_of(owners, names, c.pipe_id@)))
    } else {
        None
    }
}

/// The entries that a list of iMessage pipes holds.
pub open spec fn imessage_entries(v: Seq<ImessagePipeView>) -> Seq<
    (Seq<char>, Seq<char>, Seq<char>, Seq<char>),
> {
    v.map_values(
        |p: ImessagePipeView| (p.config_id@, p.name@, p.server_url@, p.owner_name@),
    )
}

/// The active iMessage pipes.
pub fn imessage_pipes(configs: &Vec<ImessageDetail>, owners: &TextMap, names: &TextMap) -> (r: Vec<
    ImessagePipeView,
>)
    ensures
        imessage_entries(r@) == configs@.filter_map(
            |c: ImessageDetail| imessage_entry(c, *owners, *names),
        ),
{
    let ghost f = |c: ImessageDetail| imessage_entry(c, *owners, *names);
    let mut out: Vec<ImessagePipeView> = Vec::new();
    let mut i: usize = 0;
    proof {
        assert(imessage_entries(out@) =~= configs@.take(0).filter_map(f));
    }
    while i < configs.len()
        invariant
            i <= configs@.len(),
            f == (|c: ImessageDetail| imessage_entry(c, *owners, *names)),
            imessage_entries(out@) == configs@.take(i as int).filter_map(f),
        decreases configs@.len() - i,
    {
        let ghost before = imessage_entries(out@);
        proof {
            configs@.lemma_filter_map_take_succ(f, i as int);
            assert(before + Seq::<(Seq<char>, Seq<char>, Seq<char>, Seq<char>)>::empty()
                =~= before);
        }
        let c = &configs[i];
        if c.active {
            let v = ImessagePipeView {
                config_id: c.config_id.clone(),
                name: c.name.clone(),
                server_url: c.server_url.clone(),
                owner_name: owner_name(owners, names, c.pipe_id.as_str()),
            };
            let ghost e = (v.config_id@, v.name@, v.server_url@, v.owner_name@);
            out.push(v);
            proof {
                assert(imessage_entries(out@) =~= before.push(e));
                assert(before + seq![e] =~= before.push(e));
            }
        }
        i += 1;
    }
    proof {
        assert(configs@.take(i as int) =~= configs@);
    }
    out
}

/// Another pipe as listed, as a value: its ID, name, transport and owner.
pub open spec fn other_entry(row: PipeRow, configs: Seq<ImessageDetail>, names: TextMap) -> Option<
    (Seq<char>, Seq<char>, Seq<char>, Seq<char>),
> {
    if has_config(configs, pipe_id_of(row)) || row.active == 0 {
        None
    } else {
        Some(
            (
                pipe_id_of(row),
                row.name@,
                row.transport@,
                match names.at(row.user_id@) {
                    Some(n) => n,
                    None => Seq::empty(),
                },
            ),
        )
    }
}

/// The entries that a list of other pipes holds.
pub open spec fn other_entries(v: Seq<OtherPipeView>) -> Seq<
    (Seq<char>, Seq<char>, Seq<char>, Seq<char>),
> {
    v.map_values(|p: OtherPipeView| (p.id@, p.name@, p.transport@, p.owner_name@))
}

/// The active pipes that are not iMessage pipes.
pub fn other_pipes(rows: &Vec<PipeRow>, configs: &Vec<ImessageDetail>, names: &TextMap) -> (r: Vec<
    OtherPipeView,
>)
    ensures
        other_entries(r@) == rows@.filter_map(|p: PipeRow| other_entry(p, configs@, *names)),
{
    let ghost f = |p: PipeRow| other_entry(p, configs@, *names);
    let mut out: Vec<OtherPipeView> = Vec::new();
    let mut i: usize = 0;
    proof {
        assert(other_entries(out@) =~= rows@.take(0).filter_map(f));
    }
    while i < rows.len()
        invariant
            i <= rows@.len(),
            f == (|p: PipeRow| other_entry(p, configs@, *names)),
            other_entries(out@) == rows@.take(i as int).filter_map(f),
        decreases rows@.len() - i,
    {
        let ghost before = other_entries(out@);
        proof {
            rows@.lemma_filter_map_take_succ(f, i as int);
            assert(before + Seq::<(Seq<char>, Seq<char>, Seq<char>, Seq<char>)>::empty()
                =~= before);
        }
        let id = match &rows[i].id {
            Some(v) => v.clone(),
            None => String::new(),
        };
        if !is_configured(configs, id.as_str()) && rows[i].active != 0 {
            let owner_name = match names.get(rows[i].user_id.as_str()) {
                Some(n) => n,
                None => String::new(),
            };
            let v = OtherPipeView {
                id,
                name: rows[i].name.clone(),
                transport: rows[i].transport.clone(),
                owner_name,
            };
            let ghost e = (v.id@, v.name@, v.transport@, v.owner_name@);
            out.push(v);
            proof {
                assert(other_entries(out@) =~= before.push(e));
                assert(before + seq![e] =~= before.push(e));
            }
        }
        i += 1;
    }
    proof {
        assert(rows@.take(i as int) =~= rows@);
    }
    out
}

/// Whether a flash shows what a query says of a pipe that was just created.
pub open spec fn flashes(query: PipesQuery, r: Option<PipeCreatedFlash>) -> bool {
    match (opt_text(query.created), opt_text(query.pipe_id), opt_text(query.token)) {
        (Some(c), Some(id), Some(token)) if c == "1"@ => r matches Some(f) && f.pipe_id@ == id
            && f.inbound_token@ == token && f.inbound_url@ == "/api/pipes/"@ + id + "/inbound"@,
        _ => r is None,
    }
}

/// The page of the pipes.
pub struct PipesPage {
    pub imessage_pipes: Vec<ImessagePipeView>,
    pub other_pipes: Vec<OtherPipeView>,
    pub flash: Option<PipeCreatedFlash>,
    pub msg: Option<String>,
    pub error: Option<String>,
}

/// The page of the pipes: the active ones, each with the name of its owner, and what is
/// shown of one that was just created. `owners` gives the owner of each pipe, and `names`
/// the name of each user.
pub fn pipes_index(
    configs: &Vec<ImessageDetail>,
    rows: &Vec<PipeRow>,
    owners: &TextMap,
    names: &TextMap,
    query: PipesQuery,
) -> (r: PipesPage)
    ensures
        r.msg == query.msg,
        r.error == query.error,
        imessage_entries(r.imessage_pipes@) == configs@.filter_map(
            |c: ImessageDetail| imessage_entry(c, *owners, *names),
        ),
        other_entries(r.other_pipes@) == rows@.filter_map(
            |p: PipeRow| other_entry(p, configs@, *names),
        ),
        flashes(query, r.flash),
{
    PipesPage {
        imessage_pipes: imessage_pipes(configs, owners, names),
        other_pipes: other_pipes(rows, configs, names),
        flash: created_flash(&query),
        msg: query.msg,
        error: query.error,
    }
}

/// What is shown of a pipe that was just created, where the address says that one
/// was and names it with its token.
pub fn created_flash(query: &PipesQuery) -> (r: Option<PipeCreatedFlash>)
    ensures
        flashes(*query, r),
{
    let created = match &query.created {
        Some(c) => text::same(c.as_str(), "1"),
        None => false,
    };
    if !created {
        return None;
    }
    match (&query.pipe_id, &query.token) {
        (Some(id), Some(token)) => {
            let mut url = "/api/pipes/".to_string();
            url.append(id.as_str());
            url.append("/inbound");
            Some(
                PipeCreatedFlash {
                    pipe_id: id.clone(),
                    inbound_token: token.clone(),
                    inbound_url: url,
                },
            )
        },
        _ => None,
    }
}

/// The page that creates a pipe: who can own it, and what went wrong.
#[derive(Debug)]
pub struct NewPipePage {
    pub users: Vec<UserOption>,
    pub error: Option<String>,
}

/// Whether a page offers the stored users as owners of a pipe.
pub open spec fn offers_owners(
    page: NewPipePage,
    rows: Seq<StoredName>,
    query: SimpleErrorQuery,
) -> bool {
    &&& page.users@.len() == rows.len()
    &&& forall|i: int|
        0 <= i < rows.len() ==> people::offers_user(#[trigger] page.users@[i], rows[i])
    &&& page.error == query.error
}

/// The page that creates a webhook pipe.
pub fn pipes_webhook_new(rows: Vec<StoredName>, query: SimpleErrorQuery) -> (r: NewPipePage)
    ensures
        offers_owners(r, rows@, query),
{
    NewPipePage { users: people::user_options(rows), error: query.error }
}

/// The page that creates a pipe to the browser.
pub fn pipes_web_new(rows: Vec<StoredName>, query: SimpleErrorQuery) -> (r: NewPipePage)
    ensures
        offers_owners(r, rows@, query),
{
    NewPipePage { users: people::user_options(rows), error: query.error }
}

// ── Creating one ─────────────────────────────────────────────────────────────

/// A pipe to store, but for its ID and its token.
#[derive(Debug, PartialEq, Eq)]
pub struct NewPipe {
    pub user_id: String,
    pub name: String,
    pub transport: &'static str,
    pub outbound_url: String,
    pub outbound_auth: Option<String>,
    /// The agent that answers; the default one where there is none.
    pub default_agent_id: Option<String>,
}

impl NewPipe {
    /// Whether a pipe is stored with an owner, a name, a transport, an address that answers
    /// go to, and an authorization. The default agent answers.
    pub open spec fn is_stored(
        self,
        user_id: Seq<char>,
        name: Seq<char>,
        transport: Seq<char>,
        outbound_url: Seq<char>,
        outbound_auth: Option<Seq<char>>,
    ) -> bool {
        &&& self.user_id@ == user_id
        &&& self.name@ == name
        &&& self.transport@ == transport
        &&& self.outbound_url@ == outbound_url
        &&& opt_text(self.outbound_auth) == outbound_auth
        &&& self.default_agent_id is None
    }
}

/// The webhook pipe that a form asks for.
pub fn pipes_webhook_create(form: &WebhookCreateForm) -> (r: Verdict<NewPipe>)
    ensures
        if blank(form.name@) || form.user_id@.len() == 0 || blank(form.outbound_url@) {
            r.answers(
                Sent::Redirect(
                    "/pipes/webhook/new?error=Name%2C+owner%2C+and+outbound+URL+are+required."@,
                ),
            )
        } else {
            r matches Verdict::Proceed(p) && p.is_stored(
                form.user_id@,
                form.name@,
                "webhook"@,
                form.outbound_url@,
                match opt_text(form.outbound_auth) {
                    Some(v) if v.len() > 0 => Some(v),
                    _ => None,
                },
            )
        },
{
    if text::is_blank(form.name.as_str()) || form.user_id.as_str().is_empty() || text::is_blank(
        form.outbound_url.as_str(),
    ) {
        return Verdict::Answer(
            WebAnswer::Redirect(
                "/pipes/webhook/new?error=Name%2C+owner%2C+and+outbound+URL+are+required.".to_string(),
            ),
        );
    }
    let auth = match &form.outbound_auth {
        Some(v) => if v.as_str().is_empty() {
            None
        } else {
            Some(v.clone())
        },
        None => None,
    };
    Verdict::Proceed(
        NewPipe {
            user_id: form.user_id.clone(),
            name: form.name.clone(),
            transport: "webhook",
            outbound_url: form.outbound_url.clone(),
            outbound_auth: auth,
            default_agent_id: None,
        },
    )
}

/// Where a webhook pipe that was to be created leads: to the pipes, with its ID
/// and its token.
pub fn webhook_created(id: &str, token: &str, done: bool) -> (r: WebAnswer)
    ensures
        r@ == Sent::Redirect(
            if done {
                "/pipes?created=1&pipe_id="@ + percent_encoded(id@) + "&token="@ + percent_encoded(
                    token@,
                )
            } else {
                "/pipes/webhook/new?error=Failed+to+create+pipe.+Please+try+again."@
            },
        ),
{
    if done {
        let mut to = "/pipes?created=1&pipe_id=".to_string();
        let i = url::encode(id);
        to.append(i.as_str());
        to.append("&token=");
        let t = url::encode(token);
        to.append(t.as_str());
        WebAnswer::Redirect(to)
    } else {
        WebAnswer::Redirect(
            "/pipes/webhook/new?error=Failed+to+create+pipe.+Please+try+again.".to_string(),
        )
    }
}

/// The web pipe that a form asks for: its answers are shown in the browser.
pub fn pipes_web_create(form: &WebCreateForm) -> (r: Verdict<NewPipe>)
    ensures
        if blank(form.name@) || form.user_id@.len() == 0 {
            r.answers(
                Sent::Redirect("/pipes/web/new?error=Name+and+owner+are+required."@),
            )
        } else {
            r matches Verdict::Proceed(p) && p.is_stored(
                form.user_id@,
                form.name@,
                "web"@,
                "internal://web"@,
                None,
            )
        },
{
    if text::is_blank(form.name.as_str()) || form.user_id.as_str().is_empty() {
        return Verdict::Answer(
            WebAnswer::Redirect("/pipes/web/new?error=Name+and+owner+are+required.".to_string()),
        );
    }
    Verdict::Proceed(
        NewPipe {
            user_id: form.user_id.clone(),
            name: form.name.clone(),
            transport: "web",
            outbound_url: "internal://web".to_string(),
            outbound_auth: None,
            default_agent_id: None,
        },
    )
}

/// Where a web pipe that was to be created leads.
pub fn web_created(name: &str, done: bool) -> (r: WebAnswer)
    ensures
        r@ == Sent::Redirect(
            if done {
                "/pipes?msg=Web+pipe+%22"@ + percent_encoded(name@)
                    + "%22+created.+Go+to+Chat+to+start+talking."@
            } else {
                "/pipes/web/new?error=Failed+to+create+pipe.+Please+try+again."@
            },
        ),
{
    if done {
        let mut to = "/pipes?msg=Web+pipe+%22".to_string();
        let n = url::encode(name);
        to.append(n.as_str());
        to.append("%22+created.+Go+to+Chat+to+start+talking.");
        WebAnswer::Redirect(to)
    } else {
        WebAnswer::Redirect(
            "/pipes/web/new?error=Failed+to+create+pipe.+Please+try+again.".to_string(),
        )
    }
}

// ── Laws ─────────────────────────────────────────────────────────────────────

/// A webhook pipe is the form's: of its owner, under its name, with answers going to its address and
/// with its authorization, where it has one. The default agent answers.
pub proof fn law_webhook_pipe_is_what_the_form_says(
    form: WebhookCreateForm,
    r: Verdict<NewPipe>,
)
    requires
        call_ensures(pipes_webhook_create, (&form,), r),
    ensures
        r is Proceed <==> trimmed(form.name@).len() > 0 && form.user_id@.len() > 0 && trimmed(
            form.outbound_url@,
        ).len() > 0,
        r matches Verdict::Proceed(p) ==> {
            &&& p.user_id@ == form.user_id@
            &&& p.name@ == form.name@
            &&& p.transport@ == "webhook"@
            &&& p.outbound_url@ == form.outbound_url@
            &&& p.outbound_auth is Some <==> form.outbound_auth is Some
                && form.outbound_auth->0@.len() > 0
            &&& p.outbound_auth is Some ==> p.outbound_auth->0@ == form.outbound_auth->0@
            &&& p.default_agent_id is None
        },
{
    text::lemma_blank(form.name@);
    text::lemma_blank(form.outbound_url@);
}

/// A pipe of the web is the form's: of its owner and under its name, and answers stay inside.
pub proof fn law_web_pipe_is_what_the_form_says(form: WebCreateForm, r: Verdict<NewPipe>)
    requires
        call_ensures(pipes_web_create, (&form,), r),
    ensures
        r is Proceed <==> trimmed(form.name@).len() > 0 && form.user_id@.len() > 0,
        r matches Verdict::Proceed(p) ==> {
            &&& p.user_id@ == form.user_id@
            &&& p.name@ == form.name@
            &&& p.transport@ == "web"@
            &&& p.outbound_url@ == "internal://web"@
            &&& p.outbound_auth is None
            &&& p.default_agent_id is None
        },
{
    text::lemma_blank(form.name@);
}

/// An active pipe is listed exactly once: among those of a server where it has one, else among the
/// others; each entry shows the pipe's own name, and its owner's. One that is not active is not
/// listed.
pub proof fn law_active_pipes_are_listed(
    configs: Vec<ImessageDetail>,
    rows: Vec<PipeRow>,
    owners: TextMap,
    names: TextMap,
    query: PipesQuery,
    r: PipesPage,
    i: int,
)
    requires
        call_ensures(pipes_index, (&configs, &rows, &owners, &names, query), r),
        0 <= i < rows@.len(),
        rows@[i].active != 0,
        rows@[i].id is Some,
        forall|k: int|
            0 <= k < configs@.len() ==> (#[trigger] configs@[k]).pipe_id@ != rows@[i].id->0@,
    ensures
        exists|k: int|
            0 <= k < r.other_pipes@.len() && {
                let v = #[trigger] r.other_pipes@[k];
                &&& v.id@ == rows@[i].id->0@
                &&& v.name@ == rows@[i].name@
                &&& v.transport@ == rows@[i].transport@
                &&& names.at(rows@[i].user_id@) is Some ==> Some(v.owner_name@) == names.at(
                    rows@[i].user_id@,
                )
            },
{
    let f = |p: PipeRow| other_entry(p, configs@, names);
    text::lemma_item_is_kept(rows@, f, i);
    let x = f(rows@[i])->0;
    let views = other_entries(r.other_pipes@);
    let k = choose|k: int| 0 <= k < views.len() && views[k] == x;
    let v = r.other_pipes@[k];
    assert(views[k] == (v.id@, v.name@, v.transport@, v.owner_name@));
}

/// What is listed of a server's pipes is an active one, by its own name and address, with the name of
/// the owner of its pipe.
pub proof fn law_listed_server_pipes_are_active(
    configs: Vec<ImessageDetail>,
    owners: TextMap,
    names: TextMap,
    r: Vec<ImessagePipeView>,
    k: int,
)
    requires
        call_ensures(imessage_pipes, (&configs, &owners, &names), r),
        0 <= k < r@.len(),
    ensures
        exists|i: int|
            0 <= i < configs@.len() && {
                let c = #[trigger] configs@[i];
                &&& c.active
                &&& r@[k].config_id@ == c.config_id@
                &&& r@[k].name@ == c.name@
                &&& r@[k].server_url@ == c.server_url@
                &&& owners.at(c.pipe_id@) is Some && names.at(owners.at(c.pipe_id@)->0) is Some
                    ==> Some(r@[k].owner_name@) == names.at(owners.at(c.pipe_id@)->0)
            },
{
    let f = |c: ImessageDetail| imessage_entry(c, owners, names);
    let views = imessage_entries(r@);
    let v = r@[k];
    let x = (v.config_id@, v.name@, v.server_url@, v.owner_name@);
    assert(views[k] == x);
    assert(views.contains(x));
    configs@.lemma_filter_map_contains(f, x);
    let c = choose|c: ImessageDetail| configs@.contains(c) && f(c) == Some(x);
    let i = choose|i: int| 0 <= i < configs@.len() && configs@[i] == c;
    assert(configs@[i].active);
}

/// A pipe that was just created is shown with its own ID and token, and the address that messages
/// for it are handed in at.
pub proof fn law_created_pipe_is_shown(query: PipesQuery, r: Option<PipeCreatedFlash>)
    requires
        call_ensures(created_flash, (&query,), r),
    ensures
        r is Some <==> query.created is Some && query.created->0@ == "1"@ && query.pipe_id is Some
            && query.token is Some,
        r matches Some(f) ==> f.pipe_id@ == query.pipe_id->0@ && f.inbound_token@ == query.token->0@
            && f.inbound_url@ == "/api/pipes/"@ + query.pipe_id->0@ + "/inbound"@,
{
}

} // verus!
