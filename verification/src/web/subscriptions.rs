//! Subscriptions to events, and what each sets off.
use vstd::prelude::*;
use vstd::string::*;
use crate::text;
use crate::text::{blank, opt_str, opt_text, trimmed};
use crate::web::people::UserOption;
use crate::web::response;
use crate::web::response::{Sent, Verdict, WebAnswer};

verus! {

#[derive(Debug, Clone)]
pub struct SubView {
    pub id: String,
    pub user_id: String,
    pub username: String,
    pub event_type: String,
    pub reaction_type: String,
    pub reaction_config: String,
    pub filter_expression: String,
    pub active: bool,
    pub created_at: String,
}

#[derive(Debug)]
pub struct SubsQuery {
    pub error: Option<String>,
    pub success: Option<String>,
}

#[derive(Debug)]
pub struct CreateSubForm {
    pub user_id: String,
    pub event_type: String,
    pub reaction_type: String,
    pub reaction_config: String,
    pub filter_expression: Option<String>,
    pub filter_description: Option<String>,
}

/// A subscription as stored.
pub struct SubRow {
    pub id: Option<String>,
    pub user_id: String,
    pub username: Option<String>,
    pub event_type: String,
    pub reaction_type: String,
    pub reaction_config_json: String,
    pub filter_expression: Option<String>,
    pub active: i64,
    pub created_at: String,
}

/// A subscription as listed, as a value.
pub struct Listed {
    pub id: Seq<char>,
    pub user_id: Seq<char>,
    pub username: Seq<char>,
    pub event_type: Seq<char>,
    pub reaction_type: Seq<char>,
    pub reaction_config: Seq<char>,
    pub filter_expression: Seq<char>,
    pub active: bool,
    pub created_at: Seq<char>,
}

impl SubView {
    pub open spec fn view(&self) -> Listed {
        Listed {
            id: self.id@,
            user_id: self.user_id@,
            username: self.username@,
            event_type: self.event_type@,
            reaction_type: self.reaction_type@,
            reaction_config: self.reaction_config@,
            filter_expression: self.filter_expression@,
            active: self.active,
            created_at: self.created_at@,
        }
    }
}

/// What a stored subscription is listed as: one without an ID is left out, and one of a
/// user who is gone shows their ID.
pub open spec fn listed_sub(row: SubRow) -> Option<Listed> {
    match opt_text(row.id) {
        None => None,
        Some(id) => Some(
            Listed {
                id,
                user_id: row.user_id@,
                username: match opt_text(row.username) {
                    Some(n) => n,
                    None => row.user_id@,
                },
                event_type: row.event_type@,
                reaction_type: row.reaction_type@,
                reaction_config: row.reaction_config_json@,
                filter_expression: match opt_text(row.filter_expression) {
                    Some(f) => f,
                    None => Seq::empty(),
                },
                active: row.active != 0,
                created_at: row.created_at@,
            },
        ),
    }
}

/// A subscription as listed: one without an ID is left out, and one of a user who
/// is gone shows their ID.
pub fn sub_view(row: SubRow) -> (r: Option<SubView>)
    ensures
        match r {
            Some(v) => Some(v@),
            None => None,
        } == listed_sub(row),
{
    let id = match row.id {
        Some(id) => id,
        None => {
            return None;
        },
    };
    let username = match row.username {
        Some(n) => n,
        None => row.user_id.clone(),
    };
    Some(
        SubView {
            id,
            user_id: row.user_id,
            username,
            event_type: row.event_type,
            reaction_type: row.reaction_type,
            reaction_config: row.reaction_config_json,
            filter_expression: match row.filter_expression {
                Some(f) => f,
                None => String::new(),
            },
            active: row.active != 0,
            created_at: row.created_at,
        },
    )
}

/// The subscriptions that a list shows.
pub open spec fn sub_entries(v: Seq<SubView>) -> Seq<Listed> {
    v.map_values(|s: SubView| s@)
}

/// The page of the subscriptions.
#[derive(Debug)]
pub struct SubsPage {
    pub subs: Vec<SubView>,
    pub users: Vec<UserOption>,
    pub error: Option<String>,
    pub success: Option<String>,
}

/// The page of the subscriptions, for administrators; others are led to the chat.
pub fn subscriptions_index(
    is_admin: bool,
    base_path: &str,
    rows: Vec<SubRow>,
    users: Vec<UserOption>,
    query: SubsQuery,
) -> (r: Verdict<SubsPage>)
    ensures
        if is_admin {
            r matches Verdict::Proceed(p) && sub_entries(p.subs@) == rows@.filter_map(
                |row: SubRow| listed_sub(row),
            ) && p.users == users && p.error == query.error && p.success == query.success
        } else {
            r.answers(Sent::Redirect(base_path@ + "/chat"@))
        },
{
    if !is_admin {
        return Verdict::Answer(response::redirect(base_path, "/chat"));
    }
    let ghost f = |row: SubRow| listed_sub(row);
    let mut out: Vec<SubView> = Vec::new();
    proof {
        assert(sub_entries(out@) =~= rows@.take(0).filter_map(f));
    }
    for row in it: rows
        invariant
            f == (|row: SubRow| listed_sub(row)),
            it.seq() == rows@,
            sub_entries(out@) == rows@.take(it.index() as int).filter_map(f),
    {
        let ghost before = sub_entries(out@);
        proof {
            rows@.lemma_filter_map_take_succ(f, it.index() as int);
            assert(before + Seq::<Listed>::empty() =~= before);
        }
        if let Some(v) = sub_view(row) {
            let ghost e = v@;
            out.push(v);
            proof {
                assert(sub_entries(out@) =~= before.push(e));
                assert(before + seq![e] =~= before.push(e));
            }
        }
    }
    proof {
        assert(rows@.take(rows@.len() as int) =~= rows@);
    }
    Verdict::Proceed(
        SubsPage { subs: out, users, error: query.error, success: query.success },
    )
}

// ── Creating one ─────────────────────────────────────────────────────────────

/// The text that `serde_json` gives for the value that it finds in a text; nothing
/// where it finds none.
pub uninterp spec fn json_text(s: Seq<char>) -> Option<Seq<char>>;

/// `serde_json::from_str`: the value in a text, written out again, named by
/// `json_text`.
#[verifier::external_body]
pub(crate) fn rewrite_json(s: &str) -> (r: Option<String>)
    ensures
        opt_text(r) == json_text(s@),
{
    match serde_json::from_str::<serde_json::Value>(s) {
        Ok(v) => Some(v.to_string()),
        Err(_) => None,
    }
}

/// Where the filter of a subscription comes from.
pub enum FilterSource {
    /// It was given as an expression.
    Given(String),
    /// It was described, and is to be put into an expression.
    Described(String),
    /// There is none.
    Missing,
}

/// A subscription to create.
pub struct NewSubscription {
    pub user_id: String,
    pub event_type: String,
    pub reaction_type: String,
    pub config_json: String,
    pub filter_description: Option<String>,
    pub filter: FilterSource,
}

/// What is wrong with the fields of a form, but for its configuration.
pub open spec fn form_fault(form: CreateSubForm) -> Option<Seq<char>> {
    if form.user_id@.len() == 0 || blank(form.event_type@) || form.reaction_type@.len() == 0 {
        Some("/subscriptions?error=User%2C+event+type%2C+and+reaction+type+are+required."@)
    } else if form.reaction_type@ != "pipe_notification"@ && form.reaction_type@
        != "agent_invocation"@ {
        Some("/subscriptions?error=Invalid+reaction+type."@)
    } else {
        None
    }
}

/// A text, where it is there and not empty.
pub open spec fn if_filled(o: Option<Seq<char>>) -> Option<Seq<char>> {
    match o {
        Some(v) if v.len() > 0 => Some(v),
        _ => None,
    }
}

/// A text, where it is there and not empty.
fn filled(o: &Option<String>) -> (r: Option<String>)
    ensures
        opt_text(r) == if_filled(opt_text(*o)),
{
    match o {
        Some(v) => if v.as_str().is_empty() {
            None
        } else {
            Some(v.clone())
        },
        None => None,
    }
}

/// Whether a subscription to create is the one that a form asks for: an expression
/// for its filter goes before a description of it.
pub open spec fn is_asked_for(s: NewSubscription, form: CreateSubForm, json: Seq<char>) -> bool {
    &&& s.user_id@ == form.user_id@
    &&& s.event_type@ == form.event_type@
    &&& s.reaction_type@ == form.reaction_type@
    &&& s.config_json@ == json
    &&& opt_text(s.filter_description) == if_filled(opt_text(form.filter_description))
    &&& match (
        if_filled(opt_text(form.filter_expression)),
        if_filled(opt_text(form.filter_description)),
    ) {
        (Some(e), _) => s.filter matches FilterSource::Given(t) && t@ == e,
        (None, Some(d)) => s.filter matches FilterSource::Described(t) && t@ == d,
        (None, None) => s.filter is Missing,
    }
}

/// The subscription that a form asks for, whose configuration was read as JSON.
pub fn accept_subscription(base_path: &str, form: &CreateSubForm, config_json: Option<String>) -> (r:
    Verdict<NewSubscription>)
    ensures
        match form_fault(*form) {
            Some(e) => r.answers(Sent::Redirect(base_path@ + e)),
            None => match opt_text(config_json) {
                None => r.answers(
                    Sent::Redirect(
                        base_path@
                            + "/subscriptions?error=Reaction+config+must+be+valid+JSON."@,
                    ),
                ),
                Some(json) => r matches Verdict::Proceed(s) && is_asked_for(s, *form, json),
            },
        },
{
    if form.user_id.as_str().is_empty() || text::is_blank(form.event_type.as_str())
        || form.reaction_type.as_str().is_empty() {
        return Verdict::Answer(
            response::redirect(
                base_path,
                "/subscriptions?error=User%2C+event+type%2C+and+reaction+type+are+required.",
            ),
        );
    }
    if !text::same(form.reaction_type.as_str(), "pipe_notification") && !text::same(
        form.reaction_type.as_str(),
        "agent_invocation",
    ) {
        return Verdict::Answer(
            response::redirect(base_path, "/subscriptions?error=Invalid+reaction+type."),
        );
    }
    let config_json = match config_json {
        Some(j) => j,
        None => {
            return Verdict::Answer(
                response::redirect(
                    base_path,
                    "/subscriptions?error=Reaction+config+must+be+valid+JSON.",
                ),
            );
        },
    };
    let filter_description = filled(&form.filter_description);
    let filter = match filled(&form.filter_expression) {
        Some(e) => FilterSource::Given(e),
        None => match &filter_description {
            Some(d) => FilterSource::Described(d.clone()),
            None => FilterSource::Missing,
        },
    };
    Verdict::Proceed(
        NewSubscription {
            user_id: form.user_id.clone(),
            event_type: form.event_type.clone(),
            reaction_type: form.reaction_type.clone(),
            config_json,
            filter_description,
            filter,
        },
    )
}

/// The subscription that a form asks for.
pub fn subscriptions_create(is_admin: bool, base_path: &str, form: &CreateSubForm) -> (r: Verdict<
    NewSubscription,
>)
    ensures
        if !is_admin {
            r.answers(Sent::Status(response::FORBIDDEN))
        } else {
            match form_fault(*form) {
                Some(e) => r.answers(Sent::Redirect(base_path@ + e)),
                None => match json_text(form.reaction_config@) {
                    None => r.answers(
                        Sent::Redirect(
                            base_path@
                                + "/subscriptions?error=Reaction+config+must+be+valid+JSON."@,
                        ),
                    ),
                    Some(json) => r matches Verdict::Proceed(s) && is_asked_for(s, *form, json),
                },
            }
        },
{
    if !is_admin {
        return Verdict::Answer(WebAnswer::Status(response::FORBIDDEN));
    }
    accept_subscription(base_path, form, rewrite_json(form.reaction_config.as_str()))
}

/// What a language model is told before it is asked for an expression.
pub const FILTER_INSTRUCTIONS: &'static str = "You are a CEL (Common Expression Language) expert. Translate the user's filter description into a valid CEL expression. Available variables: event_type (string), event (map). Return ONLY the CEL expression, nothing else.";

/// What a language model is asked with, at no temperature and without tools.
#[derive(Debug)]
pub struct FilterPrompt {
    pub system: &'static str,
    pub user: String,
}

/// What a language model is asked to put a description into an expression.
pub fn filter_prompt(description: &str) -> (r: FilterPrompt)
    ensures
        r.system@ == FILTER_INSTRUCTIONS@,
        r.user@ == "Translate this to a CEL expression: "@ + description@,
{
    let mut user = "Translate this to a CEL expression: ".to_string();
    user.append(description);
    FilterPrompt { system: FILTER_INSTRUCTIONS, user }
}

/// The filter of a subscription: the expression that was given, or the one that a
/// description was put into, where there is one.
pub fn filter_expression(source: &FilterSource, translated: Option<&str>) -> (r: Option<String>)
    ensures
        opt_text(r) == match source {
            FilterSource::Given(e) => Some(e@),
            FilterSource::Described(_) => match opt_str(translated) {
                Some(t) if !blank(t) => Some(trimmed(t)),
                _ => None,
            },
            FilterSource::Missing => None,
        },
{
    match source {
        FilterSource::Given(e) => Some(e.clone()),
        FilterSource::Described(_) => match translated {
            Some(t) => if text::is_blank(t) {
                None
            } else {
                Some(text::trim(t).to_string())
            },
            None => None,
        },
        FilterSource::Missing => None,
    }
}

/// Where a subscription that was to be created leads.
pub fn subscription_created(base_path: &str, done: bool) -> (r: WebAnswer)
    ensures
        r@ == Sent::Redirect(
            base_path@ + if done {
                "/subscriptions?success=Subscription+created."@
            } else {
                "/subscriptions?error=Failed+to+create+subscription.+Please+try+again."@
            },
        ),
{
    if done {
        response::redirect(base_path, "/subscriptions?success=Subscription+created.")
    } else {
        response::redirect(
            base_path,
            "/subscriptions?error=Failed+to+create+subscription.+Please+try+again.",
        )
    }
}

/// The subscription that is ended, by an administrator.
pub fn subscriptions_delete(is_admin: bool, sub_id: String) -> (r: Verdict<String>)
    ensures
        if is_admin {
            r == Verdict::Proceed(sub_id)
        } else {
            r.answers(Sent::Status(403))
        },
{
    match response::admin_only(is_admin) {
        Verdict::Answer(a) => Verdict::Answer(a),
        Verdict::Proceed(_) => Verdict::Proceed(sub_id),
    }
}

// ── Laws ─────────────────────────────────────────────────────────────────────

/// A subscription is created only by an administrator. It is of the form's user and event, reacts as
/// the form says, and holds the form's configuration; an expression for its filter goes before a
/// description of it.
pub proof fn law_subscription_is_what_the_form_says(
    is_admin: bool,
    base_path: &str,
    form: CreateSubForm,
    s: NewSubscription,
)
    requires
        call_ensures(subscriptions_create, (is_admin, base_path, &form), Verdict::Proceed(s)),
    ensures
        is_admin,
        s.user_id@ == form.user_id@ && form.user_id@.len() > 0,
        s.event_type@ == form.event_type@ && trimmed(form.event_type@).len() > 0,
        s.reaction_type@ == form.reaction_type@,
        s.reaction_type@ == "pipe_notification"@ || s.reaction_type@ == "agent_invocation"@,
        Some(s.config_json@) == json_text(form.reaction_config@),
        form.filter_expression is Some && form.filter_expression->0@.len() > 0 ==> (
        s.filter matches FilterSource::Given(e) && e@ == form.filter_expression->0@),
        (form.filter_expression is None || form.filter_expression->0@.len() == 0)
            && form.filter_description is Some && form.filter_description->0@.len() > 0 ==> (
        s.filter matches FilterSource::Described(d) && d@ == form.filter_description->0@),
        s.filter_description is Some ==> s.filter_description->0@ == form.filter_description->0@,
{
    text::lemma_blank(form.event_type@);
}

/// A subscription that the form asks for in full is created.
pub proof fn law_full_form_subscribes(
    is_admin: bool,
    base_path: &str,
    form: CreateSubForm,
    r: Verdict<NewSubscription>,
)
    requires
        call_ensures(subscriptions_create, (is_admin, base_path, &form), r),
    ensures
        r is Proceed <==> {
            &&& is_admin
            &&& form.user_id@.len() > 0
            &&& trimmed(form.event_type@).len() > 0
            &&& form.reaction_type@ == "pipe_notification"@ || form.reaction_type@
                == "agent_invocation"@
            &&& json_text(form.reaction_config@) is Some
        },
{
    text::lemma_blank(form.event_type@);
    reveal_strlit("pipe_notification");
    reveal_strlit("agent_invocation");
}

/// A stored subscription is listed part by part as it is stored.
pub proof fn law_subscription_is_listed_as_stored(row: SubRow, r: Option<SubView>)
    requires
        call_ensures(sub_view, (row,), r),
    ensures
        r is Some <==> row.id is Some,
        r matches Some(v) ==> {
            &&& v.id@ == row.id->0@
            &&& v.user_id@ == row.user_id@
            &&& row.username is Some ==> v.username@ == row.username->0@
            &&& row.username is None ==> v.username@ == row.user_id@
            &&& v.event_type@ == row.event_type@
            &&& v.reaction_type@ == row.reaction_type@
            &&& v.reaction_config@ == row.reaction_config_json@
            &&& row.filter_expression is Some ==> v.filter_expression@ == row.filter_expression->0@
            &&& row.filter_expression is None ==> v.filter_expression@.len() == 0
            &&& v.active <==> row.active != 0
            &&& v.created_at@ == row.created_at@
        },
{
}

/// Only an administrator ends a subscription, and it is the one that was named.
pub proof fn law_subscription_ends_as_named(is_admin: bool, sub_id: String, r: Verdict<String>)
    requires
        call_ensures(subscriptions_delete, (is_admin, sub_id), r),
    ensures
        r is Proceed <==> is_admin,
        r matches Verdict::Proceed(id) ==> id@ == sub_id@,
{
}

} // verus!
