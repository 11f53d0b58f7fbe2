//! What a request is answered, and whether it may go on.
use vstd::prelude::*;
use vstd::string::*;

verus! {

pub const OK: u16 = 200;

pub const BAD_REQUEST: u16 = 400;

pub const FORBIDDEN: u16 = 403;

pub const NOT_FOUND: u16 = 404;

pub const PAYLOAD_TOO_LARGE: u16 = 413;

pub const INTERNAL_SERVER_ERROR: u16 = 500;

/// An answer to a request: another place to go, a bare status, a piece of HTML, or a
/// success that leads the page that asked to another place.
#[derive(Debug, PartialEq, Eq)]
pub enum WebAnswer {
    Redirect(String),
    Status(u16),
    Html(String),
    Lead(String),
}

/// An answer to a request, as a value.
pub enum Sent {
    Redirect(Seq<char>),
    Status(u16),
    Html(Seq<char>),
    Lead(Seq<char>),
}

impl WebAnswer {
    pub open spec fn view(&self) -> Sent {
        match *self {
            WebAnswer::Redirect(to) => Sent::Redirect(to@),
            WebAnswer::Status(code) => Sent::Status(code),
            WebAnswer::Html(html) => Sent::Html(html@),
            WebAnswer::Lead(to) => Sent::Lead(to@),
        }
    }
}

/// Whether a request is answered at once, or goes on with what it asked for.
#[derive(Debug, PartialEq, Eq)]
pub enum Verdict<T> {
    Answer(WebAnswer),
    Proceed(T),
}

impl<T> Verdict<T> {
    /// Whether the request is answered at once with `sent`.
    pub open spec fn answers(&self, sent: Sent) -> bool {
        self matches Verdict::Answer(a) && a@ == sent
    }

    /// The answer, where the request is answered at once.
    pub fn answer(self) -> (r: Option<WebAnswer>)
        ensures
            r == match self {
                Verdict::Answer(a) => Some(a),
                Verdict::Proceed(_) => None,
            },
    {
        match self {
            Verdict::Answer(a) => Some(a),
            Verdict::Proceed(_) => None,
        }
    }
}

/// A redirect to a path behind a prefix.
pub fn redirect(base_path: &str, path: &str) -> (r: WebAnswer)
    ensures
        r@ == Sent::Redirect(base_path@ + path@),
{
    let mut to = base_path.to_string();
    to.append(path);
    WebAnswer::Redirect(to)
}

/// A redirect to a path behind a prefix, with something behind it.
pub fn redirect_with(base_path: &str, path: &str, more: &str) -> (r: WebAnswer)
    ensures
        r@ == Sent::Redirect(base_path@ + path@ + more@),
{
    let mut to = base_path.to_string();
    to.append(path);
    to.append(more);
    WebAnswer::Redirect(to)
}

/// A redirect to a path behind a prefix that has a name in its middle.
pub fn redirect_about(base_path: &str, path: &str, name: &str, more: &str) -> (r: WebAnswer)
    ensures
        r@ == Sent::Redirect(base_path@ + path@ + name@ + more@),
{
    let mut to = base_path.to_string();
    to.append(path);
    to.append(name);
    to.append(more);
    WebAnswer::Redirect(to)
}

/// The answer to a request that changes or removes one thing: an empty piece of the page
/// in its place, or that it was not there.
pub fn cleared(outcome: &Result<bool, String>) -> (r: WebAnswer)
    ensures
        r@ == match outcome {
            Ok(true) => Sent::Html(""@),
            Ok(false) => Sent::Status(NOT_FOUND),
            Err(_) => Sent::Status(INTERNAL_SERVER_ERROR),
        },
{
    match outcome {
        Ok(true) => html(""),
        Ok(false) => WebAnswer::Status(NOT_FOUND),
        Err(_) => WebAnswer::Status(INTERNAL_SERVER_ERROR),
    }
}

/// Something that only an administrator may do.
pub fn admin_only(is_admin: bool) -> (r: Verdict<()>)
    ensures
        if is_admin {
            r is Proceed
        } else {
            r.answers(Sent::Status(403))
        },
{
    if is_admin {
        Verdict::Proceed(())
    } else {
        Verdict::Answer(WebAnswer::Status(FORBIDDEN))
    }
}

/// A page that only an administrator sees; others are led to the chat.
pub fn admin_page(is_admin: bool, base_path: &str) -> (r: Verdict<()>)
    ensures
        if is_admin {
            r is Proceed
        } else {
            r.answers(Sent::Redirect(base_path@ + "/chat"@))
        },
{
    if is_admin {
        Verdict::Proceed(())
    } else {
        Verdict::Answer(redirect(base_path, "/chat"))
    }
}

/// A piece of HTML.
pub fn html(s: &str) -> (r: WebAnswer)
    ensures
        r@ == Sent::Html(s@),
{
    WebAnswer::Html(s.to_string())
}

// ── Laws ─────────────────────────────────────────────────────────────────────

/// Whoever is no administrator is refused, and led to the chat from a page of the administrators; an
/// administrator never is.
pub proof fn law_others_are_refused(
    is_admin: bool,
    base_path: &str,
    deed: Verdict<()>,
    page: Verdict<()>,
)
    requires
        call_ensures(admin_only, (is_admin,), deed),
        call_ensures(admin_page, (is_admin, base_path), page),
    ensures
        deed is Proceed <==> is_admin,
        page is Proceed <==> is_admin,
        deed matches Verdict::Answer(a) ==> a@ == Sent::Status(403),
        page matches Verdict::Answer(a) ==> a@ == Sent::Redirect(base_path@ + "/chat"@),
{
}

/// What became of a removal can be told from its answer.
pub proof fn law_removals_are_told_apart(outcome: Result<bool, String>, r: WebAnswer)
    requires
        call_ensures(cleared, (&outcome,), r),
    ensures
        r is Html <==> outcome == Ok::<bool, String>(true),
        r@ == Sent::Status(404) <==> outcome == Ok::<bool, String>(false),
        r@ == Sent::Status(500) <==> outcome is Err,
{
}

} // verus!
