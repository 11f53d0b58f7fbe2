//! Feedback to the developers.
use vstd::prelude::*;
use vstd::string::*;
use crate::text;
use crate::text::{byte_len, decimal, find_from, opt_text, trimmed, trimmed_end_of};
use crate::web::html;
use crate::web::html::escaped;

verus! {

#[derive(Debug)]
pub struct FeedbackForm {
    pub category: String,
    pub description: String,
}

/// The issue that feedback became.
#[derive(Debug)]
pub struct GatewayFeedbackResponse {
    pub issue_url: String,
    pub issue_number: u64,
}

/// Whether there is such a category.
pub open spec fn is_category(category: Seq<char>) -> bool {
    category == "bug"@ || category == "idea"@ || category == "question"@ || category == "other"@
}

/// The part of the address of the marketplace ahead of its list of agents, where
/// there is one.
pub open spec fn api_base(marketplace_url: Seq<char>) -> Option<Seq<char>> {
    let t = trimmed_end_of(marketplace_url, '/');
    match find_from(t, "/marketplace/agents"@, 0) {
        Some(i) if i > 0 => Some(t.subrange(0, i)),
        _ => None,
    }
}

/// The address of the API of the developers.
pub fn feedback_api_base_url(marketplace_url: &str) -> (r: Option<String>)
    ensures
        opt_text(r) == api_base(marketplace_url@),
{
    let t = text::trim_end_of(marketplace_url, '/');
    match text::find(t, "/marketplace/agents") {
        Some(i) => if i > 0 {
            Some(t.substring_char(0, i).to_string())
        } else {
            None
        },
        None => None,
    }
}

/// What is wrong with feedback.
#[derive(Debug, Clone, Copy, PartialEq, Eq, Structural)]
pub enum FeedbackFault {
    Category,
    TooShort,
    TooLong,
    Unavailable,
    Failed,
}

/// What is shown where feedback could not be sent.
pub open spec fn fault_text(fault: FeedbackFault) -> Seq<char> {
    match fault {
        FeedbackFault::Category => "<div class=\"p-3 rounded-lg bg-rosie/10 text-rosie text-sm\" data-i18n=\"feedback.error.category\">Please select a category.</div>"@,
        FeedbackFault::TooShort => "<div class=\"p-3 rounded-lg bg-rosie/10 text-rosie text-sm\" data-i18n=\"feedback.error.too_short\">Please describe your feedback in at least a few words.</div>"@,
        FeedbackFault::TooLong => "<div class=\"p-3 rounded-lg bg-rosie/10 text-rosie text-sm\" data-i18n=\"feedback.error.too_long\">Your message is too long. Please keep it under 2000 characters.</div>"@,
        FeedbackFault::Unavailable => "<div class=\"p-3 rounded-lg bg-rosie/10 text-rosie text-sm\" data-i18n=\"feedback.error.unavailable\">Feedback is currently unavailable. Please try again later.</div>"@,
        FeedbackFault::Failed => "<div class=\"p-3 rounded-lg bg-rosie/10 text-rosie text-sm\" data-i18n=\"feedback.error.failed\">Something went wrong while sending your feedback. Please try again.</div>"@,
    }
}

/// What is shown where feedback could not be sent.
pub fn feedback_error(fault: FeedbackFault) -> (r: &'static str)
    ensures
        r@ == fault_text(fault),
{
    match fault {
        FeedbackFault::Category => "<div class=\"p-3 rounded-lg bg-rosie/10 text-rosie text-sm\" data-i18n=\"feedback.error.category\">Please select a category.</div>",
        FeedbackFault::TooShort => "<div class=\"p-3 rounded-lg bg-rosie/10 text-rosie text-sm\" data-i18n=\"feedback.error.too_short\">Please describe your feedback in at least a few words.</div>",
        FeedbackFault::TooLong => "<div class=\"p-3 rounded-lg bg-rosie/10 text-rosie text-sm\" data-i18n=\"feedback.error.too_long\">Your message is too long. Please keep it under 2000 characters.</div>",
        FeedbackFault::Unavailable => "<div class=\"p-3 rounded-lg bg-rosie/10 text-rosie text-sm\" data-i18n=\"feedback.error.unavailable\">Feedback is currently unavailable. Please try again later.</div>",
        FeedbackFault::Failed => "<div class=\"p-3 rounded-lg bg-rosie/10 text-rosie text-sm\" data-i18n=\"feedback.error.failed\">Something went wrong while sending your feedback. Please try again.</div>",
    }
}

/// What is wrong with feedback, before it is sent: there has to be such a category,
/// its words have to be 10 to 2000 bytes without white space at their ends, and
/// the address to send it to has to be known.
pub open spec fn feedback_fault(form: FeedbackForm, marketplace_url: Seq<char>) -> Option<
    FeedbackFault,
> {
    let n = byte_len(trimmed(form.description@));
    if !is_category(form.category@) {
        Some(FeedbackFault::Category)
    } else if n < 10 {
        Some(FeedbackFault::TooShort)
    } else if n > 2000 {
        Some(FeedbackFault::TooLong)
    } else if api_base(marketplace_url) is None {
        Some(FeedbackFault::Unavailable)
    } else {
        None
    }
}

/// Feedback to send: where to, its category and its words.
pub struct Feedback {
    pub url: String,
    pub category: String,
    pub description: String,
}

/// The address that feedback is sent to.
pub fn gateway_url(api_base: &str) -> (r: String)
    ensures
        r@ == api_base@ + "/feedback"@,
{
    let mut url = api_base.to_string();
    url.append("/feedback");
    url
}

/// The feedback that a form sends, or what is wrong with it.
pub fn feedback_submit(form: &FeedbackForm, marketplace_url: &str) -> (r: Result<
    Feedback,
    FeedbackFault,
>)
    ensures
        match feedback_fault(*form, marketplace_url@) {
            Some(f) => r == Err::<Feedback, FeedbackFault>(f),
            None => r matches Ok(b) && b.url@ == api_base(marketplace_url@)->0 + "/feedback"@
                && b.category@ == form.category@ && b.description@ == trimmed(form.description@),
        },
{
    let c = form.category.as_str();
    if !(text::same(c, "bug") || text::same(c, "idea") || text::same(c, "question") || text::same(
        c,
        "other",
    )) {
        return Err(FeedbackFault::Category);
    }
    let description = text::trim(form.description.as_str());
    let n: usize = text::byte_count(description);
    if n < 10 {
        return Err(FeedbackFault::TooShort);
    }
    if n > 2000 {
        return Err(FeedbackFault::TooLong);
    }
    match feedback_api_base_url(marketplace_url) {
        Some(base) => Ok(
            Feedback {
                url: gateway_url(base.as_str()),
                category: form.category.clone(),
                description: description.to_string(),
            },
        ),
        None => Err(FeedbackFault::Unavailable),
    }
}

/// What is shown once feedback was sent.
pub open spec fn thanks_text(url: Seq<char>, number: nat) -> Seq<char> {
    "<div class=\"p-4 rounded-lg bg-emerald-500/10 text-emerald-600 dark:text-emerald-400 text-sm space-y-2\">\n                    <p class=\"font-medium\" data-i18n=\"feedback.success.title\">Thank you for your feedback!</p>\n                    <p data-i18n=\"feedback.success.body\">Your feedback has been submitted. You can track it here:</p>\n                    <a href=\""@
        + escaped(url)
        + "\" target=\"_blank\" rel=\"noopener\" class=\"inline-flex items-center gap-1 underline hover:no-underline\">#"@
        + decimal(number)
        + " ↗</a>\n                </div>"@
}

/// What is shown once feedback was sent.
pub fn feedback_thanks(resp: &GatewayFeedbackResponse) -> (r: String)
    ensures
        r@ == thanks_text(resp.issue_url@, resp.issue_number as nat),
{
    let url = html::html_escape(resp.issue_url.as_str());
    let number = text::number(resp.issue_number);
    let mut out = "<div class=\"p-4 rounded-lg bg-emerald-500/10 text-emerald-600 dark:text-emerald-400 text-sm space-y-2\">\n                    <p class=\"font-medium\" data-i18n=\"feedback.success.title\">Thank you for your feedback!</p>\n                    <p data-i18n=\"feedback.success.body\">Your feedback has been submitted. You can track it here:</p>\n                    <a href=\"".to_string();
    out.append(url.as_str());
    out.append("\" target=\"_blank\" rel=\"noopener\" class=\"inline-flex items-center gap-1 underline hover:no-underline\">#");
    out.append(number.as_str());
    out.append(" ↗</a>\n                </div>");
    out
}

/// What the assistant calls the tool for feedback with.
#[derive(Debug)]
pub struct SubmitFeedbackArgs {
    pub category: String,
    pub title: String,
    pub description: String,
}

/// Feedback that the assistant sends for a user: where to, and what it was called with.
#[derive(Debug)]
pub struct ToolFeedback {
    pub url: String,
    pub args: SubmitFeedbackArgs,
}

/// The feedback that the assistant sends for a user, or why it cannot. `args` is what it
/// was called with, where that can be read.
pub fn dispatch_submit_feedback(marketplace_url: &str, args: Option<SubmitFeedbackArgs>) -> (r:
    Result<ToolFeedback, String>)
    ensures
        match args {
            None => r is Err && r->Err_0@ == "Invalid submit_feedback arguments"@,
            Some(a) => match api_base(marketplace_url@) {
                None => r is Err && r->Err_0@ == "Could not derive feedback API base URL"@,
                Some(base) => r matches Ok(f) && f.url@ == base + "/feedback"@ && f.args == a,
            },
        },
{
    let args = match args {
        Some(a) => a,
        None => {
            return Err("Invalid submit_feedback arguments".to_string());
        },
    };
    match feedback_api_base_url(marketplace_url) {
        Some(base) => Ok(ToolFeedback { url: gateway_url(base.as_str()), args }),
        None => Err("Could not derive feedback API base URL".to_string()),
    }
}

/// What the assistant is told once it sent feedback for a user.
pub fn feedback_submitted(resp: &GatewayFeedbackResponse) -> (r: String)
    ensures
        r@ == "Feedback submitted successfully! Issue #"@ + decimal(resp.issue_number as nat)
            + ": "@ + resp.issue_url@,
{
    let mut out = "Feedback submitted successfully! Issue #".to_string();
    let number = text::number(resp.issue_number);
    out.append(number.as_str());
    out.append(": ");
    out.append(resp.issue_url.as_str());
    out
}

/// What is said of a gateway that answered with an error.
pub fn gateway_refused(status: &str, body: &str) -> (r: String)
    ensures
        r@ == "Feedback gateway returned "@ + status@ + ": "@ + body@,
{
    let mut out = "Feedback gateway returned ".to_string();
    out.append(status);
    out.append(": ");
    out.append(body);
    out
}

// ── Laws ─────────────────────────────────────────────────────────────────────

/// Feedback is sent as it was entered, without white space around it and under its category, to the
/// service beside the marketplace; it is sent exactly where its category is one there is, its words
/// have from ten to two thousand bytes, and the service is known.
pub proof fn law_feedback_is_sent_as_entered(
    form: FeedbackForm,
    marketplace_url: &str,
    r: Result<Feedback, FeedbackFault>,
)
    requires
        call_ensures(feedback_submit, (&form, marketplace_url), r),
    ensures
        r is Ok <==> {
            let c = form.category@;
            &&& c == "bug"@ || c == "idea"@ || c == "question"@ || c == "other"@
            &&& 10 <= byte_len(trimmed(form.description@)) <= 2000
            &&& api_base(marketplace_url@) is Some
        },
        r matches Ok(b) ==> b.category@ == form.category@ && b.description@ == trimmed(
            form.description@,
        ) && b.url@ == api_base(marketplace_url@)->0 + "/feedback"@,
{
}

/// The service for feedback is what stands before the marketplace in its address, whatever stands
/// behind.
pub proof fn law_service_is_beside_the_marketplace(base: Seq<char>, r: Option<String>, url: &str)
    requires
        call_ensures(feedback_api_base_url, (url,), r),
        url@ == base + "/marketplace/agents"@,
        base.len() > 0,
        forall|i: int| 0 <= i < base.len() ==> #[trigger] base[i] != 'm',
    ensures
        r is Some && r->0@ == base,
{
    reveal_strlit("/marketplace/agents");
    let pat = "/marketplace/agents"@;
    let n = base.len() as int;
    assert(url@.last() == 's');
    lemma_no_slash_at_the_end(url@);
    assert(url@.subrange(n, n + pat.len()) =~= pat);
    assert(pat[1] == 'm');
    assert forall|j: int| 0 <= j < n implies !text::occurs(url@, pat, j) by {
        if text::occurs(url@, pat, j) {
            assert(url@.subrange(j, j + pat.len())[1] == 'm');
            assert(url@[j + 1] == 'm');
            if j + 1 < n {
                assert(base[j + 1] == 'm');
            } else {
                assert(url@[n] == pat[0]);
            }
        }
    }
    text::lemma_find_at(url@, pat, 0, n);
    assert(url@.subrange(0, n) =~= base);
}

/// An address that ends in no slash is kept as it is.
proof fn lemma_no_slash_at_the_end(s: Seq<char>)
    requires
        s.len() > 0,
        s.last() != '/',
    ensures
        trimmed_end_of(s, '/') == s,
{
    text::lemma_trim_end(s, text::being('/'), s.len() as int);
    assert(s.subrange(0, s.len() as int) =~= s);
}

} // verus!
