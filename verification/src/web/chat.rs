//! The chat: messages as HTML, the stream of an answer, and what a message is sent
//! with.
use vstd::prelude::*;
use vstd::string::*;
use crate::clock;
use crate::clock::{day_of, naive_moment, utc_text, utc_year, Moment};
use crate::text;
use crate::text::{
    ahead_of, blank, find_from, last_place, lines_of, lowered, opt_str, opt_text, replaced, texts,
    trimmed,
};
use crate::updater::images::shed;
use crate::web::html;
use crate::web::html::escaped;
use crate::web::ids;
use crate::web::response;
use crate::web::response::{Sent, Verdict, WebAnswer};
use crate::web::text_map::TextMap;

verus! {

/// The largest image that can be sent with a message.
pub const MAX_WEB_CHAT_IMAGE_BYTES: usize = 5_242_880;

// ── Types ────────────────────────────────────────────────────────────────────

#[derive(Debug, Clone)]
pub struct PipeView {
    pub id: String,
    pub name: String,
}

#[derive(Debug, Clone)]
pub struct ThreadView {
    pub id: String,
    pub title: String,
    pub status: String,
    pub last_activity_at: String,
    pub agent_active: bool,
}

#[derive(Debug, Clone)]
pub struct ToolCallView {
    pub name: String,
    pub result: String,
}

#[derive(Debug, Clone)]
pub struct AttachmentView {
    pub filename: String,
    pub download_url: String,
    pub mime_type: String,
    pub size_bytes: usize,
}

#[derive(Debug, Clone)]
pub struct MessageView {
    pub role: String,
    pub content: String,
    pub image_urls: Vec<String>,
    pub created_at: String,
    pub tool_calls: Vec<ToolCallView>,
    pub attachments: Vec<AttachmentView>,
}

/// A thumb up or down for an answer.
#[derive(Debug)]
pub struct FeedbackForm {
    pub rating: i64,
}

/// An image that is sent with a message.
#[derive(Debug, Clone)]
pub struct InboundAttachmentInput {
    pub filename: String,
    pub mime_type: String,
    pub data: Vec<u8>,
}

// ── A message as HTML ────────────────────────────────────────────────────────

/// An image of a message.
pub open spec fn image_tag_text(url: Seq<char>) -> Seq<char> {
    "<img src=\""@
        + escaped(url)
        + "\" alt=\"image\" class=\"w-[110px] h-[82px] object-cover rounded-lg border border-coral/30 bg-surface-input\" />"@
}

/// An image of a message.
fn image_tag(url: &str) -> (r: String)
    ensures
        r@ == image_tag_text(url@),
{
    let url = html::html_escape(url);
    let mut out = "<img src=\"".to_string();
    out.append(url.as_str());
    out.append("\" alt=\"image\" class=\"w-[110px] h-[82px] object-cover rounded-lg border border-coral/30 bg-surface-input\" />");
    out
}

/// The images of a message, where there are any.
pub open spec fn images_text(urls: Seq<Seq<char>>) -> Seq<char> {
    if urls.len() == 0 {
        Seq::empty()
    } else {
        "<div class=\"mt-2 flex flex-wrap gap-2\">"@
            + urls.flat_map(|u: Seq<char>| image_tag_text(u))
            + "</div>"@
    }
}

/// The images of a message, where there are any.
fn images_html(urls: &Vec<String>) -> (r: String)
    ensures
        r@ == images_text(texts(urls@)),
{
    if urls.len() == 0 {
        return String::new();
    }
    let ghost all = texts(urls@);
    let ghost f = |u: Seq<char>| image_tag_text(u);
    let mut inner = String::new();
    let mut i: usize = 0;
    while i < urls.len()
        invariant
            i <= urls@.len(),
            all == texts(urls@),
            f == (|u: Seq<char>| image_tag_text(u)),
            inner@ == all.take(i as int).flat_map(f),
        decreases urls@.len() - i,
    {
        proof {
            all.lemma_flat_map_take_append(f, i as int);
            assert(all[i as int] == urls@[i as int]@);
        }
        let tag = image_tag(urls[i].as_str());
        inner.append(tag.as_str());
        i += 1;
    }
    proof {
        assert(all.take(i as int) =~= all);
    }
    let mut out = "<div class=\"mt-2 flex flex-wrap gap-2\">".to_string();
    out.append(inner.as_str());
    out.append("</div>");
    out
}

/// The words of a user's message, where there are any.
pub open spec fn words_text(content: Seq<char>) -> Seq<char> {
    if content.len() == 0 {
        Seq::empty()
    } else {
        "<p class=\"text-sm leading-relaxed whitespace-pre-wrap break-words text-txt-heading\">"@
            + escaped(content)
            + "</p>"@
    }
}

/// The words of a user's message, where there are any.
fn words_html(content: &str) -> (r: String)
    ensures
        r@ == words_text(content@),
{
    if content.is_empty() {
        return String::new();
    }
    let content = html::html_escape(content);
    let mut out = "<p class=\"text-sm leading-relaxed whitespace-pre-wrap break-words text-txt-heading\">".to_string();
    out.append(content.as_str());
    out.append("</p>");
    out
}

/// A message of a user.
pub open spec fn user_text(content: Seq<char>, urls: Seq<Seq<char>>, created_at: Seq<char>) -> Seq<char> {
    "<div class=\"flex justify-end\"><div class=\"max-w-[72%] bg-gradient-to-br from-coral/20 to-amber/10 border border-coral/20 rounded-2xl rounded-br-md px-4 py-2.5\">"@
        + words_text(content)
        + images_text(urls)
        + "<p class=\"text-[10px] text-txt-muted mt-1.5\">"@
        + escaped(created_at)
        + "</p></div></div>"@
}

/// The result of a tool.
pub open spec fn tool_text(content: Seq<char>) -> Seq<char> {
    "<div class=\"flex justify-start\"><details class=\"tool-result max-w-[72%]\"><summary class=\"tool-result-summary\"><svg class=\"w-3.5 h-3.5 flex-shrink-0\" viewBox=\"0 0 24 24\" fill=\"none\" stroke=\"currentColor\" stroke-width=\"2\" stroke-linecap=\"round\" stroke-linejoin=\"round\"><polyline points=\"4 17 10 11 4 5\"/><line x1=\"12\" y1=\"19\" x2=\"20\" y2=\"19\"/></svg><span>Tool result</span><svg class=\"tool-result-chevron w-3 h-3 flex-shrink-0 ml-auto\" viewBox=\"0 0 24 24\" fill=\"none\" stroke=\"currentColor\" stroke-width=\"2\" stroke-linecap=\"round\" stroke-linejoin=\"round\"><polyline points=\"6 9 12 15 18 9\"/></svg></summary><div class=\"tool-result-body\"><pre class=\"tool-result-pre\"><code>"@
        + escaped(content)
        + "</code></pre></div></details></div>"@
}

/// The end of a tool call: its result, where there is one.
pub open spec fn call_result_text(result: Seq<char>) -> Seq<char> {
    if result.len() == 0 {
        "</summary>"@
    } else {
        "<svg class=\"tool-result-chevron w-3 h-3 flex-shrink-0 ml-auto\" viewBox=\"0 0 24 24\" fill=\"none\" stroke=\"currentColor\" stroke-width=\"2\" stroke-linecap=\"round\" stroke-linejoin=\"round\"><polyline points=\"6 9 12 15 18 9\"/></svg></summary><div class=\"tool-result-body\"><pre class=\"tool-result-pre\"><code>"@
            + escaped(result)
            + "</code></pre></div>"@
    }
}

/// A tool call.
pub open spec fn call_text(name: Seq<char>, result: Seq<char>) -> Seq<char> {
    "<details class=\"tool-call-item\"><summary class=\"tool-call-summary\"><svg class=\"w-3.5 h-3.5 flex-shrink-0\" viewBox=\"0 0 24 24\" fill=\"none\" stroke=\"currentColor\" stroke-width=\"2\" stroke-linecap=\"round\" stroke-linejoin=\"round\"><circle cx=\"12\" cy=\"12\" r=\"3\"/><path d=\"M12 1v4m0 14v4m-8.66-13H7.34m9.32 0h4m-14.14 5.66l2.83-2.83m7.07-7.07l2.83-2.83M4.22 4.22l2.83 2.83m7.07 7.07l2.83 2.83\"/></svg><span>"@
        + escaped(name)
        + "</span>"@
        + call_result_text(result)
        + "</details>"@
}

/// The name and the result of each tool call.
pub open spec fn call_pairs(calls: Seq<ToolCallView>) -> Seq<(Seq<char>, Seq<char>)> {
    calls.map_values(|c: ToolCallView| (c.name@, c.result@))
}

/// The tool calls of a message.
pub open spec fn calls_text(calls: Seq<(Seq<char>, Seq<char>)>) -> Seq<char> {
    "<div class=\"flex justify-start\"><div class=\"tool-calls-group\">"@
        + calls.flat_map(|p: (Seq<char>, Seq<char>)| call_text(p.0, p.1))
        + "</div></div>"@
}

/// A message of the assistant.
pub open spec fn assistant_text(content: Seq<char>, created_at: Seq<char>) -> Seq<char> {
    "<div class=\"flex justify-start\"><div class=\"max-w-[72%] bg-surface-raised border border-edge rounded-2xl rounded-bl-md px-4 py-2.5\"><div class=\"text-sm leading-relaxed break-words markdown-body md-source\">"@
        + escaped(content)
        + "</div><p class=\"text-[10px] text-txt-muted mt-1.5\">"@
        + escaped(created_at)
        + "</p></div></div>"@
}

/// A message as HTML: by the role of its author, and for the assistant by whether
/// it called tools.
pub open spec fn message_text(msg: MessageView) -> Seq<char> {
    if msg.role@ == "user"@ {
        user_text(msg.content@, texts(msg.image_urls@), msg.created_at@)
    } else if msg.role@ == "tool"@ {
        tool_text(msg.content@)
    } else if msg.tool_calls@.len() > 0 {
        calls_text(call_pairs(msg.tool_calls@))
    } else {
        assistant_text(msg.content@, msg.created_at@)
    }
}

/// A tool call.
fn call_html(name: &str, result: &str) -> (r: String)
    ensures
        r@ == call_text(name@, result@),
{
    let name = html::html_escape(name);
    let rest = if result.is_empty() {
        "</summary>".to_string()
    } else {
        let result = html::html_escape(result);
        let mut out = "<svg class=\"tool-result-chevron w-3 h-3 flex-shrink-0 ml-auto\" viewBox=\"0 0 24 24\" fill=\"none\" stroke=\"currentColor\" stroke-width=\"2\" stroke-linecap=\"round\" stroke-linejoin=\"round\"><polyline points=\"6 9 12 15 18 9\"/></svg></summary><div class=\"tool-result-body\"><pre class=\"tool-result-pre\"><code>".to_string();
        out.append(result.as_str());
        out.append("</code></pre></div>");
        out
    };
    let mut out = "<details class=\"tool-call-item\"><summary class=\"tool-call-summary\"><svg class=\"w-3.5 h-3.5 flex-shrink-0\" viewBox=\"0 0 24 24\" fill=\"none\" stroke=\"currentColor\" stroke-width=\"2\" stroke-linecap=\"round\" stroke-linejoin=\"round\"><circle cx=\"12\" cy=\"12\" r=\"3\"/><path d=\"M12 1v4m0 14v4m-8.66-13H7.34m9.32 0h4m-14.14 5.66l2.83-2.83m7.07-7.07l2.83-2.83M4.22 4.22l2.83 2.83m7.07 7.07l2.83 2.83\"/></svg><span>".to_string();
    out.append(name.as_str());
    out.append("</span>");
    out.append(rest.as_str());
    out.append("</details>");
    out
}

/// The tool calls of a message.
fn calls_html(calls: &Vec<ToolCallView>) -> (r: String)
    ensures
        r@ == calls_text(call_pairs(calls@)),
{
    let ghost all = call_pairs(calls@);
    let ghost f = |p: (Seq<char>, Seq<char>)| call_text(p.0, p.1);
    let mut inner = String::new();
    let mut i: usize = 0;
    while i < calls.len()
        invariant
            i <= calls@.len(),
            all == call_pairs(calls@),
            f == (|p: (Seq<char>, Seq<char>)| call_text(p.0, p.1)),
            inner@ == all.take(i as int).flat_map(f),
        decreases calls@.len() - i,
    {
        proof {
            all.lemma_flat_map_take_append(f, i as int);
            assert(all[i as int] == (calls@[i as int].name@, calls@[i as int].result@));
        }
        let call = call_html(calls[i].name.as_str(), calls[i].result.as_str());
        inner.append(call.as_str());
        i += 1;
    }
    proof {
        assert(all.take(i as int) =~= all);
    }
    let mut out = "<div class=\"flex justify-start\"><div class=\"tool-calls-group\">".to_string();
    out.append(inner.as_str());
    out.append("</div></div>");
    out
}

/// A message as HTML.
pub fn render_message_html(msg: &MessageView) -> (r: String)
    ensures
        r@ == message_text(*msg),
{
    if text::same(msg.role.as_str(), "user") {
        let content = words_html(msg.content.as_str());
        let images = images_html(&msg.image_urls);
        let ts = html::html_escape(msg.created_at.as_str());
        let mut out = "<div class=\"flex justify-end\"><div class=\"max-w-[72%] bg-gradient-to-br from-coral/20 to-amber/10 border border-coral/20 rounded-2xl rounded-br-md px-4 py-2.5\">".to_string();
        out.append(content.as_str());
        out.append(images.as_str());
        out.append("<p class=\"text-[10px] text-txt-muted mt-1.5\">");
        out.append(ts.as_str());
        out.append("</p></div></div>");
        out
    } else if text::same(msg.role.as_str(), "tool") {
        let content = html::html_escape(msg.content.as_str());
        let mut out = "<div class=\"flex justify-start\"><details class=\"tool-result max-w-[72%]\"><summary class=\"tool-result-summary\"><svg class=\"w-3.5 h-3.5 flex-shrink-0\" viewBox=\"0 0 24 24\" fill=\"none\" stroke=\"currentColor\" stroke-width=\"2\" stroke-linecap=\"round\" stroke-linejoin=\"round\"><polyline points=\"4 17 10 11 4 5\"/><line x1=\"12\" y1=\"19\" x2=\"20\" y2=\"19\"/></svg><span>Tool result</span><svg class=\"tool-result-chevron w-3 h-3 flex-shrink-0 ml-auto\" viewBox=\"0 0 24 24\" fill=\"none\" stroke=\"currentColor\" stroke-width=\"2\" stroke-linecap=\"round\" stroke-linejoin=\"round\"><polyline points=\"6 9 12 15 18 9\"/></svg></summary><div class=\"tool-result-body\"><pre class=\"tool-result-pre\"><code>".to_string();
        out.append(content.as_str());
        out.append("</code></pre></div></details></div>");
        out
    } else if msg.tool_calls.len() > 0 {
        calls_html(&msg.tool_calls)
    } else {
        let content = html::html_escape(msg.content.as_str());
        let ts = html::html_escape(msg.created_at.as_str());
        let mut out = "<div class=\"flex justify-start\"><div class=\"max-w-[72%] bg-surface-raised border border-edge rounded-2xl rounded-bl-md px-4 py-2.5\"><div class=\"text-sm leading-relaxed break-words markdown-body md-source\">".to_string();
        out.append(content.as_str());
        out.append("</div><p class=\"text-[10px] text-txt-muted mt-1.5\">");
        out.append(ts.as_str());
        out.append("</p></div></div>");
        out
    }
}

/// The button that loads older messages than a time stamp.
pub open spec fn load_older_text(base_path: Seq<char>, pipe_id: Seq<char>, thread_id: Seq<char>, ts: Seq<char>) -> Seq<char> {
    "<div id=\"load-older\" hx-get=\""@
        + base_path
        + "/chat/"@
        + pipe_id
        + "/t/"@
        + thread_id
        + "/older?before="@
        + replaced(replaced(ts, '&', "&amp;"@), '"', "&quot;"@)
        + "\" hx-trigger=\"revealed\" hx-target=\"#load-older-wrap\" hx-swap=\"outerHTML\" class=\"flex justify-center py-2\"><button class=\"text-xs text-txt-muted hover:text-coral transition-colors cursor-pointer\" data-i18n=\"chat.load_older\">Load older messages</button></div>"@
}

/// A page of older messages, with a button for still older ones where there are
/// any.
pub open spec fn older_text(
    base_path: Seq<char>,
    pipe_id: Seq<char>,
    thread_id: Seq<char>,
    has_more: bool,
    oldest: Option<Seq<char>>,
    messages: Seq<MessageView>,
) -> Seq<char> {
    "<div id=\"load-older-wrap\">"@ + (match oldest {
        Some(ts) if has_more => load_older_text(base_path, pipe_id, thread_id, ts),
        _ => Seq::empty(),
    }) + messages.flat_map(|m: MessageView| message_text(m)) + "</div>"@
}

/// The time stamp that a page of older messages ends ahead of; a request has to name one.
pub fn older_than(before: Option<String>) -> (r: Verdict<String>)
    ensures
        match opt_text(before) {
            Some(ts) => r matches Verdict::Proceed(t) && t@ == ts,
            None => r.answers(Sent::Status(400)),
        },
{
    match before {
        Some(ts) => Verdict::Proceed(ts),
        None => Verdict::Answer(WebAnswer::Status(response::BAD_REQUEST)),
    }
}

/// A page of older messages.
pub fn chat_older_messages(
    base_path: &str,
    pipe_id: &str,
    thread_id: &str,
    has_more: bool,
    oldest: Option<&str>,
    messages: &Vec<MessageView>,
) -> (r: String)
    ensures
        r@ == older_text(base_path@, pipe_id@, thread_id@, has_more, opt_str(oldest), messages@),
{
    let mut page = "<div id=\"load-older-wrap\">".to_string();
    let ghost head = page@;
    match oldest {
        Some(ts) => {
            if has_more {
                let amp = text::replace(ts, '&', "&amp;");
                let ts = text::replace(amp.as_str(), '"', "&quot;");
                let mut out = "<div id=\"load-older\" hx-get=\"".to_string();
                out.append(base_path);
                out.append("/chat/");
                out.append(pipe_id);
                out.append("/t/");
                out.append(thread_id);
                out.append("/older?before=");
                out.append(ts.as_str());
                out.append("\" hx-trigger=\"revealed\" hx-target=\"#load-older-wrap\" hx-swap=\"outerHTML\" class=\"flex justify-center py-2\"><button class=\"text-xs text-txt-muted hover:text-coral transition-colors cursor-pointer\" data-i18n=\"chat.load_older\">Load older messages</button></div>");
                page.append(out.as_str());
            }
        },
        None => {},
    }
    let ghost button = match opt_str(oldest) {
        Some(ts) if has_more => load_older_text(base_path@, pipe_id@, thread_id@, ts),
        _ => Seq::empty(),
    };
    let ghost f = |m: MessageView| message_text(m);
    proof {
        assert(page@ =~= head + button);
        assert(messages@.take(0).flat_map(f) =~= Seq::<char>::empty()) by {
            assert(messages@.take(0).map_values(f) =~= Seq::<Seq<char>>::empty());
        }
        assert(page@ =~= head + button + messages@.take(0).flat_map(f));
    }
    let mut i: usize = 0;
    while i < messages.len()
        invariant
            i <= messages@.len(),
            f == (|m: MessageView| message_text(m)),
            page@ == head + button + messages@.take(i as int).flat_map(f),
        decreases messages@.len() - i,
    {
        proof {
            messages@.lemma_flat_map_take_append(f, i as int);
        }
        let ghost before = page@;
        let m = render_message_html(&messages[i]);
        page.append(m.as_str());
        i += 1;
        proof {
            assert(page@ =~= head + button + messages@.take(i as int).flat_map(f));
        }
    }
    proof {
        assert(messages@.take(i as int) =~= messages@);
    }
    page.append("</div>");
    page
}

// ── Sending a message ────────────────────────────────────────────────────────

/// A command and the answer to it, as two bubbles.
pub open spec fn command_reply_text(input: Seq<char>, reply: Seq<char>) -> Seq<char> {
    "<div class=\"flex justify-end\">\n  <div class=\"max-w-[72%] bg-gradient-to-br from-coral/20 to-amber/10 border border-coral/20 rounded-2xl rounded-br-md px-4 py-2.5\">\n    <p class=\"text-sm leading-relaxed whitespace-pre-wrap break-words text-txt-heading\">"@
        + escaped(input)
        + "</p>\n  </div>\n</div>\n<div class=\"flex justify-start\">\n  <div class=\"max-w-[72%] bg-surface-raised border border-edge rounded-2xl rounded-bl-md px-4 py-2.5\">\n    <div class=\"text-sm leading-relaxed break-words markdown-body md-source\">"@
        + escaped(reply)
        + "</div>\n  </div>\n</div>"@
}

/// A command and the answer to it, as two bubbles.
pub fn command_reply(input: &str, reply: &str) -> (r: String)
    ensures
        r@ == command_reply_text(input@, reply@),
{
    let input = html::html_escape(input);
    let reply = html::html_escape(reply);
    let mut out = "<div class=\"flex justify-end\">\n  <div class=\"max-w-[72%] bg-gradient-to-br from-coral/20 to-amber/10 border border-coral/20 rounded-2xl rounded-br-md px-4 py-2.5\">\n    <p class=\"text-sm leading-relaxed whitespace-pre-wrap break-words text-txt-heading\">".to_string();
    out.append(input.as_str());
    out.append("</p>\n  </div>\n</div>\n<div class=\"flex justify-start\">\n  <div class=\"max-w-[72%] bg-surface-raised border border-edge rounded-2xl rounded-bl-md px-4 py-2.5\">\n    <div class=\"text-sm leading-relaxed break-words markdown-body md-source\">");
    out.append(reply.as_str());
    out.append("</div>\n  </div>\n</div>");
    out
}

/// A message that was sent, and the bubble that its answer streams into.
pub open spec fn sent_bubbles_text(words: Seq<char>, image_preview: Seq<char>, base_path: Seq<char>, pipe_id: Seq<char>, stream_id: Seq<char>) -> Seq<char> {
    "<div class=\"flex justify-end\">\n  <div class=\"max-w-[72%] bg-gradient-to-br from-coral/20 to-amber/10 border border-coral/20 rounded-2xl rounded-br-md px-4 py-2.5\">\n    <p class=\"text-sm leading-relaxed whitespace-pre-wrap break-words text-txt-heading\">"@
        + escaped(words)
        + "</p>\n    "@
        + image_preview
        + "\n  </div>\n</div>\n<div class=\"flex justify-start\" id=\"stream-wrap-"@
        + stream_id
        + "\" style=\"display:none\">\n  <div class=\"max-w-[72%] bg-surface-raised border border-edge rounded-2xl rounded-bl-md px-4 py-2.5\">\n    <div class=\"text-sm leading-relaxed break-words markdown-body streaming\" id=\"stream-"@
        + stream_id
        + "\"\n         hx-ext=\"sse\"\n         sse-connect=\""@
        + base_path
        + "/chat/"@
        + pipe_id
        + "/stream/"@
        + stream_id
        + "\"\n         sse-swap=\"token\"\n         hx-swap=\"beforeend\">\n    </div>\n  </div>\n</div>"@
}

/// A message that was sent, and the bubble that its answer streams into.
pub fn sent_bubbles(words: &str, image_preview: &str, base_path: &str, pipe_id: &str, stream_id: &str) -> (r: String)
    ensures
        r@ == sent_bubbles_text(words@, image_preview@, base_path@, pipe_id@, stream_id@),
{
    let words = html::html_escape(words);
    let mut out = "<div class=\"flex justify-end\">\n  <div class=\"max-w-[72%] bg-gradient-to-br from-coral/20 to-amber/10 border border-coral/20 rounded-2xl rounded-br-md px-4 py-2.5\">\n    <p class=\"text-sm leading-relaxed whitespace-pre-wrap break-words text-txt-heading\">".to_string();
    out.append(words.as_str());
    out.append("</p>\n    ");
    out.append(image_preview);
    out.append("\n  </div>\n</div>\n<div class=\"flex justify-start\" id=\"stream-wrap-");
    out.append(stream_id);
    out.append("\" style=\"display:none\">\n  <div class=\"max-w-[72%] bg-surface-raised border border-edge rounded-2xl rounded-bl-md px-4 py-2.5\">\n    <div class=\"text-sm leading-relaxed break-words markdown-body streaming\" id=\"stream-");
    out.append(stream_id);
    out.append("\"\n         hx-ext=\"sse\"\n         sse-connect=\"");
    out.append(base_path);
    out.append("/chat/");
    out.append(pipe_id);
    out.append("/stream/");
    out.append(stream_id);
    out.append("\"\n         sse-swap=\"token\"\n         hx-swap=\"beforeend\">\n    </div>\n  </div>\n</div>");
    out
}

// ── The stream of an answer ──────────────────────────────────────────────────

/// Something that happens while an answer comes about.
#[derive(Debug)]
pub enum LoopEvent {
    Token(String),
    CapabilityStatus(String),
    /// A tool call that needs an approval, with its arguments as JSON and the ID that
    /// the approval is asked for under.
    ConfirmationRequired {
        confirmation_id: String,
        tool_display_name: String,
        approval_message: Option<String>,
        arguments: String,
    },
    /// Files to download: their addresses and names.
    Artifacts(Vec<(String, String)>),
    Done,
    Error(String),
    ApprovalQueued {
        tool_display_name: String,
        approval_message: Option<String>,
        approval_id: String,
    },
}

/// What stands for a text between single quotes of a script.
pub open spec fn script_text(s: Seq<char>) -> Seq<char> {
    replaced(
        replaced(replaced(replaced(s, '\\', "\\\\"@), '\'', "\\'"@), '\n', "\\n"@),
        '\r',
        "\\r"@,
    )
}

/// What stands for a text between single quotes of a script.
fn script_escape(s: &str) -> (r: String)
    ensures
        r@ == script_text(s@),
{
    let a = text::replace(s, '\\', "\\\\");
    let b = text::replace(a.as_str(), '\'', "\\'");
    let c = text::replace(b.as_str(), '\n', "\\n");
    text::replace(c.as_str(), '\r', "\\r")
}

/// The script that adds a piece of the answer.
pub open spec fn token_script_text(sid: Seq<char>, token: Seq<char>) -> Seq<char> {
    "<script>\n(function(){\n  var el = document.getElementById('stream-"@
        + sid
        + "') || document.querySelector('[id^=\"cont-\"].streaming');\n  if(el) appendStreamToken(el, '"@
        + script_text(escaped(token))
        + "');\n  var msgs = document.getElementById('messages');\n  if(msgs) msgs.scrollTop = msgs.scrollHeight;\n})();\n</script>"@
}

/// The script that adds a piece of the answer.
fn token_script(sid: &str, token: &str) -> (r: String)
    ensures
        r@ == token_script_text(sid@, token@),
{
    let token = html::html_escape(token);
    let token = script_escape(token.as_str());
    let mut out = "<script>\n(function(){\n  var el = document.getElementById('stream-".to_string();
    out.append(sid);
    out.append("') || document.querySelector('[id^=\"cont-\"].streaming');\n  if(el) appendStreamToken(el, '");
    out.append(token.as_str());
    out.append("');\n  var msgs = document.getElementById('messages');\n  if(msgs) msgs.scrollTop = msgs.scrollHeight;\n})();\n</script>");
    out
}

/// The script that shows what is being done.
pub open spec fn status_script_text(status: Seq<char>) -> Seq<char> {
    "<script>\n(function(){\n  var msgs = document.getElementById('messages');\n  var statusDiv = document.createElement('div');\n  statusDiv.className = 'flex justify-start';\n  statusDiv.innerHTML = '<div class=\"tool-status active\"><svg class=\"w-3.5 h-3.5\" viewBox=\"0 0 24 24\" fill=\"none\" stroke=\"currentColor\" stroke-width=\"2\" stroke-linecap=\"round\" stroke-linejoin=\"round\"><circle cx=\"12\" cy=\"12\" r=\"3\"/><path d=\"M12 1v4m0 14v4m-8.66-13H7.34m9.32 0h4m-14.14 5.66l2.83-2.83m7.07-7.07l2.83-2.83M4.22 4.22l2.83 2.83m7.07 7.07l2.83 2.83\"/></svg><span>"@
        + escaped(status)
        + "</span></div>';\n  msgs.appendChild(statusDiv);\n  msgs.scrollTop = msgs.scrollHeight;\n})();\n</script>"@
}

/// The script that shows what is being done.
fn status_script(status: &str) -> (r: String)
    ensures
        r@ == status_script_text(status@),
{
    let status = html::html_escape(status);
    let mut out = "<script>\n(function(){\n  var msgs = document.getElementById('messages');\n  var statusDiv = document.createElement('div');\n  statusDiv.className = 'flex justify-start';\n  statusDiv.innerHTML = '<div class=\"tool-status active\"><svg class=\"w-3.5 h-3.5\" viewBox=\"0 0 24 24\" fill=\"none\" stroke=\"currentColor\" stroke-width=\"2\" stroke-linecap=\"round\" stroke-linejoin=\"round\"><circle cx=\"12\" cy=\"12\" r=\"3\"/><path d=\"M12 1v4m0 14v4m-8.66-13H7.34m9.32 0h4m-14.14 5.66l2.83-2.83m7.07-7.07l2.83-2.83M4.22 4.22l2.83 2.83m7.07 7.07l2.83 2.83\"/></svg><span>".to_string();
    out.append(status.as_str());
    out.append("</span></div>';\n  msgs.appendChild(statusDiv);\n  msgs.scrollTop = msgs.scrollHeight;\n})();\n</script>");
    out
}

/// The line of a script that adds a file to download.
pub open spec fn card_line_text(url: Seq<char>, name: Seq<char>) -> Seq<char> {
    "html += '<a href=\""@
        + replaced(escaped(url), '\'', "\\'"@)
        + "\" target=\"_blank\" download class=\"flex items-center gap-2 px-3 py-2 bg-surface-input border border-edge rounded-lg hover:border-coral/40 transition-colors text-sm no-underline\"><svg class=\"w-4 h-4 flex-shrink-0 text-coral\" viewBox=\"0 0 24 24\" fill=\"none\" stroke=\"currentColor\" stroke-width=\"2\" stroke-linecap=\"round\" stroke-linejoin=\"round\"><path d=\"M14 2H6a2 2 0 0 0-2 2v16a2 2 0 0 0 2 2h12a2 2 0 0 0 2-2V8z\"/><polyline points=\"14 2 14 8 20 8\"/><line x1=\"12\" y1=\"18\" x2=\"12\" y2=\"12\"/><polyline points=\"9 15 12 18 15 15\"/></svg><span class=\"truncate text-txt-heading\">"@
        + replaced(escaped(name), '\'', "\\'"@)
        + "</span></a>';\n"@
}

/// The line of a script that adds a file to download.
fn card_line(url: &str, name: &str) -> (r: String)
    ensures
        r@ == card_line_text(url@, name@),
{
    let url = html::html_escape(url);
    let url = text::replace(url.as_str(), '\'', "\\'");
    let name = html::html_escape(name);
    let name = text::replace(name.as_str(), '\'', "\\'");
    let mut out = "html += '<a href=\"".to_string();
    out.append(url.as_str());
    out.append("\" target=\"_blank\" download class=\"flex items-center gap-2 px-3 py-2 bg-surface-input border border-edge rounded-lg hover:border-coral/40 transition-colors text-sm no-underline\"><svg class=\"w-4 h-4 flex-shrink-0 text-coral\" viewBox=\"0 0 24 24\" fill=\"none\" stroke=\"currentColor\" stroke-width=\"2\" stroke-linecap=\"round\" stroke-linejoin=\"round\"><path d=\"M14 2H6a2 2 0 0 0-2 2v16a2 2 0 0 0 2 2h12a2 2 0 0 0 2-2V8z\"/><polyline points=\"14 2 14 8 20 8\"/><line x1=\"12\" y1=\"18\" x2=\"12\" y2=\"12\"/><polyline points=\"9 15 12 18 15 15\"/></svg><span class=\"truncate text-txt-heading\">");
    out.append(name.as_str());
    out.append("</span></a>';\n");
    out
}

/// The script that adds files to download.
pub open spec fn cards_script_text(sid: Seq<char>, cards: Seq<char>) -> Seq<char> {
    "<script>\n(function(){\n  var el = document.getElementById('stream-"@
        + sid
        + "') || document.querySelector('[id^=\"cont-\"].streaming');\n  if(el) {\n    var div = document.createElement('div');\n    div.className = 'mt-2 space-y-1.5';\n    var html = '';\n    "@
        + cards
        + "\n    div.innerHTML = html;\n    el.parentElement.appendChild(div);\n  }\n  var msgs = document.getElementById('messages');\n  if(msgs) msgs.scrollTop = msgs.scrollHeight;\n})();\n</script>"@
}

/// The script that adds files to download.
fn cards_script(sid: &str, cards: &str) -> (r: String)
    ensures
        r@ == cards_script_text(sid@, cards@),
{
    let mut out = "<script>\n(function(){\n  var el = document.getElementById('stream-".to_string();
    out.append(sid);
    out.append("') || document.querySelector('[id^=\"cont-\"].streaming');\n  if(el) {\n    var div = document.createElement('div');\n    div.className = 'mt-2 space-y-1.5';\n    var html = '';\n    ");
    out.append(cards);
    out.append("\n    div.innerHTML = html;\n    el.parentElement.appendChild(div);\n  }\n  var msgs = document.getElementById('messages');\n  if(msgs) msgs.scrollTop = msgs.scrollHeight;\n})();\n</script>");
    out
}

/// The script that ends an answer with an error.
pub open spec fn error_script_text(sid: Seq<char>, error: Seq<char>) -> Seq<char> {
    "<script>\n(function(){\n  var el = document.getElementById('stream-"@
        + sid
        + "') || document.querySelector('[id^=\"cont-\"].streaming');\n  if(el) {\n    el.classList.remove('streaming');\n    el.innerHTML += '<div class=\"mt-2 px-3 py-2 bg-red-950/50 border border-red-800/50 rounded-lg text-red-300 text-xs\">[Error: "@
        + replaced(replaced(escaped(error), '\'', "\\'"@), '\n', "\\n"@)
        + "]</div>';\n  }\n})();\n</script>"@
}

/// The script that ends an answer with an error.
fn error_script(sid: &str, error: &str) -> (r: String)
    ensures
        r@ == error_script_text(sid@, error@),
{
    let error = html::html_escape(error);
    let error = text::replace(error.as_str(), '\'', "\\'");
    let error = text::replace(error.as_str(), '\n', "\\n");
    let mut out = "<script>\n(function(){\n  var el = document.getElementById('stream-".to_string();
    out.append(sid);
    out.append("') || document.querySelector('[id^=\"cont-\"].streaming');\n  if(el) {\n    el.classList.remove('streaming');\n    el.innerHTML += '<div class=\"mt-2 px-3 py-2 bg-red-950/50 border border-red-800/50 rounded-lg text-red-300 text-xs\">[Error: ");
    out.append(error.as_str());
    out.append("]</div>';\n  }\n})();\n</script>");
    out
}

/// The script that shows that an approval was asked for elsewhere.
pub open spec fn queued_script_text(display: Seq<char>, message_html: Seq<char>, id: Seq<char>) -> Seq<char> {
    "<script>\n(function(){\n  var msgs = document.getElementById('messages');\n  var statusDiv = document.createElement('div');\n  statusDiv.className = 'flex justify-start';\n  var label = t('chat.confirm.queued').replace('{tool}', '"@
        + escaped(display)
        + "').replace('{id}', '"@
        + escaped(id)
        + "');\n  statusDiv.innerHTML = '<div class=\"tool-status active\"><svg class=\"w-3.5 h-3.5\" viewBox=\"0 0 24 24\" fill=\"none\" stroke=\"currentColor\" stroke-width=\"2\" stroke-linecap=\"round\" stroke-linejoin=\"round\"><circle cx=\"12\" cy=\"12\" r=\"3\"/><path d=\"M12 1v4m0 14v4m-8.66-13H7.34m9.32 0h4m-14.14 5.66l2.83-2.83m7.07-7.07l2.83-2.83M4.22 4.22l2.83 2.83m7.07 7.07l2.83 2.83\"/></svg><span>' + label + '</span></div>"@
        + message_html
        + "';\n  msgs.appendChild(statusDiv);\n  msgs.scrollTop = msgs.scrollHeight;\n})();\n</script>"@
}

/// The script that shows that an approval was asked for elsewhere.
fn queued_script(display: &str, message_html: &str, id: &str) -> (r: String)
    ensures
        r@ == queued_script_text(display@, message_html@, id@),
{
    let display = html::html_escape(display);
    let id = html::html_escape(id);
    let mut out = "<script>\n(function(){\n  var msgs = document.getElementById('messages');\n  var statusDiv = document.createElement('div');\n  statusDiv.className = 'flex justify-start';\n  var label = t('chat.confirm.queued').replace('{tool}', '".to_string();
    out.append(display.as_str());
    out.append("').replace('{id}', '");
    out.append(id.as_str());
    out.append("');\n  statusDiv.innerHTML = '<div class=\"tool-status active\"><svg class=\"w-3.5 h-3.5\" viewBox=\"0 0 24 24\" fill=\"none\" stroke=\"currentColor\" stroke-width=\"2\" stroke-linecap=\"round\" stroke-linejoin=\"round\"><circle cx=\"12\" cy=\"12\" r=\"3\"/><path d=\"M12 1v4m0 14v4m-8.66-13H7.34m9.32 0h4m-14.14 5.66l2.83-2.83m7.07-7.07l2.83-2.83M4.22 4.22l2.83 2.83m7.07 7.07l2.83 2.83\"/></svg><span>' + label + '</span></div>");
    out.append(message_html);
    out.append("';\n  msgs.appendChild(statusDiv);\n  msgs.scrollTop = msgs.scrollHeight;\n})();\n</script>");
    out
}

/// The note that goes with a request for approval, where there is one.
pub open spec fn approval_note(message: Option<Seq<char>>) -> Seq<char> {
    match message {
        Some(message) => "  h += '<p class=\"text-sm text-txt-heading mb-3 whitespace-pre-wrap\">"@
            + replaced(escaped(message), '\'', "\\'"@)
            + "</p>';\n"@,
        None => Seq::empty(),
    }
}

/// The script that asks for the approval of a tool call.
pub open spec fn confirmation_text(
    sid: Seq<char>,
    cid: Seq<char>,
    tool: Seq<char>,
    approval_message: Option<Seq<char>>,
    args: Seq<char>,
    base_path: Seq<char>,
) -> Seq<char> {
    ("<script>\n(function(){\n  var el = document.getElementById('stream-"@
        + sid
        + "') || document.querySelector('[id^=\"cont-\"].streaming');\n  if(el) el.classList.remove('streaming');\n  var msgs = document.getElementById('messages');\n  var cardWrap = document.createElement('div');\n  cardWrap.className = 'flex justify-start';\n  cardWrap.id = 'confirm-"@
        + cid
        + "';\n  var h = '';\n  h += '<div class=\"confirm-card\">';\n  h += '<div class=\"flex items-center gap-2 text-sm font-medium text-amber-300 mb-2\">';\n  h += '<svg class=\"w-4 h-4\" viewBox=\"0 0 24 24\" fill=\"none\" stroke=\"currentColor\" stroke-width=\"2\" stroke-linecap=\"round\" stroke-linejoin=\"round\"><path d=\"M10.29 3.86L1.82 18a2 2 0 0 0 1.71 3h16.94a2 2 0 0 0 1.71-3L13.71 3.86a2 2 0 0 0-3.42 0z\"/><line x1=\"12\" y1=\"9\" x2=\"12\" y2=\"13\"/><line x1=\"12\" y1=\"17\" x2=\"12.01\" y2=\"17\"/></svg>';\n  h += ' ' + t('chat.confirm.title') + '</div>';\n  h += '<p class=\"text-xs text-txt-muted mb-1\">' + t('chat.confirm.tool') + ' <code class=\"bg-surface-input px-1.5 py-0.5 rounded text-brand-300 text-xs\">"@
        + escaped(tool)
        + "</code></p>';\n"@) + approval_note(approval_message) + ("  h += '<pre>"@
        + replaced(replaced(escaped(args), '\n', "\\n"@), '\r', ""@)
        + "</pre>';\n  h += '<div class=\"confirm-actions\">';\n  h += '<button hx-post=\""@
        + base_path
        + "/chat/confirm/"@
        + cid
        + "?approved=true\" hx-target=\"#confirm-"@
        + cid
        + "\" hx-swap=\"outerHTML\" class=\"btn-approve\">' + t('chat.confirm.approve') + '</button>';\n  h += '<button hx-post=\""@
        + base_path
        + "/chat/confirm/"@
        + cid
        + "?approved=false\" hx-target=\"#confirm-"@
        + cid
        + "\" hx-swap=\"outerHTML\" class=\"btn-deny\">' + t('chat.confirm.deny') + '</button>';\n  h += '</div></div>';\n  cardWrap.innerHTML = h;\n  msgs.appendChild(cardWrap);\n  htmx.process(cardWrap);\n  msgs.scrollTop = msgs.scrollHeight;\n})();\n</script>"@)
}

/// The text that `serde_json` gives over several lines for the value that it finds in a
/// text; nothing where it finds none.
pub uninterp spec fn json_pretty(s: Seq<char>) -> Option<Seq<char>>;

/// `serde_json::to_string_pretty`: the value in a text, written out over several lines,
/// named by `json_pretty`.
#[verifier::external_body]
pub(crate) fn indent_json(s: &str) -> (r: Option<String>)
    ensures
        opt_text(r) == json_pretty(s@),
{
    match serde_json::from_str::<serde_json::Value>(s) {
        Ok(v) => serde_json::to_string_pretty(&v).ok(),
        Err(_) => None,
    }
}

/// What is shown of the arguments of a tool call: over several lines where they can be
/// laid out so, else as they are.
pub open spec fn shown_arguments(arguments: Seq<char>, pretty: Option<Seq<char>>) -> Seq<char> {
    match pretty {
        Some(p) => p,
        None => arguments,
    }
}

/// What is shown of the arguments of a tool call.
pub fn show_arguments(arguments: &str, pretty: Option<String>) -> (r: String)
    ensures
        r@ == shown_arguments(arguments@, opt_text(pretty)),
{
    match pretty {
        Some(p) => p,
        None => arguments.to_string(),
    }
}

/// The script that asks for the approval of a tool call.
pub fn build_confirmation_html(
    sid: &str,
    cid: &str,
    tool: &str,
    approval_message: Option<&str>,
    args: &str,
    base_path: &str,
) -> (r: String)
    ensures
        r@ == confirmation_text(sid@, cid@, tool@, opt_str(approval_message), args@, base_path@),
{
    let tool_name = tool;
    let tool = html::html_escape(tool_name);
    let raw_args = args;
    let args = html::html_escape(raw_args);
    let args = text::replace(args.as_str(), '\n', "\\n");
    let args = text::replace(args.as_str(), '\r', "");
    let mut s = String::new();
    s.append("<script>\n(function(){\n  var el = document.getElementById('stream-");
    s.append(sid);
    s.append("') || document.querySelector('[id^=\"cont-\"].streaming');\n  if(el) el.classList.remove('streaming');\n  var msgs = document.getElementById('messages');\n  var cardWrap = document.createElement('div');\n  cardWrap.className = 'flex justify-start';\n  cardWrap.id = 'confirm-");
    s.append(cid);
    s.append("';\n  var h = '';\n  h += '<div class=\"confirm-card\">';\n  h += '<div class=\"flex items-center gap-2 text-sm font-medium text-amber-300 mb-2\">';\n  h += '<svg class=\"w-4 h-4\" viewBox=\"0 0 24 24\" fill=\"none\" stroke=\"currentColor\" stroke-width=\"2\" stroke-linecap=\"round\" stroke-linejoin=\"round\"><path d=\"M10.29 3.86L1.82 18a2 2 0 0 0 1.71 3h16.94a2 2 0 0 0 1.71-3L13.71 3.86a2 2 0 0 0-3.42 0z\"/><line x1=\"12\" y1=\"9\" x2=\"12\" y2=\"13\"/><line x1=\"12\" y1=\"17\" x2=\"12.01\" y2=\"17\"/></svg>';\n  h += ' ' + t('chat.confirm.title') + '</div>';\n  h += '<p class=\"text-xs text-txt-muted mb-1\">' + t('chat.confirm.tool') + ' <code class=\"bg-surface-input px-1.5 py-0.5 rounded text-brand-300 text-xs\">");
    s.append(tool.as_str());
    s.append("</code></p>';\n");
    let ghost head = s@;
    match approval_message {
        Some(message) => {
            let m = html::html_escape(message);
            let m = text::replace(m.as_str(), '\'', "\\'");
            s.append("  h += '<p class=\"text-sm text-txt-heading mb-3 whitespace-pre-wrap\">");
            s.append(m.as_str());
            s.append("</p>';\n");
        },
        None => {},
    }
    let ghost note = approval_note(opt_str(approval_message));
    proof {
        assert(s@ =~= head + note);
    }
    let ghost front = s@;
    s.append("  h += '<pre>");
    s.append(args.as_str());
    s.append("</pre>';\n  h += '<div class=\"confirm-actions\">';\n  h += '<button hx-post=\"");
    s.append(base_path);
    s.append("/chat/confirm/");
    s.append(cid);
    s.append("?approved=true\" hx-target=\"#confirm-");
    s.append(cid);
    s.append("\" hx-swap=\"outerHTML\" class=\"btn-approve\">' + t('chat.confirm.approve') + '</button>';\n  h += '<button hx-post=\"");
    s.append(base_path);
    s.append("/chat/confirm/");
    s.append(cid);
    s.append("?approved=false\" hx-target=\"#confirm-");
    s.append(cid);
    s.append("\" hx-swap=\"outerHTML\" class=\"btn-deny\">' + t('chat.confirm.deny') + '</button>';\n  h += '</div></div>';\n  cardWrap.innerHTML = h;\n  msgs.appendChild(cardWrap);\n  htmx.process(cardWrap);\n  msgs.scrollTop = msgs.scrollHeight;\n})();\n</script>");
    proof {
        assert(s@ =~= front + ("  h += '<pre>"@
            + replaced(replaced(escaped(raw_args@), '\n', "\\n"@), '\r', ""@)
            + "</pre>';\n  h += '<div class=\"confirm-actions\">';\n  h += '<button hx-post=\""@
            + base_path@
            + "/chat/confirm/"@
            + cid@
            + "?approved=true\" hx-target=\"#confirm-"@
            + cid@
            + "\" hx-swap=\"outerHTML\" class=\"btn-approve\">' + t('chat.confirm.approve') + '</button>';\n  h += '<button hx-post=\""@
            + base_path@
            + "/chat/confirm/"@
            + cid@
            + "?approved=false\" hx-target=\"#confirm-"@
            + cid@
            + "\" hx-swap=\"outerHTML\" class=\"btn-deny\">' + t('chat.confirm.deny') + '</button>';\n  h += '</div></div>';\n  cardWrap.innerHTML = h;\n  msgs.appendChild(cardWrap);\n  htmx.process(cardWrap);\n  msgs.scrollTop = msgs.scrollHeight;\n})();\n</script>"@));
        assert(head =~= "<script>\n(function(){\n  var el = document.getElementById('stream-"@
            + sid@
            + "') || document.querySelector('[id^=\"cont-\"].streaming');\n  if(el) el.classList.remove('streaming');\n  var msgs = document.getElementById('messages');\n  var cardWrap = document.createElement('div');\n  cardWrap.className = 'flex justify-start';\n  cardWrap.id = 'confirm-"@
            + cid@
            + "';\n  var h = '';\n  h += '<div class=\"confirm-card\">';\n  h += '<div class=\"flex items-center gap-2 text-sm font-medium text-amber-300 mb-2\">';\n  h += '<svg class=\"w-4 h-4\" viewBox=\"0 0 24 24\" fill=\"none\" stroke=\"currentColor\" stroke-width=\"2\" stroke-linecap=\"round\" stroke-linejoin=\"round\"><path d=\"M10.29 3.86L1.82 18a2 2 0 0 0 1.71 3h16.94a2 2 0 0 0 1.71-3L13.71 3.86a2 2 0 0 0-3.42 0z\"/><line x1=\"12\" y1=\"9\" x2=\"12\" y2=\"13\"/><line x1=\"12\" y1=\"17\" x2=\"12.01\" y2=\"17\"/></svg>';\n  h += ' ' + t('chat.confirm.title') + '</div>';\n  h += '<p class=\"text-xs text-txt-muted mb-1\">' + t('chat.confirm.tool') + ' <code class=\"bg-surface-input px-1.5 py-0.5 rounded text-brand-300 text-xs\">"@
            + escaped(tool_name@)
            + "</code></p>';\n"@);
    }
    s
}

/// The note that goes with an approval that was asked for elsewhere.
pub open spec fn confirmation_message_text(message: Seq<char>) -> Seq<char> {
    "<div class=\\\"mt-2 max-w-[72%] text-sm text-txt-heading whitespace-pre-wrap\\\">"@ + escaped(message) + "</div>"@
}

/// The note that goes with an approval that was asked for elsewhere.
pub fn render_confirmation_message_html(message: &str) -> (r: String)
    ensures
        r@ == confirmation_message_text(message@),
{
    let mut out = "<div class=\\\"mt-2 max-w-[72%] text-sm text-txt-heading whitespace-pre-wrap\\\">".to_string();
    let message = html::html_escape(message);
    out.append(message.as_str());
    out.append("</div>");
    out
}

/// The address and the name of each file to download.
pub open spec fn card_pairs(files: Seq<(String, String)>) -> Seq<(Seq<char>, Seq<char>)> {
    files.map_values(|p: (String, String)| (p.0@, p.1@))
}

/// The lines of a script that add files to download.
pub open spec fn card_lines(files: Seq<(Seq<char>, Seq<char>)>) -> Seq<char> {
    files.flat_map(|p: (Seq<char>, Seq<char>)| card_line_text(p.0, p.1))
}

/// What is streamed for an event.
pub open spec fn event_text(sid: Seq<char>, base_path: Seq<char>, event: LoopEvent) -> Seq<char> {
    match event {
        LoopEvent::Token(t) => token_script_text(sid, t@),
        LoopEvent::CapabilityStatus(s) => status_script_text(s@),
        LoopEvent::ConfirmationRequired {
            confirmation_id,
            tool_display_name,
            approval_message,
            arguments,
        } => confirmation_text(
            sid,
            confirmation_id@,
            tool_display_name@,
            opt_text(approval_message),
            shown_arguments(arguments@, json_pretty(arguments@)),
            base_path,
        ),
        LoopEvent::Artifacts(files) => if files@.len() == 0 {
            Seq::empty()
        } else {
            cards_script_text(sid, card_lines(card_pairs(files@)))
        },
        LoopEvent::Done => "<script>finalizeStream('"@ + sid + "');</script>"@,
        LoopEvent::Error(e) => error_script_text(sid, e@),
        LoopEvent::ApprovalQueued { tool_display_name, approval_message, approval_id } =>
        queued_script_text(
            tool_display_name@,
            match opt_text(approval_message) {
                Some(m) => confirmation_message_text(m),
                None => Seq::empty(),
            },
            approval_id@,
        ),
    }
}

/// The lines of a script that add files to download.
fn list_cards(files: &Vec<(String, String)>) -> (r: String)
    ensures
        r@ == card_lines(card_pairs(files@)),
{
    let ghost all = card_pairs(files@);
    let ghost f = |p: (Seq<char>, Seq<char>)| card_line_text(p.0, p.1);
    let mut cards = String::new();
    let mut i: usize = 0;
    while i < files.len()
        invariant
            i <= files@.len(),
            all == card_pairs(files@),
            f == (|p: (Seq<char>, Seq<char>)| card_line_text(p.0, p.1)),
            cards@ == all.take(i as int).flat_map(f),
        decreases files@.len() - i,
    {
        proof {
            all.lemma_flat_map_take_append(f, i as int);
            assert(all[i as int] == (files@[i as int].0@, files@[i as int].1@));
        }
        let card = card_line(files[i].0.as_str(), files[i].1.as_str());
        cards.append(card.as_str());
        i += 1;
    }
    proof {
        assert(all.take(i as int) =~= all);
    }
    cards
}

/// What is streamed for an event.
pub fn chat_stream(sid: &str, base_path: &str, event: &LoopEvent) -> (r: String)
    ensures
        r@ == event_text(sid@, base_path@, *event),
{
    match event {
        LoopEvent::Token(t) => token_script(sid, t.as_str()),
        LoopEvent::CapabilityStatus(s) => status_script(s.as_str()),
        LoopEvent::ConfirmationRequired {
            confirmation_id,
            tool_display_name,
            approval_message,
            arguments,
        } => {
            let message = match approval_message {
                Some(m) => Some(m.as_str()),
                None => None,
            };
            let pretty = indent_json(arguments.as_str());
            let shown = show_arguments(arguments.as_str(), pretty);
            build_confirmation_html(
                sid,
                confirmation_id.as_str(),
                tool_display_name.as_str(),
                message,
                shown.as_str(),
                base_path,
            )
        },
        LoopEvent::Artifacts(files) => {
            if files.len() == 0 {
                String::new()
            } else {
                let cards = list_cards(files);
                cards_script(sid, cards.as_str())
            }
        },
        LoopEvent::Done => {
            let mut out = "<script>finalizeStream('".to_string();
            out.append(sid);
            out.append("');</script>");
            out
        },
        LoopEvent::Error(e) => error_script(sid, e.as_str()),
        LoopEvent::ApprovalQueued { tool_display_name, approval_message, approval_id } => {
            let message = match approval_message {
                Some(m) => render_confirmation_message_html(m.as_str()),
                None => String::new(),
            };
            queued_script(tool_display_name.as_str(), message.as_str(), approval_id.as_str())
        },
    }
}

/// What is shown once a thumb was given.
pub fn chat_feedback() -> (r: &'static str)
    ensures
        r@ == "<span class=\"text-xs text-txt-muted\" data-i18n=\"improvement.feedback.thanks\">Thanks!</span>"@,
{
    "<span class=\"text-xs text-txt-muted\" data-i18n=\"improvement.feedback.thanks\">Thanks!</span>"
}

// ── Images of a message ──────────────────────────────────────────────────────

/// The type of an image by the extension of its name.
pub open spec fn mime_of_extension(ext: Seq<char>) -> Option<Seq<char>> {
    if ext == "png"@ {
        Some("image/png"@)
    } else if ext == "jpg"@ || ext == "jpeg"@ {
        Some("image/jpeg"@)
    } else if ext == "webp"@ {
        Some("image/webp"@)
    } else if ext == "gif"@ {
        Some("image/gif"@)
    } else if ext == "bmp"@ {
        Some("image/bmp"@)
    } else if ext == "tif"@ || ext == "tiff"@ {
        Some("image/tiff"@)
    } else if ext == "svg"@ {
        Some("image/svg+xml"@)
    } else if ext == "heic"@ {
        Some("image/heic"@)
    } else if ext == "heif"@ {
        Some("image/heif"@)
    } else {
        None
    }
}

/// The type of an image: the declared one where it is one of images, else by the
/// extension of its name.
pub open spec fn image_mime(filename: Option<Seq<char>>, declared: Seq<char>) -> Option<Seq<char>> {
    if "image/"@.is_prefix_of(declared) {
        Some(declared)
    } else {
        match filename {
            Some(f) => match last_place(f, '.') {
                Some(i) => mime_of_extension(lowered(f.subrange(i + 1, f.len() as int))),
                None => None,
            },
            None => None,
        }
    }
}

/// The type of an image.
pub fn resolve_image_mime_type(filename: Option<&str>, declared_mime: &str) -> (r: Option<String>)
    ensures
        opt_text(r) == image_mime(opt_str(filename), declared_mime@),
{
    if text::starts_with(declared_mime, "image/") {
        return Some(declared_mime.to_string());
    }
    let f = match filename {
        Some(f) => f,
        None => {
            return None;
        },
    };
    let ext = match text::find_last(f, '.') {
        Some(i) => {
            let n: usize = f.unicode_len();
            text::to_lower(f.substring_char(i + 1, n))
        },
        None => {
            return None;
        },
    };
    let e = ext.as_str();
    let mime = if text::same(e, "png") {
        "image/png"
    } else if text::same(e, "jpg") || text::same(e, "jpeg") {
        "image/jpeg"
    } else if text::same(e, "webp") {
        "image/webp"
    } else if text::same(e, "gif") {
        "image/gif"
    } else if text::same(e, "bmp") {
        "image/bmp"
    } else if text::same(e, "tif") || text::same(e, "tiff") {
        "image/tiff"
    } else if text::same(e, "svg") {
        "image/svg+xml"
    } else if text::same(e, "heic") {
        "image/heic"
    } else if text::same(e, "heif") {
        "image/heif"
    } else {
        return None;
    };
    Some(mime.to_string())
}

/// What a field of the form that sends a message holds.
#[derive(Debug, Clone, Copy, PartialEq, Eq, Structural)]
pub enum FieldKind {
    Words,
    Image,
    Other,
}

/// What a field of the form that sends a message holds, by its name.
pub fn field_kind(name: &str) -> (r: FieldKind)
    ensures
        r == if name@ == "text"@ {
            FieldKind::Words
        } else if name@ == "image"@ || name@ == "image[]"@ {
            FieldKind::Image
        } else {
            FieldKind::Other
        },
{
    if text::same(name, "text") {
        FieldKind::Words
    } else if text::same(name, "image") || text::same(name, "image[]") {
        FieldKind::Image
    } else {
        FieldKind::Other
    }
}

/// The name of an image that came without one.
pub open spec fn upload_name(id: Seq<char>, mime: Seq<char>) -> Seq<char> {
    "upload-"@ + id + "."@ + (if text::pieces(mime, '/').len() > 1 {
        text::pieces(mime, '/')[1]
    } else {
        "img"@
    })
}

/// Whether `r` is what becomes of an image field. `id` makes the name of an image that
/// came without one.
pub open spec fn image_taken(
    filename: Option<Seq<char>>,
    declared_mime: Seq<char>,
    data: Vec<u8>,
    id: Seq<char>,
    r: Result<Option<InboundAttachmentInput>, u16>,
) -> bool {
    match image_mime(filename, declared_mime) {
        None => r matches Ok(None),
        Some(mime) => if data@.len() == 0 {
            r matches Ok(None)
        } else if data@.len() > MAX_WEB_CHAT_IMAGE_BYTES {
            r == Err::<Option<InboundAttachmentInput>, u16>(response::PAYLOAD_TOO_LARGE)
        } else {
            r matches Ok(Some(a)) && a.mime_type@ == mime && a.data == data && a.filename@
                == match filename {
                Some(f) => f,
                None => upload_name(id, mime),
            }
        },
    }
}

/// What becomes of an image field: it is passed over where it is no image or
/// empty, too large an image ends the request, and any other is taken. `id` makes
/// the name of an image that came without one.
pub fn accept_image(
    filename: Option<String>,
    declared_mime: &str,
    data: Vec<u8>,
    id: &str,
) -> (r: Result<Option<InboundAttachmentInput>, u16>)
    ensures
        image_taken(opt_text(filename), declared_mime@, data, id@, r),
{
    let name = match &filename {
        Some(f) => Some(f.as_str()),
        None => None,
    };
    let mime_type = match resolve_image_mime_type(name, declared_mime) {
        Some(m) => m,
        None => {
            return Ok(None);
        },
    };
    if data.len() == 0 {
        return Ok(None);
    }
    if data.len() > MAX_WEB_CHAT_IMAGE_BYTES {
        return Err(response::PAYLOAD_TOO_LARGE);
    }
    let filename = match filename {
        Some(f) => f,
        None => {
            let parts = text::split(mime_type.as_str(), '/');
            proof {
                assert(texts(parts@).len() == parts@.len());
                if parts@.len() > 1 {
                    assert(texts(parts@)[1] == parts@[1]@);
                }
            }
            let mut f = "upload-".to_string();
            f.append(id);
            f.append(".");
            if parts.len() > 1 {
                f.append(parts[1].as_str());
            } else {
                f.append("img");
            }
            f
        },
    };
    Ok(Some(InboundAttachmentInput { filename, mime_type, data }))
}

/// What becomes of an image field; an image that came without a name gets one that is
/// made of a new identifier.
pub fn take_image(filename: Option<String>, declared_mime: &str, data: Vec<u8>) -> (r: Result<
    Option<InboundAttachmentInput>,
    u16,
>)
    ensures
        exists|id: Seq<char>|
            ids::is_id(id) && #[trigger] image_taken(
                opt_text(filename),
                declared_mime@,
                data,
                id,
                r,
            ),
{
    let id = ids::new_id();
    let r = accept_image(filename, declared_mime, data, id.as_str());
    proof {
        assert(image_taken(opt_text(filename), declared_mime@, data, id@, r));
    }
    r
}

/// The words of a message; one with neither words nor images is refused.
pub fn message_words(words: &str, images: usize) -> (r: Result<String, u16>)
    ensures
        if blank(words@) && images == 0 {
            r == Err::<String, u16>(response::BAD_REQUEST)
        } else {
            r matches Ok(w) && w@ == trimmed(words@)
        },
{
    if text::is_blank(words) && images == 0 {
        return Err(response::BAD_REQUEST);
    }
    Ok(text::trim(words).to_string())
}

/// What is shown of a message that was sent: its words, or a note where it holds
/// images only.
pub fn bubble_words(words: &str, has_images: bool, images_only: &str) -> (r: String)
    ensures
        r@ == if blank(words@) && has_images {
            images_only@
        } else {
            words@
        },
{
    if text::is_blank(words) && has_images {
        images_only.to_string()
    } else {
        words.to_string()
    }
}

// ── Base 64 ──────────────────────────────────────────────────────────────────

/// The sign of a value below 64.
pub open spec fn base64_sign(v: int) -> char {
    if v < 26 {
        (65 + v) as char
    } else if v < 52 {
        (71 + v) as char
    } else if v < 62 {
        (v - 4) as char
    } else if v == 62 {
        '+'
    } else {
        '/'
    }
}

/// Bytes in base 64: four signs for three bytes, filled up with equals signs.
pub open spec fn base64_text(b: Seq<u8>) -> Seq<char>
    decreases b.len(),
{
    if b.len() == 0 {
        Seq::empty()
    } else if b.len() == 1 {
        seq![base64_sign(b[0] as int / 4), base64_sign(b[0] as int % 4 * 16), '=', '=']
    } else if b.len() == 2 {
        seq![
            base64_sign(b[0] as int / 4),
            base64_sign(b[0] as int % 4 * 16 + b[1] as int / 16),
            base64_sign(b[1] as int % 16 * 4),
            '=',
        ]
    } else {
        seq![
            base64_sign(b[0] as int / 4),
            base64_sign(b[0] as int % 4 * 16 + b[1] as int / 16),
            base64_sign(b[1] as int % 16 * 4 + b[2] as int / 64),
            base64_sign(b[2] as int % 64),
        ] + base64_text(b.subrange(3, b.len() as int))
    }
}

/// `base64::Engine::encode` of the standard engine: the standard alphabet, with
/// padding.
#[verifier::external_body]
pub(crate) fn base64_of(data: &Vec<u8>) -> (r: String)
    ensures
        r@ == base64_text(data@),
{
    base64::Engine::encode(&base64::engine::general_purpose::STANDARD, data)
}

/// An image as an address of its own.
pub open spec fn data_url(mime: Seq<char>, data: Seq<u8>) -> Seq<char> {
    "data:"@ + mime + ";base64,"@ + base64_text(data)
}

/// The preview of an image.
pub open spec fn preview_tag_text(src: Seq<char>, alt: Seq<char>) -> Seq<char> {
    "<img src=\""@
        + escaped(src)
        + "\" alt=\""@
        + escaped(alt)
        + "\" class=\"w-[110px] h-[82px] object-cover rounded-lg border border-coral/30 bg-surface-input\" />"@
}

/// The preview of an image.
fn preview_tag(src: &str, alt: &str) -> (r: String)
    ensures
        r@ == preview_tag_text(src@, alt@),
{
    let src = html::html_escape(src);
    let alt = html::html_escape(alt);
    let mut out = "<img src=\"".to_string();
    out.append(src.as_str());
    out.append("\" alt=\"");
    out.append(alt.as_str());
    out.append("\" class=\"w-[110px] h-[82px] object-cover rounded-lg border border-coral/30 bg-surface-input\" />");
    out
}

/// The preview of an image; nothing for what is no image.
pub open spec fn preview_of(i: InboundAttachmentInput) -> Seq<char> {
    if "image/"@.is_prefix_of(i.mime_type@) {
        preview_tag_text(data_url(i.mime_type@, i.data@), i.filename@)
    } else {
        Seq::empty()
    }
}

/// The previews of the images of a message.
pub open spec fn previews_text(images: Seq<InboundAttachmentInput>) -> Seq<char> {
    if images.len() == 0 {
        Seq::empty()
    } else {
        "<div class=\"mt-2 flex flex-wrap gap-2\">"@ + images.flat_map(
            |i: InboundAttachmentInput| preview_of(i),
        ) + "</div>"@
    }
}

/// The previews of the images of a message.
pub fn render_user_image_preview_html(images: &Vec<InboundAttachmentInput>) -> (r: String)
    ensures
        r@ == previews_text(images@),
{
    if images.len() == 0 {
        return String::new();
    }
    let ghost f = |i: InboundAttachmentInput| preview_of(i);
    let mut out = "<div class=\"mt-2 flex flex-wrap gap-2\">".to_string();
    let ghost head = out@;
    proof {
        assert(images@.take(0).map_values(f) =~= Seq::<Seq<char>>::empty());
        assert(out@ =~= head + images@.take(0).flat_map(f));
    }
    let mut i: usize = 0;
    while i < images.len()
        invariant
            i <= images@.len(),
            f == (|i: InboundAttachmentInput| preview_of(i)),
            out@ == head + images@.take(i as int).flat_map(f),
        decreases images@.len() - i,
    {
        proof {
            images@.lemma_flat_map_take_append(f, i as int);
        }
        let img = &images[i];
        if text::starts_with(img.mime_type.as_str(), "image/") {
            let mut url = "data:".to_string();
            url.append(img.mime_type.as_str());
            url.append(";base64,");
            let data = base64_of(&img.data);
            url.append(data.as_str());
            let tag = preview_tag(url.as_str(), img.filename.as_str());
            out.append(tag.as_str());
        }
        i += 1;
        proof {
            assert(out@ =~= head + images@.take(i as int).flat_map(f));
        }
    }
    proof {
        assert(images@.take(i as int) =~= images@);
    }
    out.append("</div>");
    out
}

/// What becomes of a message that was sent.
#[derive(Debug)]
pub enum Sending {
    /// It is a command, which is carried out at once.
    Command,
    /// It is answered in a stream, and this is shown of it meanwhile.
    Stream(String),
}

/// What becomes of a message: one with neither words nor images is refused, one that is a
/// command and has no images is carried out, and any other is shown with the bubble that
/// its answer streams into. `is_command` is whether its words are a command, and
/// `images_only` the note for a message of images only.
pub fn chat_send(
    words: &str,
    images: &Vec<InboundAttachmentInput>,
    is_command: bool,
    images_only: &str,
    base_path: &str,
    pipe_id: &str,
    stream_id: &str,
) -> (r: Verdict<Sending>)
    ensures
        if words@.len() == 0 && images@.len() == 0 {
            r.answers(Sent::Status(400))
        } else if images@.len() == 0 && is_command {
            r matches Verdict::Proceed(Sending::Command)
        } else {
            r matches Verdict::Proceed(Sending::Stream(page)) && page@ == sent_bubbles_text(
                if blank(words@) && images@.len() > 0 {
                    images_only@
                } else {
                    words@
                },
                previews_text(images@),
                base_path@,
                pipe_id@,
                stream_id@,
            )
        },
{
    if words.is_empty() && images.len() == 0 {
        return Verdict::Answer(WebAnswer::Status(response::BAD_REQUEST));
    }
    if images.len() == 0 && is_command {
        return Verdict::Proceed(Sending::Command);
    }
    let preview = render_user_image_preview_html(images);
    let shown = bubble_words(words, images.len() > 0, images_only);
    Verdict::Proceed(
        Sending::Stream(
            sent_bubbles(shown.as_str(), preview.as_str(), base_path, pipe_id, stream_id),
        ),
    )
}

// ── What a stored message is shown as ────────────────────────────────────────

/// What stands between the words of a stored message and the list of its images.
pub const ARTIFACT_MARKER: &'static str = "\n\nAttached image artifacts:\n";

/// What a line of the list of images starts with.
pub const ARTIFACT_PREFIX: &'static str = "- artifact_id: ";

/// The image that a line of the list names.
pub open spec fn artifact_in(line: Seq<char>) -> Option<Seq<char>> {
    let t = trimmed(line);
    let id = trimmed(ahead_of(shed(t, ARTIFACT_PREFIX@), " | "@));
    if ARTIFACT_PREFIX@.is_prefix_of(t) && id.len() > 0 {
        Some(id)
    } else {
        None
    }
}

/// The images that a list names.
pub open spec fn artifacts_in(lines: Seq<Seq<char>>) -> Seq<Seq<char>> {
    lines.filter_map(|l: Seq<char>| artifact_in(l))
}

/// The words of a stored message.
pub open spec fn stored_words(raw: Seq<char>) -> Seq<char> {
    ahead_of(raw, ARTIFACT_MARKER@)
}

/// The images of a stored message.
pub open spec fn stored_artifacts(raw: Seq<char>) -> Seq<Seq<char>> {
    match find_from(raw, ARTIFACT_MARKER@, 0) {
        Some(i) => artifacts_in(
            lines_of(raw.subrange(i + ARTIFACT_MARKER@.len(), raw.len() as int)),
        ),
        None => Seq::empty(),
    }
}

/// The image that a line of the list names.
fn artifact_of_line(line: &str) -> (r: Option<String>)
    ensures
        opt_text(r) == artifact_in(line@),
{
    let t = text::trim(line);
    if !text::starts_with(t, ARTIFACT_PREFIX) {
        return None;
    }
    proof {
        reveal_strlit("- artifact_id: ");
    }
    let value = crate::updater::images::shed_prefix(t, ARTIFACT_PREFIX);
    let id = text::trim(text::before_text(value, " | "));
    if id.is_empty() {
        None
    } else {
        Some(id.to_string())
    }
}

/// The words and the images of a stored message.
pub fn split_user_artifact_block(raw: &str) -> (r: (String, Vec<String>))
    ensures
        r.0@ == stored_words(raw@),
        texts(r.1@) == stored_artifacts(raw@),
{
    let (prefix, rest) = match text::split_once(raw, ARTIFACT_MARKER) {
        Some(t) => t,
        None => {
            let none: Vec<String> = Vec::new();
            proof {
                assert(texts(none@) =~= Seq::<Seq<char>>::empty());
            }
            return (raw.to_string(), none);
        },
    };
    let lines = text::lines(rest);
    let ghost all = texts(lines@);
    let ghost f = |l: Seq<char>| artifact_in(l);
    let mut ids: Vec<String> = Vec::new();
    let mut i: usize = 0;
    proof {
        assert(texts(ids@) =~= all.take(0).filter_map(f));
    }
    while i < lines.len()
        invariant
            i <= lines@.len(),
            all == texts(lines@),
            f == (|l: Seq<char>| artifact_in(l)),
            texts(ids@) == all.take(i as int).filter_map(f),
        decreases lines@.len() - i,
    {
        let ghost before = texts(ids@);
        proof {
            all.lemma_filter_map_take_succ(f, i as int);
            assert(all[i as int] == lines@[i as int]@);
        }
        match artifact_of_line(lines[i].as_str()) {
            Some(id) => {
                let ghost idv = id@;
                ids.push(id);
                proof {
                    assert(texts(ids@) =~= before.push(idv));
                    assert(before + seq![idv] =~= before.push(idv));
                }
            },
            None => {
                proof {
                    assert(before + Seq::<Seq<char>>::empty() =~= before);
                }
            },
        }
        i += 1;
    }
    proof {
        assert(all.take(i as int) =~= all);
    }
    (prefix.to_string(), ids)
}

/// What the words of a user's stored message are shown as: as they are stored where it
/// has no images, else without the list of them, or as a note where nothing is left.
pub open spec fn display_words(raw: Seq<char>, images_only: Seq<char>) -> Seq<char> {
    if stored_artifacts(raw).len() == 0 {
        raw
    } else if blank(stored_words(raw)) {
        images_only
    } else {
        stored_words(raw)
    }
}

/// The addresses of the images of a user's stored message, of those that have one.
pub open spec fn display_urls(raw: Seq<char>, urls: TextMap) -> Seq<Seq<char>> {
    stored_artifacts(raw).filter_map(|id: Seq<char>| urls.at(id))
}

/// The addresses of images, of those that have one.
fn pick_urls(ids: &Vec<String>, urls: &TextMap) -> (r: Vec<String>)
    ensures
        texts(r@) == texts(ids@).filter_map(|id: Seq<char>| urls.at(id)),
{
    let ghost all = texts(ids@);
    let ghost f = |id: Seq<char>| urls.at(id);
    let mut out: Vec<String> = Vec::new();
    let mut i: usize = 0;
    proof {
        assert(texts(out@) =~= all.take(0).filter_map(f));
    }
    while i < ids.len()
        invariant
            i <= ids@.len(),
            all == texts(ids@),
            f == (|id: Seq<char>| urls.at(id)),
            texts(out@) == all.take(i as int).filter_map(f),
        decreases ids@.len() - i,
    {
        let ghost before = texts(out@);
        proof {
            all.lemma_filter_map_take_succ(f, i as int);
            assert(all[i as int] == ids@[i as int]@);
            assert(before + Seq::<Seq<char>>::empty() =~= before);
        }
        if let Some(url) = urls.get(ids[i].as_str()) {
            let ghost e = url@;
            out.push(url);
            proof {
                assert(texts(out@) =~= before.push(e));
                assert(before + seq![e] =~= before.push(e));
            }
        }
        i += 1;
    }
    proof {
        assert(all.take(i as int) =~= all);
    }
    out
}

/// What a user's stored message is shown as: its words, and the addresses of its images.
/// `urls` gives the address of each image that the user can still load.
pub fn user_message_for_display(raw: &str, urls: &TextMap, images_only: &str) -> (r: (
    String,
    Vec<String>,
))
    ensures
        r.0@ == display_words(raw@, images_only@),
        texts(r.1@) == display_urls(raw@, *urls),
{
    let (words, ids) = split_user_artifact_block(raw);
    let shown = pick_urls(&ids, urls);
    proof {
        assert(texts(ids@).len() == ids@.len());
    }
    if ids.len() == 0 {
        (raw.to_string(), shown)
    } else if text::is_blank(words.as_str()) {
        (images_only.to_string(), shown)
    } else {
        (words, shown)
    }
}

/// The formats in which time stamps are stored.
pub open spec fn stored_stamp(raw: Seq<char>) -> Option<(i64, u32)> {
    if let Ok(m) = naive_moment(raw, "%Y-%m-%d %H:%M:%S"@) {
        Some(m)
    } else if let Ok(m) = naive_moment(raw, "%Y-%m-%dT%H:%M:%S"@) {
        Some(m)
    } else if let Ok(m) = naive_moment(raw, "%Y-%m-%d %H:%M:%S%.f"@) {
        Some(m)
    } else if let Ok(m) = naive_moment(raw, "%Y-%m-%dT%H:%M:%S%.f"@) {
        Some(m)
    } else {
        None
    }
}

/// The format in which a moment is shown: shorter the nearer it is, in the order
/// of the user's language.
pub open spec fn shown_format(language: Seq<char>, same_day: bool, same_year: bool) -> Seq<char> {
    if language == "de"@ {
        if same_day {
            "%H:%M"@
        } else if same_year {
            "%d.%m. %H:%M"@
        } else {
            "%d.%m.%Y %H:%M"@
        }
    } else if same_day {
        "%-I:%M %p"@
    } else if same_year {
        "%b %-d, %-I:%M %p"@
    } else {
        "%b %-d, %Y %-I:%M %p"@
    }
}

/// A time stamp as it is shown: as it is where it is in none of the stored
/// formats.
pub open spec fn shown_stamp(raw: Seq<char>, language: Seq<char>, now: i64) -> Seq<char> {
    match stored_stamp(raw) {
        Some((secs, nanos)) => utc_text(
            secs,
            nanos,
            shown_format(language, day_of(secs) == day_of(now), utc_year(secs) == utc_year(now)),
        ),
        None => raw,
    }
}

/// The moment of a stored time stamp.
fn parse_stored(raw: &str) -> (r: Option<Moment>)
    ensures
        clock::moment_pair(r) == stored_stamp(raw@),
        r matches Some(m) ==> clock::in_calendar(m.secs, m.nanos),
{
    if let Ok(m) = clock::parse_naive(raw, "%Y-%m-%d %H:%M:%S") {
        return Some(m);
    }
    if let Ok(m) = clock::parse_naive(raw, "%Y-%m-%dT%H:%M:%S") {
        return Some(m);
    }
    if let Ok(m) = clock::parse_naive(raw, "%Y-%m-%d %H:%M:%S%.f") {
        return Some(m);
    }
    if let Ok(m) = clock::parse_naive(raw, "%Y-%m-%dT%H:%M:%S%.f") {
        return Some(m);
    }
    None
}

/// The format in which a moment is shown.
pub fn timestamp_format(language: &str, same_day: bool, same_year: bool) -> (r: &'static str)
    ensures
        r@ == shown_format(language@, same_day, same_year),
        clock::is_shown_format(r@),
{
    if text::same(language, "de") {
        if same_day {
            "%H:%M"
        } else if same_year {
            "%d.%m. %H:%M"
        } else {
            "%d.%m.%Y %H:%M"
        }
    } else if same_day {
        "%-I:%M %p"
    } else if same_year {
        "%b %-d, %-I:%M %p"
    } else {
        "%b %-d, %Y %-I:%M %p"
    }
}

/// A stored time stamp as it is shown to a user now.
pub fn format_timestamp_for_user(raw: &str, language: &str, now: i64) -> (r: String)
    requires
        clock::CALENDAR_FIRST <= now <= clock::CALENDAR_LAST,
    ensures
        r@ == shown_stamp(raw@, language@, now),
{
    match parse_stored(raw) {
        Some(m) => {
            let same_day = clock::day_number(m.secs) == clock::day_number(now);
            let same_year = clock::year_of(m.secs) == clock::year_of(now);
            clock::format_utc(&m, timestamp_format(language, same_day, same_year))
        },
        None => raw.to_string(),
    }
}

/// A thread as it is stored.
pub struct ThreadRow {
    pub id: String,
    pub title: Option<String>,
    pub status: String,
    pub created_at: String,
    pub last_activity_at: Option<String>,
}

/// Whether `v` lists a stored thread.
pub open spec fn shows_thread(
    v: ThreadView,
    row: ThreadRow,
    agent_active: bool,
    language: Seq<char>,
    now: i64,
) -> bool {
    &&& v.id@ == row.id@
    &&& v.title@ == match opt_text(row.title) {
        Some(t) => t,
        None => "New conversation"@,
    }
    &&& v.status@ == row.status@
    &&& v.last_activity_at@ == shown_stamp(
        match opt_text(row.last_activity_at) {
            Some(t) => t,
            None => row.created_at@,
        },
        language,
        now,
    )
    &&& v.agent_active == agent_active
}

/// A thread as it is listed.
pub fn thread_view(row: &ThreadRow, agent_active: bool, language: &str, now: i64) -> (r: ThreadView)
    requires
        clock::CALENDAR_FIRST <= now <= clock::CALENDAR_LAST,
    ensures
        shows_thread(r, *row, agent_active, language@, now),
{
    let title = match &row.title {
        Some(t) => t.clone(),
        None => "New conversation".to_string(),
    };
    let last = match &row.last_activity_at {
        Some(t) => t.as_str(),
        None => row.created_at.as_str(),
    };
    ThreadView {
        id: row.id.clone(),
        title,
        status: row.status.clone(),
        last_activity_at: format_timestamp_for_user(last, language, now),
        agent_active,
    }
}

/// A file that an agent made, as stored with a message.
#[derive(Debug)]
pub struct ArtifactRef {
    pub artifact_id: String,
    pub filename: String,
    pub mime_type: String,
    pub size_bytes: usize,
}

/// Whether `v` shows a file, with its address where it has one.
pub open spec fn shows_artifact(v: AttachmentView, file: ArtifactRef, urls: TextMap) -> bool {
    &&& v.filename@ == file.filename@
    &&& v.mime_type@ == file.mime_type@
    &&& v.size_bytes == file.size_bytes
    &&& v.download_url@ == match urls.at(file.artifact_id@) {
        Some(url) => url,
        None => Seq::<char>::empty(),
    }
}

/// Whether `v` shows the files of a message; none where they are not stored or could not be
/// read.
pub open spec fn shows_artifacts(
    v: Seq<AttachmentView>,
    files: Option<Vec<ArtifactRef>>,
    urls: TextMap,
) -> bool {
    match files {
        Some(f) => v.len() == f@.len() && forall|i: int|
            0 <= i < v.len() ==> shows_artifact(#[trigger] v[i], f@[i], urls),
        None => v.len() == 0,
    }
}

/// The files of a message as shown. `files` are those that are stored with it, where they
/// are and can be read; `urls` gives the addresses that they are loaded from.
pub fn parse_attachments_for_view(files: &Option<Vec<ArtifactRef>>, urls: &TextMap) -> (r: Vec<
    AttachmentView,
>)
    ensures
        shows_artifacts(r@, *files, *urls),
{
    let mut out: Vec<AttachmentView> = Vec::new();
    match files {
        Some(files) => {
            let mut i: usize = 0;
            while i < files.len()
                invariant
                    i <= files@.len(),
                    out@.len() == i,
                    forall|k: int|
                        0 <= k < i ==> shows_artifact(#[trigger] out@[k], files@[k], *urls),
                decreases files@.len() - i,
            {
                let file = &files[i];
                out.push(
                    AttachmentView {
                        filename: file.filename.clone(),
                        download_url: match urls.get(file.artifact_id.as_str()) {
                            Some(url) => url,
                            None => String::new(),
                        },
                        mime_type: file.mime_type.clone(),
                        size_bytes: file.size_bytes,
                    },
                );
                i += 1;
            }
        },
        None => {},
    }
    out
}

/// A message as stored, with what was found out of the images that it names.
#[derive(Debug)]
pub struct ThreadMessage {
    pub role: String,
    pub content: String,
    /// The address of each of its images that is still there.
    pub image_urls: TextMap,
    /// The tools that were called, each with its result where there is one.
    pub tool_calls: Vec<(String, Option<String>)>,
    /// The files that were made, where they are stored and can be read.
    pub files: Option<Vec<ArtifactRef>>,
    /// The address of each of these files.
    pub file_urls: TextMap,
    pub created_at: String,
}

/// Whether `v` shows a stored message.
pub open spec fn shows_message(
    v: MessageView,
    row: ThreadMessage,
    images_only: Seq<char>,
    language: Seq<char>,
    now: i64,
) -> bool {
    &&& v.role == row.role
    &&& if row.role@ == "user"@ {
        v.content@ == display_words(row.content@, images_only) && texts(v.image_urls@)
            == display_urls(row.content@, row.image_urls)
    } else {
        v.content@ == row.content@ && v.image_urls@.len() == 0
    }
    &&& v.tool_calls@.len() == row.tool_calls@.len()
    &&& forall|i: int|
        0 <= i < row.tool_calls@.len() ==> (#[trigger] v.tool_calls@[i]).name@
            == row.tool_calls@[i].0@ && v.tool_calls@[i].result@ == match row.tool_calls@[i].1 {
            Some(r) => r@,
            None => Seq::<char>::empty(),
        }
    &&& shows_artifacts(v.attachments@, row.files, row.file_urls)
    &&& v.created_at@ == shown_stamp(row.created_at@, language, now)
}

/// A stored message as shown.
pub fn message_view(row: ThreadMessage, images_only: &str, language: &str, now: i64) -> (r:
    MessageView)
    requires
        clock::CALENDAR_FIRST <= now <= clock::CALENDAR_LAST,
    ensures
        shows_message(r, row, images_only@, language@, now),
{
    let mut tool_calls: Vec<ToolCallView> = Vec::new();
    let mut i: usize = 0;
    while i < row.tool_calls.len()
        invariant
            i <= row.tool_calls@.len(),
            tool_calls@.len() == i,
            forall|k: int|
                0 <= k < i ==> (#[trigger] tool_calls@[k]).name@ == row.tool_calls@[k].0@
                    && tool_calls@[k].result@ == match row.tool_calls@[k].1 {
                    Some(r) => r@,
                    None => Seq::<char>::empty(),
                },
        decreases row.tool_calls@.len() - i,
    {
        let call = &row.tool_calls[i];
        let result = match &call.1 {
            Some(r) => r.clone(),
            None => String::new(),
        };
        tool_calls.push(ToolCallView { name: call.0.clone(), result });
        i += 1;
    }
    let created_at = format_timestamp_for_user(row.created_at.as_str(), language, now);
    let attachments = parse_attachments_for_view(&row.files, &row.file_urls);
    let (content, image_urls) = if text::same(row.role.as_str(), "user") {
        user_message_for_display(row.content.as_str(), &row.image_urls, images_only)
    } else {
        (row.content, Vec::new())
    };
    MessageView {
        role: row.role,
        content,
        image_urls,
        created_at,
        tool_calls,
        attachments,
    }
}

/// The time of the oldest of some stored messages, the first of them.
pub fn oldest_stamp(rows: &Vec<ThreadMessage>) -> (r: Option<String>)
    ensures
        opt_text(r) == if rows@.len() == 0 {
            None
        } else {
            Some(rows@[0].created_at@)
        },
{
    if rows.len() == 0 {
        None
    } else {
        Some(rows[0].created_at.clone())
    }
}

/// How many messages are fetched: more for a thread that is opened than for a page
/// of older ones.
pub fn page_size(before: bool) -> (r: i32)
    ensures
        r == if before {
            50i32
        } else {
            200i32
        },
{
    if before {
        50
    } else {
        200
    }
}

/// Straight to the only pipe, where there is exactly one.
pub fn chat_index(base_path: &str, pipes: &Vec<PipeView>) -> (r: Option<WebAnswer>)
    ensures
        if pipes@.len() == 1 {
            r matches Some(a) && a@ == Sent::Redirect(base_path@ + "/chat/"@ + pipes@[0].id@)
        } else {
            r is None
        },
{
    if pipes.len() == 1 {
        Some(response::redirect_with(base_path, "/chat/", pipes[0].id.as_str()))
    } else {
        None
    }
}

// ── Threads ──────────────────────────────────────────────────────────────────

/// The agent that a new thread of a pipe is for: the pipe's own, else the default
/// one.
pub fn thread_agent(pipe_agent: Option<String>) -> (r: String)
    ensures
        r@ == match opt_text(pipe_agent) {
            Some(a) => a,
            None => "default"@,
        },
{
    match pipe_agent {
        Some(a) => a,
        None => "default".to_string(),
    }
}

/// Where a new thread leads: to itself, where it could be created.
pub fn chat_new_thread(base_path: &str, pipe_id: &str, thread_id: Option<&str>) -> (r: WebAnswer)
    ensures
        r@ == match opt_str(thread_id) {
            Some(t) => Sent::Redirect(base_path@ + "/chat/"@ + pipe_id@ + ("/t/"@ + t)),
            None => Sent::Status(500),
        },
{
    match thread_id {
        Some(t) => {
            let mut more = "/t/".to_string();
            more.append(t);
            response::redirect_about(base_path, "/chat/", pipe_id, more.as_str())
        },
        None => WebAnswer::Status(response::INTERNAL_SERVER_ERROR),
    }
}

/// Where a thread that was to be deleted leads: back to its pipe, unless it was the
/// user's and could not be deleted.
pub fn chat_delete_thread(base_path: &str, pipe_id: &str, owned: bool, deleted: bool) -> (r:
    WebAnswer)
    ensures
        r@ == if owned && !deleted {
            Sent::Status(500)
        } else {
            Sent::Redirect(base_path@ + "/chat/"@ + pipe_id@)
        },
{
    if owned && !deleted {
        WebAnswer::Status(response::INTERNAL_SERVER_ERROR)
    } else {
        response::redirect_with(base_path, "/chat/", pipe_id)
    }
}

// ── An answer in progress ────────────────────────────────────────────────────

/// Which threads an answer is in progress in: the stream of each, and what was
/// last said of it.
pub struct LiveStreams {
    pub active: TextMap,
    pub last_status: TextMap,
}

impl LiveStreams {
    /// No answer is in progress.
    pub fn new() -> (r: LiveStreams)
        ensures
            forall|t: Seq<char>| #[trigger] r.active.at(t) is None,
            forall|t: Seq<char>| #[trigger] r.last_status.at(t) is None,
    {
        LiveStreams { active: TextMap::new(), last_status: TextMap::new() }
    }

    /// An answer starts in a thread.
    pub fn begin(&mut self, thread_id: &str, stream_id: &str)
        ensures
            final(self).active.at(thread_id@) == Some(stream_id@),
            forall|t: Seq<char>|
                t != thread_id@ ==> #[trigger] final(self).active.at(t) == old(self).active.at(t),
            final(self).last_status == old(self).last_status,
    {
        self.active.insert(thread_id, stream_id);
    }

    /// Something happens in a thread: what is being done is kept in mind.
    pub fn note(&mut self, thread_id: &str, event: &LoopEvent)
        ensures
            final(self).active == old(self).active,
            match event {
                LoopEvent::CapabilityStatus(s) => {
                    &&& final(self).last_status.at(thread_id@) == Some(s@)
                    &&& forall|t: Seq<char>|
                        t != thread_id@ ==> #[trigger] final(self).last_status.at(t) == old(
                            self,
                        ).last_status.at(t)
                },
                _ => final(self).last_status == old(self).last_status,
            },
    {
        match event {
            LoopEvent::CapabilityStatus(s) => {
                self.last_status.insert(thread_id, s.as_str());
            },
            _ => {},
        }
    }

    /// The answer in a thread is complete.
    pub fn end(&mut self, thread_id: &str)
        ensures
            final(self).active.at(thread_id@) is None,
            final(self).last_status.at(thread_id@) is None,
            forall|t: Seq<char>|
                t != thread_id@ ==> #[trigger] final(self).active.at(t) == old(self).active.at(t),
            forall|t: Seq<char>|
                t != thread_id@ ==> #[trigger] final(self).last_status.at(t) == old(
                    self,
                ).last_status.at(t),
    {
        self.active.remove(thread_id);
        self.last_status.remove(thread_id);
    }

    /// The stream to join for a thread, and what was last said of it; nothing where
    /// no answer is in progress.
    pub fn joined(&self, thread_id: &str) -> (r: (Option<String>, Option<String>))
        ensures
            opt_text(r.0) == self.active.at(thread_id@),
            opt_text(r.1) == if self.active.at(thread_id@) is Some {
                self.last_status.at(thread_id@)
            } else {
                None
            },
    {
        let stream = self.active.get(thread_id);
        let status = if stream.is_some() {
            self.last_status.get(thread_id)
        } else {
            None
        };
        (stream, status)
    }
}

// ── The page ─────────────────────────────────────────────────────────────────

/// The threads of a pipe as listed, each with whether an answer is in progress in it.
pub fn fetch_threads(rows: &Vec<ThreadRow>, streams: &LiveStreams, language: &str, now: i64) -> (r:
    Vec<ThreadView>)
    requires
        clock::CALENDAR_FIRST <= now <= clock::CALENDAR_LAST,
    ensures
        r@.len() == rows@.len(),
        forall|i: int|
            0 <= i < r@.len() ==> shows_thread(
                #[trigger] r@[i],
                rows@[i],
                streams.active.at(rows@[i].id@) is Some,
                language@,
                now,
            ),
{
    let mut out: Vec<ThreadView> = Vec::new();
    let mut i: usize = 0;
    while i < rows.len()
        invariant
            clock::CALENDAR_FIRST <= now <= clock::CALENDAR_LAST,
            i <= rows@.len(),
            out@.len() == i,
            forall|k: int|
                0 <= k < i ==> shows_thread(
                    #[trigger] out@[k],
                    rows@[k],
                    streams.active.at(rows@[k].id@) is Some,
                    language@,
                    now,
                ),
        decreases rows@.len() - i,
    {
        let active = streams.active.get(rows[i].id.as_str()).is_some();
        out.push(thread_view(&rows[i], active, language, now));
        i += 1;
    }
    out
}

/// The stored messages of a thread as shown, and the time of the oldest of them.
pub fn fetch_thread_messages(
    rows: Vec<ThreadMessage>,
    images_only: &str,
    language: &str,
    now: i64,
) -> (r: (Vec<MessageView>, Option<String>))
    requires
        clock::CALENDAR_FIRST <= now <= clock::CALENDAR_LAST,
    ensures
        r.0@.len() == rows@.len(),
        forall|i: int|
            0 <= i < rows@.len() ==> shows_message(
                #[trigger] r.0@[i],
                rows@[i],
                images_only@,
                language@,
                now,
            ),
        opt_text(r.1) == if rows@.len() == 0 {
            None
        } else {
            Some(rows@[0].created_at@)
        },
{
    let oldest = oldest_stamp(&rows);
    let mut out: Vec<MessageView> = Vec::new();
    for row in it: rows
        invariant
            clock::CALENDAR_FIRST <= now <= clock::CALENDAR_LAST,
            it.seq() == rows@,
            out@.len() == it.index(),
            forall|k: int|
                0 <= k < out@.len() ==> shows_message(
                    #[trigger] out@[k],
                    rows@[k],
                    images_only@,
                    language@,
                    now,
                ),
    {
        out.push(message_view(row, images_only, language, now));
    }
    (out, oldest)
}

/// The pipe of an ID: the first of that ID.
pub open spec fn pipe_named(pipes: Seq<PipeView>, id: Seq<char>) -> Option<(Seq<char>, Seq<char>)>
    decreases pipes.len(),
{
    if pipes.len() == 0 {
        None
    } else if pipes[0].id@ == id {
        Some((id, pipes[0].name@))
    } else {
        pipe_named(pipes.drop_first(), id)
    }
}

/// A pipe that may be there, as a value.
pub open spec fn opt_pipe(pipe: Option<PipeView>) -> Option<(Seq<char>, Seq<char>)> {
    match pipe {
        Some(p) => Some((p.id@, p.name@)),
        None => None,
    }
}

/// The pipe of an ID, where there is one.
pub fn find_pipe(pipes: &Vec<PipeView>, id: &str) -> (r: Option<PipeView>)
    ensures
        opt_pipe(r) == pipe_named(pipes@, id@),
{
    let mut i: usize = 0;
    proof {
        assert(pipes@.skip(0) =~= pipes@);
    }
    while i < pipes.len()
        invariant
            i <= pipes@.len(),
            pipe_named(pipes@, id@) == pipe_named(pipes@.skip(i as int), id@),
        decreases pipes@.len() - i,
    {
        proof {
            assert(pipes@.skip(i as int)[0] == pipes@[i as int]);
            assert(pipes@.skip(i as int).drop_first() =~= pipes@.skip(i + 1));
        }
        if text::same(pipes[i].id.as_str(), id) {
            return Some(PipeView { id: pipes[i].id.clone(), name: pipes[i].name.clone() });
        }
        i += 1;
    }
    None
}

/// A thread that is open on the page of the chat.
#[derive(Debug)]
pub struct OpenThread {
    pub selected_pipe: Option<PipeView>,
    pub threads: Vec<ThreadView>,
    pub messages: Vec<MessageView>,
    pub has_more_messages: bool,
    pub oldest_message_ts: String,
    pub active_stream_id: Option<String>,
    pub active_stream_last_status: Option<String>,
}

/// The page of the chat with the threads of a pipe, none of which is open.
pub fn chat_pipe(
    pipe_id: &str,
    pipes: &Vec<PipeView>,
    threads: &Vec<ThreadRow>,
    streams: &LiveStreams,
    language: &str,
    now: i64,
) -> (r: OpenThread)
    requires
        clock::CALENDAR_FIRST <= now <= clock::CALENDAR_LAST,
    ensures
        opt_pipe(r.selected_pipe) == pipe_named(pipes@, pipe_id@),
        r.threads@.len() == threads@.len(),
        forall|i: int|
            0 <= i < r.threads@.len() ==> shows_thread(
                #[trigger] r.threads@[i],
                threads@[i],
                streams.active.at(threads@[i].id@) is Some,
                language@,
                now,
            ),
        r.messages@.len() == 0,
        !r.has_more_messages,
        r.oldest_message_ts@ == Seq::<char>::empty(),
        r.active_stream_id is None,
        r.active_stream_last_status is None,
{
    OpenThread {
        selected_pipe: find_pipe(pipes, pipe_id),
        threads: fetch_threads(threads, streams, language, now),
        messages: Vec::new(),
        has_more_messages: false,
        oldest_message_ts: String::new(),
        active_stream_id: None,
        active_stream_last_status: None,
    }
}

/// The page of the chat with a thread open: its messages, and the stream to join where an
/// answer is in progress in it.
pub fn chat_thread(
    pipe_id: &str,
    thread_id: &str,
    pipes: &Vec<PipeView>,
    threads: &Vec<ThreadRow>,
    messages: Vec<ThreadMessage>,
    has_more: bool,
    streams: &LiveStreams,
    images_only: &str,
    language: &str,
    now: i64,
) -> (r: OpenThread)
    requires
        clock::CALENDAR_FIRST <= now <= clock::CALENDAR_LAST,
    ensures
        opt_pipe(r.selected_pipe) == pipe_named(pipes@, pipe_id@),
        r.threads@.len() == threads@.len(),
        forall|i: int|
            0 <= i < r.threads@.len() ==> shows_thread(
                #[trigger] r.threads@[i],
                threads@[i],
                streams.active.at(threads@[i].id@) is Some,
                language@,
                now,
            ),
        r.messages@.len() == messages@.len(),
        forall|i: int|
            0 <= i < messages@.len() ==> shows_message(
                #[trigger] r.messages@[i],
                messages@[i],
                images_only@,
                language@,
                now,
            ),
        r.has_more_messages == has_more,
        r.oldest_message_ts@ == if messages@.len() == 0 {
            Seq::empty()
        } else {
            messages@[0].created_at@
        },
        opt_text(r.active_stream_id) == streams.active.at(thread_id@),
        opt_text(r.active_stream_last_status) == if streams.active.at(thread_id@) is Some {
            streams.last_status.at(thread_id@)
        } else {
            None
        },
{
    let (shown, oldest) = fetch_thread_messages(messages, images_only, language, now);
    let (active_stream_id, active_stream_last_status) = streams.joined(thread_id);
    OpenThread {
        selected_pipe: find_pipe(pipes, pipe_id),
        threads: fetch_threads(threads, streams, language, now),
        messages: shown,
        has_more_messages: has_more,
        oldest_message_ts: match oldest {
            Some(t) => t,
            None => String::new(),
        },
        active_stream_id,
        active_stream_last_status,
    }
}

/// What is still streamed once a turn is over: after a failure, the error and the
/// end; the turn itself ends a stream that went well.
pub fn events_after_turn(failure: Option<&str>) -> (r: Vec<LoopEvent>)
    ensures
        match failure {
            Some(e) => r@.len() == 2 && (r@[0] matches LoopEvent::Error(t) && t@ == e@)
                && r@[1] is Done,
            None => r@.len() == 0,
        },
{
    let mut out: Vec<LoopEvent> = Vec::new();
    match failure {
        Some(e) => {
            out.push(LoopEvent::Error(e.to_string()));
            out.push(LoopEvent::Done);
        },
        None => {},
    }
    out
}

/// The title under which phones show an answer in progress.
pub open spec fn title_of(words: Seq<char>) -> Seq<char> {
    if words.len() == 0 {
        "New conversation"@
    } else if words.len() > 40 {
        words.take(40)
    } else {
        words
    }
}

/// The title under which phones show an answer in progress: the first forty
/// characters of the message.
pub fn activity_title(words: &str) -> (r: String)
    ensures
        r@ == title_of(words@),
{
    if words.is_empty() {
        return "New conversation".to_string();
    }
    let n: usize = words.unicode_len();
    if n > 40 {
        proof {
            assert(words@.take(40) =~= words@.subrange(0, 40));
        }
        words.substring_char(0, 40).to_string()
    } else {
        words.to_string()
    }
}

/// What phones are told once an answer is complete.
pub fn completion_note(language: &str) -> (r: &'static str)
    ensures
        r@ == if "de"@.is_prefix_of(language@) {
            "Agent ist fertig"@
        } else {
            "Agent completed"@
        },
{
    if text::starts_with(language, "de") {
        "Agent ist fertig"
    } else {
        "Agent completed"
    }
}

// ── Laws ─────────────────────────────────────────────────────────────────────

/// What stands for a character between single quotes of a script.
pub open spec fn script_char(c: char) -> Seq<char> {
    if c == '\\' {
        seq!['\\', '\\']
    } else if c == '\'' {
        seq!['\\', '\'']
    } else if c == '\n' {
        seq!['\\', 'n']
    } else if c == '\r' {
        seq!['\\', 'r']
    } else {
        seq![c]
    }
}

/// What stands for a text is what stands for its first character, and then what
/// stands for the rest.
proof fn lemma_script_first(s: Seq<char>)
    requires
        s.len() > 0,
    ensures
        script_text(s) == script_char(s[0]) + script_text(s.drop_first()),
{
    reveal_strlit("\\\\");
    reveal_strlit("\\'");
    reveal_strlit("\\n");
    reveal_strlit("\\r");
    let c = s[0];
    let rest = s.drop_first();
    let a0 = text::swapped(c, '\\', "\\\\"@);
    let b0 = replaced(rest, '\\', "\\\\"@);
    text::lemma_replaced_first(s, '\\', "\\\\"@);
    text::lemma_replaced_concat(a0, b0, '\'', "\\'"@);
    let a1 = replaced(a0, '\'', "\\'"@);
    let b1 = replaced(b0, '\'', "\\'"@);
    text::lemma_replaced_concat(a1, b1, '\n', "\\n"@);
    let a2 = replaced(a1, '\n', "\\n"@);
    let b2 = replaced(b1, '\n', "\\n"@);
    text::lemma_replaced_concat(a2, b2, '\r', "\\r"@);
    let a3 = replaced(a2, '\r', "\\r"@);
    assert(script_text(s) == a3 + script_text(rest));
    if c == '\\' {
        assert(a0 =~= seq!['\\', '\\']);
        text::lemma_replaced_none(a0, '\'', "\\'"@);
        text::lemma_replaced_none(a1, '\n', "\\n"@);
        text::lemma_replaced_none(a2, '\r', "\\r"@);
    } else if c == '\'' {
        text::lemma_replaced_one('\'', '\'', "\\'"@);
        assert(a1 =~= seq!['\\', '\'']);
        text::lemma_replaced_none(a1, '\n', "\\n"@);
        text::lemma_replaced_none(a2, '\r', "\\r"@);
    } else if c == '\n' {
        text::lemma_replaced_none(a0, '\'', "\\'"@);
        text::lemma_replaced_one('\n', '\n', "\\n"@);
        assert(a2 =~= seq!['\\', 'n']);
        text::lemma_replaced_none(a2, '\r', "\\r"@);
    } else if c == '\r' {
        text::lemma_replaced_none(a0, '\'', "\\'"@);
        text::lemma_replaced_none(a1, '\n', "\\n"@);
        text::lemma_replaced_one('\r', '\r', "\\r"@);
        assert(a3 =~= seq!['\\', 'r']);
    } else {
        text::lemma_replaced_none(a0, '\'', "\\'"@);
        text::lemma_replaced_none(a1, '\n', "\\n"@);
        text::lemma_replaced_none(a2, '\r', "\\r"@);
    }
}

/// What a script makes of the text between single quotes; nothing where a quote
/// or the end of a line would end it early.
pub open spec fn script_reads(s: Seq<char>) -> Option<Seq<char>>
    decreases s.len(),
{
    if s.len() == 0 {
        Some(Seq::empty())
    } else if s[0] == '\'' || s[0] == '\n' || s[0] == '\r' {
        None
    } else if s[0] == '\\' {
        if s.len() == 1 {
            None
        } else {
            match script_reads(s.subrange(2, s.len() as int)) {
                Some(rest) => Some(
                    seq![if s[1] == 'n' {
                        '\n'
                    } else if s[1] == 'r' {
                        '\r'
                    } else {
                        s[1]
                    }] + rest,
                ),
                None => None,
            }
        }
    } else {
        match script_reads(s.drop_first()) {
            Some(rest) => Some(seq![s[0]] + rest),
            None => None,
        }
    }
}

/// A piece of an answer can neither end the script that carries it nor change
/// anything in it: between the quotes the script reads exactly that piece.
pub proof fn law_script_reads_its_text(s: Seq<char>)
    ensures
        script_reads(script_text(s)) == Some(s),
    decreases s.len(),
{
    if s.len() == 0 {
        text::lemma_replaced_none(s, '\\', "\\\\"@);
        text::lemma_replaced_none(s, '\'', "\\'"@);
        text::lemma_replaced_none(s, '\n', "\\n"@);
        text::lemma_replaced_none(s, '\r', "\\r"@);
        assert(s =~= Seq::<char>::empty());
    } else {
        let rest = s.drop_first();
        let tail = script_text(rest);
        lemma_script_first(s);
        law_script_reads_its_text(rest);
        let whole = script_char(s[0]) + tail;
        if script_char(s[0]).len() == 2 {
            assert(whole.subrange(2, whole.len() as int) =~= tail);
        } else {
            assert(whole.drop_first() =~= tail);
        }
        assert(seq![s[0]] + rest =~= s);
    }
}

/// What a user wrote is shown as they wrote it while nothing is attached, and what an assistant or a
/// tool said always is; whatever was attached is shown at its own address, and each tool call with its
/// own result.
pub proof fn law_messages_are_shown_as_written(
    row: ThreadMessage,
    images_only: &str,
    language: &str,
    now: i64,
    v: MessageView,
)
    requires
        call_ensures(message_view, (row, images_only, language, now), v),
    ensures
        v.role@ == row.role@,
        row.role@ != "user"@ ==> v.content@ == row.content@ && v.image_urls@.len() == 0,
        row.role@ == "user"@ && !text::occurs_in(row.content@, "\n\nAttached image artifacts:\n"@)
            ==> v.content@ == row.content@ && v.image_urls@.len() == 0,
        v.tool_calls@.len() == row.tool_calls@.len(),
        forall|i: int|
            0 <= i < v.tool_calls@.len() ==> {
                &&& (#[trigger] v.tool_calls@[i]).name@ == row.tool_calls@[i].0@
                &&& row.tool_calls@[i].1 is Some ==> v.tool_calls@[i].result@
                    == row.tool_calls@[i].1->0@
            },
        row.files is None ==> v.attachments@.len() == 0,
        row.files is Some ==> v.attachments@.len() == row.files->0@.len(),
        row.files is Some ==> forall|i: int|
            0 <= i < v.attachments@.len() ==> {
                let file = row.files->0@[i];
                &&& (#[trigger] v.attachments@[i]).filename@ == file.filename@
                &&& v.attachments@[i].mime_type@ == file.mime_type@
                &&& v.attachments@[i].size_bytes == file.size_bytes
                &&& row.file_urls.at(file.artifact_id@) is Some ==> Some(
                    v.attachments@[i].download_url@,
                ) == row.file_urls.at(file.artifact_id@)
            },
        stored_stamp(row.created_at@) is None ==> v.created_at@ == row.created_at@,
{
    let raw = row.content@;
    if !text::occurs_in(raw, ARTIFACT_MARKER@) {
        assert forall|j: int| 0 <= j implies !text::occurs(raw, ARTIFACT_MARKER@, j) by {
            assert(!(exists|i: int| text::occurs(raw, ARTIFACT_MARKER@, i)));
        }
        text::lemma_find_none(raw, ARTIFACT_MARKER@, 0);
        let f = |id: Seq<char>| row.image_urls.at(id);
        assert(Seq::<Seq<char>>::empty().filter_map(f) =~= Seq::<Seq<char>>::empty());
        assert(texts(v.image_urls@).len() == v.image_urls@.len());
    }
    if row.files is Some {
        assert forall|i: int| 0 <= i < v.attachments@.len() implies shows_artifact(
            #[trigger] v.attachments@[i],
            row.files->0@[i],
            row.file_urls,
        ) by {}
    }
}

/// What is stored of a message with images is taken apart again: the words stand before the first
/// mark, and the images are named behind it, one on each line.
pub proof fn law_words_stand_before_the_mark(
    words: Seq<char>,
    block: Seq<char>,
    raw: &str,
    r: (String, Vec<String>),
)
    requires
        call_ensures(split_user_artifact_block, (raw,), r),
        raw@ == words + "\n\nAttached image artifacts:\n"@ + block,
        forall|j: int|
            0 <= j < words.len() ==> !#[trigger] text::occurs(
                raw@,
                "\n\nAttached image artifacts:\n"@,
                j,
            ),
    ensures
        r.0@ == words,
        texts(r.1@) == artifacts_in(lines_of(block)),
{
    let m = ARTIFACT_MARKER@;
    let n = words.len() as int;
    assert(raw@.subrange(n, n + m.len()) =~= m);
    text::lemma_find_at(raw@, m, 0, n);
    assert(raw@.subrange(0, n) =~= words);
    assert(raw@.subrange(n + m.len(), raw@.len() as int) =~= block);
}

/// A line that names an image is read as that image's ID, whatever stands behind it.
pub proof fn law_line_names_its_image(id: Seq<char>, rest: Seq<char>)
    requires
        id.len() > 0,
        forall|i: int| 0 <= i < id.len() ==> !text::is_white(#[trigger] id[i]) && id[i] != '-',
        rest.len() > 0,
        !text::is_white(rest.last()),
    ensures
        artifact_in("- artifact_id: "@ + id + " | "@ + rest) == Some(id),
{
    reveal_strlit("- artifact_id: ");
    reveal_strlit(" | ");
    let p = "- artifact_id: "@;
    let bar = " | "@;
    let line = p + id + bar + rest;
    let body = id + bar + rest;
    let n = id.len() as int;
    assert(line[0] == '-' && line.last() == rest.last());
    text::lemma_trimmed_same(line);
    assert(line.subrange(0, p.len() as int) =~= p);
    assert(line.subrange(p.len() as int, line.len() as int) =~= body);
    assert(body[0] == id[0]);
    if p.is_prefix_of(body) {
        assert(body.subrange(0, p.len() as int)[0] == '-');
    }
    assert(shed(body, p) == body);
    assert(shed(line, p) == body);
    assert(body.subrange(n, n + 3) =~= bar);
    assert forall|j: int| 0 <= j < n implies !text::occurs(body, bar, j) by {
        if text::occurs(body, bar, j) {
            assert(body.subrange(j, j + 3)[0] == ' ');
            assert(body[j] == id[j]);
            assert(text::is_white(' '));
        }
    }
    text::lemma_find_at(body, bar, 0, n);
    assert(body.subrange(0, n) =~= id);
    text::lemma_trimmed_same(id);
}

/// An image that is sent is taken as it is: its bytes, its name, and its kind as it was declared, or
/// by the end of its name. What is no image or empty is left out, and one of more than five megabytes
/// is refused.
pub proof fn law_image_is_taken_as_sent(
    filename: Option<String>,
    declared: &str,
    data: Vec<u8>,
    id: &str,
    r: Result<Option<InboundAttachmentInput>, u16>,
)
    requires
        call_ensures(accept_image, (filename, declared, data, id), r),
    ensures
        r is Err ==> r->Err_0 == 413 && data@.len() > 5 * 1024 * 1024,
        data@.len() == 0 ==> r matches Ok(None),
        r matches Ok(Some(a)) ==> {
            &&& a.data@ == data@
            &&& 0 < data@.len() <= 5 * 1024 * 1024
            &&& filename is Some ==> a.filename@ == filename->0@
            &&& "image/"@.is_prefix_of(declared@) ==> a.mime_type@ == declared@
        },
        "image/"@.is_prefix_of(declared@) && 0 < data@.len() <= 5 * 1024 * 1024 ==> r is Ok
            && r->Ok_0 is Some,
        "image/"@.is_prefix_of(declared@) && data@.len() > 5 * 1024 * 1024 ==> r is Err,
{
}

/// An image that is not declared as one is known by the end of its name, whatever its case.
pub proof fn law_image_is_known_by_its_name(
    name: Seq<char>,
    ext: Seq<char>,
    filename: &str,
    declared: &str,
    r: Option<String>,
)
    requires
        call_ensures(resolve_image_mime_type, (Some(filename), declared), r),
        !"image/"@.is_prefix_of(declared@),
        filename@ == name + "."@ + ext,
        forall|i: int| 0 <= i < ext.len() ==> #[trigger] ext[i] != '.',
    ensures
        lowered(ext) == "png"@ ==> opt_text(r) == Some("image/png"@),
        lowered(ext) == "jpg"@ || lowered(ext) == "jpeg"@ ==> opt_text(r) == Some("image/jpeg"@),
        lowered(ext) == "webp"@ ==> opt_text(r) == Some("image/webp"@),
        lowered(ext) == "gif"@ ==> opt_text(r) == Some("image/gif"@),
        lowered(ext) == "txt"@ ==> r is None,
{
    reveal_strlit(".");
    reveal_strlit("png");
    reveal_strlit("jpg");
    reveal_strlit("jpeg");
    reveal_strlit("webp");
    reveal_strlit("gif");
    reveal_strlit("bmp");
    reveal_strlit("tif");
    reveal_strlit("tiff");
    reveal_strlit("svg");
    reveal_strlit("heic");
    reveal_strlit("heif");
    reveal_strlit("txt");
    let f = filename@;
    let n = name.len() as int;
    text::lemma_last_place(f, '.', n);
    assert(f.subrange(n + 1, f.len() as int) =~= ext);
    let e = lowered(ext);
    assert("png"@[0] == 'p' && "jpg"@[0] == 'j' && "jpeg"@[0] == 'j' && "webp"@[0] == 'w'
        && "gif"@[0] == 'g' && "bmp"@[0] == 'b' && "tif"@[0] == 't' && "tiff"@[0] == 't'
        && "svg"@[0] == 's' && "heic"@[0] == 'h' && "heif"@[0] == 'h' && "txt"@[0] == 't');
    assert("tif"@[1] != "txt"@[1]);
    assert("tiff"@.len() != "txt"@.len());
}

/// Nothing is sent without words and images; a command is one only without images, and everything
/// else is answered in a stream.
pub proof fn law_message_is_sent_or_commanded(
    words: &str,
    images: Vec<InboundAttachmentInput>,
    is_command: bool,
    images_only: &str,
    base_path: &str,
    pipe_id: &str,
    stream_id: &str,
    r: Verdict<Sending>,
)
    requires
        call_ensures(
            chat_send,
            (words, &images, is_command, images_only, base_path, pipe_id, stream_id),
            r,
        ),
    ensures
        r is Answer <==> words@.len() == 0 && images@.len() == 0,
        r matches Verdict::Proceed(s) ==> (s is Command <==> is_command && images@.len() == 0),
{
}

/// An open thread is that of its pipe, with its own messages in their order, its own stream, and
/// whether there are more.
pub proof fn law_thread_is_shown_as_stored(
    pipe_id: &str,
    thread_id: &str,
    pipes: Vec<PipeView>,
    threads: Vec<ThreadRow>,
    messages: Vec<ThreadMessage>,
    has_more: bool,
    streams: LiveStreams,
    images_only: &str,
    language: &str,
    now: i64,
    r: OpenThread,
    i: int,
)
    requires
        call_ensures(
            chat_thread,
            (
                pipe_id,
                thread_id,
                &pipes,
                &threads,
                messages,
                has_more,
                &streams,
                images_only,
                language,
                now,
            ),
            r,
        ),
    ensures
        r.selected_pipe matches Some(p) ==> p.id@ == pipe_id@ && exists|k: int|
            0 <= k < pipes@.len() && (#[trigger] pipes@[k]).id@ == pipe_id@ && pipes@[k].name@
                == p.name@,
        r.selected_pipe is None ==> forall|k: int|
            0 <= k < pipes@.len() ==> (#[trigger] pipes@[k]).id@ != pipe_id@,
        r.messages@.len() == messages@.len(),
        0 <= i < messages@.len() ==> r.messages@[i].role@ == messages@[i].role@,
        0 <= i < messages@.len() && messages@[i].role@ != "user"@ ==> r.messages@[i].content@
            == messages@[i].content@,
        r.threads@.len() == threads@.len(),
        0 <= i < threads@.len() ==> {
            &&& r.threads@[i].id@ == threads@[i].id@
            &&& threads@[i].title is Some ==> r.threads@[i].title@ == threads@[i].title->0@
            &&& r.threads@[i].status@ == threads@[i].status@
            &&& r.threads@[i].agent_active <==> streams.active.at(threads@[i].id@) is Some
        },
        r.has_more_messages == has_more,
        messages@.len() > 0 ==> r.oldest_message_ts@ == messages@[0].created_at@,
        opt_text(r.active_stream_id) == streams.active.at(thread_id@),
        r.active_stream_last_status is Some ==> Some(r.active_stream_last_status->0@)
            == streams.last_status.at(thread_id@),
{
    lemma_pipe_named(pipes@, pipe_id@);
    if 0 <= i < messages@.len() {
        assert(shows_message(r.messages@[i], messages@[i], images_only@, language@, now));
    }
    if 0 <= i < threads@.len() {
        assert(shows_thread(
            r.threads@[i],
            threads@[i],
            streams.active.at(threads@[i].id@) is Some,
            language@,
            now,
        ));
    }
}

/// What a pipe that is found by its ID is.
proof fn lemma_pipe_named(pipes: Seq<PipeView>, id: Seq<char>)
    ensures
        match pipe_named(pipes, id) {
            Some(p) => p.0 == id && exists|k: int|
                0 <= k < pipes.len() && (#[trigger] pipes[k]).id@ == id && pipes[k].name@ == p.1,
            None => forall|k: int| 0 <= k < pipes.len() ==> (#[trigger] pipes[k]).id@ != id,
        },
    decreases pipes.len(),
{
    if pipes.len() > 0 && pipes[0].id@ != id {
        let rest = pipes.drop_first();
        lemma_pipe_named(rest, id);
        match pipe_named(rest, id) {
            Some(p) => {
                let k = choose|k: int|
                    0 <= k < rest.len() && (#[trigger] rest[k]).id@ == id && rest[k].name@ == p.1;
                assert(rest[k] == pipes[k + 1]);
            },
            None => {
                assert forall|k: int| 0 <= k < pipes.len() implies (#[trigger] pipes[k]).id@
                    != id by {
                    if k > 0 {
                        assert(rest[k - 1] == pipes[k]);
                    }
                }
            },
        }
    }
}

/// The title of an activity is the start of the words, of forty characters at the most.
pub proof fn law_title_is_the_start_of_the_words(words: &str, r: String)
    requires
        call_ensures(activity_title, (words,), r),
    ensures
        words@.len() > 0 ==> r@.is_prefix_of(words@),
        0 < words@.len() <= 40 ==> r@ == words@,
        words@.len() > 40 ==> r@.len() == 40,
        words@.len() == 0 ==> r@ == "New conversation"@,
{
    if words@.len() > 0 {
        assert(words@.subrange(0, r@.len() as int) =~= r@);
    }
}

/// A moment is shown by its time alone on the same day, without its year in the same year, and in
/// full else; in German by twenty-four hours.
pub proof fn law_stamps_are_shown_as_needed(
    language: &str,
    same_day: bool,
    same_year: bool,
    r: &'static str,
)
    requires
        call_ensures(timestamp_format, (language, same_day, same_year), r),
    ensures
        language@ == "de"@ && same_day ==> r@ == "%H:%M"@,
        language@ == "de"@ && !same_day && same_year ==> r@ == "%d.%m. %H:%M"@,
        language@ == "de"@ && !same_day && !same_year ==> r@ == "%d.%m.%Y %H:%M"@,
        language@ != "de"@ && same_day ==> r@ == "%-I:%M %p"@,
        language@ != "de"@ && !same_day && same_year ==> r@ == "%b %-d, %-I:%M %p"@,
        language@ != "de"@ && !same_day && !same_year ==> r@ == "%b %-d, %Y %-I:%M %p"@,
{
}

/// What is sent is the words that were entered, without white space around them, unless there is
/// nothing to send.
pub proof fn law_sent_words_are_the_entered_ones(words: &str, images: usize, r: Result<String, u16>)
    requires
        call_ensures(message_words, (words, images), r),
    ensures
        r is Ok <==> trimmed(words@).len() > 0 || images > 0,
        r matches Ok(w) ==> w@ == trimmed(words@),
        r matches Err(code) ==> code == 400,
{
    text::lemma_blank(words@);
}

/// A time is shown as short as it can be told: the hour alone on the same day, the day with it in the
/// same year, and the year with them else; in German for whoever reads German, else in English. A text
/// that is no time is shown as it is.
pub proof fn law_times_are_told_shortly(raw: &str, language: &str, now: i64, r: String)
    requires
        clock::CALENDAR_FIRST <= now <= clock::CALENDAR_LAST,
        call_ensures(format_timestamp_for_user, (raw, language, now), r),
    ensures
        stored_stamp(raw@) is None ==> r@ == raw@,
        stored_stamp(raw@) matches Some((secs, nanos)) ==> {
            let today = secs as int / 86_400 == now as int / 86_400;
            let this_year = utc_year(secs) == utc_year(now);
            let german = language@ == "de"@;
            &&& german && today ==> r@ == utc_text(secs, nanos, "%H:%M"@)
            &&& german && !today && this_year ==> r@ == utc_text(secs, nanos, "%d.%m. %H:%M"@)
            &&& german && !today && !this_year ==> r@ == utc_text(
                secs,
                nanos,
                "%d.%m.%Y %H:%M"@,
            )
            &&& !german && today ==> r@ == utc_text(secs, nanos, "%-I:%M %p"@)
            &&& !german && !today && this_year ==> r@ == utc_text(
                secs,
                nanos,
                "%b %-d, %-I:%M %p"@,
            )
            &&& !german && !today && !this_year ==> r@ == utc_text(
                secs,
                nanos,
                "%b %-d, %Y %-I:%M %p"@,
            )
        },
{
}

/// A stored time is read in whichever of the stored forms it has: with a space or a letter between day
/// and time, with or without a fraction of a second.
pub proof fn law_times_are_read_in_each_form(raw: Seq<char>)
    ensures
        naive_moment(raw, "%Y-%m-%d %H:%M:%S"@) matches Ok(m) ==> stored_stamp(raw) == Some(m),
        naive_moment(raw, "%Y-%m-%d %H:%M:%S"@) is Err ==> (naive_moment(
            raw,
            "%Y-%m-%dT%H:%M:%S"@,
        ) matches Ok(m) ==> stored_stamp(raw) == Some(m)),
        naive_moment(raw, "%Y-%m-%d %H:%M:%S%.f"@) is Ok ==> stored_stamp(raw) is Some,
        naive_moment(raw, "%Y-%m-%dT%H:%M:%S%.f"@) is Ok ==> stored_stamp(raw) is Some,
        stored_stamp(raw) is Some ==> naive_moment(raw, "%Y-%m-%d %H:%M:%S"@) is Ok || naive_moment(
            raw,
            "%Y-%m-%dT%H:%M:%S"@,
        ) is Ok || naive_moment(raw, "%Y-%m-%d %H:%M:%S%.f"@) is Ok || naive_moment(
            raw,
            "%Y-%m-%dT%H:%M:%S%.f"@,
        ) is Ok,
{
}

/// A list of threads shows each thread that is stored, in its place: under its title, or as a new
/// conversation; with the time of its last activity, or of its start; and as active exactly where a
/// stream of it is open.
pub proof fn law_threads_are_listed_as_stored(
    rows: Vec<ThreadRow>,
    streams: LiveStreams,
    language: &str,
    now: i64,
    r: Vec<ThreadView>,
    i: int,
    stamp: String,
    last: &str,
)
    requires
        clock::CALENDAR_FIRST <= now <= clock::CALENDAR_LAST,
        call_ensures(fetch_threads, (&rows, &streams, language, now), r),
        0 <= i < rows@.len(),
        last@ == (if rows@[i].last_activity_at is Some {
            rows@[i].last_activity_at->0@
        } else {
            rows@[i].created_at@
        }),
        call_ensures(format_timestamp_for_user, (last, language, now), stamp),
    ensures
        r@.len() == rows@.len(),
        r@[i].id@ == rows@[i].id@,
        r@[i].status@ == rows@[i].status@,
        rows@[i].title is Some ==> r@[i].title@ == rows@[i].title->0@,
        rows@[i].title is None ==> r@[i].title@ == "New conversation"@,
        r@[i].last_activity_at@ == stamp@,
        r@[i].agent_active <==> streams.active.at(rows@[i].id@) is Some,
{
    assert(shows_thread(
        r@[i],
        rows@[i],
        streams.active.at(rows@[i].id@) is Some,
        language@,
        now,
    ));
}

/// The messages of a thread are shown as they are stored, each in its place and with its own files,
/// tools and time; the words of a user without the note of their images, which are shown instead.
pub proof fn law_messages_are_shown_as_stored(
    rows: Vec<ThreadMessage>,
    images_only: &str,
    language: &str,
    now: i64,
    r: (Vec<MessageView>, Option<String>),
    i: int,
    k: int,
    created: &str,
    stamp: String,
)
    requires
        clock::CALENDAR_FIRST <= now <= clock::CALENDAR_LAST,
        call_ensures(fetch_thread_messages, (rows, images_only, language, now), r),
        0 <= i < rows@.len(),
        created@ == rows@[i].created_at@,
        call_ensures(format_timestamp_for_user, (created, language, now), stamp),
    ensures
        r.0@.len() == rows@.len(),
        r.0@[i].role@ == rows@[i].role@,
        rows@[i].role@ != "user"@ ==> r.0@[i].content@ == rows@[i].content@
            && r.0@[i].image_urls@.len() == 0,
        rows@[i].role@ == "user"@ && !text::occurs_in(rows@[i].content@, ARTIFACT_MARKER@)
            ==> r.0@[i].content@ == rows@[i].content@,
        r.0@[i].created_at@ == stamp@,
        r.0@[i].tool_calls@.len() == rows@[i].tool_calls@.len(),
        0 <= k < rows@[i].tool_calls@.len() ==> r.0@[i].tool_calls@[k].name@
            == rows@[i].tool_calls@[k].0@,
        rows@[i].files is None ==> r.0@[i].attachments@.len() == 0,
        rows@[i].files matches Some(f) ==> r.0@[i].attachments@.len() == f@.len() && (0 <= k
            < f@.len() ==> r.0@[i].attachments@[k].filename@ == f@[k].filename@
            && r.0@[i].attachments@[k].mime_type@ == f@[k].mime_type@
            && r.0@[i].attachments@[k].size_bytes == f@[k].size_bytes),
        r.1 is Some && r.1->0@ == rows@[0].created_at@,
{
    let v = r.0@[i];
    let row = rows@[i];
    assert(shows_message(v, row, images_only@, language@, now));
    if 0 <= k < row.tool_calls@.len() {
        assert(v.tool_calls@[k].name@ == row.tool_calls@[k].0@);
    }
    if let Some(f) = row.files {
        if 0 <= k < f@.len() {
            assert(shows_artifact(v.attachments@[k], f@[k], row.file_urls));
        }
    }
    if !text::occurs_in(row.content@, ARTIFACT_MARKER@) {
        text::lemma_find_none(row.content@, ARTIFACT_MARKER@, 0);
        assert(stored_artifacts(row.content@).len() == 0);
    }
}

/// The pipe that a page is open at is the one that was asked for, under its own name, and none where
/// there is no such pipe.
pub proof fn law_open_pipe_is_the_named_one(pipes: Vec<PipeView>, id: &str, r: Option<PipeView>)
    requires
        call_ensures(find_pipe, (&pipes, id), r),
    ensures
        r is Some <==> exists|i: int| 0 <= i < pipes@.len() && (#[trigger] pipes@[i]).id@ == id@,
        r matches Some(p) ==> p.id@ == id@ && exists|i: int|
            0 <= i < pipes@.len() && (#[trigger] pipes@[i]).id@ == id@ && pipes@[i].name@
                == p.name@,
{
    lemma_pipe_named(pipes@, id@);
}

/// Each message is shown in the way of its writer: the words of a user as theirs, the outcome of a tool
/// as such, and all others as the assistant's, with its calls where it made some.
pub proof fn law_messages_are_told_apart(msg: MessageView, r: String)
    requires
        call_ensures(render_message_html, (&msg,), r),
    ensures
        msg.role@ == "user"@ ==> r@ == user_text(
            msg.content@,
            texts(msg.image_urls@),
            msg.created_at@,
        ),
        msg.role@ == "tool"@ ==> r@ == tool_text(msg.content@),
        msg.role@ == "assistant"@ && msg.tool_calls@.len() == 0 ==> r@ == assistant_text(
            msg.content@,
            msg.created_at@,
        ),
        msg.role@ == "assistant"@ && msg.tool_calls@.len() > 0 ==> r@ == calls_text(
            call_pairs(msg.tool_calls@),
        ),
{
    reveal_strlit("user");
    reveal_strlit("tool");
    reveal_strlit("assistant");
    assert("user"@.len() == 4 && "tool"@.len() == 4 && "assistant"@.len() == 9);
    assert("user"@[0] != "tool"@[0]);
}

} // verus!
