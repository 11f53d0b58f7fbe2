use selu::web::chat::{
    accept_image, activity_title, bubble_words, chat_delete_thread, chat_feedback,
    chat_index, chat_new_thread, chat_older_messages, chat_stream, command_reply, completion_note,
    events_after_turn, field_kind, format_timestamp_for_user, message_words,
    page_size, render_confirmation_message_html, render_message_html,
    render_user_image_preview_html, resolve_image_mime_type, sent_bubbles,
    split_user_artifact_block, take_image, thread_agent, thread_view, timestamp_format,
    user_message_for_display, FieldKind, InboundAttachmentInput, LiveStreams, LoopEvent,
    MessageView, PipeView, ThreadRow, ToolCallView, MAX_WEB_CHAT_IMAGE_BYTES,
};
use selu::web::confirmations::{chat_confirm, is_approved, PendingConfirmations};
use selu::web::response::WebAnswer;
use selu::web::text_map::TextMap;

fn message(role: &str, content: &str) -> MessageView {
    MessageView {
        role: role.to_string(),
        content: content.to_string(),
        image_urls: vec![],
        created_at: "12:30".to_string(),
        tool_calls: vec![],
        attachments: vec![],
    }
}

#[test]
fn messages_of_users_are_shown_with_their_images() {
    let mut msg = message("user", "a < b");
    msg.image_urls = vec!["/i?a=1&b=2".to_string()];
    let content = format!(r##"<p class="text-sm leading-relaxed whitespace-pre-wrap break-words text-txt-heading">{}</p>"##, "a &lt; b");
    let image = format!(r##"<img src="{}" alt="image" class="w-[110px] h-[82px] object-cover rounded-lg border border-coral/30 bg-surface-input" />"##, "/i?a=1&amp;b=2");
    let images = format!(r##"<div class="mt-2 flex flex-wrap gap-2">{}</div>"##, image);
    let ts = "12:30";
    assert_eq!(render_message_html(&msg), format!(r##"<div class="flex justify-end"><div class="max-w-[72%] bg-gradient-to-br from-coral/20 to-amber/10 border border-coral/20 rounded-2xl rounded-br-md px-4 py-2.5">{content}{images}<p class="text-[10px] text-txt-muted mt-1.5">{ts}</p></div></div>"##));
    let (content, images) = ("", "");
    assert_eq!(render_message_html(&message("user", "")), format!(r##"<div class="flex justify-end"><div class="max-w-[72%] bg-gradient-to-br from-coral/20 to-amber/10 border border-coral/20 rounded-2xl rounded-br-md px-4 py-2.5">{content}{images}<p class="text-[10px] text-txt-muted mt-1.5">{ts}</p></div></div>"##));
}

#[test]
fn messages_of_tools_and_of_the_assistant_are_shown() {
    let content = "1 &amp; 2";
    let ts = "12:30";
    assert_eq!(render_message_html(&message("tool", "1 & 2")), format!(r##"<div class="flex justify-start"><details class="tool-result max-w-[72%]"><summary class="tool-result-summary"><svg class="w-3.5 h-3.5 flex-shrink-0" viewBox="0 0 24 24" fill="none" stroke="currentColor" stroke-width="2" stroke-linecap="round" stroke-linejoin="round"><polyline points="4 17 10 11 4 5"/><line x1="12" y1="19" x2="20" y2="19"/></svg><span>Tool result</span><svg class="tool-result-chevron w-3 h-3 flex-shrink-0 ml-auto" viewBox="0 0 24 24" fill="none" stroke="currentColor" stroke-width="2" stroke-linecap="round" stroke-linejoin="round"><polyline points="6 9 12 15 18 9"/></svg></summary><div class="tool-result-body"><pre class="tool-result-pre"><code>{content}</code></pre></div></details></div>"##));
    assert_eq!(render_message_html(&message("assistant", "1 & 2")), format!(r##"<div class="flex justify-start"><div class="max-w-[72%] bg-surface-raised border border-edge rounded-2xl rounded-bl-md px-4 py-2.5"><div class="text-sm leading-relaxed break-words markdown-body md-source">{content}</div><p class="text-[10px] text-txt-muted mt-1.5">{ts}</p></div></div>"##));
    let mut msg = message("assistant", "");
    msg.tool_calls = vec![
        ToolCallView { name: "find".to_string(), result: "<ok>".to_string() },
        ToolCallView { name: "wait".to_string(), result: String::new() },
    ];
    let rest = format!(r##"<svg class="tool-result-chevron w-3 h-3 flex-shrink-0 ml-auto" viewBox="0 0 24 24" fill="none" stroke="currentColor" stroke-width="2" stroke-linecap="round" stroke-linejoin="round"><polyline points="6 9 12 15 18 9"/></svg></summary><div class="tool-result-body"><pre class="tool-result-pre"><code>{}</code></pre></div>"##, "&lt;ok&gt;");
    let name = "find";
    let first = format!(r##"<details class="tool-call-item"><summary class="tool-call-summary"><svg class="w-3.5 h-3.5 flex-shrink-0" viewBox="0 0 24 24" fill="none" stroke="currentColor" stroke-width="2" stroke-linecap="round" stroke-linejoin="round"><circle cx="12" cy="12" r="3"/><path d="M12 1v4m0 14v4m-8.66-13H7.34m9.32 0h4m-14.14 5.66l2.83-2.83m7.07-7.07l2.83-2.83M4.22 4.22l2.83 2.83m7.07 7.07l2.83 2.83"/></svg><span>{name}</span>{rest}</details>"##);
    let (name, rest) = ("wait", "</summary>");
    let second = format!(r##"<details class="tool-call-item"><summary class="tool-call-summary"><svg class="w-3.5 h-3.5 flex-shrink-0" viewBox="0 0 24 24" fill="none" stroke="currentColor" stroke-width="2" stroke-linecap="round" stroke-linejoin="round"><circle cx="12" cy="12" r="3"/><path d="M12 1v4m0 14v4m-8.66-13H7.34m9.32 0h4m-14.14 5.66l2.83-2.83m7.07-7.07l2.83-2.83M4.22 4.22l2.83 2.83m7.07 7.07l2.83 2.83"/></svg><span>{name}</span>{rest}</details>"##);
    assert_eq!(render_message_html(&msg), format!(r##"<div class="flex justify-start"><div class="tool-calls-group">{}</div></div>"##, first + &second));
}

#[test]
fn older_messages_follow_a_way_to_still_older_ones() {
    let (base_path, pipe_id, thread_id, ts) = ("/s", "p", "t", "2026-01-01");
    let wrap = chat_older_messages(base_path, pipe_id, thread_id, true, Some(ts), &vec![message("assistant", "x")]);
    let button = format!(r##"<div id="load-older" hx-get="{base_path}/chat/{pipe_id}/t/{thread_id}/older?before={ts}" hx-trigger="revealed" hx-target="#load-older-wrap" hx-swap="outerHTML" class="flex justify-center py-2"><button class="text-xs text-txt-muted hover:text-coral transition-colors cursor-pointer" data-i18n="chat.load_older">Load older messages</button></div>"##);
    assert!(wrap.contains(&button));
    assert!(wrap.contains(&render_message_html(&message("assistant", "x"))));
    assert!(!chat_older_messages(base_path, pipe_id, thread_id, false, Some(ts), &vec![]).contains("load-older\" hx-get"));
}

#[test]
fn what_was_sent_is_shown_at_once() {
    let (escaped_input, escaped_reply) = ("/help &lt;b&gt;", "&amp;");
    assert_eq!(command_reply("/help <b>", "&"), format!(r##"<div class="flex justify-end">
  <div class="max-w-[72%] bg-gradient-to-br from-coral/20 to-amber/10 border border-coral/20 rounded-2xl rounded-br-md px-4 py-2.5">
    <p class="text-sm leading-relaxed whitespace-pre-wrap break-words text-txt-heading">{escaped_input}</p>
  </div>
</div>
<div class="flex justify-start">
  <div class="max-w-[72%] bg-surface-raised border border-edge rounded-2xl rounded-bl-md px-4 py-2.5">
    <div class="text-sm leading-relaxed break-words markdown-body md-source">{escaped_reply}</div>
  </div>
</div>"##));
    let (escaped_text, image_preview_html) = ("hi &quot;you&quot;", "<img>");
    let (base_path, pipe_id, stream_id) = ("/s", "p", "st");
    assert_eq!(sent_bubbles("hi \"you\"", "<img>", base_path, pipe_id, stream_id), format!(r##"<div class="flex justify-end">
  <div class="max-w-[72%] bg-gradient-to-br from-coral/20 to-amber/10 border border-coral/20 rounded-2xl rounded-br-md px-4 py-2.5">
    <p class="text-sm leading-relaxed whitespace-pre-wrap break-words text-txt-heading">{escaped_text}</p>
    {image_preview_html}
  </div>
</div>
<div class="flex justify-start" id="stream-wrap-{stream_id}" style="display:none">
  <div class="max-w-[72%] bg-surface-raised border border-edge rounded-2xl rounded-bl-md px-4 py-2.5">
    <div class="text-sm leading-relaxed break-words markdown-body streaming" id="stream-{stream_id}"
         hx-ext="sse"
         sse-connect="{base_path}/chat/{pipe_id}/stream/{stream_id}"
         sse-swap="token"
         hx-swap="beforeend">
    </div>
  </div>
</div>"##));
}

#[test]
fn events_are_sent_as_scripts() {
    let sid = "st";
    let stream = |e: LoopEvent| chat_stream(sid, "/s", &e);
    let tok = "it\\'s\\n";
    assert_eq!(stream(LoopEvent::Token("it's\n".to_string())), format!(r##"<script>
(function(){{
  var el = document.getElementById('stream-{sid}') || document.querySelector('[id^="cont-"].streaming');
  if(el) appendStreamToken(el, '{tok}');
  var msgs = document.getElementById('messages');
  if(msgs) msgs.scrollTop = msgs.scrollHeight;
}})();
</script>"##));
    let status = "busy";
    assert_eq!(stream(LoopEvent::CapabilityStatus("busy".to_string())), format!(r##"<script>
(function(){{
  var msgs = document.getElementById('messages');
  var statusDiv = document.createElement('div');
  statusDiv.className = 'flex justify-start';
  statusDiv.innerHTML = '<div class="tool-status active"><svg class="w-3.5 h-3.5" viewBox="0 0 24 24" fill="none" stroke="currentColor" stroke-width="2" stroke-linecap="round" stroke-linejoin="round"><circle cx="12" cy="12" r="3"/><path d="M12 1v4m0 14v4m-8.66-13H7.34m9.32 0h4m-14.14 5.66l2.83-2.83m7.07-7.07l2.83-2.83M4.22 4.22l2.83 2.83m7.07 7.07l2.83 2.83"/></svg><span>{status}</span></div>';
  msgs.appendChild(statusDiv);
  msgs.scrollTop = msgs.scrollHeight;
}})();
</script>"##));
    let err = "broken";
    assert_eq!(stream(LoopEvent::Error("broken".to_string())), format!(r##"<script>
(function(){{
  var el = document.getElementById('stream-{sid}') || document.querySelector('[id^="cont-"].streaming');
  if(el) {{
    el.classList.remove('streaming');
    el.innerHTML += '<div class="mt-2 px-3 py-2 bg-red-950/50 border border-red-800/50 rounded-lg text-red-300 text-xs">[Error: {err}]</div>';
  }}
}})();
</script>"##));
    let (url, name) = ("/d/1", "a.txt");
    let cards = format!(r##"html += '<a href="{url}" target="_blank" download class="flex items-center gap-2 px-3 py-2 bg-surface-input border border-edge rounded-lg hover:border-coral/40 transition-colors text-sm no-underline"><svg class="w-4 h-4 flex-shrink-0 text-coral" viewBox="0 0 24 24" fill="none" stroke="currentColor" stroke-width="2" stroke-linecap="round" stroke-linejoin="round"><path d="M14 2H6a2 2 0 0 0-2 2v16a2 2 0 0 0 2 2h12a2 2 0 0 0 2-2V8z"/><polyline points="14 2 14 8 20 8"/><line x1="12" y1="18" x2="12" y2="12"/><polyline points="9 15 12 18 15 15"/></svg><span class="truncate text-txt-heading">{name}</span></a>';
"##);
    assert_eq!(
        stream(LoopEvent::Artifacts(vec![("/d/1".to_string(), "a.txt".to_string())])),
        format!(r##"<script>
(function(){{
  var el = document.getElementById('stream-{sid}') || document.querySelector('[id^="cont-"].streaming');
  if(el) {{
    var div = document.createElement('div');
    div.className = 'mt-2 space-y-1.5';
    var html = '';
    {cards}
    div.innerHTML = html;
    el.parentElement.appendChild(div);
  }}
  var msgs = document.getElementById('messages');
  if(msgs) msgs.scrollTop = msgs.scrollHeight;
}})();
</script>"##)
    );
}

#[test]
fn confirmations_are_answered() {
    assert!(is_approved(Some("true")));
    assert!(!is_approved(Some("yes")) && !is_approved(None));
    let approved = r##"<div class="flex justify-start"><div class="tool-status" style="color:#6ee7b7;border-color:rgba(16,185,129,0.3);background:rgba(6,95,70,0.15)"><svg class="w-3.5 h-3.5" viewBox="0 0 24 24" fill="none" stroke="currentColor" stroke-width="2" stroke-linecap="round" stroke-linejoin="round"><polyline points="20 6 9 17 4 12"/></svg><span data-i18n="chat.confirm.approved">Approved</span></div></div>"##;
    let denied = r##"<div class="flex justify-start"><div class="tool-status" style="color:#fca5a5;border-color:rgba(220,38,38,0.3);background:rgba(127,29,29,0.15)"><svg class="w-3.5 h-3.5" viewBox="0 0 24 24" fill="none" stroke="currentColor" stroke-width="2" stroke-linecap="round" stroke-linejoin="round"><line x1="18" y1="6" x2="6" y2="18"/><line x1="6" y1="6" x2="18" y2="18"/></svg><span data-i18n="chat.confirm.denied">Denied</span></div></div>"##;
    let expired = r##"<div class="flex justify-start"><div class="tool-status"><span data-i18n="chat.confirm.expired">Confirmation expired or already handled.</span></div></div>"##;
    let mut pending: PendingConfirmations<i32> = PendingConfirmations::new();
    pending.ask("a".to_string(), 1);
    pending.ask("b".to_string(), 2);
    pending.ask("b".to_string(), 3);
    assert_eq!(chat_confirm(&mut pending, "a", Some("true")), (Some((1, true)), approved));
    assert_eq!(chat_confirm(&mut pending, "a", Some("true")), (None, expired));
    assert_eq!(chat_confirm(&mut pending, "b", None), (Some((3, false)), denied));
    assert_eq!(pending.take("b"), None);
    let asked = |arguments: &str| chat_stream("s", "/s", &LoopEvent::ConfirmationRequired {
        confirmation_id: "c".to_string(),
        tool_display_name: "t".to_string(),
        approval_message: None,
        arguments: arguments.to_string(),
    });
    assert!(asked(r#"{"a":[1]}"#).contains(r"<pre>{\n  &quot;a&quot;: [\n    1\n  ]\n}</pre>"));
    assert!(asked("{a}").contains("<pre>{a}</pre>"));
    assert_eq!(chat_feedback(), r##"<span class="text-xs text-txt-muted" data-i18n="improvement.feedback.thanks">Thanks!</span>"##);
    assert!(render_confirmation_message_html("<b>").contains("&lt;b&gt;"));
}

#[test]
fn images_are_taken_by_their_type() {
    assert_eq!(resolve_image_mime_type(None, "image/png"), Some("image/png".to_string()));
    assert_eq!(resolve_image_mime_type(Some("a.JPG"), ""), Some("image/jpeg".to_string()));
    assert_eq!(resolve_image_mime_type(Some("a.txt"), "text/plain"), None);
    assert!(field_kind("text") == FieldKind::Words);
    assert!(field_kind("image[]") == FieldKind::Image);
    assert!(field_kind("message") == FieldKind::Other);
    assert!(matches!(accept_image(None, "image/png", vec![], "id"), Ok(None)));
    assert!(matches!(
        accept_image(None, "image/png", vec![0; MAX_WEB_CHAT_IMAGE_BYTES + 1], "id"),
        Err(413)
    ));
    let Ok(Some(image)) = accept_image(Some("a.png".to_string()), "image/png", vec![1, 2, 3], "id") else {
        panic!("the image is good");
    };
    assert_eq!((image.filename.as_str(), image.mime_type.as_str()), ("a.png", "image/png"));
    let Ok(Some(named)) = take_image(None, "image/webp", vec![1]) else {
        panic!("the image is good");
    };
    let id = named.filename.strip_prefix("upload-").and_then(|n| n.strip_suffix(".webp")).unwrap();
    assert!(uuid::Uuid::parse_str(id).is_ok());
    assert_eq!(message_words("  ", 0), Err(400));
    assert!(message_words("  ", 1).is_ok());
    assert_eq!(message_words(" hi ", 0), Ok("hi".to_string()));
    assert_eq!(bubble_words("hi", true, "images"), "hi");
    assert_eq!(bubble_words(" ", true, "images"), "images");
}

#[test]
fn images_are_previewed_in_base64() {
    let (src, alt) = ("data:image/png;base64,AQID+/8=", "a&amp;b.png");
    let preview = format!(r##"<img src="{src}" alt="{alt}" class="w-[110px] h-[82px] object-cover rounded-lg border border-coral/30 bg-surface-input" />"##);
    let image = InboundAttachmentInput {
        filename: "a&b.png".to_string(),
        mime_type: "image/png".to_string(),
        data: vec![1, 2, 3, 251, 255],
    };
    assert!(render_user_image_preview_html(&vec![image]).contains(&preview));
    assert_eq!(render_user_image_preview_html(&vec![]), "");
}

#[test]
fn artifacts_are_kept_out_of_what_a_user_said() {
    let raw = "hello\n\n[no artifacts here]";
    let (words, ids) = split_user_artifact_block(raw);
    assert_eq!(words, raw);
    assert!(ids.is_empty());
    let (shown, urls) = user_message_for_display(raw, &TextMap::new(), "images");
    assert_eq!(shown, raw);
    assert!(urls.is_empty());
    let raw = "look

Attached image artifacts:
- artifact_id: a1 | png
other
- artifact_id:  a2
";
    let (words, ids) = split_user_artifact_block(raw);
    assert_eq!(words, "look");
    assert_eq!(ids, ["a1", "a2"]);
    let mut known = TextMap::new();
    known.insert("a2", "/2");
    let (shown, urls) = user_message_for_display(raw, &known, "images");
    assert_eq!(shown, "look");
    assert_eq!(urls, ["/2"]);
    let (shown, _) = user_message_for_display(&raw[4..], &known, "images");
    assert_eq!(shown, "images");
}

#[test]
fn times_are_shown_by_language() {
    let now = 1_767_225_600;
    for (language, raw) in [("de", "2026-01-01 09:05:00"), ("en", "2026-01-01 09:05:00"), ("de", "2025-12-31 09:05:00"), ("en", "2024-02-03 09:05:00")] {
        let at = chrono::NaiveDateTime::parse_from_str(raw, "%Y-%m-%d %H:%M:%S").unwrap().and_utc();
        let today = chrono::DateTime::from_timestamp(now, 0).unwrap();
        let format = timestamp_format(
            language,
            at.date_naive() == today.date_naive(),
            at.format("%Y").to_string() == today.format("%Y").to_string(),
        );
        assert_eq!(format_timestamp_for_user(raw, language, now), at.format(format).to_string());
    }
    assert_eq!(format_timestamp_for_user("soon", "de", now), "soon");
}

#[test]
fn threads_have_a_title_and_an_agent() {
    let row = ThreadRow {
        id: "t".to_string(),
        title: None,
        status: "active".to_string(),
        created_at: "never".to_string(),
        last_activity_at: None,
    };
    let view = thread_view(&row, true, "en", 0);
    assert_eq!((view.title.as_str(), view.last_activity_at.as_str()), ("New conversation", "never"));
    assert!(view.agent_active);
    assert_eq!(thread_agent(None), "default");
    assert_eq!(thread_agent(Some("mail".to_string())), "mail");
    assert_eq!((page_size(true), page_size(false)), (50, 200));
    let to = |s: &str| WebAnswer::Redirect(s.to_string());
    assert_eq!(chat_new_thread("/s", "p", Some("t")), to("/s/chat/p/t/t"));
    assert_eq!(chat_new_thread("/s", "p", None), WebAnswer::Status(500));
    assert_eq!(chat_delete_thread("/s", "p", false, false), to("/s/chat/p"));
    assert_eq!(chat_delete_thread("/s", "p", true, true), to("/s/chat/p"));
    assert_eq!(chat_delete_thread("/s", "p", true, false), WebAnswer::Status(500));
    let pipe = |id: &str| PipeView { id: id.to_string(), name: id.to_string() };
    assert_eq!(chat_index("/s", &vec![pipe("a")]), Some(to("/s/chat/a")));
    assert_eq!(chat_index("/s", &vec![pipe("a"), pipe("b")]), None);
}

#[test]
fn answers_in_progress_can_be_joined() {
    let mut streams = LiveStreams::new();
    streams.begin("t", "s1");
    streams.note("t", &LoopEvent::CapabilityStatus("busy".to_string()));
    assert_eq!(streams.joined("t"), (Some("s1".to_string()), Some("busy".to_string())));
    streams.end("t");
    assert_eq!(streams.joined("t"), (None, None));
    assert!(events_after_turn(None).is_empty());
    let events = events_after_turn(Some("x"));
    assert!(matches!(&events[0], LoopEvent::Error(e) if e == "x"));
    assert!(matches!(&events[1], LoopEvent::Done));
    assert_eq!(completion_note("de-AT"), "Agent ist fertig");
    assert_eq!(completion_note("en"), "Agent completed");
    assert_eq!(activity_title(""), "New conversation");
    assert_eq!(activity_title(&"\u{e4}".repeat(41)), "\u{e4}".repeat(40));
}
