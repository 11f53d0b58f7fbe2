use selu::updater::types::ServerConfig;
use selu::web::chat::{
    chat_pipe, chat_send, chat_thread, older_than, InboundAttachmentInput, LiveStreams, PipeView,
    Sending, ThreadMessage, ThreadRow,
};
use selu::web::config::{AppConfig, DatabaseConfig};
use selu::web::integrations::{
    bb_call, imessage_delete, imessage_detail, imessage_remove_person, imessage_setup_page, BbProxyRequest,
};
use selu::web::people::{pipe_page, FlashQuery, pipe_removed, user_options, StoredName};
use selu::web::credentials::{credentials_index, CredentialsQuery};
use selu::web::personality::{personality_index, personality_row, PersonalityQuery};
use selu::web::pipes::{pipes_web_new, pipes_webhook_new, SimpleErrorQuery};
use selu::web::response::{Verdict, WebAnswer};
use selu::web::telegram::{may_reregister, telegram_remove_person, telegram_delete, webhook_token};
use selu::web::text_map::TextMap;
use selu::web::whatsapp::{
    ensure_bridge_for_active_pipe, load_whatsapp_config, managed_bridge_inbound_url,
    whatsapp_detail, whatsapp_remove_person,
    whatsapp_setup_page, ActivePipe, BridgeAtStart,
};

const NOW: i64 = 1_767_225_600;

fn to(s: &str) -> WebAnswer {
    WebAnswer::Redirect(s.to_string())
}

fn some(s: &str) -> Option<String> {
    Some(s.to_string())
}

fn pipe(id: &str) -> PipeView {
    PipeView { id: id.to_string(), name: id.to_uppercase() }
}

fn thread(id: &str) -> ThreadRow {
    ThreadRow {
        id: id.to_string(),
        title: None,
        status: "open".to_string(),
        created_at: "2026-01-01 09:05:00".to_string(),
        last_activity_at: None,
    }
}

fn message(content: &str, at: &str) -> ThreadMessage {
    ThreadMessage {
        role: "assistant".to_string(),
        content: content.to_string(),
        image_urls: TextMap::new(),
        tool_calls: vec![],
        files: None,
        file_urls: TextMap::new(),
        created_at: at.to_string(),
    }
}

#[test]
fn an_open_thread_joins_the_answer_in_progress() {
    let mut streams = LiveStreams::new();
    streams.begin("t2", "s");
    let pipes = vec![pipe("a"), pipe("b")];
    let threads = vec![thread("t1"), thread("t2")];
    let messages = vec![message("one", "2026-01-01 08:00:00"), message("two", "2026-01-01 09:00:00")];
    let page = chat_thread("b", "t2", &pipes, &threads, messages, true, &streams, "images", "de", NOW);
    assert_eq!(page.selected_pipe.unwrap().name, "B");
    assert!(!page.threads[0].agent_active && page.threads[1].agent_active);
    assert_eq!((page.messages.len(), page.messages[1].content.as_str()), (2, "two"));
    assert_eq!(page.oldest_message_ts, "2026-01-01 08:00:00");
    assert!(page.has_more_messages);
    assert_eq!(page.active_stream_id, some("s"));
    let page = chat_thread("c", "t1", &pipes, &threads, vec![], false, &streams, "images", "de", NOW);
    assert!(page.selected_pipe.is_none() && page.active_stream_id.is_none());
    assert_eq!(page.oldest_message_ts, "");
    let page = chat_pipe("a", &pipes, &threads, &streams, "en", NOW);
    assert_eq!(page.threads[0].title, "New conversation");
    assert!(page.messages.is_empty() && page.active_stream_id.is_none());
}

#[test]
fn a_message_is_refused_carried_out_or_streamed() {
    let send = |words: &str, images: Vec<InboundAttachmentInput>, command: bool| {
        chat_send(words, &images, command, "only images", "/b", "p", "s")
    };
    let image = || vec![InboundAttachmentInput {
        filename: "i.png".to_string(),
        mime_type: "image/png".to_string(),
        data: vec![1],
    }];
    assert_eq!(send("", vec![], false).answer(), Some(WebAnswer::Status(400)));
    assert!(matches!(send("/help", vec![], true), Verdict::Proceed(Sending::Command)));
    let Verdict::Proceed(Sending::Stream(page)) = send("/help", image(), true) else {
        panic!("a command with images is a message");
    };
    assert!(page.contains("/help</p>") && page.contains("data:image/png;base64,AQ=="));
    let Verdict::Proceed(Sending::Stream(page)) = send("", image(), false) else {
        panic!("images are a message");
    };
    assert!(page.contains("only images</p>") && page.contains("sse-connect=\"/b/chat/p/stream/s\""));
    assert!(matches!(older_than(some("t")), Verdict::Proceed(_)));
    assert_eq!(older_than(None).answer(), Some(WebAnswer::Status(400)));
}

#[test]
fn pipes_are_shown_and_removed_by_administrators() {
    let query = || FlashQuery { msg: None, error: some("e") };
    let page = |is_admin: bool, config: Option<i32>| pipe_page::<i32, i32>(is_admin, "/s", config, vec![7], vec![], query());
    assert_eq!(page(false, Some(1)).answer(), Some(to("/s/chat")));
    assert_eq!(page(true, None).answer(), Some(to("/s/pipes")));
    assert!(matches!(page(true, Some(1)), Verdict::Proceed(p) if p.config == 1 && p.people == [7] && p.error == some("e")));
    assert!(matches!(imessage_setup_page(true, "", vec![], query()), Verdict::Proceed(p) if p.error == some("e")));
    assert!(matches!(whatsapp_setup_page(true, "", true, query()), Verdict::Proceed(p) if p.already_configured));
    assert_eq!(imessage_remove_person(false, "p".to_string()), Verdict::Answer(WebAnswer::Status(403)));
    assert_eq!(telegram_remove_person(true, "p".to_string()), Verdict::Proceed("p".to_string()));
    assert_eq!(whatsapp_remove_person(true, "p".to_string()), Verdict::Proceed("p".to_string()));
    let call = BbProxyRequest { server_url: "http://bb/".to_string(), server_password: "s".to_string() };
    assert!(matches!(bb_call(true, call), Verdict::Proceed(c) if c.url == "http://bb/api/v1/chat/query"));
    assert_eq!(pipe_removed("/s"), to("/s/pipes?msg=Pipe+removed"));
    assert_eq!(imessage_delete(false, None), Verdict::Answer(WebAnswer::Status(403)));
    assert_eq!(imessage_delete(true, Some(some("w"))), Verdict::Proceed(some("w")));
    assert_eq!(imessage_delete(true, Some(None)), Verdict::Proceed(None));
    assert_eq!(telegram_delete(false, some("t")), Verdict::Answer(WebAnswer::Status(403)));
    assert_eq!(telegram_delete(true, some("t")), Verdict::Proceed(some("t")));
    assert_eq!(webhook_token(true, None), Verdict::Answer(WebAnswer::Status(404)));
    assert_eq!(webhook_token(false, some("t")), Verdict::Answer(WebAnswer::Status(403)));
    assert_eq!(may_reregister(true, "https://a"), Verdict::Proceed(()));
    assert!(matches!(may_reregister(true, "http://a"), Verdict::Answer(WebAnswer::Html(_))));
    assert_eq!(may_reregister(false, "https://a"), Verdict::Answer(WebAnswer::Status(403)));
}

#[test]
fn users_are_offered_by_both_names() {
    let row = StoredName { id: some("u"), username: "ann".to_string(), display_name: "Ann B".to_string() };
    let again = || StoredName { id: None, username: "bob".to_string(), display_name: "Bob".to_string() };
    let page = pipes_webhook_new(vec![again()], SimpleErrorQuery { error: some("e") });
    assert_eq!((page.users[0].display.as_str(), page.error), ("Bob (bob)", some("e")));
    assert_eq!(pipes_web_new(vec![again()], SimpleErrorQuery { error: None }).users.len(), 1);
    let page = credentials_index(vec![], vec![], vec![again()], CredentialsQuery { error: None, success: some("s") });
    assert_eq!((page.users[0].id.as_str(), page.success), ("", some("s")));
    let page = personality_index(&vec![], PersonalityQuery { error: None, success: None });
    assert_eq!(page.groups.len(), 5);
    let options = user_options(vec![row]);
    assert_eq!((options[0].id.as_str(), options[0].display.as_str()), ("u", "Ann B (ann)"));
    assert_eq!(personality_row(None).answer(), Some(WebAnswer::Status(404)));
}

#[test]
fn the_bridge_runs_while_a_pipe_is_active() {
    let config = AppConfig {
        server: ServerConfig { host: "0.0.0.0".to_string(), port: 3000 },
        database: DatabaseConfig { url: "sqlite://selu.db".to_string() },
        marketplace_url: String::new(),
        installed_agents_dir: String::new(),
        encryption_key: String::new(),
        egress_proxy_addr: String::new(),
        max_chain_depth: 3,
        max_tool_loop_iterations: 32,
        external_url: None,
        base_path: None,
        release_metadata_url: String::new(),
        updater_url: String::new(),
        updater_shared_secret: String::new(),
        updater_request_timeout_secs: 1,
    };
    let pipe = ActivePipe { pipe_id: "p".to_string(), inbound_token: "t".to_string(), outbound_auth: None };
    let at_start = |active| ensure_bridge_for_active_pipe(active, "r", None, &config, "http://h");
    let BridgeAtStart::Ensure(request) = at_start(Ok(Some(pipe))) else {
        panic!("an active pipe needs the bridge");
    };
    assert_eq!((request.channel.as_str(), request.outbound_auth.as_str()), ("stable", ""));
    assert_eq!(request.inbound_url, managed_bridge_inbound_url(&config, "http://h", "p"));
    assert!(matches!(at_start(Ok(None)), BridgeAtStart::Stop));
    let query = || FlashQuery { msg: some("m"), error: None };
    let detail = load_whatsapp_config(some("c"), "n".to_string(), "u".to_string(), 1, "p".to_string(), "a".to_string(), "t".to_string());
    let Verdict::Proceed(page) =
        whatsapp_detail(true, "", Some(detail), vec![], vec![], query(), &config, "http://h", None)
    else {
        panic!("the pipe is there");
    };
    assert_eq!(page.inbound_url, managed_bridge_inbound_url(&config, "http://h", "p"));
    assert_eq!((page.page.config.config_id.as_str(), page.page.flash), ("c", some("m")));
    assert_eq!(
        whatsapp_detail(true, "/s", None, vec![], vec![], query(), &config, "", None).answer(),
        Some(to("/s/pipes"))
    );
    assert_eq!(imessage_detail(false, "/s", None, vec![], vec![], query()).answer(), Some(to("/s/chat")));
    assert!(matches!(at_start(Err("locked".to_string())), BridgeAtStart::Leave));
}
