use selu::updater::bridge::{
    chats_before_session, chats_of_session, clear_bind_mount_command, status_before_session,
    status_of_session, BridgeChatsResponse, BridgeSessionStatus,
};
use selu::updater::compose::{resolve_updater_service_image, restart_helper_command};
use selu::updater::env_document::EnvDocument;
use selu::updater::images::{
    activate_rollback_root_env, persist_updater_restart_state, persist_whatsapp_image_refs,
    target_refs,
};
use selu::updater::types::{
    RollbackRoot, ServerConfig, UpdaterConfig, WhatsappBridgeStatusResponse,
};
use selu::clock::Moment;
use selu::web::agent_setup::setup_test_unloaded;
use selu::web::agents::{
    agent_image_model_saved, agent_model_saved, agents_index, default_model_saved, AgentsQuery,
    SetAgentModelForm, SetDefaultModelForm, default_image_model_saved, default_model, installed_agent,
    list_agents, marketplace_page, set_agent_model_handler, set_default_model, JudgedOffer,
    LoadedAgent, LoadedEntry, MarketplaceOffer, ModelName, PendingAgent,
};
use selu::web::chat::{
    build_confirmation_html, message_view, oldest_stamp, ArtifactRef, LoopEvent, ThreadMessage,
};
use selu::web::integrations::{
    imessage_add_person, imessage_person_added, imessage_setup_submit, ImessageSetupForm,
};
use selu::web::people::{AddPersonForm, Added, FlashQuery, StoredName};
use selu::web::personality::{fact_added, personality_update, UpdateFactForm};
use selu::web::providers::{providers_disconnect, providers_setup_page, SetupQuery};
use selu::web::response::{Verdict, WebAnswer};
use selu::web::schedules::{
    no_provider, pipes_updated, schedules_toggle, schedules_update, timezone_saved, UpdateScheduleForm,
};
use selu::web::subscriptions::{
    subscription_created, subscriptions_delete, subscriptions_index, SubRow, SubsQuery,
};
use selu::web::system_updates::{
    updates_apply_current_host, updates_apply_start, updates_rollback_start,
};
use selu::web::telegram::{
    load_telegram_config, telegram_add_person, telegram_check_webhook, telegram_created,
    telegram_detail, tried_token, TgProxyRequest,
    telegram_person_added, telegram_setup_page, tg_proxy_chats, PipeProgress, WebhookInfo,
};
use selu::web::text_map::TextMap;
use selu::web::turn::{Incoming, Turn, TurnAction, TurnReply};
use selu::web::users::{admin_badge, agents_set, language_select, users_set_agents, SetAgentsForm};
use selu::web::whatsapp::{
    load_bridge_status, whatsapp_add_person, whatsapp_connection_state_key, whatsapp_delete,
    load_whatsapp_config, searched_for, whatsapp_person_added, ChatsSearchQuery, whatsapp_search_chats, Removal, SearchFailure,
};

fn to(s: &str) -> WebAnswer {
    WebAnswer::Redirect(s.to_string())
}

fn some(s: &str) -> Option<String> {
    Some(s.to_string())
}

fn done<T>(verdict: Verdict<T>) -> T {
    match verdict {
        Verdict::Proceed(v) => v,
        Verdict::Answer(_) => panic!("the request goes on"),
    }
}

// ── Agents ───────────────────────────────────────────────────────────────────

#[test]
fn the_marketplace_is_shown_with_the_agents() {
    let agent = LoadedAgent { id: "mail".to_string(), name: "Mail".to_string(), capability_count: 0 };
    let agents = || list_agents(vec![installed_agent(&agent, &None, &vec![], &vec![])], &vec![]);
    let offer = JudgedOffer {
        offer: MarketplaceOffer {
            id: "mail".to_string(),
            name: "Mail".to_string(),
            description: String::new(),
            version: "9.9.9".to_string(),
            author: String::new(),
            entry_json: "{}".to_string(),
            rating_count: None,
        },
        newer: true,
    };
    let (shown, offers, error) = marketplace_page(agents(), &Ok(vec![offer]));
    assert!(shown[0].update_available && shown[0].marketplace_version == "9.9.9");
    assert_eq!((offers.len(), error.as_str()), (1, ""));
    let (shown, offers, error) = marketplace_page(agents(), &Err("timed out".to_string()));
    assert!(!shown[0].update_available && offers.is_empty());
    assert_eq!(error, "Failed to fetch marketplace: timed out");
    let entry = |id: &str| LoadedEntry {
        agent: LoadedAgent { id: id.to_string(), name: id.to_uppercase(), capability_count: 1 },
        row: None,
        known: vec![],
        known_image: vec![],
    };
    let loaded = vec![entry("web"), entry("mail")];
    let index = |is_admin: bool| agents_index(
        is_admin,
        "/s",
        &loaded,
        &vec![PendingAgent { id: "new".to_string(), name: "New".to_string() }],
        &Err("timed out".to_string()),
        &vec![],
        Some(("p".to_string(), "m".to_string())),
        None,
        &vec![],
        None,
        &vec![],
        AgentsQuery { error: some("e"), success: None },
    );
    assert_eq!(index(false).answer(), Some(to("/s/chat")));
    let page = done(index(true));
    assert_eq!(page.error, some("e"));
    assert_eq!((page.global_model_display_name.as_str(), page.global_image_model.as_str()), ("m", ""));
    assert_eq!(page.global_temperature, "0.7");
    assert_eq!(page.agents.iter().map(|a| a.id.as_str()).collect::<Vec<&str>>(), ["mail", "web", "new"]);
    assert!(page.agents[0].setup_complete && !page.agents[2].setup_complete);
    assert_eq!(page.providers.len(), 0);
    let known = vec![ModelName { id: "m".to_string(), name: "Model".to_string() }];
    assert_eq!(default_model(Some(("p".to_string(), "m".to_string())), &known).2, "Model");
    assert_eq!(default_model(None, &known), (String::new(), String::new(), String::new()));
}

#[test]
fn models_that_were_set_lead_back_to_the_agents() {
    let form = || SetAgentModelForm { provider_id: "p".to_string(), model_id: "m".to_string(), temperature: "1".to_string() };
    assert_eq!(done(set_agent_model_handler(true, form())).model_id, "m");
    assert_eq!(set_agent_model_handler(false, form()).answer(), Some(WebAnswer::Status(403)));
    let form = SetDefaultModelForm { provider_id: "p".to_string(), model_id: "m".to_string(), temperature: "1".to_string() };
    assert_eq!(done(set_default_model(true, form)).temperature, "1");
    assert_eq!(agent_model_saved("", true), to("/agents?success=Model+updated+successfully."));
    assert_eq!(default_model_saved("", true), to("/agents?success=global_default_model_updated"));
    assert_eq!(agent_image_model_saved("", true), to("/agents?success=image_model_updated"));
    assert_eq!(
        default_image_model_saved("", false),
        to("/agents?error=Failed+to+update+global+default+image+model.+Please+try+again.")
    );
    assert!(matches!(setup_test_unloaded("gone"), WebAnswer::Html(h) if h.contains(">Error: gone<")));
}

// ── Chat ─────────────────────────────────────────────────────────────────────

fn stored(role: &str, content: &str) -> ThreadMessage {
    let artifact = |id: &str| ArtifactRef {
        artifact_id: id.to_string(),
        filename: format!("{id}.txt"),
        mime_type: "text/plain".to_string(),
        size_bytes: 1,
    };
    let mut file_urls = TextMap::new();
    file_urls.insert("f2", "/f2");
    let mut image_urls = TextMap::new();
    image_urls.insert("a1", "/1");
    ThreadMessage {
        role: role.to_string(),
        content: content.to_string(),
        image_urls,
        tool_calls: vec![("find".to_string(), None), ("read".to_string(), some("ok"))],
        files: Some(vec![artifact("f1"), artifact("f2")]),
        file_urls,
        created_at: "2024-02-03 09:05:00".to_string(),
    }
}

const IMAGES: &str = " \n\nAttached image artifacts:\n- artifact_id: a1 | png\n- artifact_id: a2 | png\n";

#[test]
fn stored_messages_are_shown_by_their_role() {
    let user = message_view(stored("user", IMAGES), "images", "en", 1_767_225_600);
    assert_eq!((user.content.as_str(), user.image_urls.len()), ("images", 1));
    assert_eq!((user.tool_calls[0].result.as_str(), user.tool_calls[1].result.as_str()), ("", "ok"));
    assert_eq!(user.created_at, "Feb 3, 2024 9:05 AM");
    let plain = message_view(stored("user", "raw"), "images", "de", 1_767_225_600);
    assert_eq!((plain.content.as_str(), plain.image_urls.len()), ("raw", 0));
    assert_eq!(plain.created_at, "03.02.2024 09:05");
    let reply = message_view(stored("assistant", "raw"), "images", "de", 1_767_225_600);
    assert_eq!((reply.content.as_str(), reply.image_urls.len(), reply.attachments.len()), ("raw", 0, 2));
    assert_eq!((reply.attachments[0].download_url.as_str(), reply.attachments[1].download_url.as_str()), ("", "/f2"));
    assert_eq!(oldest_stamp(&vec![stored("user", "")]), some("2024-02-03 09:05:00"));
    assert_eq!(oldest_stamp(&vec![]), None);
}

#[test]
fn a_confirmation_shows_what_is_asked_for() {
    let html = build_confirmation_html("s", "c", "<tool>", Some("it's ok"), "{\n\"a\": 1}", "/b");
    assert!(html.contains("&lt;tool&gt;</code></p>';\n"));
    assert!(html.contains("it\\'s ok</p>';\n"));
    assert!(html.contains("  h += '<pre>{\\n&quot;a&quot;: 1}</pre>';\n"));
    assert!(html.contains("hx-post=\"/b/chat/confirm/c?approved=true\" hx-target=\"#confirm-c\""));
    assert!(html.ends_with("})();\n</script>"));
    assert!(!build_confirmation_html("s", "c", "t", None, "", "").contains("mb-3"));
}

#[test]
fn phones_are_told_when_a_turn_starts_and_ends() {
    let incoming = |words: &str| Incoming {
        pipe_id: "p".to_string(),
        thread_id: "t".to_string(),
        user_id: "u".to_string(),
        stream_id: "s".to_string(),
        words: words.to_string(),
        images: vec![],
    };
    let mut turn = Turn::start(incoming("@mail hello"));
    assert!(matches!(turn.action(), TurnAction::AwaitClient { seconds: 5 }));
    turn.step(TurnReply::Done);
    assert!(matches!(turn.action(), TurnAction::ReadPhones { user_id } if user_id == "u"));
    turn.step(TurnReply::Phones(vec!["a".to_string(), "b".to_string()]));
    assert!(matches!(turn.action(), TurnAction::ReadInstance));
    turn.step(TurnReply::Instance(some("i")));
    assert!(matches!(
        turn.action(),
        TurnAction::TellStart { phone, title, pipe_id, thread_id, .. }
            if phone == "a" && title == "@mail hello" && pipe_id == "p" && thread_id == "t"
    ));
    turn.step(TurnReply::Done);
    assert!(matches!(turn.action(), TurnAction::TellStart { phone, .. } if phone == "b"));
    turn.step(TurnReply::Done);
    assert!(matches!(turn.action(), TurnAction::Route { words, .. } if words == "@mail hello"));
    turn.step(TurnReply::Routed { agent_id: "mail".to_string(), message: "hello".to_string() });
    let TurnAction::Run(params) = turn.action() else {
        panic!("the agent takes its turn");
    };
    assert_eq!((params.agent_id.as_str(), params.message.as_str(), params.chain_depth), ("mail", "hello", 0));
    assert!(params.interactive && params.enable_streaming && !params.skip_user_persist);
    assert!(params.delegation_trace.is_empty() && params.location_context.is_none());
    turn.step(TurnReply::Failed);
    assert!(matches!(turn.action(), TurnAction::Word { key: "error.agent_turn_failed", .. }));
    turn.step(TurnReply::Words("broken".to_string()));
    assert!(matches!(turn.action(), TurnAction::Stream(events) if matches!(&events[0], LoopEvent::Error(e) if e == "broken")));
    turn.step(TurnReply::Done);
    assert!(matches!(turn.action(), TurnAction::CleanUp { stream_id, .. } if stream_id == "s"));
    turn.step(TurnReply::Done);
    turn.step(TurnReply::Instance(some("i")));
    assert!(matches!(turn.action(), TurnAction::ReadLanguage { .. }));
    turn.step(TurnReply::Language("de-AT".to_string()));
    assert!(matches!(turn.action(), TurnAction::TellEnd { body: "Agent ist fertig", event: "end", title: "selu", .. }));
    turn.step(TurnReply::Done);
    assert!(matches!(turn.action(), TurnAction::Over));
    let mut quiet = Turn::start(incoming(""));
    quiet.step(TurnReply::Done);
    quiet.step(TurnReply::Phones(vec![]));
    quiet.step(TurnReply::Routed { agent_id: "default".to_string(), message: String::new() });
    quiet.step(TurnReply::Done);
    quiet.step(TurnReply::Done);
    assert!(matches!(quiet.action(), TurnAction::Over));
}

// ── Pipes ────────────────────────────────────────────────────────────────────

fn person(user: &str, sender: &str) -> AddPersonForm {
    AddPersonForm { user_id: user.to_string(), sender_ref: sender.to_string() }
}

#[test]
fn people_are_added_to_pipes() {
    assert_eq!(
        imessage_add_person(true, "", "c", &person("", "s"), some("p")).answer(),
        Some(to("/pipes/imessage/c?error=Please+fill+in+both+fields"))
    );
    let added = done(imessage_add_person(true, "", "c", &person("u", " s"), some("p")));
    assert_eq!((added.pipe_id.as_str(), added.user_id.as_str(), added.sender_ref.as_str()), ("p", "u", " s"));
    assert_eq!(telegram_add_person(true, "/s", "c", &person("u", "s"), None).answer(), Some(to("/s/pipes")));
    assert_eq!(imessage_person_added("", "c", Added::Twice), to("/pipes/imessage/c?error=This+phone+number+is+already+added"));
    assert_eq!(telegram_add_person(false, "", "c", &person("u", "s"), None).answer(), Some(WebAnswer::Status(403)));
    assert_eq!(telegram_person_added("", "c", Added::Done), to("/pipes/telegram/c?msg=Person+added"));
    assert_eq!(
        whatsapp_add_person(true, "", "c", &person("u", " "), None).answer(),
        Some(to("/pipes/whatsapp/c?error=wa.detail.person.missing"))
    );
    assert_eq!(whatsapp_person_added("", "c", Added::Failed), to("/pipes/whatsapp/c?error=pipes.person.add.error"));
}

#[test]
fn pipes_are_set_up_from_complete_forms() {
    let form = |guid: &str| ImessageSetupForm {
        name: " Home ".to_string(),
        server_url: "http://bb".to_string(),
        server_password: "p".to_string(),
        chat_guid: guid.to_string(),
        people: some("+49:u1"),
    };
    assert!(imessage_setup_submit(true, "", &form(""), None).answer().is_some());
    let Verdict::Proceed(pipe) = imessage_setup_submit(true, "", &form("g"), None) else {
        panic!("the form is complete");
    };
    assert_eq!((pipe.pipe.user_id.as_str(), pipe.pipe.name.as_str(), pipe.people.len()), ("u1", "iMessage: Home", 1));
    assert_eq!((pipe.pipe.transport, pipe.pipe.outbound_url.as_str()), ("webhook", "internal://bluebubbles"));
    let setup = |is_admin: bool, origin: &str| {
        let row = StoredName { id: some("u"), username: "ann".to_string(), display_name: "Ann".to_string() };
        telegram_setup_page(is_admin, "/s", origin, vec![row], FlashQuery { msg: None, error: some("e") })
    };
    let page = done(setup(true, "https://x"));
    assert_eq!((page.users[0].display.as_str(), page.error), ("Ann (ann)", some("e")));
    assert_eq!(setup(false, "https://x").answer(), Some(to("/s/chat")));
    assert!(setup(true, "http://x").answer().is_some());
    assert_eq!(telegram_created("", "c", PipeProgress::NoConfig), to("/pipes/telegram/setup?error=Failed+to+create+adapter+config"));
    let detail = load_telegram_config(some("c"), "n".to_string(), "1".to_string(), 1, "p".to_string(), "a".to_string());
    assert!(detail.active && detail.bot_username.is_empty());
    let found = done(tg_proxy_chats(true, Ok("bot".to_string()), None));
    assert!(found.ok && found.chats.unwrap().is_empty());
    assert_eq!(done(tg_proxy_chats(true, Err("bad token".to_string()), None)).error, some("bad token"));
    let info = WebhookInfo { url: "https://x/hook".to_string(), pending_update_count: -3, last_error_message: some("<no>") };
    assert_eq!(tg_proxy_chats(false, Ok(String::new()), None).answer(), Some(WebAnswer::Status(403)));
    assert_eq!(tried_token(true, &TgProxyRequest { bot_token: " t ".to_string() }), Verdict::Proceed("t".to_string()));
    let page = |config| telegram_detail(true, "/s", "https://a", config, vec![], vec![], FlashQuery { msg: some("m"), error: None });
    assert_eq!(page(None).0.answer(), Some(to("/s/pipes")));
    let (shown, https) = page(Some(detail));
    assert_eq!((done(shown).flash, https), (some("m"), true));
    let WebAnswer::Html(html) = telegram_check_webhook(true, true, &Some(info)) else {
        panic!("the webhook is shown");
    };
    assert!(html.contains("https://x/hook") && html.contains(">-3<"));
    assert!(matches!(telegram_check_webhook(true, true, &None), WebAnswer::Html(h) if h.contains("Could not reach Telegram")));
}

#[test]
fn the_state_of_the_bridge_has_keys() {
    assert_eq!(whatsapp_connection_state_key(" Open "), Some("wa.connection.open"));
    assert_eq!(whatsapp_connection_state_key("lost"), None);
    let view = load_bridge_status(WhatsappBridgeStatusResponse {
        running: true,
        connection_state: some("closed"),
        requires_qr: true,
        qr_data_url: None,
        jid: None,
        last_error: None,
        message: some("WhatsApp bridge is running"),
    });
    assert_eq!(view.connection_state_key.as_deref(), Some("wa.connection.closed"));
    assert_eq!(view.message_key.as_deref(), Some("wa.status.bridge_running"));
    let failed = done(whatsapp_search_chats(true, Err(SearchFailure::NoService)));
    assert_eq!(searched_for(true, ChatsSearchQuery { q: None }), Verdict::Proceed(String::new()));
    assert_eq!((failed.ok, failed.message), (false, some("Could not reach updates service")));
    assert_eq!(
        whatsapp_delete(true, "", Removal::NotThere),
        to("/pipes?error=Couldn%27t%20find%20that%20WhatsApp%20pipe.")
    );
    assert_eq!(whatsapp_delete(true, "", Removal::Done), to("/pipes?msg=Pipe+removed"));
    let detail = load_whatsapp_config(None, "n".to_string(), "u".to_string(), 0, "p".to_string(), "a".to_string(), "t".to_string());
    assert!(detail.config_id.is_empty() && !detail.active);
}

// ── Settings ─────────────────────────────────────────────────────────────────

#[test]
fn users_are_shown_with_their_switches() {
    let badge = admin_badge("/s", "u", true);
    assert!(badge.contains("hx-post=\"/s/users/u/toggle-admin\"") && badge.ends_with(">Admin</button>"));
    assert!(admin_badge("", "u", false).ends_with(">User</button>"));
    let select = language_select("/s", "u", "en");
    assert!(select.contains("<option value=\"en\" selected>English</option>"));
    assert!(select.contains("<option value=\"de\" >Deutsch</option>"));
    let form = SetAgentsForm { agents: some("a, b") };
    assert_eq!(users_set_agents(true, "", &form), Verdict::Proceed(vec!["a".to_string(), "b".to_string()]));
    assert_eq!(users_set_agents(false, "/s", &form), Verdict::Answer(to("/s/chat")));
    assert_eq!(users_set_agents(true, "", &SetAgentsForm { agents: None }), Verdict::Proceed(vec![]));
    assert_eq!(agents_set("", true), to("/users"));
    assert_eq!(agents_set("", false), to("/users?error=agents_save_failed"));
}

#[test]
fn facts_and_providers_lead_on() {
    assert_ne!(fact_added("", true), fact_added("", false));
    let form = UpdateFactForm { category: "work".to_string(), fact: " codes ".to_string() };
    let row = personality_update("f".to_string(), &form, None);
    assert_eq!((row.fact.as_str(), row.source.as_str(), row.category.as_str()), ("codes", "manual", "work"));
    let query = || SetupQuery { error: some("e") };
    let page = done(providers_setup_page(true, "", "ollama", Some((some("http://o"), some("k"))), query()));
    assert_eq!((page.provider_id.as_str(), page.error), ("ollama", some("e")));
    assert_eq!((page.base_url.as_str(), page.has_key), ("http://o", true));
    assert_eq!(providers_setup_page(true, "", "x", None, query()).answer().is_some(), true);
    let stored = done(providers_disconnect(true, "", "openai"));
    assert_eq!((stored.id.as_str(), stored.base_url.as_str(), stored.active), ("openai", "", false));
    assert_eq!(providers_disconnect(true, "", "x").answer(), Some(to("/providers")));
}

#[test]
fn schedules_and_subscriptions_lead_on() {
    assert_eq!(timezone_saved("", true), to("/schedules?success=Timezone+updated."));
    let badge = |active: Option<i64>| match schedules_toggle(&Ok(true), active) {
        WebAnswer::Html(html) => html,
        _ => String::new(),
    };
    assert!(badge(Some(1)).contains(">On<") && badge(Some(0)).contains(">Off<") && badge(None).contains(">Off<"));
    assert_eq!(schedules_toggle(&Ok(false), None), WebAnswer::Status(404));
    assert_eq!(schedules_toggle(&Err(String::new()), None), WebAnswer::Status(500));
    assert_eq!(pipes_updated(&Ok(true)), WebAnswer::Html(String::new()));
    assert_eq!(no_provider(false, "e"), "No LLM provider configured: e");
    let form = UpdateScheduleForm { name: "n".to_string(), prompt: "p".to_string(), when_text: "w".to_string(), pipe_ids: some("a") };
    assert!(matches!(schedules_update("", &form), Verdict::Proceed(_)));
    assert_eq!(subscription_created("", true), to("/subscriptions?success=Subscription+created."));
    let row = SubRow {
        id: some("s"),
        user_id: "u".to_string(),
        username: None,
        event_type: "e".to_string(),
        reaction_type: "r".to_string(),
        reaction_config_json: "{}".to_string(),
        filter_expression: None,
        active: 1,
        created_at: String::new(),
    };
    let nameless = SubRow {
        id: None,
        user_id: "u".to_string(),
        username: some("ann"),
        event_type: "e".to_string(),
        reaction_type: "r".to_string(),
        reaction_config_json: "{}".to_string(),
        filter_expression: some("true"),
        active: 0,
        created_at: String::new(),
    };
    let query = || SubsQuery { error: None, success: None };
    let views = done(subscriptions_index(true, "", vec![nameless, row], vec![], query())).subs;
    assert_eq!(subscriptions_delete(false, "s".to_string()).answer(), Some(WebAnswer::Status(403)));
    assert_eq!((views.len(), views[0].username.as_str(), views[0].active), (1, "u", true));
    assert_eq!(subscriptions_index(false, "/s", vec![], vec![], query()).answer(), Some(to("/s/chat")));
}

#[test]
fn the_current_host_can_be_made_public() {
    assert_eq!(
        updates_apply_current_host(true, "/selu", "https://a.test/selu"),
        Verdict::Proceed("https://a.test".to_string())
    );
    assert_eq!(
        updates_apply_current_host(true, "", "not an address").answer(),
        Some(to("/system-updates?error_key=updates.error.public_origin_invalid"))
    );
    let (code, body) = done(updates_apply_start(true, false));
    assert_eq!((code, body.ok, body.error_key), (400, false, some("updates.error.apply_failed")));
    assert_eq!(updates_rollback_start(false, true).answer(), Some(WebAnswer::Status(403)));
    let (code, body) = done(updates_rollback_start(true, true));
    assert_eq!((code, body.ok, body.message_key), (200, true, some("updates.flash.rollback_started")));
}

// ── The update service ───────────────────────────────────────────────────────

fn config() -> UpdaterConfig {
    UpdaterConfig {
        server: ServerConfig { host: "0.0.0.0".to_string(), port: 8090 },
        shared_secret: String::new(),
        compose_file: "c.yml".to_string(),
        compose_project_dir: "/p".to_string(),
        compose_service: "selu".to_string(),
        updater_service: "selu-updater".to_string(),
        compose_env_file: ".env".to_string(),
        health_url: String::new(),
        health_timeout_secs: 1,
        health_interval_secs: 1,
        docker_bin: "docker".to_string(),
        image_repo: "ghcr.io/selu-bot/selu".to_string(),
        updater_tag_env_key: "TAG".to_string(),
        updater_pending_tag_env_key: "PENDING".to_string(),
        self_update_on_apply: false,
        whatsapp_bridge_enabled: true,
        whatsapp_bridge_image_repo: "ghcr.io/selu-bot/bridge".to_string(),
        whatsapp_bridge_container_name: "bridge".to_string(),
        whatsapp_bridge_data_volume: "data".to_string(),
        whatsapp_bridge_network: String::new(),
        whatsapp_bridge_port: 3200,
    }
}

#[test]
fn the_updater_is_named_and_restarted() {
    assert_eq!(
        resolve_updater_service_image(&config()).join(" "),
        "compose -f c.yml --env-file .env --project-directory /p config --images selu-updater"
    );
    let command = restart_helper_command(&config(), "helper", "me", "image");
    assert_eq!(command[..11].join(" "), "run --rm -d --name helper --volumes-from me --entrypoint sh image -c");
    assert!(clear_bind_mount_command(&config(), "h", "/srv", " ").unwrap().contains(&"ghcr.io/selu-bot/bridge:stable".to_string()));
}

#[test]
fn the_bridge_tells_how_it_is() {
    let asleep = status_before_session(&config(), Err("No such container: bridge".to_string())).unwrap().unwrap();
    assert_eq!(asleep.message, some("WhatsApp bridge is not running"));
    assert!(status_before_session(&config(), Ok("true\n".to_string())).unwrap().is_none());
    assert!(status_before_session(&config(), Err("denied".to_string())).is_err());
    let session = BridgeSessionStatus {
        connection_state: "open".to_string(),
        requires_qr: false,
        qr_available: true,
        jid: some("j"),
        last_error: None,
    };
    let awake = status_of_session(Some(session), some("qr"));
    assert_eq!((awake.running, awake.qr_data_url, awake.jid), (true, None, some("j")));
    assert!(chats_before_session(&config(), Ok("true".to_string())).unwrap().is_none());
    let chats = chats_of_session(Some(BridgeChatsResponse { chats: vec![], connection_state: "open".to_string() }));
    assert_eq!(chats.message, some("WhatsApp chats loaded"));
    assert_eq!(chats_of_session(None).message, some("WhatsApp bridge is running, but chats are unavailable"));
}

#[test]
fn groups_are_written_down_whole() {
    let now = Moment { secs: 1_767_225_600, nanos: 0 };
    let mut document = EnvDocument::parse("KEEP=1\n");
    persist_updater_restart_state(&mut document, "TAG", "t", "current", "previous", None, true, &now);
    assert_eq!(document.value("TAG"), "t");
    assert_eq!(document.value("SELU_UPDATER_RESTART_HELPER_ACTIVE"), "true");
    let deadline = document.value("SELU_UPDATER_PREVIOUS_RETAIN_UNTIL");
    assert!(chrono::DateTime::parse_from_rfc3339(&deadline).is_ok());
    persist_updater_restart_state(&mut document, "TAG", "t", "current", "previous", Some(""), false, &now);
    assert_eq!(document.value("SELU_UPDATER_PREVIOUS_RETAIN_UNTIL"), "");
    persist_whatsapp_image_refs(&mut document, "a", "b", "c");
    assert_eq!(document.value("SELU_WHATSAPP_CURRENT_IMAGE_REF"), "a");
    let root = RollbackRoot {
        display_tag: "stable".to_string(),
        compose_tag: String::new(),
        digest: "d".to_string(),
        version: "v".to_string(),
        build: "b".to_string(),
        image_id: String::new(),
        immutable_ref: String::new(),
    };
    activate_rollback_root_env(&mut document, &root);
    assert_eq!(document.value("SELU_IMAGE_TAG"), "stable");
    assert_eq!(document.value("KEEP"), "1");
    assert!(target_refs("ghcr.io/selu-bot/selu", "stable", "bad").is_err());
}
