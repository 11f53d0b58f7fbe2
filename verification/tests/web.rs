use selu::clock::Moment;
use selu::updater::types::{AckResponse, ServerConfig, WhatsappBridgeChat, WhatsappBridgeChatsResponse};
use selu::web::agents::{agents_error, agents_success};
use selu::web::auth::{
    auth_user, cookie_path, login_name, login_page, login_submit, session_expiry, setup_page,
    seeded_providers, setup_submit, LoginForm, SetupForm,
};
use selu::web::cache::{cache_delete, cache_index, format_bytes, restricted_to, StoredVolume};
use selu::web::config::{AppConfig, DatabaseConfig};
use selu::web::credentials::{
    credential_saved, credentials_set_system, credentials_set_user, SetSystemCredForm,
    SetUserCredForm,
};
use selu::web::feedback::{
    dispatch_submit_feedback, feedback_api_base_url, feedback_error, feedback_submit,
    feedback_submitted, SubmitFeedbackArgs,
    feedback_thanks, gateway_refused, FeedbackFault, FeedbackForm, GatewayFeedbackResponse,
};
use selu::web::html::{escape_html_attribute, html_escape};
use selu::web::ids::{inbound_token, new_id};
use selu::web::integrations::{bb_proxy_chats, chat_query_url, imessage_created, BbApiChat, BbFailure};
use selu::web::mobile::{create_setup_token, setup_token};
use selu::web::password::{check_password, hash_password, hash_salted, PasswordCheck};
use selu::web::people::{
    find_pipe_owner, initials, person_added, person_is_complete, sender_mappings, user_option,
    AddPersonForm, Added,
};
use selu::web::personality::{
    category_label, group_facts, personality_add, pick_stored_category, AddFactForm, FactRow,
};
use selu::web::pipes::{
    pipes_index, pipes_web_create, pipes_webhook_create,
    web_created, webhook_created, PipeRow, PipesQuery, WebCreateForm, WebhookCreateForm,
};
use selu::web::providers::{
    access_refused, check_provider_access, is_provider_connected, provider_meta, provider_saved,
    provider_disconnected, providers_index, providers_new, providers_setup_submit, ProviderRow,
    ProviderSetupForm, ProvidersQuery, SetupQuery,
    SetupProgress,
};
use selu::web::response::{Verdict, WebAnswer};
use selu::web::schedules::{
    common_timezones, format_utc_for_timezone, marked_utc, parse_fire_at, schedule_created,
    schedule_updated, schedules_create, schedules_index, SchedulesQuery, schedules_update_pipes, timing_to_create,
    timing_request, timing_to_update, user_set_timezone, CreateScheduleForm, PipeOption, ScheduleRow, Timing,
    TimingResult, TimezoneForm, UpdatePipesForm,
};
use selu::web::spa::{app_index, asset_cache_control, is_hashed_asset};
use selu::web::subscriptions::{
    filter_expression, filter_prompt, subscriptions_create, CreateSubForm, FilterSource,
};
use selu::web::telegram::{
    telegram_reregister_webhook, telegram_setup_submit, PipeProgress,
    TelegramSetupForm,
};
use selu::web::text_map::TextMap;
use selu::web::users::{
    admin_toggled, error_key, flipped_admin, language_set, may_change_user, pick_language,
    session_is_revoked, split_items, success_key, user_created, users_change_password,
    users_create, users_delete, users_index, users_set_language, users_toggle_admin,
    vet_password_change, AgentInfo, ChangePasswordForm, CreateUserForm, SetLanguageForm,
    StoredUser, UsersQuery, NO_AGENTS_SENTINEL,
};
use selu::web::whatsapp::{
    bridge_started, bridge_stopped, ensure_request, managed_bridge_inbound_origin,
    managed_bridge_inbound_url, managed_bridge_outbound_url, map_chat_search_response,
    whatsapp_bridge_message_key, whatsapp_connection_state_key, whatsapp_created,
    whatsapp_setup_submit, BridgeStart, WhatsappProgress, WhatsappSetupForm,
};

fn to(s: &str) -> WebAnswer {
    WebAnswer::Redirect(s.to_string())
}

fn some(s: &str) -> Option<String> {
    Some(s.to_string())
}

const NOW: Moment = Moment { secs: 1_767_225_600, nanos: 0 };

// ── The single page application ──────────────────────────────────────────────

const SHELL: &str = "<meta name=\"selu-base-path\" content=\"__SELU_BASE_PATH__\"><base href=\"__SELU_BASE_PATH__/app/\"><main>shell</main>";

#[test]
fn identifies_only_content_hashed_asset_names() {
    assert!(is_hashed_asset("/app-9ddEq3Ic.css"));
    assert!(is_hashed_asset("/chunk-12345678.js"));
    assert!(!is_hashed_asset("/app.js"));
    assert!(!is_hashed_asset("/long-production-name.js"));
}

#[test]
fn the_shell_is_served_with_its_prefix() {
    let body = app_index(SHELL, "/selu");
    assert!(body.contains("content=\"/selu\""), "{body}");
    assert!(body.contains("<base href=\"/selu/app/\">"), "{body}");
}

#[test]
fn hashed_assets_are_immutable() {
    assert_eq!(
        asset_cache_control("/app-1234AbCd.js", true),
        Some("public, max-age=31536000, immutable")
    );
    assert_ne!(
        asset_cache_control("/missing-1234AbCd.js", false),
        Some("public, max-age=31536000, immutable")
    );
}

#[test]
fn escapes_base_path_before_injecting_it_into_html() {
    let body = app_index(SHELL, "\"><script>alert('x')</script>");
    assert!(!body.contains("<script>"));
    assert!(body.contains("&quot;&gt;&lt;script&gt;alert(&#x27;x&#x27;)&lt;/script&gt;"));
}

#[test]
fn escaped_text_holds_no_markup() {
    assert_eq!(html_escape("<a href=\"x\">&</a>"), "&lt;a href=&quot;x&quot;&gt;&amp;&lt;/a&gt;");
    assert_eq!(escape_html_attribute("'\"<>&"), "&#x27;&quot;&lt;&gt;&amp;");
}

// ── Addresses and tokens ─────────────────────────────────────────────────────

#[test]
fn texts_are_encoded_for_addresses() {
    let key = "a b/\u{e4}?~_-.9";
    assert_eq!(
        agents_error("/s", key),
        to(&format!("/s/agents?error={}", urlencoding::encode(key)))
    );
    for c in '\0'..='\u{2100}' {
        let text = c.to_string();
        assert_eq!(agents_success("", &text), to(&format!("/agents?success={}", urlencoding::encode(&text))));
    }
}

#[test]
fn identifiers_are_new_each_time() {
    let id = new_id();
    assert_ne!(id, new_id());
    assert_eq!(uuid::Uuid::parse_str(&id).unwrap().to_string(), id);
    assert_eq!(inbound_token(&id), id.replace('-', ""));
}

#[test]
fn setup_tokens_last_five_minutes() {
    let token = setup_token("0123-ab", "https://selu.test", &NOW);
    assert_eq!(token.token, inbound_token("0123-ab"));
    assert_eq!(token.expires_at, "2026-01-01 00:05:00");
    let created = create_setup_token("https://selu.test", &NOW);
    assert_eq!(created.server_url, "https://selu.test");
    assert!(created.token.chars().all(|c| c.is_ascii_hexdigit()));
}

fn done<T>(verdict: Verdict<T>) -> T {
    match verdict {
        Verdict::Proceed(v) => v,
        Verdict::Answer(_) => panic!("the request goes on"),
    }
}

// ── Passwords and logins ─────────────────────────────────────────────────────

#[test]
fn a_password_belongs_to_its_hash() {
    let hash = hash_password("secret").expect("the machine gives random bytes");
    assert_ne!(hash, "secret");
    assert_ne!(hash_password("secret").unwrap(), hash);
    let salted = |password: &str, byte: u8| hash_salted(password, &Some(vec![byte; 16]));
    let hash = salted("secret", 0).unwrap();
    assert!(hash.starts_with("$argon2id$v=19$m=19456,t=2,p=1$AAAAAAAAAAAAAAAAAAAAAA$"));
    assert_eq!(salted("secret", 0).unwrap(), hash);
    assert_ne!(salted("secret", 1).unwrap(), hash);
    assert_ne!(salted("other", 0).unwrap(), hash);
    assert_eq!(check_password(&hash, "secret"), PasswordCheck::Belongs);
    assert_eq!(hash_salted("secret", &None), None);
    assert!(check_password(&hash, "secret") == PasswordCheck::Belongs);
    assert!(check_password(&hash, "other") == PasswordCheck::Differs);
    assert!(check_password("plain", "plain") == PasswordCheck::NoHash);
    let form = |password: &str| LoginForm { username: " ann ".to_string(), password: password.to_string() };
    assert_eq!(login_submit(&form("secret"), Some(&hash)), Ok(()));
    let wrong = login_submit(&form("other"), Some(&hash));
    assert!(wrong.is_err());
    assert_eq!(wrong, login_submit(&form("secret"), None));
    assert_eq!(login_name(&form("")), "ann");
}

#[test]
fn the_first_user_sets_the_service_up() {
    assert_eq!(login_page("/s", 0), Some(to("/s/setup")));
    assert_eq!(login_page("/s", 1), None);
    assert_eq!(setup_page("/s", 1), Some(to("/s/login")));
    let form = SetupForm { username: " ann ".to_string(), display_name: " ".to_string(), password: "p".to_string() };
    let Verdict::Proceed(Ok((admin, hash))) = setup_submit("", 0, &form) else {
        panic!("the form is complete");
    };
    assert!(check_password(&hash, "p") == PasswordCheck::Belongs);
    assert_eq!((admin.username.as_str(), admin.display_name.as_str()), ("ann", "ann"));
    let empty = SetupForm { username: " ".to_string(), display_name: String::new(), password: "p".to_string() };
    assert!(matches!(setup_submit("", 0, &empty), Verdict::Proceed(Err(e)) if e == "Username and password are required."));
    assert_eq!(setup_submit("", 1, &form).answer(), Some(to("/login")));
    let seeds = seeded_providers();
    assert_eq!(seeds.iter().map(|p| p.id).collect::<Vec<&str>>(), ["bedrock", "anthropic", "openai"]);
    assert_eq!(seeds[0].display_name, "Amazon Bedrock");
    assert!(seeds.iter().all(|p| p.active && !is_provider_connected(p.id, Some(p.api_key_encrypted), Some(p.base_url))));
    assert_eq!((cookie_path("").as_str(), cookie_path("/s").as_str()), ("/", "/s/"));
    assert!(session_expiry(&NOW).starts_with("2026-"));
    assert!(matches!(auth_user("/s", None).answer(), Some(a) if a == to("/s/login")));
}

#[test]
fn passwords_are_changed_with_care() {
    let form = |current: &str, new: &str, confirm: &str| ChangePasswordForm {
        current_password: current.to_string(),
        new_password: new.to_string(),
        confirm_password: confirm.to_string(),
    };
    assert_eq!(vet_password_change(&form("", "long enough", "long enough")), Some("current_password_required"));
    assert_eq!(vet_password_change(&form("a", "", "")), Some("new_password_required"));
    assert_eq!(vet_password_change(&form("a", "long enough", "")), Some("confirm_password_required"));
    assert_eq!(vet_password_change(&form("a", "long enough", "other one")), Some("password_mismatch"));
    assert_eq!(vet_password_change(&form("a", "short", "short")), Some("password_too_short"));
    let hash = hash_password("current").unwrap();
    let Verdict::Proceed(new) = users_change_password("", &form("current", "long enough", "long enough"), Some(&hash)) else {
        panic!("the password is right");
    };
    assert!(check_password(&new, "long enough") == PasswordCheck::Belongs);
    assert_eq!(
        users_change_password("", &form("wrong", "long enough", "long enough"), Some(&hash)).answer(),
        Some(to("/users?error=wrong_current_password"))
    );
    assert!(session_is_revoked("u", "s1", "u", Some("s2")));
    assert!(!session_is_revoked("u", "s1", "u", Some("s1")));
    assert!(!session_is_revoked("v", "s1", "u", None));
}

// ── Users ────────────────────────────────────────────────────────────────────

#[test]
fn users_see_the_agents_that_they_may_use() {
    let user = |id: &str| StoredUser {
        id: some(id),
        username: id.to_string(),
        display_name: id.to_string(),
        is_admin: 1,
        language: "de".to_string(),
        created_at: String::new(),
    };
    let access = vec![
        ("u".to_string(), "mail".to_string()),
        ("v".to_string(), NO_AGENTS_SENTINEL.to_string()),
        ("u".to_string(), "web".to_string()),
    ];
    let info = |id: &str| AgentInfo { id: id.to_string(), name: id.to_string() };
    let query = UsersQuery { error: some("?"), success: None };
    let page = users_index(true, &vec![user("u"), user("v"), user("u")], &access, &vec![info("default"), info("mail")], &query);
    let u = &page.users[0];
    assert!(u.is_admin && u.has_agent(&"mail".to_string()) && !u.has_agent(&"other".to_string()));
    assert!(!u.has_no_agents());
    assert_eq!(u.allowed_agents, ["mail", "web"]);
    assert!(page.users[1].has_no_agents());
    assert!(page.users[2].allowed_agents.is_empty());
    assert_eq!(page.all_agents.len(), 1);
    assert_eq!(page.error_key, some("users.error.unexpected"));
    let hidden = users_index(false, &vec![user("u")], &access, &vec![info("mail")], &query);
    assert!(hidden.users.is_empty() && hidden.all_agents.is_empty());
    assert_eq!(users_toggle_admin(true, "a", "a", Some(0)).answer(), Some(WebAnswer::Status(403)));
    assert_eq!(users_toggle_admin(true, "a", "b", None).answer(), Some(WebAnswer::Status(404)));
    assert_eq!(users_toggle_admin(true, "a", "b", Some(0)), Verdict::Proceed(1));
    assert_eq!(admin_toggled("", "b", 1, false), WebAnswer::Status(500));
    assert_eq!(users_delete(true, "a", "b"), Verdict::Proceed("b".to_string()));
    assert_eq!(users_set_language(true, &SetLanguageForm { language: "fr".to_string() }), Verdict::Proceed("de".to_string()));
    assert_eq!(language_set("", "b", "de", false), WebAnswer::Status(500));
}

#[test]
fn users_are_created_by_administrators() {
    let form = |name: &str| CreateUserForm {
        username: name.to_string(),
        display_name: String::new(),
        password: "p".to_string(),
        language: "fr".to_string(),
        is_admin: some("on"),
    };
    assert_eq!(users_create(false, "", &form("ann")).answer(), Some(to("/chat")));
    assert_eq!(users_create(true, "", &form(" ")).answer(), Some(to("/users?error=username_required")));
    let Verdict::Proceed((user, hash)) = users_create(true, "", &form("ann")) else {
        panic!("the form is complete");
    };
    assert!(check_password(&hash, "p") == PasswordCheck::Belongs);
    assert_eq!((user.username.as_str(), user.is_admin, user.language.as_str()), ("ann", 1, "de"));
    assert_eq!(user_created("", Some("UNIQUE constraint failed")), to("/users?error=duplicate"));
    assert_eq!(user_created("", Some("disk full")), to("/users?error=create_failed"));
    assert_eq!(user_created("", None), to("/users"));
    assert_eq!(error_key("duplicate"), "users.error.duplicate");
    assert_eq!(error_key("?"), "users.error.unexpected");
    assert_eq!(success_key("password_changed"), "users.success.password_changed");
    assert_eq!((pick_language("en").as_str(), pick_language("x").as_str()), ("en", "de"));
    assert!(may_change_user(true, "a", "b") && !may_change_user(true, "a", "a") && !may_change_user(false, "a", "b"));
    assert_eq!((flipped_admin(Some(1)), flipped_admin(Some(0)), flipped_admin(None)), (Some(0), Some(1), None));
    assert_eq!(split_items(" a , ,b"), ["a", "b"]);
}

// ── People ───────────────────────────────────────────────────────────────────

#[test]
fn people_have_initials() {
    assert_eq!(initials("ada lovelace"), "AD");
    assert_eq!(initials("\u{df}x"), "SSX");
    assert_eq!(initials("42"), "?");
    assert_eq!(user_option(some("u"), "ann", "Ann").display, "Ann (ann)");
}

#[test]
fn people_of_a_form_are_complete() {
    let list = Some("+49 1:u1, :x,+49 2:,+49 3: u3 ");
    assert_eq!(
        sender_mappings(list),
        [("+49 1".to_string(), "u1".to_string()), ("+49 3".to_string(), "u3".to_string())]
    );
    assert_eq!(find_pipe_owner(list, some("first")), some("u1"));
    assert_eq!(find_pipe_owner(None, some("first")), some("first"));
    let form = |user: &str, sender: &str| AddPersonForm { user_id: user.to_string(), sender_ref: sender.to_string() };
    assert!(person_is_complete(&form("u", "s")) && !person_is_complete(&form("u", " ")));
    assert!(person_added(None) == Added::Done);
    assert!(person_added(Some("UNIQUE constraint")) == Added::Twice);
    assert!(person_added(Some("disk")) == Added::Failed);
}

// ── Providers ────────────────────────────────────────────────────────────────

#[test]
fn providers_are_connected_by_what_they_need() {
    assert!(is_provider_connected("openai", Some("k"), None) && !is_provider_connected("openai", None, Some("u")));
    assert!(is_provider_connected("bedrock", Some("k"), Some("r")) && !is_provider_connected("bedrock", Some("k"), None));
    assert!(is_provider_connected("ollama", None, Some("u")));
    assert!(!is_provider_connected("other", Some("k"), Some("u")));
    assert_eq!(provider_meta("ollama").unwrap().default_base_url, "http://localhost:11434");
    assert!(provider_meta("other").is_none());
    let rows = vec![
        ProviderRow { id: some("openai"), display_name: "x".to_string(), api_key_encrypted: some("k"), base_url: None },
        ProviderRow { id: some("ollama"), display_name: "y".to_string(), api_key_encrypted: None, base_url: None },
    ];
    let query = || ProvidersQuery { error: None, success: some("connected") };
    let page = done(providers_index(true, "", &rows, query()));
    assert_eq!((page.providers.len(), page.success), (1, some("connected")));
    assert_eq!(providers_index(false, "/s", &rows, query()).answer(), Some(to("/s/chat")));
    assert_eq!(provider_disconnected("", true), to("/providers?success=disconnected"));
    assert_eq!(
        provider_disconnected("", false),
        to("/providers?error=Couldn%27t+disconnect+the+provider.+Please+try+again.")
    );
    let catalog = done(providers_new(true, "", &rows, SetupQuery { error: None })).providers;
    assert_eq!(catalog.len(), 4);
    assert!(catalog.iter().any(|p| p.id == "openai" && p.already_active));
    assert!(catalog.iter().any(|p| p.id == "ollama" && !p.already_active));
}

#[test]
fn providers_are_set_up_with_what_they_need() {
    let form = |key: Option<&str>, url: Option<&str>| ProviderSetupForm {
        api_key: key.map(str::to_string),
        base_url: url.map(str::to_string),
    };
    assert!(providers_setup_submit(true, "", "openai", &form(None, None)).answer().is_some());
    let Verdict::Proceed(settings) = providers_setup_submit(true, "", "openai", &form(Some(" k "), None)) else {
        panic!("the key is there");
    };
    assert_eq!(settings.api_key, "k");
    assert!(providers_setup_submit(false, "", "openai", &form(Some("k"), None)).answer().is_some());
    assert!(matches!(provider_saved("", "openai", SetupProgress::Saved), WebAnswer::Redirect(_)));
    let check = check_provider_access("ollama", "", "http://localhost:11434/").unwrap();
    assert!(check.url.starts_with("http://localhost:11434/"));
    assert!(!check.bearer && !check.key_header);
    assert!(access_refused("OpenAI", "401").contains("OpenAI"));
}

// ── The bridge ───────────────────────────────────────────────────────────────

fn test_config() -> AppConfig {
    AppConfig {
        server: ServerConfig {
            host: "0.0.0.0".to_string(),
            port: 3000,
        },
        database: DatabaseConfig {
            url: "sqlite://selu.db?mode=rwc".to_string(),
        },
        marketplace_url: "https://example.test/marketplace".to_string(),
        installed_agents_dir: "./installed_agents".to_string(),
        encryption_key: "test".to_string(),
        egress_proxy_addr: "0.0.0.0:8888".to_string(),
        max_chain_depth: 3,
        max_tool_loop_iterations: 32,
        external_url: None,
        base_path: None,
        release_metadata_url: "https://example.test/releases".to_string(),
        updater_url: "http://selu-updater:8090".to_string(),
        updater_shared_secret: String::new(),
        updater_request_timeout_secs: 30,
    }
}

#[test]
fn bridge_uses_internal_selu_origin_in_compose() {
    let cfg = test_config();
    assert_eq!(
        managed_bridge_inbound_origin(&cfg, "http://localhost:3000"),
        "http://selu:3000"
    );
    assert_eq!(
        managed_bridge_inbound_url(&cfg, "http://localhost:3000", "pipe-123"),
        "http://selu:3000/api/pipes/pipe-123/inbound"
    );
}

#[test]
fn bridge_uses_host_gateway_for_local_updater() {
    let mut cfg = test_config();
    cfg.updater_url = "http://127.0.0.1:8090".to_string();
    assert_eq!(
        managed_bridge_inbound_origin(&cfg, "http://localhost:3000"),
        "http://host.docker.internal:3000"
    );
}

#[test]
fn bridge_prefers_public_external_url_when_configured() {
    let mut cfg = test_config();
    cfg.external_url = Some("https://selu.example.com".to_string());
    cfg.base_path = Some("/selu".to_string());
    assert_eq!(
        managed_bridge_inbound_origin(&cfg, "https://selu.example.com/selu"),
        "https://selu.example.com/selu"
    );
}

#[test]
fn the_bridge_is_set_up_once() {
    let cfg = test_config();
    let form = WhatsappSetupForm { name: " Home ".to_string(), outbound_auth: some(" "), people: None };
    let submit = |admin: bool, already: bool, first: Option<String>| whatsapp_setup_submit(admin, "", &form, &cfg, already, first);
    assert_eq!(submit(false, false, some("u")).answer(), Some(WebAnswer::Status(403)));
    assert_eq!(
        submit(true, true, some("u")).answer(),
        Some(to("/pipes/whatsapp/setup?error=WhatsApp+is+already+set+up.+Remove+the+existing+WhatsApp+pipe+first."))
    );
    assert_eq!(
        submit(true, false, None).answer(),
        Some(to("/pipes/whatsapp/setup?error=You+need+at+least+one+user.+Create+one+in+Users+first."))
    );
    let Verdict::Proceed(pipe) = submit(true, false, some("u")) else {
        panic!("the form is complete");
    };
    assert_eq!((pipe.pipe.name.as_str(), pipe.pipe.user_id.as_str(), pipe.pipe.outbound_auth), ("WhatsApp: Home", "u", None));
    assert_eq!(pipe.bridge_url, managed_bridge_outbound_url(&cfg));
    let request = ensure_request("r", None, &cfg, "http://localhost:3000", "p", "t", &None);
    assert_eq!((request.channel.as_str(), request.inbound_url.as_str()), ("stable", "http://selu:3000/api/pipes/p/inbound"));
    assert_eq!(whatsapp_created("", "c", WhatsappProgress::Created), to("/pipes/whatsapp/c?msg=WhatsApp+pipe+set+up+successfully!"));
}

fn ack(accepted: bool, message: Option<&str>) -> AckResponse {
    AckResponse { accepted, job_id: None, status: None, progress_key: None, message: message.map(str::to_string) }
}

#[test]
fn the_bridge_says_what_is_wrong() {
    assert_eq!(bridge_started("", &BridgeStart::Answered(ack(true, None))), Verdict::Proceed(()));
    assert_eq!(
        bridge_started("", &BridgeStart::Answered(ack(false, Some("no image")))).answer(),
        Some(to("/pipes/whatsapp/setup?error=no%20image"))
    );
    assert_eq!(bridge_stopped(&ack(false, None)), Err("Updates service rejected WhatsApp bridge cleanup".to_string()));
    assert_eq!(bridge_stopped(&ack(true, None)), Ok(()));
    assert!(whatsapp_connection_state_key("open").is_some() || whatsapp_connection_state_key("connected").is_some());
    assert_eq!(whatsapp_bridge_message_key("something else"), None);
    let found = map_chat_search_response(WhatsappBridgeChatsResponse {
        running: true,
        connection_state: some("open"),
        chats: vec![WhatsappBridgeChat { sender_ref: "49".to_string(), chat_ref: "c".to_string(), label: "Ann".to_string() }],
        message: None,
    });
    assert!(found.ok && found.running);
    assert_eq!((found.chats[0].sender_ref.as_str(), found.chats[0].label.as_str()), ("49", "Ann"));
}

// ── Other pipes ──────────────────────────────────────────────────────────────

#[test]
fn pipes_are_listed_by_kind() {
    let mut owners = TextMap::new();
    owners.insert("p1", "u1");
    let mut names = TextMap::new();
    names.insert("u1", "Ann");
    let detail = |id: &str, active: i64| selu::web::integrations::load_imessage_config(
        some(id), "Home".to_string(), "http://bb".to_string(), "g".to_string(), active, "p1".to_string(), "Default".to_string(),
    );
    let configs = vec![detail("c1", 1), detail("c2", 0)];
    let row = |id: &str, active: i64| PipeRow { id: some(id), user_id: "u1".to_string(), name: id.to_string(), transport: "web".to_string(), active };
    let query = PipesQuery { created: some("1"), pipe_id: some("p"), token: some("t"), error: None, msg: None };
    let rows = vec![row("p1", 1), row("p2", 1), row("p3", 0)];
    let page = pipes_index(&configs, &rows, &owners, &names, query);
    let shown = page.imessage_pipes;
    assert_eq!(shown.len(), 1);
    assert_eq!((shown[0].config_id.as_str(), shown[0].owner_name.as_str()), ("c1", "Ann"));
    let others = page.other_pipes;
    assert_eq!(others.len(), 1);
    assert_eq!((others[0].id.as_str(), others[0].owner_name.as_str()), ("p2", "Ann"));
    assert_eq!(page.flash.unwrap().inbound_url, "/api/pipes/p/inbound");
}

#[test]
fn pipes_are_created_from_complete_forms() {
    let form = |name: &str, auth: Option<&str>| WebhookCreateForm {
        user_id: "u".to_string(),
        name: name.to_string(),
        outbound_url: "http://x".to_string(),
        outbound_auth: auth.map(str::to_string),
    };
    assert!(pipes_webhook_create(&form(" ", None)).answer().is_some());
    assert_eq!(done(pipes_webhook_create(&form("a", Some("")))).outbound_auth, None);
    let pipe = done(pipes_webhook_create(&form("a", Some("b"))));
    assert_eq!((pipe.transport, pipe.outbound_auth, pipe.default_agent_id), ("webhook", some("b"), None));
    let pipe = done(pipes_web_create(&WebCreateForm { user_id: "u".to_string(), name: " a".to_string() }));
    assert_eq!((pipe.transport, pipe.outbound_url.as_str(), pipe.name.as_str()), ("web", "internal://web", " a"));
    assert_eq!(webhook_created("p 1", "t", true), to("/pipes?created=1&pipe_id=p%201&token=t"));
    assert!(pipes_web_create(&WebCreateForm { user_id: String::new(), name: "a".to_string() }).answer().is_some());
    assert_eq!(web_created("a b", true), to("/pipes?msg=Web+pipe+%22a%20b%22+created.+Go+to+Chat+to+start+talking."));
}

#[test]
fn chats_are_found_through_the_proxy() {
    assert_eq!(chat_query_url("http://bb:1234/"), "http://bb:1234/api/v1/chat/query");
    let chat = |guid: Option<&str>, last: &str| BbApiChat {
        guid: guid.map(str::to_string),
        display_name: None,
        participants: vec![some("+49"), None, some("+43")],
        has_group_id: false,
        last_message: some(last),
    };
    let found = done(bb_proxy_chats(true, "http://bb", Ok(vec![chat(None, &"\u{20ac}".repeat(40)), chat(Some("g"), &"m".repeat(81))])));
    let chats = found.chats.unwrap();
    assert_eq!(chats.len(), 1);
    assert!(chats[0].is_group);
    assert_eq!(chats[0].last_message, format!("{}...", "m".repeat(77)));
    let failed = done(bb_proxy_chats(true, "http://bb", Err(BbFailure::Refused(401, "401".to_string()))));
    assert_eq!(bb_proxy_chats(false, "", Err(BbFailure::NotRead)).answer(), Some(WebAnswer::Status(403)));
    assert_eq!(failed.error, some("Invalid password. Check your BlueBubbles server password."));
    assert_eq!(imessage_created("", "c", PipeProgress::NoPipe), to("/pipes/imessage/setup?error=Failed+to+create+pipe"));
}

#[test]
fn telegram_needs_https() {
    let form = TelegramSetupForm { name: "Home".to_string(), bot_token: " t ".to_string(), chat_id: " 1 ".to_string(), people: None };
    assert!(telegram_setup_submit(true, "", "http://selu.test", &form, some("u")).answer().is_some());
    let Verdict::Proceed(pipe) = telegram_setup_submit(true, "", "https://selu.test", &form, some("u")) else {
        panic!("the form is complete");
    };
    assert_eq!((pipe.bot_token.as_str(), pipe.chat_id.as_str(), pipe.pipe.name.as_str()), ("t", "1", "Telegram: Home"));
    assert_eq!((pipe.pipe.transport, pipe.pipe.outbound_url.as_str()), ("webhook", "internal://telegram"));
    assert_eq!(
        telegram_reregister_webhook(true, "https://a", &Err("no".to_string())),
        WebAnswer::Html("<div class=\"text-sm text-rosie animate-fadein\">no</div>".to_string())
    );
}

// ── Schedules ────────────────────────────────────────────────────────────────

#[test]
fn times_are_shown_in_the_zone_of_the_user() {
    let value = "2026-07-01 06:30:00";
    let zone: chrono_tz::Tz = "Europe/Berlin".parse().unwrap();
    let at = chrono::NaiveDateTime::parse_from_str(value, "%Y-%m-%d %H:%M:%S").unwrap().and_utc().with_timezone(&zone);
    let shown = format_utc_for_timezone(value, "Europe/Berlin");
    assert!(shown.contains(&at.format("%H:%M").to_string()), "{shown}");
    assert_ne!(shown, value);
    assert_eq!(format_utc_for_timezone(value, "Nowhere/Land"), marked_utc(value));
    assert_eq!(format_utc_for_timezone("soon", "Europe/Berlin"), "soon");
    for (zone, _) in common_timezones() {
        assert_eq!(user_set_timezone("", &TimezoneForm { timezone: zone.to_string() }), Verdict::Proceed(zone.to_string()), "{zone}");
    }
    let asked = timing_request("daily", &Moment { secs: 1_767_225_600, nanos: 0 }, None);
    assert_eq!((asked.now.as_str(), asked.timezone.as_str()), ("2026-01-01T00:00:00Z", "UTC"));
    assert_eq!(
        user_set_timezone("", &TimezoneForm { timezone: "Nowhere/Land".to_string() }),
        Verdict::Answer(to("/schedules?error=Invalid+timezone."))
    );
}

#[test]
fn schedules_are_shown_with_their_pipes() {
    let row = ScheduleRow {
        id: "s".to_string(),
        name: "n".to_string(),
        prompt: "p".to_string(),
        cron_description: "d".to_string(),
        cron_expression: "* * * * *".to_string(),
        active: true,
        one_shot: false,
        last_run_at: None,
        next_run_at: "2026-01-01 00:00:00".to_string(),
        pipe_names: vec!["A".to_string()],
        pipe_ids: vec!["a".to_string(), "b".to_string()],
    };
    let pipe = |id: &str| PipeOption { id: id.to_string(), name: id.to_string() };
    let page = schedules_index(None, vec![row], &vec![pipe("b"), pipe("c")], SchedulesQuery { error: None, success: None });
    assert_eq!((page.user_timezone.as_str(), page.timezones.len()), ("UTC", 26));
    let view = &page.schedules[0];
    assert_eq!((view.last_run_at.as_str(), view.pipe_ids_csv.as_str()), ("Never", "a,b"));
    assert!(view.pipe_checks[0].checked && !view.pipe_checks[1].checked);
    assert_eq!(schedules_update_pipes(&UpdatePipesForm { pipe_ids: some("a, ,b") }), ["a", "b"]);
}

#[test]
fn schedules_need_a_name_a_time_and_a_pipe() {
    let form = |name: &str, pipes: Option<&str>| CreateScheduleForm {
        name: name.to_string(),
        prompt: "p".to_string(),
        when_text: "daily".to_string(),
        pipe_ids: pipes.map(str::to_string),
    };
    assert_eq!(
        schedules_create("", &form(" ", Some("a"))).answer(),
        Some(to("/schedules?error=Name%2C+prompt%2C+and+timing+are+required."))
    );
    assert_eq!(
        schedules_create("", &form("n", Some(" ,"))).answer(),
        Some(to("/schedules?error=Please+select+at+least+one+pipe."))
    );
    assert!(matches!(schedules_create("", &form("n", Some("a"))), Verdict::Proceed(_)));
    let at = chrono::DateTime::parse_from_rfc3339("2026-01-01T08:00:00+02:00").unwrap();
    assert_eq!(parse_fire_at("2026-01-01T08:00:00+02:00").unwrap().secs, at.timestamp());
    assert_eq!(parse_fire_at("2026-01-01T08:00:00").unwrap().secs, at.timestamp() + 7200);
    assert!(parse_fire_at("soon").is_err());
    let once = || TimingResult::OneShot { fire_at: "2026-01-01T08:00:00".to_string(), description: "once".to_string() };
    assert!(matches!(timing_to_create("", Ok(once())), Verdict::Proceed(Timing::OneShot { .. })));
    assert!(timing_to_update("", Ok(once())).answer().is_some());
    assert!(timing_to_create("", Err("x".to_string())).answer().is_some());
    assert_eq!(schedule_created("", true, true), to("/schedules?success=Reminder+created."));
    assert_eq!(schedule_updated("", &Ok(false)), to("/schedules?error=Schedule+not+found."));
}

// ── Subscriptions and feedback ───────────────────────────────────────────────

#[test]
fn subscriptions_hold_json() {
    let form = |config: &str| CreateSubForm {
        user_id: "u".to_string(),
        event_type: "mail".to_string(),
        reaction_type: "agent_invocation".to_string(),
        reaction_config: config.to_string(),
        filter_expression: None,
        filter_description: some("only mine"),
    };
    let config = "{ \"b\" : 1,\n \"a\" : [ true ] }";
    let value: serde_json::Value = serde_json::from_str(config).unwrap();
    let Verdict::Proceed(sub) = subscriptions_create(true, "", &form(config)) else {
        panic!("the form is complete");
    };
    assert_eq!(serde_json::from_str::<serde_json::Value>(&sub.config_json).unwrap(), value);
    assert_ne!(sub.config_json, config);
    assert!(matches!(&sub.filter, FilterSource::Described(d) if d == "only mine"));
    assert_eq!(
        subscriptions_create(true, "", &form("{")).answer(),
        Some(to("/subscriptions?error=Reaction+config+must+be+valid+JSON."))
    );
    let prompt = filter_prompt("x");
    assert_eq!(prompt.user, "Translate this to a CEL expression: x");
    assert!(prompt.system.starts_with("You are a CEL") && prompt.system.contains("expression. Available variables"));
    assert_eq!(filter_expression(&sub.filter, Some(" a == b ")), some("a == b"));
    assert_eq!(filter_expression(&sub.filter, Some(" ")), None);
}

#[test]
fn feedback_is_checked_before_it_is_sent() {
    let form = |category: &str, n: usize| FeedbackForm { category: category.to_string(), description: "x".repeat(n) };
    let url = "https://x.test/marketplace/agents";
    assert!(matches!(feedback_submit(&form("nonsense", 20), url), Err(FeedbackFault::Category)));
    let sent = feedback_submit(&form("bug", 10), url).unwrap();
    assert_eq!(sent.url, "https://x.test/feedback");
    assert!(matches!(feedback_submit(&form("bug", 9), url), Err(FeedbackFault::TooShort)));
    assert!(matches!(feedback_submit(&form("bug", 2001), url), Err(FeedbackFault::TooLong)));
    assert!(matches!(feedback_submit(&form("bug", 20), "https://x.test"), Err(FeedbackFault::Unavailable)));
    assert_eq!(feedback_api_base_url("/marketplace/agents"), None);
    assert_ne!(feedback_error(FeedbackFault::TooShort), feedback_error(FeedbackFault::TooLong));
    let response = GatewayFeedbackResponse { issue_url: "https://x/1?a&b".to_string(), issue_number: 17 };
    let args = || Some(SubmitFeedbackArgs { category: "bug".to_string(), title: "t".to_string(), description: "d".to_string() });
    assert_eq!(dispatch_submit_feedback(url, args()).unwrap().url, "https://x.test/feedback");
    assert_eq!(dispatch_submit_feedback("x", args()).unwrap_err(), "Could not derive feedback API base URL");
    assert_eq!(dispatch_submit_feedback(url, None).unwrap_err(), "Invalid submit_feedback arguments");
    assert_eq!(feedback_submitted(&response), "Feedback submitted successfully! Issue #17: https://x/1?a&b");
    assert!(feedback_thanks(&response).contains("https://x/1?a&amp;b"));
    assert_eq!(gateway_refused("500", "no"), "Feedback gateway returned 500: no");
}

// ── The rest ─────────────────────────────────────────────────────────────────

#[test]
fn credentials_need_all_their_fields() {
    let form = |value: &str| SetSystemCredForm { capability_id: "c".to_string(), credential_name: "n".to_string(), value: value.to_string() };
    assert!(credentials_set_system(&form("")).answer().is_some());
    assert_eq!(done(credentials_set_system(&form("v"))).value, "v");
    let form = SetUserCredForm { user_id: String::new(), capability_id: "c".to_string(), credential_name: "n".to_string(), value: "v".to_string() };
    assert!(credentials_set_user(&form).answer().is_some());
    assert_ne!(credential_saved(true, true), credential_saved(true, false));
}

#[test]
fn facts_are_grouped_by_category() {
    let fact = |id: &str, category: &str| FactRow {
        id: id.to_string(),
        category: category.to_string(),
        fact: "f".to_string(),
        source: "user".to_string(),
        created_at: String::new(),
    };
    let groups = group_facts(&vec![fact("1", "work"), fact("2", "location"), fact("3", "work")]);
    let categories: Vec<&str> = groups.iter().map(|g| g.category.as_str()).collect();
    assert_eq!(categories, ["personal", "preferences", "location", "work", "other"]);
    assert_eq!(groups.iter().map(|g| g.facts.len()).sum::<usize>(), 3);
    assert_eq!(groups[3].facts[1].id, "3");
    for group in &groups {
        assert!(group.facts.iter().all(|f| f.category == group.category));
        assert_eq!(group.label_en, category_label(&group.category));
    }
    let form = |fact: &str| AddFactForm { category: "?".to_string(), fact: fact.to_string() };
    assert!(personality_add("", &form(" ")).answer().is_some());
    let Verdict::Proceed((category, words)) = personality_add("", &form(" likes tea ")) else {
        panic!("the form is complete");
    };
    assert_eq!((category, words.as_str()), (pick_stored_category("?"), "likes tea"));
}

#[test]
fn sizes_are_shown_as_floating_point_shows_them() {
    let shown = |bytes: i64| {
        let b = bytes as f64;
        if bytes < 0 {
            None
        } else if bytes < 1024 {
            Some(format!("{bytes} B"))
        } else if bytes < 1024 * 1024 {
            Some(format!("{:.1} KB", b / 1024.0))
        } else if bytes < 1024 * 1024 * 1024 {
            Some(format!("{:.1} MB", b / (1024.0 * 1024.0)))
        } else {
            None
        }
    };
    for bytes in (0..3_000_000).step_by(37).chain(1_048_000..1_049_000).chain(1000..1100) {
        if let Some(text) = shown(bytes) {
            assert_eq!(format_bytes(bytes), text);
        }
    }
    let row = StoredVolume {
        id: "v".to_string(),
        username: "ann".to_string(),
        user_id: "u".to_string(),
        capability_id: "mail".to_string(),
        created_at: String::new(),
        last_active_at: String::new(),
    };
    let sizes = vec![("selu-cache-u-mail".to_string(), 2048), ("other".to_string(), 1)];
    assert_eq!(cache_index(vec![row], &sizes)[0].size, "2.0 KB");
    assert_eq!((restricted_to(true, "u"), restricted_to(false, "u")), (None, some("u")));
    assert_eq!(cache_delete(&Ok(false)), WebAnswer::Status(404));
}
