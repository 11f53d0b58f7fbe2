use selu::web::agent_detail::{
    builtin_policies, capability_view, egress_shown, host_policies, network_request_count,
    overview, render_agent_detail_page, tool_view, AgentDetailQuery, AgentFacts, InsightView, CapabilityEntry, CredentialEntry,
    CredentialScope, EgressEntryView, FilesystemPolicy, HostOverride, NetworkMode, PolicyRow,
    ToolEntry,
};
use selu::web::agent_settings::{
    agent_automation_toggle, agent_credential_delete, agent_credential_set,
    automation_schedule_name, automation_view, credential_removed, credential_saved,
    default_scope_user, delete_network_host_handler, enable_answer, enable_step,
    improvement_activate_handler, improvement_pause_handler, improvement_reject_handler,
    improvement_reset_handler, DeleteNetworkHostForm, InsightActionForm, insight_changed, insight_status, network_host_stored, preset_write,
    reset_tool_policy_handler, runtime_settings_saved, safe_return_path, schedules_to_disable,
    set_network_access_handler, set_network_host_policy_handler, set_runtime_settings_handler,
    set_tool_policy_handler, stored, vet_enable, Automation, AutomationPreset, AutonomyLimits,
    CredentialDeleteQuery, CredentialNeed, EffectiveRuntime, EnableStage, InsightAction,
    PresetEvent, ResetToolPolicyForm, ScheduleWrite, SecretScope, SetAgentCredentialForm,
    SetNetworkAccessForm, SetNetworkHostPolicyForm, SetRuntimeSettingsForm, SetToolPolicyForm,
    ToggleAutomationForm,
};
use selu::web::agent_setup::{
    chosen_policies, discovery_warning, fill_address, is_update_flow, plain_tool_name,
    setup_steps, setup_submit, setup_test, setup_wizard, show_delegate_permission,
    step_credentials, test_finished, InstallStep, SetupAgent, SetupCapability, SetupFlowQuery, SetupOutcome,
    SetupSubmitForm, SetupTool, StepType, StoreTarget, TestMethod, TestReply, TestRequest,
};
use selu::web::agent_entries::{
    agent_memory_delete, agent_storage_delete, entries_restricted_to, entry_deleted,
    DeleteMemoryForm, DeleteStorageForm, MemoryEntryView, StorageEntryView,
};
use selu::web::agent_updates::{update_wizard, ChosenEntry, UpdateEnd, UpdateJobs, UpdateStart};
use selu::web::agents::{
    auto_update_saved, default_temp_str, install_agent, installed_agent,
    installed_version, is_provider_configured_for_agent_selector, list_agents,
    load_provider_options, marketplace_agent, models_for_provider, note_updates, rate_agent,
    rating_address, rating_sent, ratings_api_base_url, resolve_model_display_name,
    set_agent_image_model_handler, set_default_image_model, toggle_auto_update, uninstall_agent,
    update_agent, AgentRow, InstallForm, Installation, LoadedAgent, MarketplaceOffer, ModelName, PendingAgent,
    RateAgentForm, RatingSent, SetAgentImageModelForm, SetDefaultImageModelForm,
    ToggleAutoUpdateForm,
};
use selu::web::permissions::{Access, ToolPolicy};
use selu::web::providers::ProviderRow;
use selu::web::response::{admin_only, admin_page, Verdict, WebAnswer};
use selu::web::text_map::TextMap;

fn redirect(to: &str) -> WebAnswer {
    WebAnswer::Redirect(to.to_string())
}

fn some(s: &str) -> Option<String> {
    Some(s.to_string())
}

fn done<T>(verdict: Verdict<T>) -> T {
    match verdict {
        Verdict::Proceed(v) => v,
        Verdict::Answer(_) => panic!("the request goes on"),
    }
}

#[test]
fn openai_requires_api_key() {
    assert!(!is_provider_configured_for_agent_selector(
        "openai",
        None,
        Some("https://api.openai.com")
    ));
    assert!(is_provider_configured_for_agent_selector(
        "openai",
        Some("encrypted-key"),
        None
    ));
}

#[test]
fn grok_requires_api_key() {
    assert!(!is_provider_configured_for_agent_selector(
        "grok",
        None,
        Some("https://api.x.ai")
    ));
    assert!(is_provider_configured_for_agent_selector(
        "grok",
        Some("encrypted-key"),
        None
    ));
}

#[test]
fn bedrock_works_with_region_even_without_key() {
    assert!(is_provider_configured_for_agent_selector(
        "bedrock",
        None,
        Some("eu-central-1")
    ));
    assert!(!is_provider_configured_for_agent_selector(
        "bedrock", None, None
    ));
}

#[test]
fn pico_works_with_base_url_even_without_key() {
    assert!(is_provider_configured_for_agent_selector(
        "pico",
        None,
        Some("http://192.168.1.100:8090")
    ));
    assert!(!is_provider_configured_for_agent_selector(
        "pico", None, None
    ));
}

#[test]
fn only_usable_providers_are_options() {
    let row = |id: &str, key: Option<&str>, url: Option<&str>| ProviderRow {
        id: some(id),
        display_name: id.to_uppercase(),
        api_key_encrypted: key.map(str::to_string),
        base_url: url.map(str::to_string),
    };
    let options = load_provider_options(&vec![
        row("bedrock", None, Some("eu-central-1")),
        row("grok", Some(""), None),
        row("openai", Some("k"), None),
    ]);
    let ids: Vec<&str> = options.iter().map(|o| o.id.as_str()).collect();
    assert_eq!(ids, ["bedrock", "openai"]);
    assert_eq!(options[1].display_name, "OPENAI");
}

fn model(id: &str, name: &str) -> ModelName {
    ModelName {
        id: id.to_string(),
        name: name.to_string(),
    }
}

#[test]
fn models_are_called_by_their_names() {
    let known = vec![model("gpt", "GPT"), model("gpt", "again")];
    assert_eq!(resolve_model_display_name("gpt", &known), "GPT");
    assert_eq!(resolve_model_display_name("other", &known), "other");
    assert_eq!(resolve_model_display_name("", &known), "");
    assert_eq!(
        models_for_provider(&known),
        WebAnswer::Html(format!(
            "{}{}{}",
            r#"<option value="">-- Select a model --</option>"#,
            r#"<option value="gpt">GPT</option>"#,
            r#"<option value="gpt">again</option>"#
        ))
    );
    assert_eq!(
        models_for_provider(&vec![]),
        WebAnswer::Html(
            r#"<option value="">No models available for this provider</option>"#.to_string()
        )
    );
}

fn loaded(id: &str) -> LoadedAgent {
    LoadedAgent {
        id: id.to_string(),
        name: format!("Agent {id}"),
        capability_count: 2,
    }
}

#[test]
fn installed_agents_come_first_in_order() {
    let row = AgentRow {
        provider_id: some("openai"),
        model_id: some("gpt"),
        image_provider_id: None,
        image_model_id: None,
        is_bundled: 1,
        setup_complete: 1,
        version: "2.0.0".to_string(),
        auto_update: 0,
    };
    let known = vec![model("gpt", "GPT")];
    let installed = vec![
        installed_agent(&loaded("zeta"), &Some(row), &known, &vec![]),
        installed_agent(&loaded("alpha"), &None, &vec![], &vec![]),
    ];
    let pending = |id: &str| PendingAgent {
        id: id.to_string(),
        name: id.to_string(),
    };
    let agents = list_agents(
        installed,
        &vec![pending("new"), pending("zeta"), pending("new"), pending("b")],
    );
    let ids: Vec<&str> = agents.iter().map(|a| a.id.as_str()).collect();
    assert_eq!(ids, ["alpha", "zeta", "new", "b"]);
    assert_eq!(agents[0].version, "0.1.0");
    assert!(agents[0].setup_complete);
    assert_eq!(agents[1].model_display_name, "GPT");
    assert!(agents[1].is_bundled);
    assert!(!agents[2].setup_complete);
}

#[test]
fn updates_are_noted_with_their_agents() {
    let mut agents = list_agents(
        vec![
            installed_agent(&loaded("a"), &None, &vec![], &vec![]),
            installed_agent(&loaded("b"), &None, &vec![], &vec![]),
        ],
        &vec![],
    );
    let offer = |id: &str| MarketplaceOffer {
        id: id.to_string(),
        name: id.to_string(),
        description: String::new(),
        version: "3.0.0".to_string(),
        author: String::new(),
        entry_json: "{}".to_string(),
        rating_count: Some(4),
    };
    let view = |id: &str, newer: bool| marketplace_agent(&offer(id), &installed_version(&agents, id), newer);
    let offers = vec![view("a", true), view("b", false), view("c", true)];
    assert_eq!(offers[0].installed_version, "0.1.0");
    assert!(offers[0].update_available && !offers[1].update_available);
    assert!(!offers[2].is_installed && !offers[2].update_available);
    note_updates(&mut agents, &offers);
    assert!(agents[0].update_available);
    assert_eq!(agents[0].marketplace_version, "3.0.0");
    assert!(!agents[1].update_available);
}

#[test]
fn installing_and_updating_lead_on() {
    assert_eq!(admin_page(false, "/selu"), Verdict::Answer(redirect("/selu/chat")));
    assert_eq!(admin_only(false), Verdict::Answer(WebAnswer::Status(403)));
    assert_eq!(admin_only(true), Verdict::Proceed(()));
    assert_eq!(
        install_agent(true, "/selu", "x", &Installation::Done { setup_required: true }),
        redirect("/selu/agents/x/setup")
    );
    assert_eq!(
        install_agent(true, "", "x", &Installation::Done { setup_required: false }),
        redirect("/agents")
    );
    assert_eq!(
        install_agent(true, "", "x", &Installation::Failed("no disk".to_string())),
        redirect("/agents?error=Agent%20installation%20failed%3A%20no%20disk")
    );
    assert_eq!(
        install_agent(true, "", "x", &Installation::BadEntry),
        redirect("/agents?error=Invalid+agent+data.+Please+try+again.")
    );
    assert_eq!(
        update_agent(true, "", "x", &Installation::Done { setup_required: true }),
        redirect("/agents/x/setup?flow=update")
    );
    assert_eq!(
        update_agent(true, "", "x", &Installation::Done { setup_required: false }),
        redirect("/agents?success=updated")
    );
    assert_eq!(
        update_agent(true, "", "x", &Installation::NoDocker),
        redirect("/agents?error=Cannot+connect+to+Docker.+Is+Docker+running%3F")
    );
    assert_eq!(
        uninstall_agent(true, "", &Err("busy".to_string())),
        redirect("/agents?error=Failed%20to%20uninstall%20agent%3A%20busy")
    );
    assert_eq!(
        uninstall_agent(true, "", &Ok(())),
        redirect("/agents?success=Agent+uninstalled+successfully.")
    );
}

#[test]
fn switches_and_choices_are_read() {
    let toggle = |v: Option<&str>| {
        done(toggle_auto_update(true, &ToggleAutoUpdateForm {
            auto_update: v.map(str::to_string),
        }))
    };
    assert_eq!((toggle(Some("on")), toggle(Some("1")), toggle(Some("yes")), toggle(None)), (1, 1, 0, 0));
    assert_eq!(
        auto_update_saved("", false),
        redirect("/agents?error=Failed+to+update+setting.+Please+try+again.")
    );
    assert_eq!(default_temp_str(), "0.7");
    let form = |p: &str, m: &str| SetAgentImageModelForm {
        provider_id: p.to_string(),
        model_id: m.to_string(),
    };
    assert_eq!(set_agent_image_model_handler(true, &form(" ", "m")), Verdict::Proceed(None));
    assert_eq!(
        set_agent_image_model_handler(true, &form(" p", "m")),
        Verdict::Proceed(Some((" p".to_string(), "m".to_string())))
    );
    assert_eq!(
        set_agent_image_model_handler(false, &form(" p", "m")),
        Verdict::Answer(WebAnswer::Status(403))
    );
    assert_eq!(install_agent(false, "", "x", &Installation::BadEntry), WebAnswer::Status(403));
    let default = |p: &str, m: &str| {
        done(set_default_image_model(true, &SetDefaultImageModelForm {
            provider_id: p.to_string(),
            model_id: m.to_string(),
        }))
    };
    assert_eq!(default(" p ", "m"), ("p".to_string(), "m".to_string()));
    assert_eq!(default("p", " "), (String::new(), String::new()));
}

#[test]
fn ratings_have_one_to_five_stars() {
    let rate = |installed: bool, rating: u8| rate_agent("", installed, &RateAgentForm { rating });
    assert_eq!(rate(false, 3), Verdict::Answer(redirect("/agents?error=not_installed")));
    assert_eq!(rate(true, 0), Verdict::Answer(redirect("/agents?error=rating_invalid")));
    assert_eq!(rate(true, 6), Verdict::Answer(redirect("/agents?error=rating_invalid")));
    assert_eq!(rate(true, 1), Verdict::Proceed(1));
    assert_eq!(rate(true, 5), Verdict::Proceed(5));
    assert_eq!(
        ratings_api_base_url("https://x.test/api/marketplace/agents/"),
        some("https://x.test/api")
    );
    assert_eq!(ratings_api_base_url("https://x.test/other"), None);
    assert_eq!(
        rating_address("", "a", true, "https://x.test/marketplace/agents"),
        Verdict::Proceed("https://x.test/ratings/agents/a".to_string())
    );
    assert_eq!(
        rating_address("", "a", false, "https://x.test/marketplace/agents"),
        Verdict::Answer(redirect("/agents?error=rating_submit_failed"))
    );
    assert_eq!(
        rating_address("", "a", true, "https://x.test"),
        Verdict::Answer(redirect("/agents?error=rating_unavailable"))
    );
    assert_eq!(
        rating_sent("", &RatingSent::Answered { success: true }),
        redirect("/agents?success=rating_saved")
    );
    assert_eq!(rating_sent("", &RatingSent::Lost), redirect("/agents?error=rating_save_failed"));
    assert_eq!(rating_sent("", &RatingSent::NoClient), redirect("/agents?error=rating_unavailable"));
}

// ── Setup ────────────────────────────────────────────────────────────────────

fn form(fields: &[(&str, &str)]) -> SetupSubmitForm {
    let mut values = TextMap::new();
    for (name, value) in fields {
        values.insert(name, value);
    }
    SetupSubmitForm { values }
}

fn step(id: &str, step_type: StepType) -> InstallStep {
    InstallStep {
        id: id.to_string(),
        step_type,
        label: format!("Label {id}"),
        description: String::new(),
        default: None,
        validation: some("required"),
        store_as: Some(StoreTarget {
            scope: "system_credential".to_string(),
            capability_id: "mail".to_string(),
            credential_name: id.to_string(),
        }),
        request: Some(TestRequest {
            method: "get".to_string(),
            url: "http://{{host}}/ping?k={{key}}".to_string(),
            expect_status: 200,
        }),
    }
}

#[test]
fn steps_are_shown_and_their_values_taken() {
    let mut steps = vec![step("host", StepType::Input), step("check", StepType::Test), step("key", StepType::Input)];
    steps[2].store_as = None;
    let views = setup_steps(&steps);
    assert_eq!(views[0].step_type, "input");
    assert_eq!(views[1].step_type, "test");
    assert_eq!(views[1].validation, "required");
    assert_eq!(views[0].default_value, "");
    let taken = step_credentials(&steps, &form(&[("step_host", " example.test "), ("step_check", "x"), ("step_key", "y")]));
    assert_eq!(taken.len(), 1);
    assert_eq!(taken[0].value, "example.test");
    assert_eq!(taken[0].credential_name, "host");
    assert!(taken[0].is_system);
}

#[test]
fn tools_are_listed_with_their_keys() {
    let caps = vec![
        SetupCapability {
            id: "web-search".to_string(),
            tools: vec![SetupTool {
                name: "find-all".to_string(),
                display_name: "Find all".to_string(),
                description: "Finds".to_string(),
                recommended: "ask".to_string(),
            }],
            discovery_failed: true,
        },
        SetupCapability {
            id: "mail".to_string(),
            tools: vec![],
            discovery_failed: true,
        },
    ];
    let agent = SetupAgent { name: "Search".to_string(), steps: vec![step("host", StepType::Input)], capabilities: caps };
    let flow = SetupFlowQuery { flow: some("update") };
    let wizard = |is_admin: bool, id: &str, agent: Option<&SetupAgent>| setup_wizard(is_admin, "/s", id, &flow, agent, &vec![]);
    let page = done(wizard(true, "default", Some(&agent)));
    assert!(page.is_update_flow && page.providers.is_empty());
    assert_eq!((page.agent_name.as_str(), page.steps[0].id.as_str()), ("Search", "host"));
    assert_eq!(page.discovery_warning, some("web-search, mail"));
    assert_eq!(wizard(true, "default", None).answer(), Some(WebAnswer::Status(404)));
    let views = page.tool_policies;
    assert_eq!(views.len(), 6);
    assert_eq!(views[0].key, "web_search_find_all");
    assert_eq!(views[1].key, "__builtin___delegate_to_agent");
    assert_eq!(views[1].recommended, "ask");
    assert_eq!(views[5].tool_name, "memory_list");
    assert_eq!(done(wizard(true, "mail", Some(&agent))).tool_policies.len(), 5);
    assert_eq!(wizard(false, "mail", Some(&agent)).answer(), Some(redirect("/s/chat")));
    assert!(show_delegate_permission("default") && !show_delegate_permission("mail"));
    assert_eq!(discovery_warning(&agent.capabilities), some("web-search, mail"));
    assert_eq!(discovery_warning(&vec![]), None);
    assert_eq!(plain_tool_name("find_all_now"), "find all now");
}

#[test]
fn chosen_policies_are_taken_from_the_form() {
    let chosen = chosen_policies(&form(&[
        ("policy_cap_a_b", "a"),
        ("policy_tool_a_b", "b"),
        ("policy_val_a_b", "block"),
        ("policy_cap_c", "c"),
        ("policy_val_c", "allow"),
        ("policy_cap_d", "d"),
        ("policy_tool_d", "d"),
        ("policy_val_d", "sometimes"),
    ]));
    assert_eq!(chosen.len(), 1);
    assert_eq!((chosen[0].capability_id.as_str(), chosen[0].tool_name.as_str()), ("a", "b"));
    assert!(chosen[0].policy == ToolPolicy::Block);
}

#[test]
fn a_submitted_setup_leads_on() {
    let query = |flow: Option<&str>| SetupFlowQuery {
        flow: flow.map(str::to_string),
    };
    assert!(is_update_flow(&query(Some("update"))) && !is_update_flow(&query(None)));
    let end = |flow: Option<&str>, outcome: SetupOutcome| setup_submit(true, "/s", "x", &query(flow), &outcome);
    assert_eq!(end(Some("update"), SetupOutcome::Complete), redirect("/s/agents?success=updated"));
    assert_eq!(end(None, SetupOutcome::Complete), redirect("/s/agents?success=setup_complete"));
    assert_eq!(
        end(None, SetupOutcome::NotLoaded("gone".to_string())),
        redirect("/s/agents?error=Failed%20to%20load%20agent%3A%20gone")
    );
    assert_eq!(
        end(None, SetupOutcome::NotCompleted("e".to_string())),
        redirect("/s/agents?error=Failed%20to%20complete%20setup%3A%20e")
    );
    assert_eq!(end(None, SetupOutcome::EncryptFailed), redirect("/s/agents/x/setup?error=encrypt_failed"));
    assert_eq!(end(None, SetupOutcome::StoreFailed), redirect("/s/agents/x/setup?error=store_cred_failed"));
    assert_eq!(end(None, SetupOutcome::PoliciesFailed), redirect("/s/agents/x/setup?error=save_perms_failed"));
}

const BAD: &str = r#"<span class="inline-flex items-center px-2 py-0.5 rounded-full text-xs font-medium bg-red-500/10 text-red-400 border border-red-500/20">"#;

#[test]
fn a_setup_is_tested_with_the_values_of_the_form() {
    let fields = form(&[("step_host", "example.test"), ("key", "{{host}}")]);
    assert_eq!(
        fill_address("http://{{host}}/ping?k={{key}}", &fields),
        "http://example.test/ping?k={{host}}"
    );
    let mut steps = vec![step("ping", StepType::Test)];
    let Verdict::Proceed(call) = setup_test(true, &steps, "ping", &fields) else {
        panic!("the step can be tested");
    };
    assert!(call.method == TestMethod::Get);
    assert_eq!(call.expect_status, 200);
    assert_eq!(
        setup_test(true, &steps, "other", &fields).answer(),
        Some(WebAnswer::Html(format!("{BAD}Step not found</span>")))
    );
    assert_eq!(setup_test(false, &steps, "ping", &fields).answer(), Some(WebAnswer::Status(403)));
    steps[0].request = None;
    assert_eq!(
        setup_test(true, &steps, "ping", &fields).answer(),
        Some(WebAnswer::Html(format!("{BAD}No test request defined</span>")))
    );
    steps[0].request = Some(TestRequest {
        method: "put".to_string(),
        url: String::new(),
        expect_status: 200,
    });
    assert_eq!(
        setup_test(true, &steps, "ping", &fields).answer(),
        Some(WebAnswer::Html(format!("{BAD}Unsupported method: put</span>")))
    );
}

#[test]
fn what_came_of_a_test_is_shown() {
    let reply = |status: u16, body: String| TestReply::Answered { status, body };
    assert_eq!(
        test_finished(200, &reply(200, String::new())),
        WebAnswer::Html(r#"<span class="inline-flex items-center gap-1 px-2 py-0.5 rounded-full text-xs font-medium bg-emerald-500/10 text-emerald-400 border border-emerald-500/20"><span class="w-1 h-1 rounded-full bg-emerald-400"></span>Success (HTTP 200)</span>"#.to_string())
    );
    assert_eq!(
        test_finished(200, &reply(404, "x".repeat(201))),
        WebAnswer::Html(format!(
            r#"{BAD}Failed: HTTP 404</span><br><small class="text-xs text-slate-500">{}...</small>"#,
            "x".repeat(200)
        ))
    );
    assert_eq!(
        test_finished(200, &TestReply::Failed("refused".to_string())),
        WebAnswer::Html(format!("{BAD}Connection failed: refused</span>"))
    );
}

// ── The page of an agent ─────────────────────────────────────────────────────

fn policy(cap: &str, tool: &str, policy: ToolPolicy) -> PolicyRow {
    PolicyRow {
        capability_id: cap.to_string(),
        tool_name: tool.to_string(),
        policy,
    }
}

fn tool(name: &str, description: &str) -> ToolEntry {
    ToolEntry {
        name: name.to_string(),
        display_name: name.to_string(),
        description: description.to_string(),
        localized_description: description.to_string(),
    }
}

#[test]
fn own_policies_win_over_those_for_everybody() {
    let global = vec![policy("mail", "send", ToolPolicy::Ask), policy("mail", "read", ToolPolicy::Allow)];
    let own = vec![policy("mail", "send", ToolPolicy::Block)];
    let send = tool_view("mail", &tool("send", "Sends"), &global, &own);
    assert_eq!((send.policy.as_str(), send.global_default.as_str(), send.has_override), ("block", "ask", true));
    let read = tool_view("mail", &tool("read", "Reads"), &global, &own);
    assert_eq!((read.policy.as_str(), read.has_override), ("allow", false));
    let drop = tool_view("mail", &tool("drop", ""), &global, &own);
    assert_eq!((drop.policy.as_str(), drop.global_default.as_str()), ("not set", "not set"));
    let long = tool_view("mail", &tool("long", &"d".repeat(121)), &global, &own);
    assert_eq!(long.description, format!("{}...", "d".repeat(117)));
    let fits = tool_view("mail", &tool("fits", &"d".repeat(120)), &global, &own);
    assert_eq!(fits.description, "d".repeat(120));
}

#[test]
fn hosts_are_shown_by_name_as_they_were_set() {
    let set = |host: &str, policy: Access| HostOverride {
        host: host.to_string(),
        policy,
    };
    let shown = host_policies(
        &vec!["B.example".to_string(), "a.example".to_string()],
        &vec![
            set("c.example", Access::Deny),
            set("b.example", Access::Deny),
            set("c.example", Access::Allow),
        ],
    );
    let rows: Vec<(&str, &str, &str, bool)> = shown
        .iter()
        .map(|h| (h.host.as_str(), h.policy.as_str(), h.source.as_str(), h.removable))
        .collect();
    assert_eq!(
        rows,
        [
            ("a.example", "allow", "default", false),
            ("b.example", "deny", "default", false),
            ("c.example", "allow", "custom", true),
        ]
    );
}

fn capability() -> CapabilityEntry {
    CapabilityEntry {
        id: "mail".to_string(),
        network_mode: NetworkMode::Allowlist,
        access: Some(Access::Deny),
        hosts: vec!["a.example".to_string()],
        host_overrides: vec![],
        filesystem: FilesystemPolicy::Temp,
        max_memory_mb: 256,
        max_cpu: "50%".to_string(),
        pids_limit: 64,
        tools: vec![tool("send", "Sends"), tool("read", "Reads")],
        credentials: vec![
            CredentialEntry {
                name: "key".to_string(),
                scope: CredentialScope::System,
                description: String::new(),
                required: true,
                stored: Some(some("2026-01-01")),
            },
            CredentialEntry {
                name: "token".to_string(),
                scope: CredentialScope::User,
                description: String::new(),
                required: false,
                stored: None,
            },
        ],
    }
}

#[test]
fn a_capability_is_shown() {
    let view = capability_view(&capability(), &vec![], &vec![]);
    assert_eq!(view.effective_network_mode, "allowlist");
    assert_eq!(view.network_access_policy, "deny");
    assert_eq!(view.filesystem, "temp");
    assert_eq!(view.max_cpu_fraction, "50%");
    assert_eq!(view.tools.len(), 2);
    assert_eq!(view.credentials[0].scope, "system");
    assert!(view.credentials[0].is_set && !view.credentials[1].is_set);
    assert_eq!(view.credentials[0].set_at, some("2026-01-01"));
}

#[test]
fn every_tool_and_every_secret_is_counted_once() {
    let global = vec![policy("mail", "send", ToolPolicy::Allow), policy("__builtin__", "store_get", ToolPolicy::Ask)];
    let capabilities = vec![capability_view(&capability(), &global, &vec![])];
    let builtin = builtin_policies("default", &global, &vec![]);
    assert_eq!(builtin.len(), 11);
    assert_eq!(builtin_policies("mail", &global, &vec![]).len(), 10);
    assert_eq!(builtin[1].policy, "ask");
    let stats = overview(&capabilities, &builtin, 3, 4, 5);
    assert_eq!(stats.permissions_allow_count, 1);
    assert_eq!(stats.permissions_ask_count, 1);
    assert_eq!(stats.permissions_block_count, 11);
    assert_eq!((stats.secrets_set_count, stats.secrets_missing_count), (1, 1));
    assert_eq!((stats.storage_count, stats.memory_count, stats.network_request_count), (3, 4, 5));
    assert_eq!(network_request_count(&vec![1, 2, 3]), 6);
}

fn request(created_at: &str, port: i32) -> EgressEntryView {
    EgressEntryView {
        capability_id: "mail".to_string(),
        method: "GET".to_string(),
        host: "a.example".to_string(),
        port,
        allowed: true,
        created_at: created_at.to_string(),
    }
}

#[test]
fn the_latest_requests_are_shown_first() {
    let entries = (0..120).map(|i| request(&format!("2026-01-{:02}", i % 3), i)).collect();
    let shown = egress_shown(entries);
    assert_eq!(shown.len(), 100);
    assert_eq!((shown[0].created_at.as_str(), shown[0].port), ("2026-01-02", 2));
    assert_eq!((shown[40].created_at.as_str(), shown[40].port), ("2026-01-01", 1));
    assert_eq!((shown[99].created_at.as_str(), shown[99].port), ("2026-01-00", 57));
}

fn preset(id: &str) -> AutomationPreset {
    AutomationPreset {
        id: id.to_string(),
        label: format!("Label {id}"),
        cron_expression: "0 7 * * *".to_string(),
        cron_description: "daily".to_string(),
        prompt: "Do it".to_string(),
    }
}

fn need(required: bool, present: bool) -> CredentialNeed {
    CredentialNeed { required, present }
}

fn runtime() -> EffectiveRuntime {
    EffectiveRuntime {
        autonomy_level: "medium".to_string(),
        use_advanced_limits: false,
        max_tool_loop_iterations: 32,
        max_delegation_hops: 3,
        agent_default: AutonomyLimits {
            level: "high".to_string(),
            max_tool_loop_iterations: 64,
            max_delegation_hops: 5,
        },
    }
}

fn stored_value(id: &str, user: &str) -> StorageEntryView {
    StorageEntryView {
        id: id.to_string(),
        user_id: user.to_string(),
        key: "k".to_string(),
        value: "v".to_string(),
        updated_at: String::new(),
    }
}

fn memory(id: &str, user: &str) -> MemoryEntryView {
    MemoryEntryView {
        id: id.to_string(),
        user_id: user.to_string(),
        memory: "m".to_string(),
        tags: String::new(),
        source: String::new(),
        updated_at: String::new(),
    }
}

#[test]
fn entries_are_deleted_by_those_who_see_them() {
    assert_eq!((entries_restricted_to(true, "ann"), entries_restricted_to(false, "ann")), (None, some("ann")));
    let form = DeleteStorageForm { entry_id: "s1".to_string() };
    let removal = agent_storage_delete(false, "ann", "mail", &form);
    assert_eq!((removal.id.as_str(), removal.agent_id.as_str(), removal.only_of), ("s1", "mail", some("ann")));
    let form = DeleteMemoryForm { memory_id: "m1".to_string() };
    let removal = agent_memory_delete(true, "ann", "mail", &form);
    assert_eq!((removal.id.as_str(), removal.only_of), ("m1", None));
    assert_eq!((entry_deleted(true), entry_deleted(false)), (WebAnswer::Status(200), WebAnswer::Status(500)));
}

#[test]
fn the_update_of_an_agent_is_asked_for_first() {
    let form = || InstallForm { entry_json: "{}".to_string() };
    let entry = ChosenEntry { id: "mail".to_string(), name: "Mail".to_string(), version: "2.0".to_string() };
    let page = done(update_wizard(true, "", form(), Some(entry), None));
    assert_eq!((page.target_version.as_str(), page.installed_version.as_str(), page.entry_json.as_str()), ("2.0", "", "{}"));
    assert_eq!(
        update_wizard(true, "", form(), None, None).answer(),
        Some(redirect("/agents?error=Invalid+agent+data.+Please+try+again."))
    );
    assert_eq!(update_wizard(false, "", form(), None, None).answer(), Some(WebAnswer::Status(403)));
}

#[test]
fn the_page_of_an_agent_shows_what_is_known() {
    let facts = || AgentFacts {
        agent_name: "Default".to_string(),
        presets: vec![preset("morning")],
        pipe_count: 1,
        needs: vec![need(true, true)],
        active_counts: vec![1],
        runtime: runtime(),
        runtime_overrides: 1,
        capabilities: vec![capability()],
        global: vec![],
        own: vec![],
        request_counts: vec![2, 3],
        egress: vec![request("2026-01-01", 1)],
        storage: (0..600).map(|i| stored_value(&format!("s{i}"), if i % 3 == 0 { "ann" } else { "bob" })).collect(),
        memory: vec![memory("m1", "bob"), memory("m2", "ann")],
        insights: vec![InsightView {
            id: "i".to_string(),
            lesson_text: "be brief".to_string(),
            insight_type: "style".to_string(),
            status: "active".to_string(),
            confidence_pct: 80,
            supporting_signals: 3,
            promotion_threshold: 5,
            created_at: String::new(),
        }],
        signal_count: 4,
    };
    let query = || AgentDetailQuery { error: None, success: some("saved") };
    let page = done(render_agent_detail_page(false, "ann", "default", query(), "overview", Some(facts())));
    assert!(page.storage_entries.iter().all(|e| e.user_id == "ann"));
    assert_eq!((page.storage_entries.len(), page.overview.storage_count), (200, 200));
    assert_eq!((page.memory_entries[0].id.as_str(), page.memory_entries.len(), page.overview.memory_count), ("m2", 1, 1));
    assert_eq!((page.improvement_insights.len(), page.improvement_signal_count), (1, 4));
    let page = done(render_agent_detail_page(true, "ann", "default", query(), "overview", Some(facts())));
    assert_eq!((page.storage_entries.len(), page.overview.storage_count), (500, 600));
    assert_eq!((page.memory_entries.len(), page.overview.memory_count), (2, 2));
    assert_eq!((page.is_admin, page.success), (true, some("saved")));
    assert_eq!(page.active_tab, "overview");
    assert_eq!(page.overview.network_request_count, 5);
    assert_eq!(page.runtime_settings.agent_default_autonomy_level, "high");
    assert!(page.runtime_settings.has_user_override);
    assert!(page.automation.enabled && page.automation.ready);
    assert_eq!(page.egress_entries.len(), 1);
    assert_eq!(
        render_agent_detail_page(true, "ann", "gone", query(), "overview", None).answer(),
        Some(WebAnswer::Status(404))
    );
}

// ── Settings ─────────────────────────────────────────────────────────────────

#[test]
fn automation_is_ready_when_nothing_is_missing() {
    let view = |pipes: i64, needs: Vec<CredentialNeed>, counts: Vec<i64>| {
        automation_view(&vec![preset("a"), preset("b")], pipes, &needs, &counts)
    };
    let ready = view(1, vec![need(true, true), need(false, false)], vec![1, 0]);
    assert!(ready.supported && ready.ready && !ready.enabled);
    assert_eq!((ready.active_schedule_count, ready.total_schedule_count), (1, 2));
    assert!(view(1, vec![], vec![1, 2]).enabled);
    let no_pipe = view(0, vec![], vec![0, 0]);
    assert!(no_pipe.missing_default_pipe && !no_pipe.ready);
    let no_key = view(1, vec![need(true, false)], vec![0, 0]);
    assert!(no_key.missing_required_credentials && !no_key.ready);
    let none = automation_view(&vec![], 0, &vec![need(true, false)], &vec![]);
    assert!(!none.supported && !none.missing_default_pipe && !none.missing_required_credentials);
    assert_eq!(automation_schedule_name("mail", "morning"), "auto.mail.morning");
    assert_eq!(
        schedules_to_disable("mail", &vec![preset("a"), preset("b")]),
        ["auto.mail.a", "auto.mail.b"]
    );
}

#[test]
fn automation_is_switched() {
    let toggle = |presets: Option<usize>, action: &str| {
        agent_automation_toggle("/s", "x", presets, &ToggleAutomationForm { action: action.to_string() })
    };
    assert_eq!(toggle(None, "enable"), Verdict::Answer(WebAnswer::Status(404)));
    assert_eq!(
        toggle(Some(0), "enable"),
        Verdict::Answer(redirect("/s/agents/x?error=automation_not_supported"))
    );
    assert_eq!(toggle(Some(1), " Enable "), Verdict::Proceed(Automation::Enable));
    assert_eq!(toggle(Some(1), "DISABLE"), Verdict::Proceed(Automation::Disable));
    assert_eq!(
        toggle(Some(1), "maybe"),
        Verdict::Answer(redirect("/s/agents/x?error=automation_invalid_action"))
    );
    let pipes = vec!["p".to_string()];
    assert_eq!(
        vet_enable("", "x", vec![], &vec![]),
        Verdict::Answer(redirect("/agents/x?error=automation_missing_pipe"))
    );
    assert_eq!(
        vet_enable("", "x", pipes.clone(), &vec![need(true, false)]),
        Verdict::Answer(redirect("/agents/x?error=automation_missing_credentials"))
    );
    assert_eq!(vet_enable("", "x", pipes.clone(), &vec![need(true, true)]), Verdict::Proceed(pipes.clone()));
}

#[test]
fn no_other_character_becomes_a_letter_of_the_two_actions() {
    for c in '\u{80}'..=char::MAX {
        let lower: String = c.to_lowercase().collect();
        assert!(!lower.chars().all(|l| "enabledis".contains(l)), "{c}");
    }
}

#[test]
fn automation_is_on_when_every_preset_is_written() {
    let mut stage = EnableStage::Writing(0);
    stage = enable_step(stage, 2, PresetEvent::Written);
    assert!(stage == EnableStage::Writing(1));
    assert!(enable_answer("", "x", stage).is_none());
    stage = enable_step(stage, 2, PresetEvent::Written);
    assert_eq!(
        enable_answer("", "x", stage),
        Some(redirect("/agents/x?success=automation_enabled"))
    );
    assert_eq!(
        enable_answer("", "x", enable_step(EnableStage::Writing(1), 2, PresetEvent::InvalidCron)),
        Some(redirect("/agents/x?error=automation_invalid_cron"))
    );
    assert_eq!(
        enable_answer("", "x", enable_step(EnableStage::Writing(0), 2, PresetEvent::SaveFailed)),
        Some(redirect("/agents/x?error=automation_save_failed"))
    );
    assert!(matches!(
        preset_write("x", &preset("a"), &None, "2026-01-01 07:00:00"),
        ScheduleWrite::Create { name, .. } if name == "auto.x.a"
    ));
    assert!(matches!(
        preset_write("x", &preset("a"), &some("id-1"), "2026-01-01 07:00:00"),
        ScheduleWrite::Update { id, next_run, .. } if id == "id-1" && next_run == "2026-01-01 07:00:00"
    ));
}

#[test]
fn limits_are_numbers_that_are_not_negative() {
    let level = || {
        Some(AutonomyLimits {
            level: "low".to_string(),
            max_tool_loop_iterations: 8,
            max_delegation_hops: 1,
        })
    };
    let set = |advanced: bool, iterations: Option<&str>, hops: Option<&str>| {
        set_runtime_settings_handler(
            "",
            "x",
            &SetRuntimeSettingsForm {
                autonomy_level: "low".to_string(),
                use_advanced_limits: if advanced { some("on") } else { None },
                iterations: iterations.map(str::to_string),
                delegation_hops: hops.map(str::to_string),
            },
            &level(),
        )
    };
    let Verdict::Proceed(s) = set(false, Some("x"), None) else {
        panic!("the limits of the level hold");
    };
    assert_eq!((s.iterations, s.delegation_hops, s.use_advanced_limits), (8, 1, false));
    for (typed, value) in [(" 12 ", 12), ("+7", 7), ("-0", 0), ("9223372036854775807", i64::MAX)] {
        let Verdict::Proceed(s) = set(true, Some(typed), Some("0")) else {
            panic!("{typed} is a limit");
        };
        assert_eq!(s.iterations, value);
        assert_eq!(typed.trim().parse::<i64>(), Ok(value));
    }
    for typed in ["", "-1", "+", "1.5", "9223372036854775808", "1 2"] {
        assert_eq!(
            set(true, Some(typed), Some("0")).answer(),
            Some(redirect("/agents/x?error=runtime_settings_invalid"))
        );
        assert!(!matches!(typed.trim().parse::<i64>(), Ok(v) if v >= 0));
    }
    assert!(set(true, None, Some("0")).answer().is_some());
    assert_eq!(
        runtime_settings_saved("", "x", true),
        redirect("/agents/x?success=runtime_settings_saved")
    );
}

#[test]
fn forms_lead_back_behind_the_prefix() {
    assert_eq!(safe_return_path(Some("/s/agents/x"), "/s", "/home"), "/s/agents/x");
    assert_eq!(safe_return_path(Some("https://evil.test"), "/s", "/home"), "/s/home");
    assert_eq!(safe_return_path(None, "/s", "/home"), "/s/home");
}

#[test]
fn secrets_are_set_and_deleted_by_administrators() {
    let form = |scope: &str, value: &str| SetAgentCredentialForm {
        capability_id: "mail".to_string(),
        credential_name: "key".to_string(),
        scope: scope.to_string(),
        value: value.to_string(),
        return_to: None,
    };
    let set = |admin: bool, scope: &str, value: &str| agent_credential_set(admin, "", "x", &form(scope, value));
    assert_eq!(set(false, "user", "v"), Verdict::Answer(WebAnswer::Status(403)));
    assert_eq!(set(true, "user", ""), Verdict::Answer(redirect("/agents/x/secrets?error=secret_empty")));
    assert_eq!(set(true, "all", "v"), Verdict::Answer(redirect("/agents/x/secrets?error=invalid_scope")));
    assert_eq!(set(true, "user", "v"), Verdict::Proceed(SecretScope::User));
    assert_eq!(set(true, "system", "v"), Verdict::Proceed(SecretScope::System));
    let query = CredentialDeleteQuery { return_to: some("/s/agents/x/overview") };
    assert_eq!(agent_credential_delete(true, "/s", "x", "system", &query), Verdict::Proceed(SecretScope::System));
    assert_eq!(
        agent_credential_delete(true, "/s", "x", "?", &query),
        Verdict::Answer(redirect("/s/agents/x/overview?error=invalid_scope"))
    );
    assert_eq!(credential_saved("", "x", &None, false), redirect("/agents/x/secrets?error=secret_save_failed"));
    assert_eq!(credential_removed("", "x", &None), redirect("/agents/x/secrets?success=secret_removed"));
}

#[test]
fn permissions_are_set() {
    let form = |policy: &str, scope: &str| SetToolPolicyForm {
        capability_id: "mail".to_string(),
        tool_name: "send".to_string(),
        policy: policy.to_string(),
        scope: scope.to_string(),
    };
    assert_eq!(set_tool_policy_handler(true, &form("ask", "global")), Verdict::Proceed((ToolPolicy::Ask, true)));
    assert_eq!(set_tool_policy_handler(false, &form("ask", "global")), Verdict::Proceed((ToolPolicy::Ask, false)));
    assert_eq!(set_tool_policy_handler(true, &form("x", "user")), Verdict::Answer(WebAnswer::Status(400)));
    assert_eq!(default_scope_user(), "user");
    let access = |word: &str| {
        set_network_access_handler(&SetNetworkAccessForm {
            capability_id: "mail".to_string(),
            access: word.to_string(),
        })
    };
    assert_eq!(access("deny"), Verdict::Proceed(Access::Deny));
    assert_eq!(access("ask"), Verdict::Answer(WebAnswer::Status(400)));
    let host = SetNetworkHostPolicyForm {
        capability_id: "mail".to_string(),
        host: "A.example".to_string(),
        policy: "allow".to_string(),
    };
    assert_eq!(
        set_network_host_policy_handler(&host, &some("a.example")),
        Verdict::Proceed(("a.example".to_string(), Access::Allow))
    );
    assert_eq!(set_network_host_policy_handler(&host, &None), Verdict::Answer(WebAnswer::Status(400)));
    let gone = |host: &str| DeleteNetworkHostForm { capability_id: "web".to_string(), host: host.to_string() };
    assert_eq!(delete_network_host_handler(gone("a"), None), Verdict::Answer(WebAnswer::Status(400)));
    assert_eq!(
        delete_network_host_handler(gone("A"), some("a")),
        Verdict::Proceed(("web".to_string(), "a".to_string()))
    );
    assert_eq!(network_host_stored("/s", "x", true), WebAnswer::Lead("/s/agents/x/network".to_string()));
    assert_eq!(network_host_stored("/s", "x", false), WebAnswer::Status(500));
    assert_eq!((stored(true), stored(false)), (WebAnswer::Status(200), WebAnswer::Status(500)));
    let reset = ResetToolPolicyForm {
        capability_id: "mail".to_string(),
        tool_name: "send".to_string(),
        return_to: None,
    };
    assert_eq!(
        reset_tool_policy_handler("/s", "x", &reset, true),
        WebAnswer::Lead("/s/agents/x/permissions".to_string())
    );
}

#[test]
fn lessons_are_paused_and_removed() {
    let form = InsightActionForm { insight_id: "i".to_string() };
    assert_eq!(improvement_pause_handler(&form), ("i".to_string(), "paused"));
    assert_eq!(improvement_reject_handler(&form), ("i".to_string(), "rejected"));
    assert_eq!(improvement_activate_handler(&form), ("i".to_string(), "active"));
    assert_eq!(insight_status(InsightAction::Pause), "paused");
    assert_eq!(insight_status(InsightAction::Reject), "rejected");
    assert_eq!(insight_status(InsightAction::Activate), "active");
    assert_eq!(insight_changed(InsightAction::Pause, false), WebAnswer::Status(404));
    assert_eq!(
        insight_changed(InsightAction::Reject, true),
        WebAnswer::Html(r#"<span class="text-xs text-red-400" data-i18n="improvement.status.rejected">Removed</span>"#.to_string())
    );
    assert_eq!(
        improvement_reset_handler("x", false),
        redirect("/agents/x/improvement?error=reset_failed")
    );
}

// ── Updates ──────────────────────────────────────────────────────────────────

#[test]
fn an_agent_is_updated_once_at_a_time() {
    let mut jobs = UpdateJobs::new();
    let entry = |version: &str| ChosenEntry { id: "mail".to_string(), name: "Mail".to_string(), version: version.to_string() };
    let start = |jobs: &mut UpdateJobs, owner: &str, version: &str, id: &str| {
        match jobs.start_agent_update(true, owner, Some(&entry(version)), id) {
            Verdict::Proceed(UpdateStart::Started { response, is_new }) => (response.job_id, is_new),
            _ => panic!("the entry can be read"),
        }
    };
    assert_eq!(start(&mut jobs, "ann", "2.0", "j1"), ("j1".to_string(), true));
    assert_eq!(start(&mut jobs, "ann", "2.0", "j2"), ("j1".to_string(), false));
    assert_eq!(start(&mut jobs, "bob", "2.0", "j3"), ("j3".to_string(), true));
    assert_eq!(
        jobs.start_agent_update(false, "ann", Some(&entry("2.0")), "j5").answer(),
        Some(WebAnswer::Status(403))
    );
    assert!(matches!(
        jobs.start_agent_update(true, "ann", None, "j5"),
        Verdict::Proceed(UpdateStart::BadEntry { status: 400, error_key: "agents.update.error.invalid_payload" })
    ));
    jobs.set_update_job_progress("j1", 10, "agents.update.phase.preparing");
    assert!(jobs.note_download("j1", 55));
    assert!(jobs.note_download("j1", 40));
    let Verdict::Proceed(s) = jobs.agent_update_status(true, "ann", "j1") else {
        panic!("the update is there");
    };
    assert_eq!((s.progress, s.message_key.as_str()), (55, "agents.update.phase.downloading"));
    assert!(jobs.note_download("j1", 99));
    jobs.finish("j1", UpdateEnd::Updated { setup_required: true }, "/s");
    assert!(!jobs.note_download("j1", 95));
    let Verdict::Proceed(s) = jobs.agent_update_status(true, "ann", "j1") else {
        panic!("the update is there");
    };
    assert!(s.done && s.success && s.progress == 100);
    assert_eq!(s.redirect_to, some("/s/agents/mail/setup?flow=update"));
    assert_eq!(s.message_key, "agents.update.success.setup_required");
    assert_eq!(start(&mut jobs, "ann", "3.0", "j4"), ("j4".to_string(), true));
    jobs.finish("j4", UpdateEnd::NoDocker, "");
    let Verdict::Proceed(s) = jobs.agent_update_status(true, "ann", "j4") else {
        panic!("the update is there");
    };
    assert_eq!(s.error_key, some("agents.update.error.docker"));
    assert_eq!(
        jobs.agent_update_status(true, "bob", "j1").answer(),
        Some(WebAnswer::Status(403))
    );
    assert_eq!(
        jobs.agent_update_status(false, "ann", "j1").answer(),
        Some(WebAnswer::Status(403))
    );
    assert_eq!(
        jobs.agent_update_status(true, "ann", "none").answer(),
        Some(WebAnswer::Status(404))
    );
}
