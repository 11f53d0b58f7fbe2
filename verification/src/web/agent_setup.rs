//! Setting up an agent: its steps, its permissions and its tests.
use vstd::prelude::*;
use vstd::string::*;
use crate::text;
use crate::text::{
    byte_len, cuts_at, decimal, first_bytes, joined, opt_text, replaced, replaced_text, texts,
    trimmed,
};
use crate::web::agents;
use crate::web::agents::{ProviderOption, DEFAULT_AGENT_ID};
use crate::web::people;
use crate::web::people::capitals;
use crate::web::permissions::{tool_policy_of, ToolPolicy};
use crate::web::providers::{or_empty, ProviderRow};
use crate::web::response;
use crate::web::response::{Sent, Verdict, WebAnswer};
use crate::web::text_map::TextMap;
use crate::web::url;
use crate::web::url::percent_encoded;

verus! {

#[derive(Debug, Clone)]
pub struct SetupStepView {
    pub id: String,
    pub step_type: String,
    pub label: String,
    pub description: String,
    pub default_value: String,
    pub validation: String,
}

/// A tool that needs a permission when its agent is set up.
#[derive(Debug, Clone)]
pub struct ToolPolicyView {
    /// What the names of its form fields end in.
    pub key: String,
    pub capability_id: String,
    pub tool_name: String,
    pub display_name: String,
    pub description: String,
    /// What the author of the agent recommends: "allow", "ask", or "block".
    pub recommended: String,
}

#[derive(Debug)]
pub struct SetupSubmitForm {
    /// The fields of the form by their names; that of a step is named by `step_`
    /// and its ID.
    pub values: TextMap,
}

#[derive(Debug)]
pub struct SetupFlowQuery {
    pub flow: Option<String>,
}

// ── The steps ────────────────────────────────────────────────────────────────

/// What a step of a setup asks for.
#[derive(Debug, Clone, Copy, PartialEq, Eq, Structural)]
pub enum StepType {
    Input,
    Test,
}

/// What the value of a step is stored as.
#[derive(Debug)]
pub struct StoreTarget {
    pub scope: String,
    pub capability_id: String,
    pub credential_name: String,
}

/// The request that a step tests the setup with.
#[derive(Debug)]
pub struct TestRequest {
    pub method: String,
    pub url: String,
    pub expect_status: u16,
}

/// A step of a setup, with its texts in the user's language.
#[derive(Debug)]
pub struct InstallStep {
    pub id: String,
    pub step_type: StepType,
    pub label: String,
    pub description: String,
    pub default: Option<String>,
    pub validation: Option<String>,
    pub store_as: Option<StoreTarget>,
    pub request: Option<TestRequest>,
}

/// Whether `v` shows a step.
pub open spec fn shows_step(v: SetupStepView, step: InstallStep) -> bool {
    &&& v.id@ == step.id@
    &&& v.step_type@ == match step.step_type {
        StepType::Input => "input"@,
        StepType::Test => "test"@,
    }
    &&& v.label@ == step.label@
    &&& v.description@ == step.description@
    &&& v.default_value@ == or_empty(opt_text(step.default))
    &&& v.validation@ == or_empty(opt_text(step.validation))
}

/// A text, or nothing.
fn text_or_empty(o: &Option<String>) -> (r: String)
    ensures
        r@ == or_empty(opt_text(*o)),
{
    match o {
        Some(s) => s.clone(),
        None => String::new(),
    }
}

/// The steps of a setup as shown.
pub fn setup_steps(steps: &Vec<InstallStep>) -> (r: Vec<SetupStepView>)
    ensures
        r@.len() == steps@.len(),
        forall|i: int| 0 <= i < r@.len() ==> shows_step(#[trigger] r@[i], steps@[i]),
{
    let mut out: Vec<SetupStepView> = Vec::new();
    let mut i: usize = 0;
    while i < steps.len()
        invariant
            i <= steps@.len(),
            out@.len() == i,
            forall|k: int| 0 <= k < i ==> shows_step(#[trigger] out@[k], steps@[k]),
        decreases steps@.len() - i,
    {
        let s = &steps[i];
        out.push(
            SetupStepView {
                id: s.id.clone(),
                step_type: match s.step_type {
                    StepType::Input => "input".to_string(),
                    StepType::Test => "test".to_string(),
                },
                label: s.label.clone(),
                description: s.description.clone(),
                default_value: text_or_empty(&s.default),
                validation: text_or_empty(&s.validation),
            },
        );
        i += 1;
    }
    out
}

// ── The permissions ──────────────────────────────────────────────────────────

/// A tool, with its texts in the user's language.
#[derive(Debug)]
pub struct SetupTool {
    pub name: String,
    pub display_name: String,
    pub description: String,
    pub recommended: String,
}

/// A capability with its tools, and whether the search for them failed.
#[derive(Debug)]
pub struct SetupCapability {
    pub id: String,
    pub tools: Vec<SetupTool>,
    pub discovery_failed: bool,
}

/// A tool that needs a permission, as a value.
pub struct ToolPolicyText {
    pub key: Seq<char>,
    pub capability_id: Seq<char>,
    pub tool_name: Seq<char>,
    pub display_name: Seq<char>,
    pub description: Seq<char>,
    pub recommended: Seq<char>,
}

impl ToolPolicyView {
    pub open spec fn view(&self) -> ToolPolicyText {
        ToolPolicyText {
            key: self.key@,
            capability_id: self.capability_id@,
            tool_name: self.tool_name@,
            display_name: self.display_name@,
            description: self.description@,
            recommended: self.recommended@,
        }
    }
}

/// The tools that a list holds, as values.
pub open spec fn policy_texts(v: Seq<ToolPolicyView>) -> Seq<ToolPolicyText> {
    v.map_values(|p: ToolPolicyView| p@)
}

/// How a tool is called where it has no name for people.
pub fn plain_tool_name(name: &str) -> (r: String)
    ensures
        r@ == replaced(name@, '_', " "@),
{
    text::replace(name, '_', " ")
}

/// What the names of the form fields of a tool end in.
pub open spec fn tool_key(capability_id: Seq<char>, tool: Seq<char>) -> Seq<char> {
    replaced(capability_id + "_"@ + tool, '-', "_"@)
}

/// A tool of a capability, as shown.
pub open spec fn tool_policy(capability_id: Seq<char>, tool: SetupTool) -> ToolPolicyText {
    ToolPolicyText {
        key: tool_key(capability_id, tool.name@),
        capability_id,
        tool_name: tool.name@,
        display_name: tool.display_name@,
        description: tool.description@,
        recommended: tool.recommended@,
    }
}

/// The tools of a capability, as shown.
pub open spec fn capability_policies(c: SetupCapability) -> Seq<ToolPolicyText> {
    c.tools@.map_values(|t: SetupTool| tool_policy(c.id@, t))
}

/// A tool that every agent has, as shown.
pub open spec fn builtin(
    tool_name: Seq<char>,
    display_name: Seq<char>,
    description: Seq<char>,
    recommended: Seq<char>,
) -> ToolPolicyText {
    ToolPolicyText {
        key: "__builtin___"@ + tool_name,
        capability_id: "__builtin__"@,
        tool_name,
        display_name,
        description,
        recommended,
    }
}

/// The tool that hands tasks to other agents.
pub open spec fn delegation() -> ToolPolicyText {
    builtin(
        "delegate_to_agent"@,
        "Delegate to Agent"@,
        "Allows the agent to hand off tasks to other specialist agents."@,
        "ask"@,
    )
}

/// The tools that work on an agent's memory.
pub open spec fn memory_tools() -> Seq<ToolPolicyText> {
    seq![
        builtin(
            "memory_remember"@,
            "Memory Remember"@,
            "Allows the agent to save long-term memory notes for future conversations."@,
            "allow"@,
        ),
        builtin(
            "memory_forget"@,
            "Memory Forget"@,
            "Allows the agent to remove stored memory notes."@,
            "allow"@,
        ),
        builtin(
            "memory_search"@,
            "Memory Search"@,
            "Allows the agent to search saved memory using BM25 relevance."@,
            "allow"@,
        ),
        builtin(
            "memory_list"@,
            "Memory List"@,
            "Allows the agent to list saved memory notes."@,
            "allow"@,
        ),
    ]
}

/// The tools that need a permission: those of the capabilities, the handing of
/// tasks to other agents where the agent is the default one, and those that work
/// on memory.
pub open spec fn setup_policies(agent_id: Seq<char>, caps: Seq<SetupCapability>) -> Seq<
    ToolPolicyText,
> {
    caps.flat_map(|c: SetupCapability| capability_policies(c)) + (if agent_id == "default"@ {
        seq![delegation()]
    } else {
        Seq::empty()
    }) + memory_tools()
}

/// Whether an agent hands tasks to other agents.
pub fn show_delegate_permission(agent_id: &str) -> (r: bool)
    ensures
        r == (agent_id@ == "default"@),
{
    text::same(agent_id, DEFAULT_AGENT_ID)
}

/// A tool that every agent has, as shown.
fn builtin_view(
    tool_name: &str,
    display_name: &str,
    description: &str,
    recommended: &str,
) -> (r: ToolPolicyView)
    ensures
        r@ == builtin(tool_name@, display_name@, description@, recommended@),
{
    let mut key = "__builtin___".to_string();
    key.append(tool_name);
    ToolPolicyView {
        key,
        capability_id: "__builtin__".to_string(),
        tool_name: tool_name.to_string(),
        display_name: display_name.to_string(),
        description: description.to_string(),
        recommended: recommended.to_string(),
    }
}

/// Adds the tools of a capability to those that are shown.
fn add_tools(out: &mut Vec<ToolPolicyView>, cap: &SetupCapability)
    ensures
        policy_texts(final(out)@) == policy_texts(old(out)@) + capability_policies(*cap),
{
    let ghost start = policy_texts(out@);
    let ghost all = capability_policies(*cap);
    let mut i: usize = 0;
    proof {
        assert(start + all.take(0) =~= start);
    }
    while i < cap.tools.len()
        invariant
            i <= cap.tools@.len(),
            all == capability_policies(*cap),
            policy_texts(out@) == start + all.take(i as int),
        decreases cap.tools@.len() - i,
    {
        let ghost before = policy_texts(out@);
        let t = &cap.tools[i];
        let mut key = cap.id.clone();
        key.append("_");
        key.append(t.name.as_str());
        let v = ToolPolicyView {
            key: text::replace(key.as_str(), '-', "_"),
            capability_id: cap.id.clone(),
            tool_name: t.name.clone(),
            display_name: t.display_name.clone(),
            description: t.description.clone(),
            recommended: t.recommended.clone(),
        };
        let ghost e = v@;
        out.push(v);
        proof {
            assert(e == all[i as int]);
            assert(policy_texts(out@) =~= before.push(e));
            assert(start + all.take(i + 1) =~= (start + all.take(i as int)).push(e));
        }
        i += 1;
    }
    proof {
        assert(all.take(i as int) =~= all);
    }
}

/// An agent that is set up, with its name in the user's language.
#[derive(Debug)]
pub struct SetupAgent {
    pub name: String,
    pub steps: Vec<InstallStep>,
    pub capabilities: Vec<SetupCapability>,
}

/// The page that sets an agent up.
#[derive(Debug)]
pub struct AgentSetupPage {
    pub agent_id: String,
    pub agent_name: String,
    pub is_update_flow: bool,
    pub steps: Vec<SetupStepView>,
    pub tool_policies: Vec<ToolPolicyView>,
    pub discovery_warning: Option<String>,
    pub providers: Vec<ProviderOption>,
}

/// Whether a page sets an agent up.
pub open spec fn sets_up(
    page: AgentSetupPage,
    agent_id: Seq<char>,
    flow: SetupFlowQuery,
    agent: SetupAgent,
    providers: Seq<ProviderRow>,
) -> bool {
    &&& page.agent_id@ == agent_id
    &&& page.agent_name@ == agent.name@
    &&& page.is_update_flow == (opt_text(flow.flow) == Some("update"@))
    &&& page.steps@.len() == agent.steps@.len()
    &&& forall|i: int|
        0 <= i < agent.steps@.len() ==> shows_step(#[trigger] page.steps@[i], agent.steps@[i])
    &&& policy_texts(page.tool_policies@) == setup_policies(agent_id, agent.capabilities@)
    &&& opt_text(page.discovery_warning) == if failed_ids(agent.capabilities@).len() == 0 {
        None
    } else {
        Some(joined(failed_ids(agent.capabilities@), ", "@))
    }
    &&& agents::option_texts(page.providers@) == providers.filter_map(
        |row: ProviderRow| agents::option_of(row),
    )
}

/// The page that sets an agent up, for administrators; `agent` is the agent, where it could
/// be loaded.
pub fn setup_wizard(
    is_admin: bool,
    base_path: &str,
    agent_id: &str,
    flow: &SetupFlowQuery,
    agent: Option<&SetupAgent>,
    providers: &Vec<ProviderRow>,
) -> (r: Verdict<AgentSetupPage>)
    ensures
        if !is_admin {
            r.answers(Sent::Redirect(base_path@ + "/chat"@))
        } else {
            match agent {
                Some(a) => r matches Verdict::Proceed(page) && sets_up(
                    page,
                    agent_id@,
                    *flow,
                    *a,
                    providers@,
                ),
                None => r.answers(Sent::Status(404)),
            }
        },
{
    if !is_admin {
        return Verdict::Answer(response::redirect(base_path, "/chat"));
    }
    match agent {
        Some(a) => Verdict::Proceed(
            AgentSetupPage {
                agent_id: agent_id.to_string(),
                agent_name: a.name.clone(),
                is_update_flow: is_update_flow(flow),
                steps: setup_steps(&a.steps),
                tool_policies: wizard_tools(agent_id, &a.capabilities),
                discovery_warning: discovery_warning(&a.capabilities),
                providers: agents::load_provider_options(providers),
            },
        ),
        None => Verdict::Answer(WebAnswer::Status(response::NOT_FOUND)),
    }
}

/// The tools that need a permission when an agent is set up.
fn wizard_tools(agent_id: &str, caps: &Vec<SetupCapability>) -> (r: Vec<ToolPolicyView>)
    ensures
        policy_texts(r@) == setup_policies(agent_id@, caps@),
{
    let ghost f = |c: SetupCapability| capability_policies(c);
    let mut out: Vec<ToolPolicyView> = Vec::new();
    let mut i: usize = 0;
    proof {
        assert(policy_texts(out@) =~= caps@.take(0).flat_map(f));
    }
    while i < caps.len()
        invariant
            i <= caps@.len(),
            f == (|c: SetupCapability| capability_policies(c)),
            policy_texts(out@) == caps@.take(i as int).flat_map(f),
        decreases caps@.len() - i,
    {
        proof {
            caps@.lemma_flat_map_take_append(f, i as int);
        }
        add_tools(&mut out, &caps[i]);
        i += 1;
    }
    proof {
        assert(caps@.take(i as int) =~= caps@);
    }
    let ghost listed = policy_texts(out@);
    if show_delegate_permission(agent_id) {
        out.push(
            builtin_view(
                "delegate_to_agent",
                "Delegate to Agent",
                "Allows the agent to hand off tasks to other specialist agents.",
                "ask",
            ),
        );
    }
    let ghost delegated = policy_texts(out@);
    proof {
        assert(delegated =~= listed + (if agent_id@ == "default"@ {
            seq![delegation()]
        } else {
            Seq::empty()
        }));
    }
    out.push(
        builtin_view(
            "memory_remember",
            "Memory Remember",
            "Allows the agent to save long-term memory notes for future conversations.",
            "allow",
        ),
    );
    out.push(
        builtin_view(
            "memory_forget",
            "Memory Forget",
            "Allows the agent to remove stored memory notes.",
            "allow",
        ),
    );
    out.push(
        builtin_view(
            "memory_search",
            "Memory Search",
            "Allows the agent to search saved memory using BM25 relevance.",
            "allow",
        ),
    );
    out.push(
        builtin_view(
            "memory_list",
            "Memory List",
            "Allows the agent to list saved memory notes.",
            "allow",
        ),
    );
    proof {
        assert(policy_texts(out@) =~= delegated + memory_tools());
    }
    out
}

/// The capability IDs for which the search for tools failed.
pub open spec fn failed_ids(caps: Seq<SetupCapability>) -> Seq<Seq<char>> {
    caps.filter_map(
        |c: SetupCapability|
            if c.discovery_failed {
                Some(c.id@)
            } else {
                None
            },
    )
}

/// The capabilities for which the search for tools failed, where there are any.
pub fn discovery_warning(caps: &Vec<SetupCapability>) -> (r: Option<String>)
    ensures
        opt_text(r) == if failed_ids(caps@).len() == 0 {
            None
        } else {
            Some(joined(failed_ids(caps@), ", "@))
        },
{
    let ghost f = |c: SetupCapability|
        if c.discovery_failed {
            Some(c.id@)
        } else {
            None
        };
    let mut out: Vec<String> = Vec::new();
    let mut i: usize = 0;
    proof {
        assert(texts(out@) =~= caps@.take(0).filter_map(f));
    }
    while i < caps.len()
        invariant
            i <= caps@.len(),
            f == (|c: SetupCapability|
                if c.discovery_failed {
                    Some(c.id@)
                } else {
                    None
                }),
            texts(out@) == caps@.take(i as int).filter_map(f),
        decreases caps@.len() - i,
    {
        let ghost before = texts(out@);
        proof {
            caps@.lemma_filter_map_take_succ(f, i as int);
            assert(before + Seq::<Seq<char>>::empty() =~= before);
        }
        if caps[i].discovery_failed {
            out.push(caps[i].id.clone());
            proof {
                assert(texts(out@) =~= before.push(caps@[i as int].id@));
                assert(before + seq![caps@[i as int].id@] =~= before.push(caps@[i as int].id@));
            }
        }
        i += 1;
    }
    proof {
        assert(caps@.take(i as int) =~= caps@);
        assert(failed_ids(caps@) == texts(out@));
    }
    if out.is_empty() {
        None
    } else {
        Some(text::join(&out, ", "))
    }
}

// ── Submitting ───────────────────────────────────────────────────────────────

/// A value that was typed in for a step and is to be encrypted; it is stored where
/// it is one of the system.
#[derive(Debug)]
pub struct StepCredential {
    pub value: String,
    pub capability_id: String,
    pub credential_name: String,
    pub is_system: bool,
}

/// A value for a step, as a value.
pub struct StepCredentialText {
    pub value: Seq<char>,
    pub capability_id: Seq<char>,
    pub credential_name: Seq<char>,
    pub is_system: bool,
}

impl StepCredential {
    pub open spec fn view(&self) -> StepCredentialText {
        StepCredentialText {
            value: self.value@,
            capability_id: self.capability_id@,
            credential_name: self.credential_name@,
            is_system: self.is_system,
        }
    }
}

/// The values that a list holds.
pub open spec fn credential_texts(v: Seq<StepCredential>) -> Seq<StepCredentialText> {
    v.map_values(|c: StepCredential| c@)
}

/// What a form gives a step: where the step asks for a value, the form holds one and
/// the step says what it is stored as.
pub open spec fn step_credential(step: InstallStep, form: SetupSubmitForm) -> Option<
    StepCredentialText,
> {
    match (step.step_type, form.values.at("step_"@ + step.id@), step.store_as) {
        (StepType::Input, Some(value), Some(target)) => Some(
            StepCredentialText {
                value: trimmed(value),
                capability_id: target.capability_id@,
                credential_name: target.credential_name@,
                is_system: target.scope@ == "system_credential"@,
            },
        ),
        _ => None,
    }
}

/// What a form gives a step.
fn pick_credential(step: &InstallStep, form: &SetupSubmitForm) -> (r: Option<StepCredential>)
    ensures
        match step_credential(*step, *form) {
            Some(c) => r matches Some(v) && v@ == c,
            None => r is None,
        },
{
    let mut key = "step_".to_string();
    key.append(step.id.as_str());
    if step.step_type != StepType::Input {
        return None;
    }
    match (form.values.get(key.as_str()), &step.store_as) {
        (Some(value), Some(target)) => Some(
            StepCredential {
                value: text::trim(value.as_str()).to_string(),
                capability_id: target.capability_id.clone(),
                credential_name: target.credential_name.clone(),
                is_system: text::same(target.scope.as_str(), "system_credential"),
            },
        ),
        _ => None,
    }
}

/// The values that a form gives the steps of a setup.
pub fn step_credentials(steps: &Vec<InstallStep>, form: &SetupSubmitForm) -> (r: Vec<
    StepCredential,
>)
    ensures
        credential_texts(r@) == steps@.filter_map(|s: InstallStep| step_credential(s, *form)),
{
    let ghost f = |s: InstallStep| step_credential(s, *form);
    let mut out: Vec<StepCredential> = Vec::new();
    let mut i: usize = 0;
    proof {
        assert(credential_texts(out@) =~= steps@.take(0).filter_map(f));
    }
    while i < steps.len()
        invariant
            i <= steps@.len(),
            f == (|s: InstallStep| step_credential(s, *form)),
            credential_texts(out@) == steps@.take(i as int).filter_map(f),
        decreases steps@.len() - i,
    {
        let ghost before = credential_texts(out@);
        proof {
            steps@.lemma_filter_map_take_succ(f, i as int);
            assert(before + Seq::<StepCredentialText>::empty() =~= before);
        }
        if let Some(c) = pick_credential(&steps[i], form) {
            let ghost e = c@;
            out.push(c);
            proof {
                assert(credential_texts(out@) =~= before.push(e));
                assert(before + seq![e] =~= before.push(e));
            }
        }
        i += 1;
    }
    proof {
        assert(steps@.take(i as int) =~= steps@);
    }
    out
}

/// A permission that a form gives a tool of a capability.
#[derive(Debug)]
pub struct ChosenPolicy {
    pub capability_id: String,
    pub tool_name: String,
    pub policy: ToolPolicy,
}

/// The permissions that a list holds, as values.
pub open spec fn chosen_texts(v: Seq<ChosenPolicy>) -> Seq<(Seq<char>, Seq<char>, ToolPolicy)> {
    v.map_values(|c: ChosenPolicy| (c.capability_id@, c.tool_name@, c.policy))
}

/// The permission that the fields of a form with a key give: their capability, their
/// tool and their policy.
pub open spec fn policy_with_key(form: SetupSubmitForm, key: Seq<char>) -> Option<
    (Seq<char>, Seq<char>, ToolPolicy),
> {
    match (
        form.values.at("policy_cap_"@ + key),
        form.values.at("policy_tool_"@ + key),
        form.values.at("policy_val_"@ + key),
    ) {
        (Some(cap), Some(tool), Some(word)) => match tool_policy_of(word) {
            Some(policy) => Some((cap, tool, policy)),
            None => None,
        },
        _ => None,
    }
}

/// The permission that a field of a form gives, where it is the one with the policy.
pub open spec fn policy_of_field(form: SetupSubmitForm, field: (Seq<char>, Seq<char>)) -> Option<
    (Seq<char>, Seq<char>, ToolPolicy),
> {
    if "policy_val_"@.is_prefix_of(field.0) {
        policy_with_key(
            form,
            field.0.subrange("policy_val_"@.len() as int, field.0.len() as int),
        )
    } else {
        None
    }
}

/// The permissions that a form gives.
pub open spec fn chosen(form: SetupSubmitForm) -> Seq<(Seq<char>, Seq<char>, ToolPolicy)> {
    form.values@.filter_map(|field: (Seq<char>, Seq<char>)| policy_of_field(form, field))
}

/// The value of a field that is named by a prefix and a key.
fn field(form: &SetupSubmitForm, prefix: &str, key: &str) -> (r: Option<String>)
    ensures
        opt_text(r) == form.values.at(prefix@ + key@),
{
    let mut name = prefix.to_string();
    name.append(key);
    form.values.get(name.as_str())
}

/// The permission that the fields of a form with a key give.
fn pick_policy(form: &SetupSubmitForm, key: &str) -> (r: Option<ChosenPolicy>)
    ensures
        match policy_with_key(*form, key@) {
            Some(c) => r matches Some(v) && (v.capability_id@, v.tool_name@, v.policy) == c,
            None => r is None,
        },
{
    match (
        field(form, "policy_cap_", key),
        field(form, "policy_tool_", key),
        field(form, "policy_val_", key),
    ) {
        (Some(capability_id), Some(tool_name), Some(word)) => match ToolPolicy::parse(
            word.as_str(),
        ) {
            Some(policy) => Some(ChosenPolicy { capability_id, tool_name, policy }),
            None => None,
        },
        _ => None,
    }
}

/// The permissions that a form gives.
pub fn chosen_policies(form: &SetupSubmitForm) -> (r: Vec<ChosenPolicy>)
    ensures
        chosen_texts(r@) == chosen(*form),
{
    let ghost f = |field: (Seq<char>, Seq<char>)| policy_of_field(*form, field);
    let ghost all = form.values@;
    let mut out: Vec<ChosenPolicy> = Vec::new();
    let mut i: usize = 0;
    proof {
        assert(chosen_texts(out@) =~= all.take(0).filter_map(f));
    }
    while i < form.values.entries.len()
        invariant
            i <= form.values.entries@.len(),
            all == form.values@,
            f == (|field: (Seq<char>, Seq<char>)| policy_of_field(*form, field)),
            chosen_texts(out@) == all.take(i as int).filter_map(f),
        decreases form.values.entries@.len() - i,
    {
        let ghost before = chosen_texts(out@);
        let name = &form.values.entries[i].0;
        proof {
            all.lemma_filter_map_take_succ(f, i as int);
            assert(before + Seq::<(Seq<char>, Seq<char>, ToolPolicy)>::empty() =~= before);
            assert(all[i as int].0 == name@);
        }
        if let Some(key) = text::strip_prefix(name.as_str(), "policy_val_") {
            if let Some(c) = pick_policy(form, key) {
                let ghost e = (c.capability_id@, c.tool_name@, c.policy);
                out.push(c);
                proof {
                    assert(chosen_texts(out@) =~= before.push(e));
                    assert(before + seq![e] =~= before.push(e));
                }
            }
        }
        i += 1;
    }
    proof {
        assert(all.take(i as int) =~= all);
    }
    out
}

/// What was chosen for a tool is taken from the form that shows it: a form that holds
/// the three fields of a tool, with one of the policies, gives that policy to that tool.
pub proof fn law_choice_is_taken(form: SetupSubmitForm, shown: ToolPolicyText, policy: ToolPolicy)
    requires
        form.values.at("policy_cap_"@ + shown.key) == Some(shown.capability_id),
        form.values.at("policy_tool_"@ + shown.key) == Some(shown.tool_name),
        form.values.at("policy_val_"@ + shown.key) == Some(policy.word()),
    ensures
        chosen(form).contains((shown.capability_id, shown.tool_name, policy)),
{
    let name = "policy_val_"@ + shown.key;
    let f = |field: (Seq<char>, Seq<char>)| policy_of_field(form, field);
    crate::web::permissions::law_policy_word_is_read_back(policy);
    let i = lemma_found_at(form.values@, name);
    let field = form.values@[i];
    assert("policy_val_"@.is_prefix_of(name));
    assert(name.subrange("policy_val_"@.len() as int, name.len() as int) =~= shown.key);
    assert(f(field) == Some((shown.capability_id, shown.tool_name, policy)));
    lemma_mapped_is_there(form.values@, f, i);
}

/// A value that is found stands with its key.
proof fn lemma_found_at(pairs: Seq<(Seq<char>, Seq<char>)>, key: Seq<char>) -> (r: int)
    requires
        crate::web::text_map::found(pairs, key) is Some,
    ensures
        0 <= r < pairs.len(),
        pairs[r].0 == key,
        Some(pairs[r].1) == crate::web::text_map::found(pairs, key),
    decreases pairs.len(),
{
    if pairs[0].0 == key {
        0
    } else {
        lemma_found_at(pairs.drop_first(), key) + 1
    }
}

/// What an item is mapped to is there.
proof fn lemma_mapped_is_there<A, B>(s: Seq<A>, f: spec_fn(A) -> Option<B>, i: int)
    requires
        0 <= i < s.len(),
        f(s[i]) is Some,
    ensures
        s.filter_map(f).contains(f(s[i])->Some_0),
    decreases s.len(),
{
    let n = s.len() - 1;
    s.lemma_filter_map_take_succ(f, n);
    assert(s.take(n + 1) =~= s);
    let ahead = s.take(n).filter_map(f);
    let whole = s.filter_map(f);
    if i < n {
        lemma_mapped_is_there(s.take(n), f, i);
        let k = choose|k: int| 0 <= k < ahead.len() && ahead[k] == f(s[i])->Some_0;
        assert(whole[k] == ahead[k]);
    } else {
        assert(whole[whole.len() - 1] == f(s[i])->Some_0);
    }
}

/// How the submission of a setup went.
#[derive(Debug)]
pub enum SetupOutcome {
    /// The agent could not be loaded.
    NotLoaded(String),
    /// A value could not be encrypted.
    EncryptFailed,
    /// A value could not be stored.
    StoreFailed,
    /// The permissions could not be saved.
    PoliciesFailed,
    /// The setup could not be completed.
    NotCompleted(String),
    /// The agent is set up.
    Complete,
}

/// Back to the setup of an agent with an error.
fn setup_error(base_path: &str, agent_id: &str, error: &str) -> (r: WebAnswer)
    ensures
        r@ == Sent::Redirect(
            base_path@ + "/agents/"@ + agent_id@ + ("/setup?error="@ + percent_encoded(error@)),
        ),
{
    let e = url::encode(error);
    let mut more = "/setup?error=".to_string();
    more.append(e.as_str());
    response::redirect_about(base_path, "/agents/", agent_id, more.as_str())
}

/// Whether a setup follows an update.
pub fn is_update_flow(flow: &SetupFlowQuery) -> (r: bool)
    ensures
        r == (opt_text(flow.flow) == Some("update"@)),
{
    match &flow.flow {
        Some(f) => text::same(f.as_str(), "update"),
        None => false,
    }
}

/// Where a setup that was submitted leads.
pub fn setup_submit(
    is_admin: bool,
    base_path: &str,
    agent_id: &str,
    flow: &SetupFlowQuery,
    outcome: &SetupOutcome,
) -> (r: WebAnswer)
    ensures
        r@ == if !is_admin {
            Sent::Status(403)
        } else {
            Sent::Redirect(
                match *outcome {
                    SetupOutcome::NotLoaded(e) => base_path@ + "/agents?error="@ + percent_encoded(
                        "Failed to load agent: "@ + e@,
                    ),
                    SetupOutcome::EncryptFailed => base_path@ + "/agents/"@ + agent_id@ + (
                    "/setup?error="@ + percent_encoded("encrypt_failed"@)),
                    SetupOutcome::StoreFailed => base_path@ + "/agents/"@ + agent_id@ + (
                    "/setup?error="@ + percent_encoded("store_cred_failed"@)),
                    SetupOutcome::PoliciesFailed => base_path@ + "/agents/"@ + agent_id@ + (
                    "/setup?error="@ + percent_encoded("save_perms_failed"@)),
                    SetupOutcome::NotCompleted(e) => base_path@ + "/agents?error="@ + percent_encoded(
                        "Failed to complete setup: "@ + e@,
                    ),
                    SetupOutcome::Complete => base_path@ + "/agents?success="@ + percent_encoded(
                        if opt_text(flow.flow) == Some("update"@) {
                            "updated"@
                        } else {
                            "setup_complete"@
                        },
                    ),
                },
            )
        },
{
    if !is_admin {
        return WebAnswer::Status(response::FORBIDDEN);
    }
    match outcome {
        SetupOutcome::NotLoaded(e) => {
            let mut text = "Failed to load agent: ".to_string();
            text.append(e.as_str());
            agents::agents_error(base_path, text.as_str())
        },
        SetupOutcome::EncryptFailed => setup_error(base_path, agent_id, "encrypt_failed"),
        SetupOutcome::StoreFailed => setup_error(base_path, agent_id, "store_cred_failed"),
        SetupOutcome::PoliciesFailed => setup_error(base_path, agent_id, "save_perms_failed"),
        SetupOutcome::NotCompleted(e) => {
            let mut text = "Failed to complete setup: ".to_string();
            text.append(e.as_str());
            agents::agents_error(base_path, text.as_str())
        },
        SetupOutcome::Complete => if is_update_flow(flow) {
            agents::agents_success(base_path, "updated")
        } else {
            agents::agents_success(base_path, "setup_complete")
        },
    }
}

// ── Testing ──────────────────────────────────────────────────────────────────

/// A test that failed, as shown.
pub open spec fn failed_badge(what: Seq<char>) -> Seq<char> {
    "<span class=\"inline-flex items-center px-2 py-0.5 rounded-full text-xs font-medium bg-red-500/10 text-red-400 border border-red-500/20\">"@
        + what + "</span>"@
}

/// A test that failed, as shown.
pub fn failure_badge(what: &str) -> (r: String)
    ensures
        r@ == failed_badge(what@),
{
    let mut out = "<span class=\"inline-flex items-center px-2 py-0.5 rounded-full text-xs font-medium bg-red-500/10 text-red-400 border border-red-500/20\">".to_string();
    out.append(what);
    out.append("</span>");
    out
}

/// A test that could not be made because the agent could not be loaded.
pub fn setup_test_unloaded(error: &str) -> (r: WebAnswer)
    ensures
        r@ == Sent::Html(failed_badge("Error: "@ + error@)),
{
    let mut what = "Error: ".to_string();
    what.append(error);
    WebAnswer::Html(failure_badge(what.as_str()))
}

/// How a test asks.
#[derive(Debug, Clone, Copy, PartialEq, Eq, Structural)]
pub enum TestMethod {
    Get,
    Post,
}

/// How a test asks, where its method in capital letters is known.
pub open spec fn method_of(word: Seq<char>) -> Option<TestMethod> {
    if word == "GET"@ {
        Some(TestMethod::Get)
    } else if word == "POST"@ {
        Some(TestMethod::Post)
    } else {
        None
    }
}

/// How a test asks, where its method in capital letters is known.
pub fn pick_method(word: &str) -> (r: Option<TestMethod>)
    ensures
        r == method_of(word@),
{
    if text::same(word, "GET") {
        Some(TestMethod::Get)
    } else if text::same(word, "POST") {
        Some(TestMethod::Post)
    } else {
        None
    }
}

/// What a field of a form is called in an address: its name without `step_`.
pub open spec fn field_name(name: Seq<char>) -> Seq<char> {
    if "step_"@.is_prefix_of(name) {
        name.subrange("step_"@.len() as int, name.len() as int)
    } else {
        name
    }
}

/// An address with the values of a form in the places of their names in double
/// braces, one after the other.
pub open spec fn filled(address: Seq<char>, fields: Seq<(Seq<char>, Seq<char>)>) -> Seq<char>
    decreases fields.len(),
{
    if fields.len() == 0 {
        address
    } else {
        replaced_text(
            filled(address, fields.drop_last()),
            "{{"@ + field_name(fields.last().0) + "}}"@,
            fields.last().1,
        )
    }
}

/// An address with the values of a form in the places of their names in double
/// braces.
pub fn fill_address(address: &str, form: &SetupSubmitForm) -> (r: String)
    ensures
        r@ == filled(address@, form.values@),
{
    let ghost all = form.values@;
    let mut out = address.to_string();
    let mut i: usize = 0;
    proof {
        reveal_strlit("{{");
    }
    while i < form.values.entries.len()
        invariant
            i <= form.values.entries@.len(),
            all == form.values@,
            "{{"@.len() == 2,
            out@ == filled(address@, all.take(i as int)),
        decreases form.values.entries@.len() - i,
    {
        let entry = &form.values.entries[i];
        proof {
            assert(all.take(i + 1).drop_last() =~= all.take(i as int));
            assert(all.take(i + 1).last() == (entry.0@, entry.1@));
        }
        let name = match text::strip_prefix(entry.0.as_str(), "step_") {
            Some(n) => n,
            None => entry.0.as_str(),
        };
        let mut pattern = "{{".to_string();
        pattern.append(name);
        pattern.append("}}");
        out = text::replace_text(out.as_str(), pattern.as_str(), entry.1.as_str());
        i += 1;
    }
    proof {
        assert(all.take(i as int) =~= all);
    }
    out
}

/// A request that tests a setup: how it asks, and where.
#[derive(Debug)]
pub struct TestCall {
    pub method: TestMethod,
    pub url: String,
    pub expect_status: u16,
}

/// The first of some steps that has an ID.
pub open spec fn step_with(steps: Seq<InstallStep>, id: Seq<char>) -> Option<InstallStep>
    decreases steps.len(),
{
    if steps.len() == 0 {
        None
    } else if steps[0].id@ == id {
        Some(steps[0])
    } else {
        step_with(steps.drop_first(), id)
    }
}

/// Where the first of some steps that has an ID stands.
fn find_step(steps: &Vec<InstallStep>, id: &str) -> (r: Option<usize>)
    ensures
        match r {
            Some(i) => i < steps@.len() && step_with(steps@, id@) == Some(steps@[i as int]),
            None => step_with(steps@, id@) is None,
        },
{
    let mut i: usize = 0;
    proof {
        assert(steps@.subrange(0, steps@.len() as int) =~= steps@);
    }
    while i < steps.len()
        invariant
            i <= steps@.len(),
            step_with(steps@, id@) == step_with(
                steps@.subrange(i as int, steps@.len() as int),
                id@,
            ),
        decreases steps@.len() - i,
    {
        proof {
            let rest = steps@.subrange(i as int, steps@.len() as int);
            assert(rest[0] == steps@[i as int]);
            assert(rest.drop_first() =~= steps@.subrange(i + 1, steps@.len() as int));
        }
        if text::same(steps[i].id.as_str(), id) {
            return Some(i);
        }
        i += 1;
    }
    None
}

/// Whether a request can be made, and with what: `word`, its method in capital letters,
/// has to be known.
pub fn vet_test(request: &TestRequest, word: &str, form: &SetupSubmitForm) -> (r: Verdict<TestCall>)
    ensures
        match method_of(word@) {
            Some(method) => r matches Verdict::Proceed(call) && call.method == method && call.url@
                == filled(request.url@, form.values@) && call.expect_status
                == request.expect_status,
            None => r.answers(
                Sent::Html(failed_badge("Unsupported method: "@ + request.method@)),
            ),
        },
{
    match pick_method(word) {
        Some(method) => Verdict::Proceed(
            TestCall {
                method,
                url: fill_address(request.url.as_str(), form),
                expect_status: request.expect_status,
            },
        ),
        None => {
            let mut what = "Unsupported method: ".to_string();
            what.append(request.method.as_str());
            Verdict::Answer(WebAnswer::Html(failure_badge(what.as_str())))
        },
    }
}

/// Whether a step of a setup may be tested, and with which request.
pub fn setup_test(
    is_admin: bool,
    steps: &Vec<InstallStep>,
    step_id: &str,
    form: &SetupSubmitForm,
) -> (r: Verdict<TestCall>)
    ensures
        if !is_admin {
            r.answers(Sent::Status(403))
        } else {
            match step_with(steps@, step_id@) {
                Some(step) => match step.request {
                    Some(request) => match method_of(capitals(request.method@)) {
                        Some(method) => r matches Verdict::Proceed(call) && call.method == method
                            && call.url@ == filled(request.url@, form.values@) && call.expect_status
                            == request.expect_status,
                        None => r.answers(
                            Sent::Html(failed_badge("Unsupported method: "@ + request.method@)),
                        ),
                    },
                    None => r.answers(Sent::Html(failed_badge("No test request defined"@))),
                },
                None => r.answers(Sent::Html(failed_badge("Step not found"@))),
            }
        },
{
    if !is_admin {
        return Verdict::Answer(WebAnswer::Status(response::FORBIDDEN));
    }
    match find_step(steps, step_id) {
        Some(i) => match &steps[i].request {
            Some(request) => {
                let word = people::to_capitals(request.method.as_str());
                vet_test(request, word.as_str(), form)
            },
            None => Verdict::Answer(WebAnswer::Html(failure_badge("No test request defined"))),
        },
        None => Verdict::Answer(WebAnswer::Html(failure_badge("Step not found"))),
    }
}

/// What came back of a test.
#[derive(Debug)]
pub enum TestReply {
    /// An answer, with its status and its text.
    Answered { status: u16, body: String },
    /// No answer.
    Failed(String),
}

/// A text as far as it is shown: its first two hundred bytes.
pub open spec fn shortened(body: Seq<char>) -> Seq<char> {
    if byte_len(body) > 200 {
        first_bytes(body, 200) + "..."@
    } else {
        body
    }
}

/// What is shown of a test.
pub open spec fn test_shown(expect_status: u16, reply: TestReply) -> Seq<char> {
    match reply {
        TestReply::Answered { status, body } => if status == expect_status {
            "<span class=\"inline-flex items-center gap-1 px-2 py-0.5 rounded-full text-xs font-medium bg-emerald-500/10 text-emerald-400 border border-emerald-500/20\"><span class=\"w-1 h-1 rounded-full bg-emerald-400\"></span>Success (HTTP "@
                + decimal(status as nat) + ")</span>"@
        } else {
            failed_badge("Failed: HTTP "@ + decimal(status as nat))
                + "<br><small class=\"text-xs text-slate-500\">"@ + shortened(body@) + "</small>"@
        },
        TestReply::Failed(e) => failed_badge("Connection failed: "@ + e@),
    }
}

/// What is shown of a test: a success where the answer has the status that was
/// expected, else what came back. A longer text has to be cut between characters.
pub fn test_finished(expect_status: u16, reply: &TestReply) -> (r: WebAnswer)
    requires
        match *reply {
            TestReply::Answered { status, body } => status == expect_status || byte_len(body@)
                <= 200 || cuts_at(body@, 200),
            TestReply::Failed(_) => true,
        },
    ensures
        r@ == Sent::Html(test_shown(expect_status, *reply)),
{
    match reply {
        TestReply::Answered { status, body } => {
            let code = text::number(*status as u64);
            if *status == expect_status {
                let mut out = "<span class=\"inline-flex items-center gap-1 px-2 py-0.5 rounded-full text-xs font-medium bg-emerald-500/10 text-emerald-400 border border-emerald-500/20\"><span class=\"w-1 h-1 rounded-full bg-emerald-400\"></span>Success (HTTP ".to_string();
                out.append(code.as_str());
                out.append(")</span>");
                WebAnswer::Html(out)
            } else {
                let mut what = "Failed: HTTP ".to_string();
                what.append(code.as_str());
                let mut out = failure_badge(what.as_str());
                out.append("<br><small class=\"text-xs text-slate-500\">");
                if text::byte_count(body.as_str()) > 200 {
                    let mut short = text::head_bytes(body.as_str(), 200).to_string();
                    short.append("...");
                    out.append(short.as_str());
                } else {
                    out.append(body.as_str());
                }
                out.append("</small>");
                WebAnswer::Html(out)
            }
        },
        TestReply::Failed(e) => {
            let mut what = "Connection failed: ".to_string();
            what.append(e.as_str());
            WebAnswer::Html(failure_badge(what.as_str()))
        },
    }
}

// ── Laws ─────────────────────────────────────────────────────────────────────

/// The credentials of a setup are those of its steps: the value that was entered for a step, without
/// white space around it, under the capability and the name that the step stores it as, for everybody
/// exactly where the step says so.
pub proof fn law_step_stores_what_was_entered(
    steps: Vec<InstallStep>,
    form: SetupSubmitForm,
    r: Vec<StepCredential>,
    i: int,
)
    requires
        call_ensures(step_credentials, (&steps, &form), r),
        0 <= i < steps@.len(),
        steps@[i].step_type is Input,
        steps@[i].store_as is Some,
        form.values.at("step_"@ + steps@[i].id@) is Some,
    ensures
        exists|k: int|
            0 <= k < r@.len() && {
                let c = #[trigger] r@[k];
                let target = steps@[i].store_as->0;
                &&& c.value@ == trimmed(form.values.at("step_"@ + steps@[i].id@)->0)
                &&& c.capability_id@ == target.capability_id@
                &&& c.credential_name@ == target.credential_name@
                &&& c.is_system <==> target.scope@ == "system_credential"@
            },
{
    let f = |s: InstallStep| step_credential(s, form);
    text::lemma_item_is_kept(steps@, f, i);
    let x = f(steps@[i])->0;
    let views = credential_texts(r@);
    let k = choose|k: int| 0 <= k < views.len() && views[k] == x;
    let c = r@[k];
    assert(views[k] == c@);
    assert(c@.value == c.value@ && c@.capability_id == c.capability_id@ && c@.credential_name
        == c.credential_name@ && c@.is_system == c.is_system);
}

/// Nothing is stored but what a step asks for: each credential comes from a step that takes input.
pub proof fn law_only_steps_store(
    steps: Vec<InstallStep>,
    form: SetupSubmitForm,
    r: Vec<StepCredential>,
    k: int,
)
    requires
        call_ensures(step_credentials, (&steps, &form), r),
        0 <= k < r@.len(),
    ensures
        exists|i: int|
            0 <= i < steps@.len() && {
                let s = #[trigger] steps@[i];
                &&& s.step_type is Input
                &&& s.store_as is Some && r@[k].credential_name@ == s.store_as->0.credential_name@
                    && r@[k].capability_id@ == s.store_as->0.capability_id@
                &&& form.values.at("step_"@ + s.id@) is Some && r@[k].value@ == trimmed(
                    form.values.at("step_"@ + s.id@)->0,
                )
            },
{
    let f = |s: InstallStep| step_credential(s, form);
    let views = credential_texts(r@);
    let x = r@[k]@;
    assert(views[k] == x);
    assert(views.contains(x));
    steps@.lemma_filter_map_contains(f, x);
    let s = choose|s: InstallStep| steps@.contains(s) && f(s) == Some(x);
    let i = choose|i: int| 0 <= i < steps@.len() && steps@[i] == s;
    assert(steps@[i].step_type is Input);
    assert(x.value == r@[k].value@ && x.capability_id == r@[k].capability_id@ && x.credential_name
        == r@[k].credential_name@);
}

/// A step is shown as it is, each part in its place.
pub proof fn law_steps_are_shown_as_they_are(
    steps: Vec<InstallStep>,
    r: Vec<SetupStepView>,
    i: int,
)
    requires
        call_ensures(setup_steps, (&steps,), r),
        0 <= i < steps@.len(),
    ensures
        r@.len() == steps@.len(),
        r@[i].id@ == steps@[i].id@,
        r@[i].label@ == steps@[i].label@,
        r@[i].description@ == steps@[i].description@,
        steps@[i].step_type is Input ==> r@[i].step_type@ == "input"@,
        steps@[i].step_type is Test ==> r@[i].step_type@ == "test"@,
        steps@[i].default is Some ==> r@[i].default_value@ == steps@[i].default->0@,
        steps@[i].validation is Some ==> r@[i].validation@ == steps@[i].validation->0@,
{
    assert(shows_step(r@[i], steps@[i]));
}

/// The page of a setup offers a choice for every tool of the agent, with what its author recommends;
/// and for what every agent can remember.
pub proof fn law_setup_offers_every_tool(
    is_admin: bool,
    base_path: &str,
    agent_id: &str,
    flow: SetupFlowQuery,
    agent: SetupAgent,
    providers: Vec<ProviderRow>,
    page: AgentSetupPage,
    c: int,
    t: int,
)
    requires
        call_ensures(
            setup_wizard,
            (is_admin, base_path, agent_id, &flow, Some(&agent), &providers),
            Verdict::Proceed(page),
        ),
        0 <= c < agent.capabilities@.len(),
        0 <= t < agent.capabilities@[c].tools@.len(),
    ensures
        is_admin,
        page.agent_id@ == agent_id@ && page.agent_name@ == agent.name@,
        page.is_update_flow <==> flow.flow is Some && flow.flow->0@ == "update"@,
        exists|k: int|
            0 <= k < page.tool_policies@.len() && {
                let v = #[trigger] page.tool_policies@[k];
                let cap = agent.capabilities@[c];
                &&& v.capability_id@ == cap.id@
                &&& v.tool_name@ == cap.tools@[t].name@
                &&& v.display_name@ == cap.tools@[t].display_name@
                &&& v.description@ == cap.tools@[t].description@
                &&& v.recommended@ == cap.tools@[t].recommended@
            },
{
    let caps = agent.capabilities@;
    let f = |x: SetupCapability| capability_policies(x);
    let x = tool_policy(caps[c].id@, caps[c].tools@[t]);
    assert(capability_policies(caps[c])[t] == x);
    lemma_in_flat_map(caps, f, c, t);
    let all = caps.flat_map(f);
    let j = choose|j: int| 0 <= j < all.len() && all[j] == x;
    let texts = policy_texts(page.tool_policies@);
    assert(texts == setup_policies(agent_id@, caps));
    assert(texts[j] == x);
    let v = page.tool_policies@[j];
    assert(texts[j] == v@);
    assert(v@.capability_id == v.capability_id@ && v@.tool_name == v.tool_name@ && v@.display_name
        == v.display_name@ && v@.description == v.description@ && v@.recommended == v.recommended@);
}

/// What an item becomes is among what all items become.
proof fn lemma_in_flat_map<A, B>(s: Seq<A>, f: spec_fn(A) -> Seq<B>, c: int, t: int)
    requires
        0 <= c < s.len(),
        0 <= t < f(s[c]).len(),
    ensures
        s.flat_map(f).contains(f(s[c])[t]),
    decreases s.len(),
{
    let rest = s.drop_last();
    assert(s.map_values(f).drop_last() =~= rest.map_values(f));
    let head = rest.map_values(f).flatten();
    let all = s.map_values(f).flatten();
    assert(s.map_values(f) =~= rest.map_values(f).push(f(s.last())));
    rest.map_values(f).lemma_flatten_push(f(s.last()));
    assert(all =~= head + f(s.last()));
    if c == s.len() - 1 {
        assert(all[head.len() + t] == f(s[c])[t]);
    } else {
        lemma_in_flat_map(rest, f, c, t);
        let j = choose|j: int| 0 <= j < head.len() && head[j] == f(s[c])[t];
        assert(all[j] == f(s[c])[t]);
    }
}

/// A test is made only by an administrator, of the step that was named, as that step says.
pub proof fn law_test_is_that_of_its_step(
    is_admin: bool,
    steps: Vec<InstallStep>,
    step_id: &str,
    form: SetupSubmitForm,
    call: TestCall,
)
    requires
        call_ensures(setup_test, (is_admin, &steps, step_id, &form), Verdict::Proceed(call)),
    ensures
        is_admin,
        exists|i: int|
            0 <= i < steps@.len() && {
                let s = #[trigger] steps@[i];
                &&& s.id@ == step_id@
                &&& s.request is Some
                &&& call.expect_status == s.request->0.expect_status
                &&& call.url@ == filled(s.request->0.url@, form.values@)
                &&& call.method is Get <==> capitals(s.request->0.method@) == "GET"@
            },
{
    lemma_step_with(steps@, step_id@);
    reveal_strlit("GET");
    reveal_strlit("POST");
    assert("GET"@.len() == 3 && "POST"@.len() == 4);
    let s = step_with(steps@, step_id@)->0;
    let i = choose|i: int| 0 <= i < steps@.len() && #[trigger] steps@[i] == s && s.id@ == step_id@;
    assert(steps@[i].id@ == step_id@);
}

/// A step that is found by its ID is one of the steps, and has that ID.
proof fn lemma_step_with(steps: Seq<InstallStep>, id: Seq<char>)
    ensures
        step_with(steps, id) matches Some(s) ==> exists|i: int|
            0 <= i < steps.len() && #[trigger] steps[i] == s && s.id@ == id,
    decreases steps.len(),
{
    if steps.len() > 0 {
        if steps[0].id@ != id {
            let rest = steps.drop_first();
            lemma_step_with(rest, id);
            if step_with(rest, id) is Some {
                let s = step_with(rest, id)->0;
                let i = choose|i: int|
                    0 <= i < rest.len() && #[trigger] rest[i] == s && s.id@ == id;
                assert(steps[i + 1] == s);
            }
        } else {
            assert(steps[0] == step_with(steps, id)->0);
        }
    }
}

/// The page warns exactly of what could not be looked into.
pub proof fn law_failures_are_warned_of(caps: Vec<SetupCapability>, r: Option<String>)
    requires
        call_ensures(discovery_warning, (&caps,), r),
    ensures
        r is Some <==> exists|i: int| 0 <= i < caps@.len() && (#[trigger] caps@[i]).discovery_failed,
{
    let f = |c: SetupCapability|
        if c.discovery_failed {
            Some(c.id@)
        } else {
            None
        };
    let ids = failed_ids(caps@);
    if exists|i: int| 0 <= i < caps@.len() && (#[trigger] caps@[i]).discovery_failed {
        let i = choose|i: int| 0 <= i < caps@.len() && (#[trigger] caps@[i]).discovery_failed;
        text::lemma_item_is_kept(caps@, f, i);
        assert(caps@.filter_map(f) =~= ids);
        let k = choose|k: int| 0 <= k < ids.len() && ids[k] == caps@[i].id@;
        assert(ids.len() > 0);
    }
    if ids.len() > 0 {
        assert(caps@.filter_map(f) =~= ids);
        assert(ids.contains(ids[0]));
        caps@.lemma_filter_map_contains(f, ids[0]);
        let c = choose|c: SetupCapability| caps@.contains(c) && f(c) == Some(ids[0]);
        let i = choose|i: int| 0 <= i < caps@.len() && caps@[i] == c;
        assert(caps@[i].discovery_failed);
    }
}

} // verus!
