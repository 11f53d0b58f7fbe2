//! The settings of an agent: its automation, its limits, its secrets and its
//! permissions.
use vstd::prelude::*;
use vstd::string::*;
use crate::text;
use crate::text::{lowered, natural, opt_str, opt_text, texts, trimmed};
use crate::web::permissions::{access_of, tool_policy_of, Access, ToolPolicy};
use crate::web::response;
use crate::web::response::{Sent, Verdict, WebAnswer};

verus! {

#[derive(Debug, Clone)]
pub struct AutomationPresetView {
    pub label: String,
    pub cron_description: String,
}

#[derive(Debug, Clone)]
pub struct AgentAutomationView {
    pub supported: bool,
    pub enabled: bool,
    pub ready: bool,
    pub missing_required_credentials: bool,
    pub missing_default_pipe: bool,
    pub active_schedule_count: usize,
    pub total_schedule_count: usize,
    pub presets: Vec<AutomationPresetView>,
}

#[derive(Debug, Clone)]
pub struct AgentRuntimeSettingsView {
    pub autonomy_level: String,
    pub use_advanced_limits: bool,
    pub max_tool_loop_iterations: u32,
    pub max_delegation_hops: i32,
    pub agent_default_autonomy_level: String,
    pub agent_default_max_tool_loop_iterations: u32,
    pub agent_default_max_delegation_hops: i32,
    pub has_user_override: bool,
}

#[derive(Debug)]
pub struct SetToolPolicyForm {
    pub capability_id: String,
    pub tool_name: String,
    pub policy: String,
    /// "global" for everybody, which only an administrator can set, or "user".
    pub scope: String,
}

#[derive(Debug)]
pub struct ResetToolPolicyForm {
    pub capability_id: String,
    pub tool_name: String,
    pub return_to: Option<String>,
}

#[derive(Debug)]
pub struct SetNetworkAccessForm {
    pub capability_id: String,
    pub access: String,
}

#[derive(Debug)]
pub struct SetNetworkHostPolicyForm {
    pub capability_id: String,
    pub host: String,
    pub policy: String,
}

#[derive(Debug)]
pub struct DeleteNetworkHostForm {
    pub capability_id: String,
    pub host: String,
}

#[derive(Debug)]
pub struct SetAgentCredentialForm {
    pub capability_id: String,
    pub credential_name: String,
    pub scope: String,
    pub value: String,
    pub return_to: Option<String>,
}

#[derive(Debug)]
pub struct CredentialDeleteQuery {
    pub return_to: Option<String>,
}

#[derive(Debug)]
pub struct ToggleAutomationForm {
    pub action: String,
}

#[derive(Debug)]
pub struct SetRuntimeSettingsForm {
    pub autonomy_level: String,
    pub use_advanced_limits: Option<String>,
    pub iterations: Option<String>,
    pub delegation_hops: Option<String>,
}

#[derive(Debug)]
pub struct InsightActionForm {
    pub insight_id: String,
}

/// Whom a permission is for where a form does not say.
pub fn default_scope_user() -> (r: String)
    ensures
        r@ == "user"@,
{
    "user".to_string()
}

// ── Automation ───────────────────────────────────────────────────────────────

/// A schedule that an agent brings along, with its texts in the user's language.
#[derive(Debug)]
pub struct AutomationPreset {
    pub id: String,
    pub label: String,
    pub cron_expression: String,
    pub cron_description: String,
    pub prompt: String,
}

/// A credential that an agent asks for: whether it has to be there, and whether it is.
#[derive(Debug, Clone, Copy)]
pub struct CredentialNeed {
    pub required: bool,
    pub present: bool,
}

/// Whether one of the credentials that have to be there is not.
pub open spec fn is_missing_one(needs: Seq<CredentialNeed>) -> bool {
    exists|i: int| 0 <= i < needs.len() && (#[trigger] needs[i]).required && !needs[i].present
}

/// Whether an agent can be automated: it brings schedules along, messages come to it
/// through a pipe, and the credentials are there.
pub open spec fn can_be_automated(
    presets: int,
    pipes: int,
    needs: Seq<CredentialNeed>,
) -> bool {
    presets > 0 && pipes != 0 && !is_missing_one(needs)
}

/// Whether one of the credentials that have to be there is not.
fn misses_one(needs: &Vec<CredentialNeed>) -> (r: bool)
    ensures
        r == is_missing_one(needs@),
{
    let mut i: usize = 0;
    while i < needs.len()
        invariant
            i <= needs@.len(),
            forall|j: int|
                0 <= j < i ==> !((#[trigger] needs@[j]).required && !needs@[j].present),
        decreases needs@.len() - i,
    {
        if needs[i].required && !needs[i].present {
            return true;
        }
        i += 1;
    }
    false
}

/// The name of the schedule that a preset of an agent becomes.
pub open spec fn schedule_name(agent_id: Seq<char>, preset_id: Seq<char>) -> Seq<char> {
    "auto."@ + agent_id + "."@ + preset_id
}

/// The name of the schedule that a preset of an agent becomes.
pub fn automation_schedule_name(agent_id: &str, preset_id: &str) -> (r: String)
    ensures
        r@ == schedule_name(agent_id@, preset_id@),
{
    let mut out = "auto.".to_string();
    out.append(agent_id);
    out.append(".");
    out.append(preset_id);
    out
}

/// The presets of one agent become schedules with different names.
pub proof fn law_schedule_names_differ(agent_id: Seq<char>, a: Seq<char>, b: Seq<char>)
    requires
        schedule_name(agent_id, a) == schedule_name(agent_id, b),
    ensures
        a == b,
{
    let ahead = "auto."@ + agent_id + "."@;
    let n = ahead.len() as int;
    let x = ahead + a;
    let y = ahead + b;
    assert(x.subrange(n, x.len() as int) =~= a);
    assert(y.subrange(n, y.len() as int) =~= b);
}

/// How many of some counts are above zero.
pub open spec fn active_ones(counts: Seq<i64>) -> int
    decreases counts.len(),
{
    if counts.len() == 0 {
        0
    } else {
        active_ones(counts.drop_last()) + if counts.last() > 0 {
            1int
        } else {
            0
        }
    }
}

/// The presets of an agent as shown.
fn preset_views(presets: &Vec<AutomationPreset>) -> (r: Vec<AutomationPresetView>)
    ensures
        r@.len() == presets@.len(),
        forall|i: int|
            0 <= i < r@.len() ==> (#[trigger] r@[i]).label@ == presets@[i].label@
                && r@[i].cron_description@ == presets@[i].cron_description@,
{
    let mut out: Vec<AutomationPresetView> = Vec::new();
    let mut i: usize = 0;
    while i < presets.len()
        invariant
            i <= presets@.len(),
            out@.len() == i,
            forall|k: int|
                0 <= k < i ==> (#[trigger] out@[k]).label@ == presets@[k].label@
                    && out@[k].cron_description@ == presets@[k].cron_description@,
        decreases presets@.len() - i,
    {
        out.push(
            AutomationPresetView {
                label: presets[i].label.clone(),
                cron_description: presets[i].cron_description.clone(),
            },
        );
        i += 1;
    }
    out
}

/// Whether `v` shows the automation of an agent.
pub open spec fn shows_automation(
    v: AgentAutomationView,
    presets: Seq<AutomationPreset>,
    pipe_count: i64,
    needs: Seq<CredentialNeed>,
    active_counts: Seq<i64>,
) -> bool {
    let supported = presets.len() > 0;
    &&& v.supported == supported
    &&& v.ready == can_be_automated(presets.len() as int, pipe_count as int, needs)
    &&& v.missing_default_pipe == (supported && pipe_count == 0)
    &&& v.missing_required_credentials == (supported && is_missing_one(needs))
    &&& v.active_schedule_count == if supported {
        active_ones(active_counts)
    } else {
        0
    }
    &&& v.enabled == (supported && active_ones(active_counts) == presets.len())
    &&& v.total_schedule_count == presets.len()
    &&& v.presets@.len() == presets.len()
    &&& forall|i: int|
        0 <= i < presets.len() ==> (#[trigger] v.presets@[i]).label@ == presets[i].label@
            && v.presets@[i].cron_description@ == presets[i].cron_description@
}

/// The automation of an agent as shown. `active_counts` is, for each preset, how many
/// active schedules it became.
pub fn automation_view(
    presets: &Vec<AutomationPreset>,
    pipe_count: i64,
    needs: &Vec<CredentialNeed>,
    active_counts: &Vec<i64>,
) -> (r: AgentAutomationView)
    ensures
        shows_automation(r, presets@, pipe_count, needs@, active_counts@),
{
    let supported = presets.len() > 0;
    let missing_default_pipe = supported && pipe_count == 0;
    let missing_required_credentials = supported && misses_one(needs);
    let mut active: usize = 0;
    if supported {
        let mut i: usize = 0;
        while i < active_counts.len()
            invariant
                i <= active_counts@.len(),
                active <= i,
                active == active_ones(active_counts@.take(i as int)),
            decreases active_counts@.len() - i,
        {
            proof {
                assert(active_counts@.take(i + 1).drop_last() =~= active_counts@.take(i as int));
                assert(active_counts@.take(i + 1).last() == active_counts@[i as int]);
            }
            if active_counts[i] > 0 {
                active += 1;
            }
            i += 1;
        }
        proof {
            assert(active_counts@.take(i as int) =~= active_counts@);
        }
    }
    AgentAutomationView {
        supported,
        enabled: supported && active == presets.len(),
        ready: supported && !missing_default_pipe && !missing_required_credentials,
        missing_required_credentials,
        missing_default_pipe,
        active_schedule_count: active,
        total_schedule_count: presets.len(),
        presets: preset_views(presets),
    }
}

/// What the switch for automation asks for.
#[derive(Debug, Clone, Copy, PartialEq, Eq, Structural)]
pub enum Automation {
    Enable,
    Disable,
}

/// Back to an agent, with what happened.
fn agent_redirect(base_path: &str, agent_id: &str, more: &str) -> (r: WebAnswer)
    ensures
        r@ == Sent::Redirect(base_path@ + "/agents/"@ + agent_id@ + more@),
{
    response::redirect_about(base_path, "/agents/", agent_id, more)
}

/// What the switch for automation asks for. `presets` is how many schedules the agent
/// brings along, where it is known.
pub fn agent_automation_toggle(
    base_path: &str,
    agent_id: &str,
    presets: Option<usize>,
    form: &ToggleAutomationForm,
) -> (r: Verdict<Automation>)
    ensures
        match presets {
            None => r.answers(Sent::Status(404)),
            Some(n) => if n == 0 {
                r.answers(
                    Sent::Redirect(
                        base_path@ + "/agents/"@ + agent_id@ + "?error=automation_not_supported"@,
                    ),
                )
            } else if lowered(trimmed(form.action@)) == "disable"@ {
                r == Verdict::<Automation>::Proceed(Automation::Disable)
            } else if lowered(trimmed(form.action@)) == "enable"@ {
                r == Verdict::<Automation>::Proceed(Automation::Enable)
            } else {
                r.answers(
                    Sent::Redirect(
                        base_path@ + "/agents/"@ + agent_id@ + "?error=automation_invalid_action"@,
                    ),
                )
            },
        },
{
    let n = match presets {
        None => {
            return Verdict::Answer(WebAnswer::Status(response::NOT_FOUND));
        },
        Some(n) => n,
    };
    if n == 0 {
        return Verdict::Answer(
            agent_redirect(base_path, agent_id, "?error=automation_not_supported"),
        );
    }
    let action = text::to_lower(text::trim(form.action.as_str()));
    if text::same(action.as_str(), "disable") {
        Verdict::Proceed(Automation::Disable)
    } else if text::same(action.as_str(), "enable") {
        Verdict::Proceed(Automation::Enable)
    } else {
        Verdict::Answer(agent_redirect(base_path, agent_id, "?error=automation_invalid_action"))
    }
}

/// The names of the schedules that are switched off, one for each preset.
pub fn schedules_to_disable(agent_id: &str, presets: &Vec<AutomationPreset>) -> (r: Vec<String>)
    ensures
        texts(r@) == presets@.map_values(|p: AutomationPreset| schedule_name(agent_id@, p.id@)),
{
    let ghost all = presets@.map_values(|p: AutomationPreset| schedule_name(agent_id@, p.id@));
    let mut out: Vec<String> = Vec::new();
    let mut i: usize = 0;
    while i < presets.len()
        invariant
            i <= presets@.len(),
            all == presets@.map_values(|p: AutomationPreset| schedule_name(agent_id@, p.id@)),
            texts(out@) == all.take(i as int),
        decreases presets@.len() - i,
    {
        let ghost before = texts(out@);
        out.push(automation_schedule_name(agent_id, presets[i].id.as_str()));
        proof {
            assert(texts(out@) =~= before.push(all[i as int]));
            assert(all.take(i + 1) =~= all.take(i as int).push(all[i as int]));
        }
        i += 1;
    }
    proof {
        assert(all.take(i as int) =~= all);
    }
    out
}

/// Where an automation that was switched off leads.
pub fn automation_disabled(base_path: &str, agent_id: &str) -> (r: WebAnswer)
    ensures
        r@ == Sent::Redirect(
            base_path@ + "/agents/"@ + agent_id@ + "?success=automation_disabled"@,
        ),
{
    agent_redirect(base_path, agent_id, "?success=automation_disabled")
}

/// Why the automation of an agent may not be switched on.
pub open spec fn enable_fault(pipes: int, needs: Seq<CredentialNeed>) -> Option<Seq<char>> {
    if pipes == 0 {
        Some("?error=automation_missing_pipe"@)
    } else if is_missing_one(needs) {
        Some("?error=automation_missing_credentials"@)
    } else {
        None
    }
}

/// The pipes that the automation of an agent writes to, where it may be switched on:
/// messages come to it through a pipe, and the credentials are there.
pub fn vet_enable(
    base_path: &str,
    agent_id: &str,
    pipe_ids: Vec<String>,
    needs: &Vec<CredentialNeed>,
) -> (r: Verdict<Vec<String>>)
    ensures
        match enable_fault(pipe_ids@.len() as int, needs@) {
            Some(e) => r.answers(Sent::Redirect(base_path@ + "/agents/"@ + agent_id@ + e)),
            None => r == Verdict::Proceed(pipe_ids),
        },
{
    if pipe_ids.is_empty() {
        return Verdict::Answer(
            agent_redirect(base_path, agent_id, "?error=automation_missing_pipe"),
        );
    }
    if misses_one(needs) {
        return Verdict::Answer(
            agent_redirect(base_path, agent_id, "?error=automation_missing_credentials"),
        );
    }
    Verdict::Proceed(pipe_ids)
}

/// What is written for a preset: the schedule that it became before, set anew, or a
/// new one.
#[derive(Debug)]
pub enum ScheduleWrite {
    Update { id: String, prompt: String, cron_expression: String, cron_description: String, next_run: String },
    Create { name: String, prompt: String, cron_expression: String, cron_description: String },
}

/// What is written for a preset, with the ID of the schedule that it became before
/// and the time at which it runs next.
pub fn preset_write(
    agent_id: &str,
    preset: &AutomationPreset,
    existing: &Option<String>,
    next_run: &str,
) -> (r: ScheduleWrite)
    ensures
        match *existing {
            Some(known) => r matches ScheduleWrite::Update {
                id,
                prompt,
                cron_expression,
                cron_description,
                next_run: next,
            } && id@ == known@ && prompt@ == preset.prompt@ && cron_expression@
                == preset.cron_expression@ && cron_description@ == preset.cron_description@ && next@
                == next_run@,
            None => r matches ScheduleWrite::Create {
                name,
                prompt,
                cron_expression,
                cron_description,
            } && name@ == schedule_name(agent_id@, preset.id@) && prompt@ == preset.prompt@
                && cron_expression@ == preset.cron_expression@ && cron_description@
                == preset.cron_description@,
        },
{
    match existing {
        Some(id) => ScheduleWrite::Update {
            id: id.clone(),
            prompt: preset.prompt.clone(),
            cron_expression: preset.cron_expression.clone(),
            cron_description: preset.cron_description.clone(),
            next_run: next_run.to_string(),
        },
        None => ScheduleWrite::Create {
            name: automation_schedule_name(agent_id, preset.id.as_str()),
            prompt: preset.prompt.clone(),
            cron_expression: preset.cron_expression.clone(),
            cron_description: preset.cron_description.clone(),
        },
    }
}

/// How far the switching on has come.
#[derive(Debug, Clone, Copy, PartialEq, Eq, Structural)]
pub enum EnableStage {
    /// The presets ahead of this one are written.
    Writing(usize),
    /// The times of a preset could not be read.
    InvalidCron,
    /// A schedule could not be created.
    SaveFailed,
    /// All presets are written.
    Enabled,
}

/// What became of a preset.
#[derive(Debug, Clone, Copy, PartialEq, Eq, Structural)]
pub enum PresetEvent {
    InvalidCron,
    SaveFailed,
    Written,
}

/// The stage that follows when something became of a preset.
pub open spec fn enable_after(stage: EnableStage, presets: int, event: PresetEvent) -> EnableStage {
    match (stage, event) {
        (EnableStage::Writing(_), PresetEvent::InvalidCron) => EnableStage::InvalidCron,
        (EnableStage::Writing(_), PresetEvent::SaveFailed) => EnableStage::SaveFailed,
        (EnableStage::Writing(i), PresetEvent::Written) => if i + 1 < presets {
            EnableStage::Writing((i + 1) as usize)
        } else {
            EnableStage::Enabled
        },
        _ => stage,
    }
}

/// The stage that follows when something became of a preset.
pub fn enable_step(stage: EnableStage, presets: usize, event: PresetEvent) -> (r: EnableStage)
    ensures
        r == enable_after(stage, presets as int, event),
{
    match (stage, event) {
        (EnableStage::Writing(_), PresetEvent::InvalidCron) => EnableStage::InvalidCron,
        (EnableStage::Writing(_), PresetEvent::SaveFailed) => EnableStage::SaveFailed,
        (EnableStage::Writing(i), PresetEvent::Written) => if i < presets && i + 1 < presets {
            EnableStage::Writing(i + 1)
        } else {
            EnableStage::Enabled
        },
        _ => stage,
    }
}

/// Where the switching on leads when it is over.
pub fn enable_answer(base_path: &str, agent_id: &str, stage: EnableStage) -> (r: Option<WebAnswer>)
    ensures
        match stage {
            EnableStage::Writing(_) => r is None,
            EnableStage::InvalidCron => r matches Some(a) && a@ == Sent::Redirect(
                base_path@ + "/agents/"@ + agent_id@ + "?error=automation_invalid_cron"@,
            ),
            EnableStage::SaveFailed => r matches Some(a) && a@ == Sent::Redirect(
                base_path@ + "/agents/"@ + agent_id@ + "?error=automation_save_failed"@,
            ),
            EnableStage::Enabled => r matches Some(a) && a@ == Sent::Redirect(
                base_path@ + "/agents/"@ + agent_id@ + "?success=automation_enabled"@,
            ),
        },
{
    match stage {
        EnableStage::Writing(_) => None,
        EnableStage::InvalidCron => Some(
            agent_redirect(base_path, agent_id, "?error=automation_invalid_cron"),
        ),
        EnableStage::SaveFailed => Some(
            agent_redirect(base_path, agent_id, "?error=automation_save_failed"),
        ),
        EnableStage::Enabled => Some(
            agent_redirect(base_path, agent_id, "?success=automation_enabled"),
        ),
    }
}

/// The stage after what became of some presets, one after the other.
pub open spec fn enable_after_all(presets: int, events: Seq<PresetEvent>) -> EnableStage
    decreases events.len(),
{
    if events.len() == 0 {
        EnableStage::Writing(0)
    } else {
        enable_after(enable_after_all(presets, events.drop_last()), presets, events.last())
    }
}

/// Where the writing has come to, as many presets are written.
proof fn lemma_enable(presets: int, events: Seq<PresetEvent>)
    requires
        0 < presets <= usize::MAX,
    ensures
        match enable_after_all(presets, events) {
            EnableStage::Writing(i) => i == events.len() && i < presets && forall|k: int|
                0 <= k < events.len() ==> events[k] == PresetEvent::Written,
            EnableStage::Enabled => events.len() >= presets && forall|k: int|
                0 <= k < presets ==> events[k] == PresetEvent::Written,
            _ => true,
        },
    decreases events.len(),
{
    if events.len() > 0 {
        let ahead = events.drop_last();
        lemma_enable(presets, ahead);
        assert forall|k: int| 0 <= k < ahead.len() implies events[k] == ahead[k] by {}
        match enable_after_all(presets, events) {
            EnableStage::Writing(i) => {
                assert forall|k: int| 0 <= k < events.len() implies events[k]
                    == PresetEvent::Written by {
                    if k < ahead.len() {
                        assert(ahead[k] == PresetEvent::Written);
                    }
                }
            },
            EnableStage::Enabled => {
                assert forall|k: int| 0 <= k < presets implies events[k]
                    == PresetEvent::Written by {
                    if k < ahead.len() {
                        assert(ahead[k] == PresetEvent::Written);
                    }
                }
            },
            _ => {},
        }
    }
}

/// An automation is switched on only when each of the presets was written.
pub proof fn law_enabled_when_all_are_written(presets: int, events: Seq<PresetEvent>)
    requires
        0 < presets <= usize::MAX,
        enable_after_all(presets, events) == EnableStage::Enabled,
    ensures
        events.len() >= presets,
        forall|k: int| 0 <= k < presets ==> events[k] == PresetEvent::Written,
{
    lemma_enable(presets, events);
}

/// An agent that is shown as ready for automation passes what is asked before it is
/// switched on, and no other agent does.
pub proof fn law_ready_can_be_enabled(
    v: AgentAutomationView,
    presets: Seq<AutomationPreset>,
    pipe_ids: Seq<String>,
    needs: Seq<CredentialNeed>,
    active_counts: Seq<i64>,
)
    requires
        pipe_ids.len() <= i64::MAX,
        shows_automation(v, presets, pipe_ids.len() as i64, needs, active_counts),
    ensures
        v.ready <==> presets.len() > 0 && enable_fault(pipe_ids.len() as int, needs) is None,
{
}

// ── Limits ───────────────────────────────────────────────────────────────────

/// A level of autonomy with the limits that go with it.
#[derive(Debug)]
pub struct AutonomyLimits {
    pub level: String,
    pub max_tool_loop_iterations: u32,
    pub max_delegation_hops: i32,
}

/// The limits that hold for an agent.
#[derive(Debug)]
pub struct EffectiveRuntime {
    pub autonomy_level: String,
    pub use_advanced_limits: bool,
    pub max_tool_loop_iterations: u32,
    pub max_delegation_hops: i32,
    pub agent_default: AutonomyLimits,
}

/// The limits of an agent as shown. `overrides` is how many settings of their own the
/// user has for it.
pub fn runtime_settings_view(e: &EffectiveRuntime, overrides: i64) -> (r: AgentRuntimeSettingsView)
    ensures
        r.autonomy_level@ == e.autonomy_level@,
        r.use_advanced_limits == e.use_advanced_limits,
        r.max_tool_loop_iterations == e.max_tool_loop_iterations,
        r.max_delegation_hops == e.max_delegation_hops,
        r.agent_default_autonomy_level@ == e.agent_default.level@,
        r.agent_default_max_tool_loop_iterations == e.agent_default.max_tool_loop_iterations,
        r.agent_default_max_delegation_hops == e.agent_default.max_delegation_hops,
        r.has_user_override == (overrides > 0),
{
    AgentRuntimeSettingsView {
        autonomy_level: e.autonomy_level.clone(),
        use_advanced_limits: e.use_advanced_limits,
        max_tool_loop_iterations: e.max_tool_loop_iterations,
        max_delegation_hops: e.max_delegation_hops,
        agent_default_autonomy_level: e.agent_default.level.clone(),
        agent_default_max_tool_loop_iterations: e.agent_default.max_tool_loop_iterations,
        agent_default_max_delegation_hops: e.agent_default.max_delegation_hops,
        has_user_override: overrides > 0,
    }
}

/// The limits that a user sets for an agent.
#[derive(Debug)]
pub struct RuntimeSettings {
    pub autonomy_level: String,
    pub use_advanced_limits: bool,
    pub iterations: i64,
    pub delegation_hops: i64,
}

/// The number that a field holds, without the blanks around it.
pub open spec fn field_number(field: Option<Seq<char>>) -> Option<int> {
    match field {
        Some(v) => natural(trimmed(v)),
        None => None,
    }
}

/// The limits that a form sets, where its level is known with its limits: two numbers
/// of its own where it has the advanced ones, else those of the level.
pub open spec fn limits_of(form: SetRuntimeSettingsForm, level: Option<AutonomyLimits>) -> Option<
    (Seq<char>, bool, int, int),
> {
    match level {
        Some(l) => if form.use_advanced_limits is Some {
            match (
                field_number(opt_text(form.iterations)),
                field_number(opt_text(form.delegation_hops)),
            ) {
                (Some(i), Some(h)) => Some((l.level@, true, i, h)),
                _ => None,
            }
        } else {
            Some(
                (
                    l.level@,
                    false,
                    l.max_tool_loop_iterations as int,
                    l.max_delegation_hops as int,
                ),
            )
        },
        None => None,
    }
}

/// The number that a field holds, without the blanks around it.
fn read_number(field: &Option<String>) -> (r: Option<i64>)
    ensures
        match field_number(opt_text(*field)) {
            Some(n) => r matches Some(v) && v == n,
            None => r is None,
        },
{
    match field {
        Some(v) => text::parse_natural(text::trim(v.as_str())),
        None => None,
    }
}

/// The limits that a form sets.
fn read_limits(form: &SetRuntimeSettingsForm, level: &Option<AutonomyLimits>) -> (r: Option<
    RuntimeSettings,
>)
    ensures
        match limits_of(*form, *level) {
            Some(l) => r matches Some(s) && l == (
                s.autonomy_level@,
                s.use_advanced_limits,
                s.iterations as int,
                s.delegation_hops as int,
            ),
            None => r is None,
        },
{
    match level {
        Some(l) => if form.use_advanced_limits.is_some() {
            match (read_number(&form.iterations), read_number(&form.delegation_hops)) {
                (Some(iterations), Some(delegation_hops)) => Some(
                    RuntimeSettings {
                        autonomy_level: l.level.clone(),
                        use_advanced_limits: true,
                        iterations,
                        delegation_hops,
                    },
                ),
                _ => None,
            }
        } else {
            Some(
                RuntimeSettings {
                    autonomy_level: l.level.clone(),
                    use_advanced_limits: false,
                    iterations: l.max_tool_loop_iterations as i64,
                    delegation_hops: l.max_delegation_hops as i64,
                },
            )
        },
        None => None,
    }
}

/// The limits that a form sets for an agent. `level` is the level of autonomy that the
/// form names, with its limits, where there is one.
pub fn set_runtime_settings_handler(
    base_path: &str,
    agent_id: &str,
    form: &SetRuntimeSettingsForm,
    level: &Option<AutonomyLimits>,
) -> (r: Verdict<RuntimeSettings>)
    ensures
        match limits_of(*form, *level) {
            Some(l) => r matches Verdict::Proceed(s) && l == (
                s.autonomy_level@,
                s.use_advanced_limits,
                s.iterations as int,
                s.delegation_hops as int,
            ),
            None => r.answers(
                Sent::Redirect(
                    base_path@ + "/agents/"@ + agent_id@ + "?error=runtime_settings_invalid"@,
                ),
            ),
        },
{
    match read_limits(form, level) {
        Some(s) => Verdict::Proceed(s),
        None => Verdict::Answer(
            agent_redirect(base_path, agent_id, "?error=runtime_settings_invalid"),
        ),
    }
}

/// The limits that a user typed in are never negative.
pub proof fn law_advanced_limits_are_natural(
    form: SetRuntimeSettingsForm,
    level: Option<AutonomyLimits>,
)
    requires
        form.use_advanced_limits is Some,
        limits_of(form, level) is Some,
    ensures
        0 <= limits_of(form, level)->Some_0.2 <= i64::MAX,
        0 <= limits_of(form, level)->Some_0.3 <= i64::MAX,
{
    text::lemma_natural(trimmed(opt_text(form.iterations)->Some_0));
    text::lemma_natural(trimmed(opt_text(form.delegation_hops)->Some_0));
}

/// Where the limits of an agent that were to be saved lead.
pub fn runtime_settings_saved(base_path: &str, agent_id: &str, done: bool) -> (r: WebAnswer)
    ensures
        r@ == Sent::Redirect(
            base_path@ + "/agents/"@ + agent_id@ + if done {
                "?success=runtime_settings_saved"@
            } else {
                "?error=runtime_settings_save_failed"@
            },
        ),
{
    if done {
        agent_redirect(base_path, agent_id, "?success=runtime_settings_saved")
    } else {
        agent_redirect(base_path, agent_id, "?error=runtime_settings_save_failed")
    }
}

// ── Secrets ──────────────────────────────────────────────────────────────────

/// Where a form leads back to: where it says, if that lies behind the prefix, else to
/// another place there.
pub open spec fn return_path(
    return_to: Option<Seq<char>>,
    base_path: Seq<char>,
    fallback: Seq<char>,
) -> Seq<char> {
    match return_to {
        Some(path) if base_path.is_prefix_of(path) => path,
        _ => base_path + fallback,
    }
}

/// Where a form leads back to.
pub fn safe_return_path(return_to: Option<&str>, base_path: &str, fallback_suffix: &str) -> (r:
    String)
    ensures
        r@ == return_path(opt_str(return_to), base_path@, fallback_suffix@),
{
    if let Some(path) = return_to {
        if text::starts_with(path, base_path) {
            return path.to_string();
        }
    }
    let mut out = base_path.to_string();
    out.append(fallback_suffix);
    out
}

/// A form never leads back to a place ahead of the prefix.
pub proof fn law_return_path_stays_behind_prefix(
    return_to: Option<Seq<char>>,
    base_path: Seq<char>,
    fallback: Seq<char>,
)
    ensures
        base_path.is_prefix_of(return_path(return_to, base_path, fallback)),
{
    assert(base_path.is_prefix_of(base_path + fallback));
}

/// Whose secret a form speaks of.
#[derive(Debug, Clone, Copy, PartialEq, Eq, Structural)]
pub enum SecretScope {
    System,
    User,
}

/// Whose secret a word stands for.
pub open spec fn secret_scope(word: Seq<char>) -> Option<SecretScope> {
    if word == "system"@ {
        Some(SecretScope::System)
    } else if word == "user"@ {
        Some(SecretScope::User)
    } else {
        None
    }
}

/// Whose secret a word stands for.
fn read_scope(word: &str) -> (r: Option<SecretScope>)
    ensures
        r == secret_scope(word@),
{
    if text::same(word, "system") {
        Some(SecretScope::System)
    } else if text::same(word, "user") {
        Some(SecretScope::User)
    } else {
        None
    }
}

/// The page with the secrets of an agent.
pub open spec fn secrets_page(agent_id: Seq<char>) -> Seq<char> {
    "/agents/"@ + agent_id + "/secrets"@
}

/// Where a form about the secrets of an agent leads back to.
fn back_to_secrets(return_to: &Option<String>, base_path: &str, agent_id: &str) -> (r: String)
    ensures
        r@ == return_path(opt_text(*return_to), base_path@, secrets_page(agent_id@)),
{
    let mut page = "/agents/".to_string();
    page.append(agent_id);
    page.append("/secrets");
    match return_to {
        Some(to) => safe_return_path(Some(to.as_str()), base_path, page.as_str()),
        None => safe_return_path(None, base_path, page.as_str()),
    }
}

/// A redirect to where a form leads back to, with what happened.
fn back_with(back: String, more: &str) -> (r: WebAnswer)
    ensures
        r@ == Sent::Redirect(back@ + more@),
{
    let mut to = back;
    to.append(more);
    WebAnswer::Redirect(to)
}

/// Whether a secret may be set, and whose it is.
pub fn agent_credential_set(
    is_admin: bool,
    base_path: &str,
    agent_id: &str,
    form: &SetAgentCredentialForm,
) -> (r: Verdict<SecretScope>)
    ensures
        ({
            let back = return_path(opt_text(form.return_to), base_path@, secrets_page(agent_id@));
            if !is_admin {
                r.answers(Sent::Status(403))
            } else if form.value@.len() == 0 {
                r.answers(Sent::Redirect(back + "?error=secret_empty"@))
            } else {
                match secret_scope(form.scope@) {
                    Some(s) => r == Verdict::<SecretScope>::Proceed(s),
                    None => r.answers(Sent::Redirect(back + "?error=invalid_scope"@)),
                }
            }
        }),
{
    if !is_admin {
        return Verdict::Answer(WebAnswer::Status(response::FORBIDDEN));
    }
    let back = back_to_secrets(&form.return_to, base_path, agent_id);
    if form.value.as_str().is_empty() {
        return Verdict::Answer(back_with(back, "?error=secret_empty"));
    }
    match read_scope(form.scope.as_str()) {
        Some(s) => Verdict::Proceed(s),
        None => Verdict::Answer(back_with(back, "?error=invalid_scope")),
    }
}

/// Where a secret that was to be set leads.
pub fn credential_saved(
    base_path: &str,
    agent_id: &str,
    return_to: &Option<String>,
    done: bool,
) -> (r: WebAnswer)
    ensures
        r@ == Sent::Redirect(
            return_path(opt_text(*return_to), base_path@, secrets_page(agent_id@)) + if done {
                "?success=secret_saved"@
            } else {
                "?error=secret_save_failed"@
            },
        ),
{
    let back = back_to_secrets(return_to, base_path, agent_id);
    if done {
        back_with(back, "?success=secret_saved")
    } else {
        back_with(back, "?error=secret_save_failed")
    }
}

/// Whether a secret may be deleted, and whose it is.
pub fn agent_credential_delete(
    is_admin: bool,
    base_path: &str,
    agent_id: &str,
    scope: &str,
    query: &CredentialDeleteQuery,
) -> (r: Verdict<SecretScope>)
    ensures
        ({
            let back = return_path(opt_text(query.return_to), base_path@, secrets_page(agent_id@));
            if !is_admin {
                r.answers(Sent::Status(403))
            } else {
                match secret_scope(scope@) {
                    Some(s) => r == Verdict::<SecretScope>::Proceed(s),
                    None => r.answers(Sent::Redirect(back + "?error=invalid_scope"@)),
                }
            }
        }),
{
    if !is_admin {
        return Verdict::Answer(WebAnswer::Status(response::FORBIDDEN));
    }
    match read_scope(scope) {
        Some(s) => Verdict::Proceed(s),
        None => Verdict::Answer(
            back_with(
                back_to_secrets(&query.return_to, base_path, agent_id),
                "?error=invalid_scope",
            ),
        ),
    }
}

/// Where a secret that was to be deleted leads, whether it was there or not.
pub fn credential_removed(
    base_path: &str,
    agent_id: &str,
    return_to: &Option<String>,
) -> (r: WebAnswer)
    ensures
        r@ == Sent::Redirect(
            return_path(opt_text(*return_to), base_path@, secrets_page(agent_id@))
                + "?success=secret_removed"@,
        ),
{
    back_with(back_to_secrets(return_to, base_path, agent_id), "?success=secret_removed")
}

// ── Permissions ──────────────────────────────────────────────────────────────

/// Whether something was stored.
pub fn stored(done: bool) -> (r: WebAnswer)
    ensures
        r@ == Sent::Status(
            if done {
                200
            } else {
                500
            },
        ),
{
    if done {
        WebAnswer::Status(response::OK)
    } else {
        WebAnswer::Status(response::INTERNAL_SERVER_ERROR)
    }
}

/// The policy that a form sets for a tool, and whether it is set for everybody: only
/// an administrator sets it for others.
pub fn set_tool_policy_handler(is_admin: bool, form: &SetToolPolicyForm) -> (r: Verdict<
    (ToolPolicy, bool),
>)
    ensures
        match tool_policy_of(form.policy@) {
            Some(p) => r == Verdict::<(ToolPolicy, bool)>::Proceed(
                (p, form.scope@ == "global"@ && is_admin),
            ),
            None => r.answers(Sent::Status(400)),
        },
{
    match ToolPolicy::parse(form.policy.as_str()) {
        Some(p) => Verdict::Proceed((p, text::same(form.scope.as_str(), "global") && is_admin)),
        None => Verdict::Answer(WebAnswer::Status(response::BAD_REQUEST)),
    }
}

/// Where a user's own policy that was to be dropped leads.
pub fn reset_tool_policy_handler(
    base_path: &str,
    agent_id: &str,
    form: &ResetToolPolicyForm,
    done: bool,
) -> (r: WebAnswer)
    ensures
        r@ == if done {
            Sent::Lead(
                return_path(
                    opt_text(form.return_to),
                    base_path@,
                    "/agents/"@ + agent_id@ + "/permissions"@,
                ),
            )
        } else {
            Sent::Status(500)
        },
{
    if !done {
        return WebAnswer::Status(response::INTERNAL_SERVER_ERROR);
    }
    let mut page = "/agents/".to_string();
    page.append(agent_id);
    page.append("/permissions");
    let to = match &form.return_to {
        Some(to) => safe_return_path(Some(to.as_str()), base_path, page.as_str()),
        None => safe_return_path(None, base_path, page.as_str()),
    };
    WebAnswer::Lead(to)
}

/// What a form sets for the network.
pub fn set_network_access_handler(form: &SetNetworkAccessForm) -> (r: Verdict<Access>)
    ensures
        match access_of(form.access@) {
            Some(a) => r == Verdict::<Access>::Proceed(a),
            None => r.answers(Sent::Status(400)),
        },
{
    match Access::parse(form.access.as_str()) {
        Some(a) => Verdict::Proceed(a),
        None => Verdict::Answer(WebAnswer::Status(response::BAD_REQUEST)),
    }
}

/// What a form sets for a host; `host` is the host that it names, in the form in which
/// hosts are stored, where it is one.
pub fn set_network_host_policy_handler(
    form: &SetNetworkHostPolicyForm,
    host: &Option<String>,
) -> (r: Verdict<(String, Access)>)
    ensures
        match (access_of(form.policy@), *host) {
            (Some(a), Some(h)) => r matches Verdict::Proceed(p) && p.0@ == h@ && p.1 == a,
            _ => r.answers(Sent::Status(400)),
        },
{
    match (Access::parse(form.policy.as_str()), host) {
        (Some(a), Some(h)) => Verdict::Proceed((h.clone(), a)),
        _ => Verdict::Answer(WebAnswer::Status(response::BAD_REQUEST)),
    }
}

/// The capability and the host of it that are deleted; `host` is the host that the form
/// names, in the form in which hosts are stored, where it is one.
pub fn delete_network_host_handler(form: DeleteNetworkHostForm, host: Option<String>) -> (r:
    Verdict<(String, String)>)
    ensures
        match host {
            Some(h) => r == Verdict::<(String, String)>::Proceed((form.capability_id, h)),
            None => r.answers(Sent::Status(400)),
        },
{
    match host {
        Some(h) => Verdict::Proceed((form.capability_id, h)),
        None => Verdict::Answer(WebAnswer::Status(response::BAD_REQUEST)),
    }
}

/// Where a host that was to be set or deleted leads.
pub fn network_host_stored(base_path: &str, agent_id: &str, done: bool) -> (r: WebAnswer)
    ensures
        r@ == if done {
            Sent::Lead(base_path@ + "/agents/"@ + agent_id@ + "/network"@)
        } else {
            Sent::Status(500)
        },
{
    if !done {
        return WebAnswer::Status(response::INTERNAL_SERVER_ERROR);
    }
    let mut to = base_path.to_string();
    to.append("/agents/");
    to.append(agent_id);
    to.append("/network");
    WebAnswer::Lead(to)
}

// ── Lessons ──────────────────────────────────────────────────────────────────

/// What a user does with a lesson that an agent learned.
#[derive(Debug, Clone, Copy, PartialEq, Eq, Structural)]
pub enum InsightAction {
    Pause,
    Reject,
    Activate,
}

/// The lesson that a form pauses, and the status that it gets.
pub fn improvement_pause_handler(form: &InsightActionForm) -> (r: (String, &'static str))
    ensures
        r.0@ == form.insight_id@,
        r.1@ == "paused"@,
{
    (form.insight_id.clone(), insight_status(InsightAction::Pause))
}

/// The lesson that a form rejects, and the status that it gets.
pub fn improvement_reject_handler(form: &InsightActionForm) -> (r: (String, &'static str))
    ensures
        r.0@ == form.insight_id@,
        r.1@ == "rejected"@,
{
    (form.insight_id.clone(), insight_status(InsightAction::Reject))
}

/// The lesson that a form activates, and the status that it gets.
pub fn improvement_activate_handler(form: &InsightActionForm) -> (r: (String, &'static str))
    ensures
        r.0@ == form.insight_id@,
        r.1@ == "active"@,
{
    (form.insight_id.clone(), insight_status(InsightAction::Activate))
}

/// The status that a lesson gets.
pub fn insight_status(action: InsightAction) -> (r: &'static str)
    ensures
        r@ == match action {
            InsightAction::Pause => "paused"@,
            InsightAction::Reject => "rejected"@,
            InsightAction::Activate => "active"@,
        },
{
    match action {
        InsightAction::Pause => "paused",
        InsightAction::Reject => "rejected",
        InsightAction::Activate => "active",
    }
}

/// What is shown of a lesson whose status was to be set, where it was there.
pub fn insight_changed(action: InsightAction, changed: bool) -> (r: WebAnswer)
    ensures
        r@ == if !changed {
            Sent::Status(404)
        } else {
            Sent::Html(
                match action {
                    InsightAction::Pause =>
                        "<span class=\"text-xs text-amber-400\" data-i18n=\"improvement.status.paused\">Paused</span>"@,
                    InsightAction::Reject =>
                        "<span class=\"text-xs text-red-400\" data-i18n=\"improvement.status.rejected\">Removed</span>"@,
                    InsightAction::Activate =>
                        "<span class=\"text-xs text-emerald-400\" data-i18n=\"improvement.status.activated\">Activated</span>"@,
                },
            )
        },
{
    if !changed {
        return WebAnswer::Status(response::NOT_FOUND);
    }
    match action {
        InsightAction::Pause => response::html(
            "<span class=\"text-xs text-amber-400\" data-i18n=\"improvement.status.paused\">Paused</span>",
        ),
        InsightAction::Reject => response::html(
            "<span class=\"text-xs text-red-400\" data-i18n=\"improvement.status.rejected\">Removed</span>",
        ),
        InsightAction::Activate => response::html(
            "<span class=\"text-xs text-emerald-400\" data-i18n=\"improvement.status.activated\">Activated</span>",
        ),
    }
}

/// Where lessons that were to be forgotten lead.
pub fn improvement_reset_handler(agent_id: &str, done: bool) -> (r: WebAnswer)
    ensures
        r@ == Sent::Redirect(
            "/agents/"@ + agent_id@ + if done {
                "/improvement?success=reset"@
            } else {
                "/improvement?error=reset_failed"@
            },
        ),
{
    if done {
        response::redirect_with("/agents/", agent_id, "/improvement?success=reset")
    } else {
        response::redirect_with("/agents/", agent_id, "/improvement?error=reset_failed")
    }
}

// ── Laws ─────────────────────────────────────────────────────────────────────

/// What an automation writes is its preset: the words to do, the times and their description, each in
/// its place; into the schedule that is there, else into a new one that is named after the agent and
/// the preset.
pub proof fn law_preset_is_written_as_it_is(
    agent_id: &str,
    preset: AutomationPreset,
    existing: Option<String>,
    next_run: &str,
    r: ScheduleWrite,
)
    requires
        call_ensures(preset_write, (agent_id, &preset, &existing, next_run), r),
    ensures
        r is Update <==> existing is Some,
        r matches ScheduleWrite::Update {
            id,
            prompt,
            cron_expression,
            cron_description,
            next_run: next,
        } ==> id@ == existing->0@ && prompt@ == preset.prompt@ && cron_expression@
            == preset.cron_expression@ && cron_description@ == preset.cron_description@ && next@
            == next_run@,
        r matches ScheduleWrite::Create { name, prompt, cron_expression, cron_description } ==> name@
            == "auto."@ + agent_id@ + "."@ + preset.id@ && prompt@ == preset.prompt@
            && cron_expression@ == preset.cron_expression@ && cron_description@
            == preset.cron_description@,
{
}

/// The schedules that are switched off are those that the presets were written into: for each preset
/// the one of its name.
pub proof fn law_disabled_schedules_are_the_written_ones(
    agent_id: &str,
    presets: Vec<AutomationPreset>,
    names: Vec<String>,
    i: int,
    next_run: &str,
    write: ScheduleWrite,
)
    requires
        call_ensures(schedules_to_disable, (agent_id, &presets), names),
        0 <= i < presets@.len(),
        call_ensures(preset_write, (agent_id, &presets@[i], &None, next_run), write),
    ensures
        names@.len() == presets@.len(),
        write matches ScheduleWrite::Create { name, prompt, cron_expression, cron_description }
            && names@[i]@ == name@,
{
    assert(texts(names@).len() == names@.len());
    assert(texts(names@)[i] == names@[i]@);
}

/// An automation can be enabled exactly with a pipe to write to and every credential that is
/// required; it writes to the pipes that were given.
pub proof fn law_enabling_needs_pipe_and_credentials(
    base_path: &str,
    agent_id: &str,
    pipe_ids: Vec<String>,
    needs: Vec<CredentialNeed>,
    r: Verdict<Vec<String>>,
)
    requires
        call_ensures(vet_enable, (base_path, agent_id, pipe_ids, &needs), r),
    ensures
        r is Proceed <==> pipe_ids@.len() > 0 && forall|i: int|
            0 <= i < needs@.len() && (#[trigger] needs@[i]).required ==> needs@[i].present,
        r matches Verdict::Proceed(v) ==> v@ == pipe_ids@,
{
    if !is_missing_one(needs@) {
        assert forall|i: int| 0 <= i < needs@.len() && (#[trigger] needs@[i]).required implies
            needs@[i].present by {}
    }
}

/// What is asked for of an automation goes by the word of the form, whatever its case: on is on and
/// off is off.
pub proof fn law_automation_goes_by_its_word(
    base_path: &str,
    agent_id: &str,
    presets: usize,
    form: ToggleAutomationForm,
    r: Verdict<Automation>,
)
    requires
        call_ensures(agent_automation_toggle, (base_path, agent_id, Some(presets), &form), r),
        presets > 0,
    ensures
        r == Verdict::<Automation>::Proceed(Automation::Enable) <==> lowered(trimmed(form.action@))
            == "enable"@,
        r == Verdict::<Automation>::Proceed(Automation::Disable) <==> lowered(trimmed(form.action@))
            == "disable"@,
{
    reveal_strlit("enable");
    reveal_strlit("disable");
    assert("enable"@.len() == 6 && "disable"@.len() == 7);
}

/// An automation is shown as enabled exactly where each preset has an active schedule, as ready
/// exactly where it can be enabled, and with its presets as they are.
pub proof fn law_automation_is_shown_as_it_is(
    presets: Vec<AutomationPreset>,
    pipe_count: i64,
    needs: Vec<CredentialNeed>,
    active_counts: Vec<i64>,
    v: AgentAutomationView,
    i: int,
)
    requires
        call_ensures(automation_view, (&presets, pipe_count, &needs, &active_counts), v),
        active_counts@.len() == presets@.len(),
    ensures
        v.supported <==> presets@.len() > 0,
        v.ready ==> presets@.len() > 0 && pipe_count != 0,
        v.missing_default_pipe <==> presets@.len() > 0 && pipe_count == 0,
        v.enabled <==> presets@.len() > 0 && forall|k: int|
            0 <= k < active_counts@.len() ==> #[trigger] active_counts@[k] > 0,
        v.total_schedule_count == presets@.len(),
        0 <= i < presets@.len() ==> v.presets@[i].label@ == presets@[i].label@
            && v.presets@[i].cron_description@ == presets@[i].cron_description@,
{
    lemma_all_active(active_counts@);
    if 0 <= i < presets@.len() {
        assert(v.presets@[i].label@ == presets@[i].label@);
    }
}

/// Every schedule is active exactly where as many are active as there are.
proof fn lemma_all_active(counts: Seq<i64>)
    ensures
        0 <= active_ones(counts) <= counts.len(),
        active_ones(counts) == counts.len() <==> forall|k: int|
            0 <= k < counts.len() ==> #[trigger] counts[k] > 0,
    decreases counts.len(),
{
    if counts.len() > 0 {
        let rest = counts.drop_last();
        lemma_all_active(rest);
        if forall|k: int| 0 <= k < counts.len() ==> #[trigger] counts[k] > 0 {
            assert forall|k: int| 0 <= k < rest.len() implies #[trigger] rest[k] > 0 by {
                assert(counts[k] > 0);
            }
            assert(counts[counts.len() - 1] > 0);
        }
        if active_ones(counts) == counts.len() {
            assert forall|k: int| 0 <= k < counts.len() implies #[trigger] counts[k] > 0 by {
                if k < rest.len() {
                    assert(rest[k] > 0);
                }
            }
        }
    }
}

/// Limits of a form's own are taken as they stand in it, each from its own field; without any, the
/// level's limits hold.
pub proof fn law_limits_are_the_entered_ones(
    base_path: &str,
    agent_id: &str,
    form: SetRuntimeSettingsForm,
    level: AutonomyLimits,
    s: RuntimeSettings,
)
    requires
        call_ensures(
            set_runtime_settings_handler,
            (base_path, agent_id, &form, &Some(level)),
            Verdict::Proceed(s),
        ),
    ensures
        s.autonomy_level@ == level.level@,
        s.use_advanced_limits <==> form.use_advanced_limits is Some,
        form.use_advanced_limits is Some ==> form.iterations is Some && natural(
            trimmed(form.iterations->0@),
        ) == Some(s.iterations as int) && form.delegation_hops is Some && natural(
            trimmed(form.delegation_hops->0@),
        ) == Some(s.delegation_hops as int),
        form.use_advanced_limits is None ==> s.iterations == level.max_tool_loop_iterations
            && s.delegation_hops == level.max_delegation_hops,
{
}

/// A credential is set or removed only by an administrator, in the scope that was named: that of
/// everybody or that of a user; and none is set that is empty.
pub proof fn law_credential_goes_where_it_was_meant(
    is_admin: bool,
    base_path: &str,
    agent_id: &str,
    form: SetAgentCredentialForm,
    scope: &str,
    query: CredentialDeleteQuery,
    r: Verdict<SecretScope>,
    s: Verdict<SecretScope>,
)
    requires
        call_ensures(agent_credential_set, (is_admin, base_path, agent_id, &form), r),
        call_ensures(agent_credential_delete, (is_admin, base_path, agent_id, scope, &query), s),
    ensures
        r is Proceed <==> is_admin && form.value@.len() > 0 && (form.scope@ == "system"@
            || form.scope@ == "user"@),
        s is Proceed <==> is_admin && (scope@ == "system"@ || scope@ == "user"@),
        r matches Verdict::Proceed(w) ==> (w == SecretScope::System <==> form.scope@ == "system"@),
        s matches Verdict::Proceed(w) ==> (w == SecretScope::System <==> scope@ == "system"@),
{
    reveal_strlit("system");
    reveal_strlit("user");
    assert("system"@.len() == 6 && "user"@.len() == 4);
}

/// A policy for everybody is set only by an administrator who asks for that; every other one is the
/// user's own. It allows exactly where the form's word says so.
pub proof fn law_policy_for_everybody_is_the_administrators(
    is_admin: bool,
    form: SetToolPolicyForm,
    r: Verdict<(ToolPolicy, bool)>,
)
    requires
        call_ensures(set_tool_policy_handler, (is_admin, &form), r),
    ensures
        r matches Verdict::Proceed((policy, global)) ==> {
            &&& global <==> is_admin && form.scope@ == "global"@
            &&& policy == ToolPolicy::Allow <==> form.policy@ == "allow"@
            &&& policy == ToolPolicy::Ask <==> form.policy@ == "ask"@
            &&& policy == ToolPolicy::Block <==> form.policy@ == "block"@
        },
        form.policy@ == "allow"@ || form.policy@ == "ask"@ || form.policy@ == "block"@
            <==> r is Proceed,
{
    reveal_strlit("allow");
    reveal_strlit("ask");
    reveal_strlit("block");
    assert("allow"@.len() == 5 && "ask"@.len() == 3 && "block"@.len() == 5);
    assert("allow"@[0] != "block"@[0]);
}

/// Access to the network, or to a host of it, is allowed exactly where the form's word says so, and
/// for the host that was read from the form.
pub proof fn law_network_is_opened_by_its_word(
    access: SetNetworkAccessForm,
    form: SetNetworkHostPolicyForm,
    host: Option<String>,
    r: Verdict<Access>,
    s: Verdict<(String, Access)>,
)
    requires
        call_ensures(set_network_access_handler, (&access,), r),
        call_ensures(set_network_host_policy_handler, (&form, &host), s),
    ensures
        r == Verdict::<Access>::Proceed(Access::Allow) <==> access.access@ == "allow"@,
        r == Verdict::<Access>::Proceed(Access::Deny) <==> access.access@ == "deny"@,
        s matches Verdict::Proceed((h, a)) ==> host is Some && h@ == host->0@ && (a == Access::Allow
            <==> form.policy@ == "allow"@) && (a == Access::Deny <==> form.policy@ == "deny"@),
{
    reveal_strlit("allow");
    reveal_strlit("deny");
    assert("allow"@.len() == 5 && "deny"@.len() == 4);
}

/// What is done to a lesson is done to the one that was named, and is what was asked for.
pub proof fn law_lessons_are_changed_as_asked(
    form: InsightActionForm,
    paused: (String, &'static str),
    rejected: (String, &'static str),
    active: (String, &'static str),
)
    requires
        call_ensures(improvement_pause_handler, (&form,), paused),
        call_ensures(improvement_reject_handler, (&form,), rejected),
        call_ensures(improvement_activate_handler, (&form,), active),
    ensures
        paused.0@ == form.insight_id@ && rejected.0@ == form.insight_id@ && active.0@
            == form.insight_id@,
        paused.1@ == "paused"@ && rejected.1@ == "rejected"@ && active.1@ == "active"@,
{
}

} // verus!
