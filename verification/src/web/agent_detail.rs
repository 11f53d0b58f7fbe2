//! The page of an agent: what it may reach, what it may do, which secrets it has and
//! what it did.
use vstd::prelude::*;
use vstd::string::*;
use crate::text;
use crate::text::{byte_len, cuts_at, first_bytes, lowered, opt_text, texts};
use crate::web::agent_entries;
use crate::web::agent_entries::{
    first_shown, memory_of, storage_of, visible_memory, visible_storage, MemoryEntryView,
    StorageEntryView, ENTRIES_SHOWN,
};
use crate::web::agent_settings;
use crate::web::agent_settings::{
    shows_automation, AgentAutomationView, AgentRuntimeSettingsView, AutomationPreset,
    CredentialNeed, EffectiveRuntime,
};
use crate::web::agent_setup;
use crate::web::order;
use crate::web::order::in_order;
use crate::web::permissions::{Access, ToolPolicy};
use crate::web::response;
use crate::web::response::{Sent, Verdict, WebAnswer};

verus! {

#[derive(Debug, Clone)]
pub struct CredentialView {
    pub capability_id: String,
    pub name: String,
    pub scope: String,
    pub description: String,
    pub required: bool,
    pub is_set: bool,
    pub set_at: Option<String>,
}

#[derive(Debug, Clone)]
pub struct CapabilityView {
    pub id: String,
    pub effective_network_mode: String,
    pub network_access_policy: String,
    pub host_policies: Vec<NetworkHostPolicyView>,
    pub filesystem: String,
    pub max_memory_mb: u32,
    pub max_cpu_fraction: String,
    pub pids_limit: u32,
    pub tools: Vec<ToolView>,
    pub credentials: Vec<CredentialView>,
}

#[derive(Debug, Clone)]
pub struct NetworkHostPolicyView {
    pub host: String,
    pub policy: String,
    pub source: String,
    pub removable: bool,
}

#[derive(Debug, Clone)]
pub struct ToolView {
    pub name: String,
    pub display_name: String,
    pub description: String,
    /// What holds for the user: "allow", "ask", "block", or "not set".
    pub policy: String,
    pub capability_id: String,
    /// What holds for everybody: "allow", "ask", "block", or "not set".
    pub global_default: String,
    /// Whether the user has a setting of their own.
    pub has_override: bool,
}

#[derive(Debug, Clone)]
pub struct EgressEntryView {
    pub capability_id: String,
    pub method: String,
    pub host: String,
    pub port: i32,
    pub allowed: bool,
    pub created_at: String,
}

/// A tool that every agent has, and what holds for it.
#[derive(Debug, Clone)]
pub struct BuiltinPolicyView {
    pub capability_id: String,
    pub tool_name: String,
    pub display_name: String,
    /// What holds for the user.
    pub policy: String,
    /// Whether the user has a setting of their own.
    pub has_override: bool,
}

#[derive(Debug, Clone)]
pub struct InsightView {
    pub id: String,
    pub lesson_text: String,
    pub insight_type: String,
    pub status: String,
    pub confidence_pct: u8,
    pub supporting_signals: i64,
    pub promotion_threshold: i64,
    pub created_at: String,
}

#[derive(Debug, Clone)]
pub struct AgentOverviewStats {
    pub capability_count: usize,
    pub storage_count: i64,
    pub memory_count: i64,
    pub network_request_count: i64,
    pub permissions_allow_count: usize,
    pub permissions_ask_count: usize,
    pub permissions_block_count: usize,
    pub secrets_set_count: usize,
    pub secrets_missing_count: usize,
}

#[derive(Debug)]
pub struct AgentDetailQuery {
    pub error: Option<String>,
    pub success: Option<String>,
}

// ── Hosts ────────────────────────────────────────────────────────────────────

/// What a user set for a host.
#[derive(Debug)]
pub struct HostOverride {
    pub host: String,
    pub policy: Access,
}

/// A host as shown, as a value.
pub struct HostText {
    pub host: Seq<char>,
    pub policy: Seq<char>,
    pub source: Seq<char>,
    pub removable: bool,
}

impl NetworkHostPolicyView {
    pub open spec fn view(&self) -> HostText {
        HostText {
            host: self.host@,
            policy: self.policy@,
            source: self.source@,
            removable: self.removable,
        }
    }
}

/// What was set last for a host.
pub open spec fn set_for(overrides: Seq<HostOverride>, host: Seq<char>) -> Option<Access>
    decreases overrides.len(),
{
    if overrides.len() == 0 {
        None
    } else if overrides.last().host@ == host {
        Some(overrides.last().policy)
    } else {
        set_for(overrides.drop_last(), host)
    }
}

/// One of a capability's own hosts, as shown: in lower case, and open unless the user
/// closed it.
pub open spec fn own_host(host: Seq<char>, overrides: Seq<HostOverride>) -> HostText {
    HostText {
        host: lowered(host),
        policy: if set_for(overrides, lowered(host)) == Some(Access::Deny) {
            "deny"@
        } else {
            "allow"@
        },
        source: "default"@,
        removable: false,
    }
}

/// Whether a host is one of a capability's own, in upper or lower case.
pub open spec fn is_own(hosts: Seq<Seq<char>>, host: Seq<char>) -> bool {
    exists|i: int| 0 <= i < hosts.len() && lowered(#[trigger] hosts[i]) == lowered(host)
}

/// A host that the user set, as shown, where it is none of the capability's own and
/// was not set again later.
pub open spec fn custom_host(
    hosts: Seq<Seq<char>>,
    o: HostOverride,
    later: Seq<HostOverride>,
) -> Option<HostText> {
    if is_own(hosts, o.host@) || set_for(later, o.host@) is Some {
        None
    } else {
        Some(
            HostText {
                host: o.host@,
                policy: o.policy.word(),
                source: "custom"@,
                removable: true,
            },
        )
    }
}

/// The hosts that the user set from the place `from` on, as shown.
pub open spec fn custom_hosts(
    hosts: Seq<Seq<char>>,
    overrides: Seq<HostOverride>,
    from: int,
) -> Seq<HostText>
    decreases overrides.len() - from,
{
    if from < 0 || from >= overrides.len() {
        Seq::empty()
    } else {
        let rest = custom_hosts(hosts, overrides, from + 1);
        let later = overrides.subrange(from + 1, overrides.len() as int);
        match custom_host(hosts, overrides[from], later) {
            Some(h) => seq![h] + rest,
            None => rest,
        }
    }
}

/// The hosts of a capability: its own, and those that the user set.
pub open spec fn all_hosts(hosts: Seq<Seq<char>>, overrides: Seq<HostOverride>) -> Seq<HostText> {
    hosts.map_values(|h: Seq<char>| own_host(h, overrides)) + custom_hosts(hosts, overrides, 0)
}

/// The names of hosts.
pub open spec fn host_names(v: Seq<HostText>) -> Seq<Seq<char>> {
    v.map_values(|h: HostText| h.host)
}

/// The hosts of a capability by their names.
pub open spec fn shown_hosts(hosts: Seq<Seq<char>>, overrides: Seq<HostOverride>) -> Seq<HostText> {
    let all = all_hosts(hosts, overrides);
    in_order(all, host_names(all), false)
}

/// The hosts that a list holds, as values.
pub open spec fn host_texts(v: Seq<NetworkHostPolicyView>) -> Seq<HostText> {
    v.map_values(|h: NetworkHostPolicyView| h@)
}

/// What was set last for a host, from the place `from` on.
fn last_set(overrides: &Vec<HostOverride>, from: usize, host: &str) -> (r: Option<Access>)
    requires
        from <= overrides@.len(),
    ensures
        r == set_for(overrides@.subrange(from as int, overrides@.len() as int), host@),
{
    let ghost rest = overrides@.subrange(from as int, overrides@.len() as int);
    let mut i: usize = overrides.len();
    proof {
        assert(rest.take(i - from) =~= rest);
    }
    while i > from
        invariant
            from <= i <= overrides@.len(),
            rest == overrides@.subrange(from as int, overrides@.len() as int),
            set_for(rest, host@) == set_for(rest.take(i - from), host@),
        decreases i,
    {
        proof {
            assert(rest.take(i - from).last() == overrides@[i - 1]);
            assert(rest.take(i - from).drop_last() =~= rest.take(i - 1 - from));
        }
        i -= 1;
        if text::same(overrides[i].host.as_str(), host) {
            return Some(overrides[i].policy);
        }
    }
    None
}

/// Whether a host is one of a capability's own, in upper or lower case.
fn is_own_host(hosts: &Vec<String>, host: &str) -> (r: bool)
    ensures
        r == is_own(texts(hosts@), host@),
{
    let wanted = text::to_lower(host);
    let mut i: usize = 0;
    while i < hosts.len()
        invariant
            i <= hosts@.len(),
            wanted@ == lowered(host@),
            forall|j: int| 0 <= j < i ==> lowered(#[trigger] texts(hosts@)[j]) != lowered(host@),
        decreases hosts@.len() - i,
    {
        let own = text::to_lower(hosts[i].as_str());
        assert(texts(hosts@)[i as int] == hosts@[i as int]@);
        if text::same(own.as_str(), wanted.as_str()) {
            return true;
        }
        i += 1;
    }
    false
}

/// The hosts of a capability in the order in which they came.
fn collect_hosts(hosts: &Vec<String>, overrides: &Vec<HostOverride>) -> (r: Vec<
    NetworkHostPolicyView,
>)
    ensures
        host_texts(r@) == all_hosts(texts(hosts@), overrides@),
{
    let ghost own = texts(hosts@);
    let ghost shown = own.map_values(|h: Seq<char>| own_host(h, overrides@));
    let mut out: Vec<NetworkHostPolicyView> = Vec::new();
    let mut i: usize = 0;
    while i < hosts.len()
        invariant
            i <= hosts@.len(),
            own == texts(hosts@),
            shown == own.map_values(|h: Seq<char>| own_host(h, overrides@)),
            host_texts(out@) == shown.take(i as int),
        decreases hosts@.len() - i,
    {
        let ghost before = host_texts(out@);
        let host = text::to_lower(hosts[i].as_str());
        let set = last_set(overrides, 0, host.as_str());
        proof {
            assert(overrides@.subrange(0, overrides@.len() as int) =~= overrides@);
        }
        let policy = match set {
            Some(Access::Deny) => "deny",
            _ => "allow",
        };
        let v = NetworkHostPolicyView {
            host,
            policy: policy.to_string(),
            source: "default".to_string(),
            removable: false,
        };
        let ghost e = v@;
        out.push(v);
        proof {
            assert(e == shown[i as int]);
            assert(host_texts(out@) =~= before.push(e));
            assert(shown.take(i + 1) =~= shown.take(i as int).push(e));
        }
        i += 1;
    }
    proof {
        assert(shown.take(i as int) =~= shown);
        assert(shown + custom_hosts(own, overrides@, 0) =~= all_hosts(own, overrides@));
    }
    let mut k: usize = 0;
    while k < overrides.len()
        invariant
            k <= overrides@.len(),
            own == texts(hosts@),
            host_texts(out@) + custom_hosts(own, overrides@, k as int) == all_hosts(
                own,
                overrides@,
            ),
        decreases overrides@.len() - k,
    {
        let ghost before = host_texts(out@);
        let o = &overrides[k];
        let ghost rest = custom_hosts(own, overrides@, k + 1);
        if !is_own_host(hosts, o.host.as_str()) && last_set(
            overrides,
            k + 1,
            o.host.as_str(),
        ).is_none() {
            let v = NetworkHostPolicyView {
                host: o.host.clone(),
                policy: o.policy.as_str().to_string(),
                source: "custom".to_string(),
                removable: true,
            };
            let ghost e = v@;
            out.push(v);
            proof {
                assert(host_texts(out@) =~= before.push(e));
                assert(before.push(e) + rest =~= before + (seq![e] + rest));
            }
        }
        k += 1;
    }
    proof {
        assert(host_texts(out@) + custom_hosts(own, overrides@, k as int) =~= host_texts(out@));
    }
    out
}

/// The hosts of a capability by their names: its own, which are open unless the user
/// closed them, and those that the user set.
pub fn host_policies(hosts: &Vec<String>, overrides: &Vec<HostOverride>) -> (r: Vec<
    NetworkHostPolicyView,
>)
    ensures
        host_texts(r@) == shown_hosts(texts(hosts@), overrides@),
{
    let all = collect_hosts(hosts, overrides);
    let ghost names = host_names(host_texts(all@));
    let mut keys: Vec<String> = Vec::new();
    let mut i: usize = 0;
    while i < all.len()
        invariant
            i <= all@.len(),
            names == host_names(host_texts(all@)),
            texts(keys@) == names.take(i as int),
        decreases all@.len() - i,
    {
        let ghost before = texts(keys@);
        keys.push(all[i].host.clone());
        proof {
            assert(texts(keys@) =~= before.push(all@[i as int].host@));
            assert(names.take(i + 1) =~= names.take(i as int).push(all@[i as int].host@));
        }
        i += 1;
    }
    proof {
        assert(names.take(i as int) =~= names);
        order::lemma_in_order_mapped(all@, |h: NetworkHostPolicyView| h@, names, false);
    }
    order::sort(all, &keys, false)
}

/// A host that the user set last is the last one set from its place on.
proof fn lemma_set_for_last(overrides: Seq<HostOverride>, host: Seq<char>, from: int) -> (r: int)
    requires
        0 <= from <= overrides.len(),
        set_for(overrides.subrange(from, overrides.len() as int), host) is Some,
    ensures
        from <= r < overrides.len(),
        overrides[r].host@ == host,
        Some(overrides[r].policy) == set_for(
            overrides.subrange(from, overrides.len() as int),
            host,
        ),
        set_for(overrides.subrange(r + 1, overrides.len() as int), host) is None,
    decreases overrides.len() - from,
{
    let n = overrides.len() as int;
    let later = overrides.subrange(from + 1, n);
    let rest = overrides.subrange(from, n);
    assert(rest =~= seq![overrides[from]] + later);
    lemma_set_for_first(overrides[from], later, host);
    if set_for(later, host) is Some {
        lemma_set_for_last(overrides, host, from + 1)
    } else {
        from
    }
}

/// What was set first counts where nothing was set later.
proof fn lemma_set_for_first(first: HostOverride, later: Seq<HostOverride>, host: Seq<char>)
    ensures
        set_for(seq![first] + later, host) == match set_for(later, host) {
            Some(p) => Some(p),
            None => if first.host@ == host {
                Some(first.policy)
            } else {
                None
            },
        },
    decreases later.len(),
{
    let all = seq![first] + later;
    if later.len() == 0 {
        assert(all.last() == first);
        assert(all.drop_last() =~= Seq::<HostOverride>::empty());
        assert(set_for(Seq::<HostOverride>::empty(), host) is None);
    } else {
        assert(all.last() == later.last());
        assert(all.drop_last() =~= seq![first] + later.drop_last());
        lemma_set_for_first(first, later.drop_last(), host);
    }
}

/// A host that was set and is none of the capability's own is shown as it was set.
proof fn lemma_custom_is_there(
    hosts: Seq<Seq<char>>,
    overrides: Seq<HostOverride>,
    i: int,
    from: int,
) -> (r: int)
    requires
        0 <= from <= i < overrides.len(),
        custom_host(
            hosts,
            overrides[i],
            overrides.subrange(i + 1, overrides.len() as int),
        ) is Some,
    ensures
        0 <= r < custom_hosts(hosts, overrides, from).len(),
        Some(custom_hosts(hosts, overrides, from)[r]) == custom_host(
            hosts,
            overrides[i],
            overrides.subrange(i + 1, overrides.len() as int),
        ),
    decreases i - from,
{
    if from == i {
        0
    } else {
        let k = lemma_custom_is_there(hosts, overrides, i, from + 1);
        let rest = custom_hosts(hosts, overrides, from + 1);
        match custom_host(
            hosts,
            overrides[from],
            overrides.subrange(from + 1, overrides.len() as int),
        ) {
            Some(h) => {
                assert((seq![h] + rest)[k + 1] == rest[k]);
                k + 1
            },
            None => k,
        }
    }
}

/// What a user set last for a host, written in lower case, is what is shown of it.
pub proof fn law_setting_of_a_host_is_shown(
    hosts: Seq<Seq<char>>,
    overrides: Seq<HostOverride>,
    host: Seq<char>,
    policy: Access,
)
    requires
        lowered(host) == host,
        set_for(overrides, host) == Some(policy),
    ensures
        exists|k: int|
            0 <= k < shown_hosts(hosts, overrides).len() && (#[trigger] shown_hosts(
                hosts,
                overrides,
            )[k]).host == host && shown_hosts(hosts, overrides)[k].policy == policy.word(),
{
    let all = all_hosts(hosts, overrides);
    let own = hosts.map_values(|h: Seq<char>| own_host(h, overrides));
    let custom = custom_hosts(hosts, overrides, 0);
    let i = if is_own(hosts, host) {
        let i = choose|i: int| 0 <= i < hosts.len() && lowered(#[trigger] hosts[i]) == lowered(host);
        assert(all[i] == own_host(hosts[i], overrides));
        i
    } else {
        assert(overrides.subrange(0, overrides.len() as int) =~= overrides);
        let j = lemma_set_for_last(overrides, host, 0);
        let k = lemma_custom_is_there(hosts, overrides, j, 0);
        assert(all[own.len() + k] == custom[k]);
        own.len() + k
    };
    let r = order::lemma_in_order_has(all, host_names(all), false, i);
    assert(shown_hosts(hosts, overrides)[r] == all[i]);
}

/// The hosts of a capability are shown by their names.
pub proof fn law_hosts_are_sorted(
    hosts: Seq<Seq<char>>,
    overrides: Seq<HostOverride>,
    a: int,
    b: int,
)
    requires
        0 <= a < b < shown_hosts(hosts, overrides).len(),
    ensures
        !text::before(
            shown_hosts(hosts, overrides)[b].host,
            shown_hosts(hosts, overrides)[a].host,
        ),
{
    let all = all_hosts(hosts, overrides);
    let keys = host_names(all);
    order::law_in_order(keys, false);
    let o = order::order_of(keys, false);
    assert(order::goes_ahead(keys, false, o[a], o[b]));
    assert(shown_hosts(hosts, overrides)[a] == all[o[a]]);
    assert(shown_hosts(hosts, overrides)[b] == all[o[b]]);
    text::lemma_before_irreflexive(keys[o[a]]);
    if text::before(keys[o[a]], keys[o[b]]) {
        text::lemma_before_asymmetric(keys[o[a]], keys[o[b]]);
    }
}

// ── Tools ────────────────────────────────────────────────────────────────────

/// What was set for a tool of a capability, for everybody or for a user.
#[derive(Debug)]
pub struct PolicyRow {
    pub capability_id: String,
    pub tool_name: String,
    pub policy: ToolPolicy,
}

/// What was set last for a tool.
pub open spec fn policy_for(
    rows: Seq<PolicyRow>,
    capability_id: Seq<char>,
    tool: Seq<char>,
) -> Option<Seq<char>>
    decreases rows.len(),
{
    if rows.len() == 0 {
        None
    } else if rows.last().capability_id@ == capability_id && rows.last().tool_name@ == tool {
        Some(rows.last().policy.word())
    } else {
        policy_for(rows.drop_last(), capability_id, tool)
    }
}

/// What holds for everybody.
pub open spec fn default_policy(
    global: Seq<PolicyRow>,
    capability_id: Seq<char>,
    tool: Seq<char>,
) -> Seq<char> {
    match policy_for(global, capability_id, tool) {
        Some(p) => p,
        None => "not set"@,
    }
}

/// What holds for a user: their own setting, else what holds for everybody.
pub open spec fn effective_policy(
    global: Seq<PolicyRow>,
    own: Seq<PolicyRow>,
    capability_id: Seq<char>,
    tool: Seq<char>,
) -> Seq<char> {
    match policy_for(own, capability_id, tool) {
        Some(p) => p,
        None => default_policy(global, capability_id, tool),
    }
}

/// What was set last for a tool.
fn find_policy(rows: &Vec<PolicyRow>, capability_id: &str, tool: &str) -> (r: Option<String>)
    ensures
        opt_text(r) == policy_for(rows@, capability_id@, tool@),
{
    let mut i: usize = rows.len();
    proof {
        assert(rows@.take(i as int) =~= rows@);
    }
    while i > 0
        invariant
            i <= rows@.len(),
            policy_for(rows@, capability_id@, tool@) == policy_for(
                rows@.take(i as int),
                capability_id@,
                tool@,
            ),
        decreases i,
    {
        proof {
            assert(rows@.take(i as int).last() == rows@[i - 1]);
            assert(rows@.take(i as int).drop_last() =~= rows@.take(i - 1));
        }
        i -= 1;
        if text::same(rows[i].capability_id.as_str(), capability_id) && text::same(
            rows[i].tool_name.as_str(),
            tool,
        ) {
            return Some(rows[i].policy.as_str().to_string());
        }
    }
    None
}

/// What holds for a tool: for everybody, for the user, and whether the user has a
/// setting of their own.
fn policies_for(
    global: &Vec<PolicyRow>,
    own: &Vec<PolicyRow>,
    capability_id: &str,
    tool: &str,
) -> (r: (String, String, bool))
    ensures
        r.0@ == default_policy(global@, capability_id@, tool@),
        r.1@ == effective_policy(global@, own@, capability_id@, tool@),
        r.2 == policy_for(own@, capability_id@, tool@) is Some,
{
    let global_default = match find_policy(global, capability_id, tool) {
        Some(p) => p,
        None => "not set".to_string(),
    };
    match find_policy(own, capability_id, tool) {
        Some(p) => (global_default, p, true),
        None => {
            let policy = global_default.clone();
            (global_default, policy, false)
        },
    }
}

/// A tool of a capability: its description, and that and its name in the user's
/// language.
#[derive(Debug)]
pub struct ToolEntry {
    pub name: String,
    pub display_name: String,
    pub description: String,
    pub localized_description: String,
}

impl ToolEntry {
    /// Whether the description is shown shortened.
    pub open spec fn is_long(self) -> bool {
        byte_len(self.description@) > 120 && byte_len(self.localized_description@) > 120
    }

    /// Whether the description can be shown: a long one is cut between characters.
    pub open spec fn can_be_shown(self) -> bool {
        self.is_long() ==> cuts_at(self.localized_description@, 117)
    }

    /// The description as shown.
    pub open spec fn shown_description(self) -> Seq<char> {
        if self.is_long() {
            first_bytes(self.localized_description@, 117) + "..."@
        } else {
            self.localized_description@
        }
    }
}

/// Whether `v` shows a tool of a capability.
pub open spec fn shows_tool(
    v: ToolView,
    capability_id: Seq<char>,
    tool: ToolEntry,
    global: Seq<PolicyRow>,
    own: Seq<PolicyRow>,
) -> bool {
    &&& v.name@ == tool.name@
    &&& v.display_name@ == tool.display_name@
    &&& v.description@ == tool.shown_description()
    &&& v.capability_id@ == capability_id
    &&& v.policy@ == effective_policy(global, own, capability_id, tool.name@)
    &&& v.global_default@ == default_policy(global, capability_id, tool.name@)
    &&& v.has_override == policy_for(own, capability_id, tool.name@) is Some
}

/// A tool of a capability as shown.
pub fn tool_view(
    capability_id: &str,
    tool: &ToolEntry,
    global: &Vec<PolicyRow>,
    own: &Vec<PolicyRow>,
) -> (r: ToolView)
    requires
        tool.can_be_shown(),
    ensures
        shows_tool(r, capability_id@, *tool, global@, own@),
{
    let (global_default, policy, has_override) = policies_for(
        global,
        own,
        capability_id,
        tool.name.as_str(),
    );
    let description = if text::byte_count(tool.description.as_str()) > 120 && text::byte_count(
        tool.localized_description.as_str(),
    ) > 120 {
        let mut short = text::head_bytes(tool.localized_description.as_str(), 117).to_string();
        short.append("...");
        short
    } else {
        tool.localized_description.clone()
    };
    ToolView {
        name: tool.name.clone(),
        display_name: tool.display_name.clone(),
        description,
        policy,
        capability_id: capability_id.to_string(),
        global_default,
        has_override,
    }
}

// ── Capabilities ─────────────────────────────────────────────────────────────

/// Whose a credential is.
#[derive(Debug, Clone, Copy, PartialEq, Eq, Structural)]
pub enum CredentialScope {
    System,
    User,
}

/// How a capability reaches the network.
#[derive(Debug, Clone, Copy, PartialEq, Eq, Structural)]
pub enum NetworkMode {
    Closed,
    Allowlist,
    Any,
}

/// What a capability sees of the file system.
#[derive(Debug, Clone, Copy, PartialEq, Eq, Structural)]
pub enum FilesystemPolicy {
    Closed,
    Temp,
    Workspace,
}

/// A credential that a capability asks for, with its description in the user's
/// language. `stored` is there where it is set, with the time at which that was done
/// as far as it is known.
#[derive(Debug)]
pub struct CredentialEntry {
    pub name: String,
    pub scope: CredentialScope,
    pub description: String,
    pub required: bool,
    pub stored: Option<Option<String>>,
}

/// Whether `v` shows a credential of a capability.
pub open spec fn shows_credential(
    v: CredentialView,
    capability_id: Seq<char>,
    c: CredentialEntry,
) -> bool {
    &&& v.capability_id@ == capability_id
    &&& v.name@ == c.name@
    &&& v.scope@ == match c.scope {
        CredentialScope::System => "system"@,
        CredentialScope::User => "user"@,
    }
    &&& v.description@ == c.description@
    &&& v.required == c.required
    &&& v.is_set == c.stored is Some
    &&& opt_text(v.set_at) == match c.stored {
        Some(at) => opt_text(at),
        None => None,
    }
}

/// A credential of a capability as shown.
pub fn credential_view(capability_id: &str, c: &CredentialEntry) -> (r: CredentialView)
    ensures
        shows_credential(r, capability_id@, *c),
{
    let set_at = match &c.stored {
        Some(Some(at)) => Some(at.clone()),
        _ => None,
    };
    CredentialView {
        capability_id: capability_id.to_string(),
        name: c.name.clone(),
        scope: match c.scope {
            CredentialScope::System => "system".to_string(),
            CredentialScope::User => "user".to_string(),
        },
        description: c.description.clone(),
        required: c.required,
        is_set: c.stored.is_some(),
        set_at,
    }
}

/// A capability of an agent. `network_mode` is how it reaches the network with the
/// settings of the user, `access` whether the user set that it may at all, and
/// `max_cpu` its share of the processor in percent.
#[derive(Debug)]
pub struct CapabilityEntry {
    pub id: String,
    pub network_mode: NetworkMode,
    pub access: Option<Access>,
    pub hosts: Vec<String>,
    pub host_overrides: Vec<HostOverride>,
    pub filesystem: FilesystemPolicy,
    pub max_memory_mb: u32,
    pub max_cpu: String,
    pub pids_limit: u32,
    pub tools: Vec<ToolEntry>,
    pub credentials: Vec<CredentialEntry>,
}

/// Whether `v` shows a capability.
pub open spec fn shows_capability(
    v: CapabilityView,
    c: CapabilityEntry,
    global: Seq<PolicyRow>,
    own: Seq<PolicyRow>,
) -> bool {
    &&& v.id@ == c.id@
    &&& v.effective_network_mode@ == match c.network_mode {
        NetworkMode::Closed => "none"@,
        NetworkMode::Allowlist => "allowlist"@,
        NetworkMode::Any => "any"@,
    }
    &&& v.network_access_policy@ == match c.access {
        Some(a) => a.word(),
        None => "allow"@,
    }
    &&& host_texts(v.host_policies@) == shown_hosts(texts(c.hosts@), c.host_overrides@)
    &&& v.filesystem@ == match c.filesystem {
        FilesystemPolicy::Closed => "none"@,
        FilesystemPolicy::Temp => "temp"@,
        FilesystemPolicy::Workspace => "workspace"@,
    }
    &&& v.max_memory_mb == c.max_memory_mb
    &&& v.max_cpu_fraction@ == c.max_cpu@
    &&& v.pids_limit == c.pids_limit
    &&& v.tools@.len() == c.tools@.len()
    &&& forall|i: int|
        0 <= i < c.tools@.len() ==> shows_tool(
            #[trigger] v.tools@[i],
            c.id@,
            c.tools@[i],
            global,
            own,
        )
    &&& v.credentials@.len() == c.credentials@.len()
    &&& forall|i: int|
        0 <= i < c.credentials@.len() ==> shows_credential(
            #[trigger] v.credentials@[i],
            c.id@,
            c.credentials@[i],
        )
}

/// A capability as shown.
pub fn capability_view(
    c: &CapabilityEntry,
    global: &Vec<PolicyRow>,
    own: &Vec<PolicyRow>,
) -> (r: CapabilityView)
    requires
        forall|i: int| 0 <= i < c.tools@.len() ==> (#[trigger] c.tools@[i]).can_be_shown(),
    ensures
        shows_capability(r, *c, global@, own@),
{
    let mut tools: Vec<ToolView> = Vec::new();
    let mut i: usize = 0;
    while i < c.tools.len()
        invariant
            i <= c.tools@.len(),
            forall|k: int| 0 <= k < c.tools@.len() ==> (#[trigger] c.tools@[k]).can_be_shown(),
            tools@.len() == i,
            forall|k: int|
                0 <= k < i ==> shows_tool(
                    #[trigger] tools@[k],
                    c.id@,
                    c.tools@[k],
                    global@,
                    own@,
                ),
        decreases c.tools@.len() - i,
    {
        tools.push(tool_view(c.id.as_str(), &c.tools[i], global, own));
        i += 1;
    }
    let mut credentials: Vec<CredentialView> = Vec::new();
    let mut k: usize = 0;
    while k < c.credentials.len()
        invariant
            k <= c.credentials@.len(),
            credentials@.len() == k,
            forall|j: int|
                0 <= j < k ==> shows_credential(
                    #[trigger] credentials@[j],
                    c.id@,
                    c.credentials@[j],
                ),
        decreases c.credentials@.len() - k,
    {
        credentials.push(credential_view(c.id.as_str(), &c.credentials[k]));
        k += 1;
    }
    CapabilityView {
        id: c.id.clone(),
        effective_network_mode: match c.network_mode {
            NetworkMode::Closed => "none".to_string(),
            NetworkMode::Allowlist => "allowlist".to_string(),
            NetworkMode::Any => "any".to_string(),
        },
        network_access_policy: match c.access {
            Some(a) => a.as_str().to_string(),
            None => "allow".to_string(),
        },
        host_policies: host_policies(&c.hosts, &c.host_overrides),
        filesystem: match c.filesystem {
            FilesystemPolicy::Closed => "none".to_string(),
            FilesystemPolicy::Temp => "temp".to_string(),
            FilesystemPolicy::Workspace => "workspace".to_string(),
        },
        max_memory_mb: c.max_memory_mb,
        max_cpu_fraction: c.max_cpu.clone(),
        pids_limit: c.pids_limit,
        tools,
        credentials,
    }
}

// ── Tools that every agent has ───────────────────────────────────────────────

/// The capability that stands for the tools that every agent has.
pub const BUILTIN_CAPABILITY_ID: &'static str = "__builtin__";

/// The tools that every agent has, by their names and what they are called.
pub open spec fn builtin_tools(agent_id: Seq<char>) -> Seq<(Seq<char>, Seq<char>)> {
    (if agent_id == "default"@ {
        seq![("delegate_to_agent"@, "Delegate to Agent"@)]
    } else {
        Seq::empty()
    }) + seq![
        ("store_get"@, "Store Get"@),
        ("store_set"@, "Store Set"@),
        ("store_delete"@, "Store Delete"@),
        ("store_list"@, "Store List"@),
        ("memory_remember"@, "Memory Remember"@),
        ("memory_forget"@, "Memory Forget"@),
        ("memory_search"@, "Memory Search"@),
        ("memory_list"@, "Memory List"@),
        ("set_schedule"@, "Set Schedule"@),
        ("set_reminder"@, "Set Reminder"@),
    ]
}

/// Whether `v` shows a tool that every agent has.
pub open spec fn shows_builtin(
    v: BuiltinPolicyView,
    tool: (Seq<char>, Seq<char>),
    global: Seq<PolicyRow>,
    own: Seq<PolicyRow>,
) -> bool {
    &&& v.capability_id@ == "__builtin__"@
    &&& v.tool_name@ == tool.0
    &&& v.display_name@ == tool.1
    &&& v.policy@ == effective_policy(global, own, "__builtin__"@, tool.0)
    &&& v.has_override == policy_for(own, "__builtin__"@, tool.0) is Some
}

/// Whether `v` shows the first tools that every agent has.
pub open spec fn shows_builtins(
    v: Seq<BuiltinPolicyView>,
    tools: Seq<(Seq<char>, Seq<char>)>,
    global: Seq<PolicyRow>,
    own: Seq<PolicyRow>,
) -> bool {
    &&& v.len() == tools.len()
    &&& forall|i: int|
        0 <= i < v.len() ==> shows_builtin(#[trigger] v[i], tools[i], global, own)
}

/// Adds a tool that every agent has.
fn add_builtin(
    out: &mut Vec<BuiltinPolicyView>,
    tool_name: &str,
    display_name: &str,
    global: &Vec<PolicyRow>,
    own: &Vec<PolicyRow>,
    Ghost(tools): Ghost<Seq<(Seq<char>, Seq<char>)>>,
)
    requires
        shows_builtins(old(out)@, tools, global@, own@),
    ensures
        shows_builtins(final(out)@, tools.push((tool_name@, display_name@)), global@, own@),
{
    let (_global_default, policy, has_override) = policies_for(
        global,
        own,
        BUILTIN_CAPABILITY_ID,
        tool_name,
    );
    out.push(
        BuiltinPolicyView {
            capability_id: BUILTIN_CAPABILITY_ID.to_string(),
            tool_name: tool_name.to_string(),
            display_name: display_name.to_string(),
            policy,
            has_override,
        },
    );
}

/// The tools that every agent has, as shown. Only the default agent hands tasks to
/// others.
pub fn builtin_policies(agent_id: &str, global: &Vec<PolicyRow>, own: &Vec<PolicyRow>) -> (r: Vec<
    BuiltinPolicyView,
>)
    ensures
        shows_builtins(r@, builtin_tools(agent_id@), global@, own@),
{
    let mut out: Vec<BuiltinPolicyView> = Vec::new();
    let ghost all = builtin_tools(agent_id@);
    let ghost d: int = if agent_id@ == "default"@ {
        1
    } else {
        0
    };
    if agent_setup::show_delegate_permission(agent_id) {
        add_builtin(
            &mut out,
            "delegate_to_agent",
            "Delegate to Agent",
            global,
            own,
            Ghost(Seq::empty()),
        );
    }
    proof {
        assert(shows_builtins(out@, all.take(d), global@, own@));
    }
    add_builtin(&mut out, "store_get", "Store Get", global, own, Ghost(all.take(d)));
    proof {
        assert(all.take(d + 1) =~= all.take(d).push(("store_get"@, "Store Get"@)));
    }
    add_builtin(&mut out, "store_set", "Store Set", global, own, Ghost(all.take(d + 1)));
    proof {
        assert(all.take(d + 2) =~= all.take(d + 1).push(("store_set"@, "Store Set"@)));
    }
    add_builtin(&mut out, "store_delete", "Store Delete", global, own, Ghost(all.take(d + 2)));
    proof {
        assert(all.take(d + 3) =~= all.take(d + 2).push(("store_delete"@, "Store Delete"@)));
    }
    add_builtin(&mut out, "store_list", "Store List", global, own, Ghost(all.take(d + 3)));
    proof {
        assert(all.take(d + 4) =~= all.take(d + 3).push(("store_list"@, "Store List"@)));
    }
    add_builtin(&mut out, "memory_remember", "Memory Remember", global, own, Ghost(all.take(d + 4)));
    proof {
        assert(all.take(d + 5) =~= all.take(d + 4).push(("memory_remember"@, "Memory Remember"@)));
    }
    add_builtin(&mut out, "memory_forget", "Memory Forget", global, own, Ghost(all.take(d + 5)));
    proof {
        assert(all.take(d + 6) =~= all.take(d + 5).push(("memory_forget"@, "Memory Forget"@)));
    }
    add_builtin(&mut out, "memory_search", "Memory Search", global, own, Ghost(all.take(d + 6)));
    proof {
        assert(all.take(d + 7) =~= all.take(d + 6).push(("memory_search"@, "Memory Search"@)));
    }
    add_builtin(&mut out, "memory_list", "Memory List", global, own, Ghost(all.take(d + 7)));
    proof {
        assert(all.take(d + 8) =~= all.take(d + 7).push(("memory_list"@, "Memory List"@)));
    }
    add_builtin(&mut out, "set_schedule", "Set Schedule", global, own, Ghost(all.take(d + 8)));
    proof {
        assert(all.take(d + 9) =~= all.take(d + 8).push(("set_schedule"@, "Set Schedule"@)));
    }
    add_builtin(&mut out, "set_reminder", "Set Reminder", global, own, Ghost(all.take(d + 9)));
    proof {
        assert(all.take(d + 10) =~= all.take(d + 9).push(("set_reminder"@, "Set Reminder"@)));
    }
    proof {
        assert(all.take(d + 10) =~= all);
    }
    out
}

// ── What is counted ──────────────────────────────────────────────────────────

/// How many of some words are `word`.
pub open spec fn tally(words: Seq<Seq<char>>, word: Seq<char>) -> int
    decreases words.len(),
{
    if words.len() == 0 {
        0
    } else {
        tally(words.drop_last(), word) + if words.last() == word {
            1int
        } else {
            0
        }
    }
}

/// How many of some flags are set.
pub open spec fn tally_set(flags: Seq<bool>) -> int
    decreases flags.len(),
{
    if flags.len() == 0 {
        0
    } else {
        tally_set(flags.drop_last()) + if flags.last() {
            1int
        } else {
            0
        }
    }
}

/// What holds for the tools of some capabilities and for those that every agent has.
pub open spec fn policies_shown(
    capabilities: Seq<CapabilityView>,
    builtin: Seq<BuiltinPolicyView>,
) -> Seq<Seq<char>> {
    capabilities.flat_map(
        |c: CapabilityView| c.tools@.map_values(|t: ToolView| t.policy@),
    ) + builtin.map_values(|b: BuiltinPolicyView| b.policy@)
}

/// Which of the credentials of some capabilities are set.
pub open spec fn secrets_shown(capabilities: Seq<CapabilityView>) -> Seq<bool> {
    capabilities.flat_map(
        |c: CapabilityView| c.credentials@.map_values(|k: CredentialView| k.is_set),
    )
}

/// What holds for the tools of some capabilities and for those that every agent has.
fn collect_policies(
    capabilities: &Vec<CapabilityView>,
    builtin: &Vec<BuiltinPolicyView>,
) -> (r: Vec<String>)
    ensures
        texts(r@) == policies_shown(capabilities@, builtin@),
{
    let ghost f = |c: CapabilityView| c.tools@.map_values(|t: ToolView| t.policy@);
    let mut out: Vec<String> = Vec::new();
    let mut i: usize = 0;
    proof {
        assert(texts(out@) =~= capabilities@.take(0).flat_map(f));
    }
    while i < capabilities.len()
        invariant
            i <= capabilities@.len(),
            f == (|c: CapabilityView| c.tools@.map_values(|t: ToolView| t.policy@)),
            texts(out@) == capabilities@.take(i as int).flat_map(f),
        decreases capabilities@.len() - i,
    {
        proof {
            capabilities@.lemma_flat_map_take_append(f, i as int);
        }
        let tools = &capabilities[i].tools;
        let ghost start = texts(out@);
        let ghost own = f(capabilities@[i as int]);
        let mut k: usize = 0;
        proof {
            assert(start + own.take(0) =~= start);
        }
        while k < tools.len()
            invariant
                k <= tools@.len(),
                own == tools@.map_values(|t: ToolView| t.policy@),
                texts(out@) == start + own.take(k as int),
            decreases tools@.len() - k,
        {
            let ghost before = texts(out@);
            out.push(tools[k].policy.clone());
            proof {
                assert(texts(out@) =~= before.push(own[k as int]));
                assert(start + own.take(k + 1) =~= (start + own.take(k as int)).push(own[k as int]));
            }
            k += 1;
        }
        proof {
            assert(own.take(k as int) =~= own);
        }
        i += 1;
    }
    proof {
        assert(capabilities@.take(i as int) =~= capabilities@);
    }
    let ghost start = texts(out@);
    let ghost own = builtin@.map_values(|b: BuiltinPolicyView| b.policy@);
    let mut k: usize = 0;
    proof {
        assert(start + own.take(0) =~= start);
    }
    while k < builtin.len()
        invariant
            k <= builtin@.len(),
            own == builtin@.map_values(|b: BuiltinPolicyView| b.policy@),
            texts(out@) == start + own.take(k as int),
        decreases builtin@.len() - k,
    {
        let ghost before = texts(out@);
        out.push(builtin[k].policy.clone());
        proof {
            assert(texts(out@) =~= before.push(own[k as int]));
            assert(start + own.take(k + 1) =~= (start + own.take(k as int)).push(own[k as int]));
        }
        k += 1;
    }
    proof {
        assert(own.take(k as int) =~= own);
    }
    out
}

/// Which of the credentials of some capabilities are set.
fn collect_secrets(capabilities: &Vec<CapabilityView>) -> (r: Vec<bool>)
    ensures
        r@ == secrets_shown(capabilities@),
{
    let ghost f = |c: CapabilityView| c.credentials@.map_values(|k: CredentialView| k.is_set);
    let mut out: Vec<bool> = Vec::new();
    let mut i: usize = 0;
    proof {
        assert(out@ =~= capabilities@.take(0).flat_map(f));
    }
    while i < capabilities.len()
        invariant
            i <= capabilities@.len(),
            f == (|c: CapabilityView| c.credentials@.map_values(|k: CredentialView| k.is_set)),
            out@ == capabilities@.take(i as int).flat_map(f),
        decreases capabilities@.len() - i,
    {
        proof {
            capabilities@.lemma_flat_map_take_append(f, i as int);
        }
        let credentials = &capabilities[i].credentials;
        let ghost start = out@;
        let ghost own = f(capabilities@[i as int]);
        let mut k: usize = 0;
        proof {
            assert(start + own.take(0) =~= start);
        }
        while k < credentials.len()
            invariant
                k <= credentials@.len(),
                own == credentials@.map_values(|k: CredentialView| k.is_set),
                out@ == start + own.take(k as int),
            decreases credentials@.len() - k,
        {
            out.push(credentials[k].is_set);
            k += 1;
            proof {
                assert(start + own.take(k as int) =~= (start + own.take(k - 1)).push(own[k - 1]));
            }
        }
        proof {
            assert(own.take(k as int) =~= own);
        }
        i += 1;
    }
    proof {
        assert(capabilities@.take(i as int) =~= capabilities@);
    }
    out
}

/// The sum of counts.
pub open spec fn sum(counts: Seq<i64>) -> int
    decreases counts.len(),
{
    if counts.len() == 0 {
        0
    } else {
        sum(counts.drop_last()) + counts.last()
    }
}

/// The sum of counts grows with each of them.
proof fn lemma_sum_grows(counts: Seq<i64>, k: int)
    requires
        0 <= k <= counts.len(),
        forall|i: int| 0 <= i < counts.len() ==> 0 <= #[trigger] counts[i],
    ensures
        sum(counts.take(k)) <= sum(counts),
    decreases counts.len() - k,
{
    if k < counts.len() {
        lemma_sum_grows(counts, k + 1);
        assert(counts.take(k + 1).drop_last() =~= counts.take(k));
        assert(counts.take(k + 1).last() == counts[k]);
    } else {
        assert(counts.take(k) =~= counts);
    }
}

/// How many requests the capabilities of an agent made.
pub fn network_request_count(counts: &Vec<i64>) -> (r: i64)
    requires
        forall|i: int| 0 <= i < counts@.len() ==> 0 <= #[trigger] counts@[i],
        sum(counts@) <= i64::MAX,
    ensures
        r == sum(counts@),
{
    let mut total: i64 = 0;
    let mut i: usize = 0;
    while i < counts.len()
        invariant
            i <= counts@.len(),
            forall|k: int| 0 <= k < counts@.len() ==> 0 <= #[trigger] counts@[k],
            sum(counts@) <= i64::MAX,
            0 <= total,
            total == sum(counts@.take(i as int)),
        decreases counts@.len() - i,
    {
        proof {
            lemma_sum_grows(counts@, i + 1);
            assert(counts@.take(i + 1).drop_last() =~= counts@.take(i as int));
            assert(counts@.take(i + 1).last() == counts@[i as int]);
        }
        total = total + counts[i];
        i += 1;
    }
    proof {
        assert(counts@.take(i as int) =~= counts@);
    }
    total
}

/// The overview of an agent: how many tools it may use, has to ask for and may not
/// use, how many of its secrets are set and missing, and what was counted for it.
/// A tool for which nothing is set counts as one that it may not use.
pub fn overview(
    capabilities: &Vec<CapabilityView>,
    builtin: &Vec<BuiltinPolicyView>,
    storage_count: i64,
    memory_count: i64,
    network_request_count: i64,
) -> (r: AgentOverviewStats)
    ensures
        counts_page(r, capabilities@, builtin@),
        r.storage_count == storage_count,
        r.memory_count == memory_count,
        r.network_request_count == network_request_count,
{
    let words = collect_policies(capabilities, builtin);
    let ghost all = texts(words@);
    let mut allow: usize = 0;
    let mut ask: usize = 0;
    let mut block: usize = 0;
    let mut i: usize = 0;
    proof {
        reveal_strlit("allow");
        reveal_strlit("ask");
        assert("allow"@.len() != "ask"@.len());
    }
    while i < words.len()
        invariant
            i <= words@.len(),
            all == texts(words@),
            "allow"@ != "ask"@,
            allow == tally(all.take(i as int), "allow"@),
            ask == tally(all.take(i as int), "ask"@),
            allow + ask + block == i,
        decreases words@.len() - i,
    {
        proof {
            assert(all.take(i + 1).drop_last() =~= all.take(i as int));
            assert(all.take(i + 1).last() == words@[i as int]@);
        }
        if text::same(words[i].as_str(), "allow") {
            allow += 1;
        } else if text::same(words[i].as_str(), "ask") {
            ask += 1;
        } else {
            block += 1;
        }
        i += 1;
    }
    proof {
        assert(all.take(i as int) =~= all);
    }
    let secrets = collect_secrets(capabilities);
    let mut set: usize = 0;
    let mut missing: usize = 0;
    let mut k: usize = 0;
    while k < secrets.len()
        invariant
            k <= secrets@.len(),
            set == tally_set(secrets@.take(k as int)),
            set + missing == k,
        decreases secrets@.len() - k,
    {
        proof {
            assert(secrets@.take(k + 1).drop_last() =~= secrets@.take(k as int));
            assert(secrets@.take(k + 1).last() == secrets@[k as int]);
        }
        if secrets[k] {
            set += 1;
        } else {
            missing += 1;
        }
        k += 1;
    }
    proof {
        assert(secrets@.take(k as int) =~= secrets@);
    }
    AgentOverviewStats {
        capability_count: capabilities.len(),
        storage_count,
        memory_count,
        network_request_count,
        permissions_allow_count: allow,
        permissions_ask_count: ask,
        permissions_block_count: block,
        secrets_set_count: set,
        secrets_missing_count: missing,
    }
}

// ── Requests ─────────────────────────────────────────────────────────────────

/// How many requests are shown.
pub const EGRESS_SHOWN: usize = 100;

/// The times at which requests were made.
pub open spec fn egress_times(entries: Seq<EgressEntryView>) -> Seq<Seq<char>> {
    entries.map_values(|e: EgressEntryView| e.created_at@)
}

/// Requests, the latest first, as far as they are shown.
pub open spec fn latest(entries: Seq<EgressEntryView>) -> Seq<EgressEntryView> {
    let sorted = in_order(entries, egress_times(entries), true);
    if sorted.len() > 100 {
        sorted.take(100)
    } else {
        sorted
    }
}

/// The latest requests, the last one first.
pub fn egress_shown(entries: Vec<EgressEntryView>) -> (r: Vec<EgressEntryView>)
    ensures
        r@ == latest(entries@),
{
    let ghost times = egress_times(entries@);
    let mut keys: Vec<String> = Vec::new();
    let mut i: usize = 0;
    while i < entries.len()
        invariant
            i <= entries@.len(),
            times == egress_times(entries@),
            texts(keys@) == times.take(i as int),
        decreases entries@.len() - i,
    {
        let ghost before = texts(keys@);
        keys.push(entries[i].created_at.clone());
        proof {
            assert(texts(keys@) =~= before.push(entries@[i as int].created_at@));
            assert(times.take(i + 1) =~= times.take(i as int).push(
                entries@[i as int].created_at@,
            ));
        }
        i += 1;
    }
    proof {
        assert(times.take(i as int) =~= times);
    }
    let mut out = order::sort(entries, &keys, true);
    out.truncate(EGRESS_SHOWN);
    out
}

/// No request that is left out is later than one that is shown.
pub proof fn law_latest_requests_are_shown(entries: Seq<EgressEntryView>, k: int)
    requires
        0 <= k < entries.len(),
        !latest(entries).contains(entries[k]),
    ensures
        latest(entries).len() == 100,
        forall|i: int|
            0 <= i < 100 ==> !text::before(
                (#[trigger] latest(entries)[i]).created_at@,
                entries[k].created_at@,
            ),
{
    let keys = egress_times(entries);
    let sorted = in_order(entries, keys, true);
    let o = order::order_of(keys, true);
    order::law_in_order(keys, true);
    let r = order::lemma_in_order_has(entries, keys, true, k);
    assert(sorted[r] == entries[k]);
    if r < 100 {
        assert(latest(entries)[r] == entries[k]);
    }
    assert forall|i: int| 0 <= i < 100 implies !text::before(
        (#[trigger] latest(entries)[i]).created_at@,
        entries[k].created_at@,
    ) by {
        assert(order::goes_ahead(keys, true, o[i], o[r]));
        assert(sorted[i] == entries[o[i]]);
        text::lemma_before_irreflexive(keys[o[i]]);
        if text::before(keys[o[r]], keys[o[i]]) {
            text::lemma_before_asymmetric(keys[o[r]], keys[o[i]]);
        }
    }
}

// ── The page ─────────────────────────────────────────────────────────────────

/// What is known of an agent and of what a user set for it.
#[derive(Debug)]
pub struct AgentFacts {
    pub agent_name: String,
    pub presets: Vec<AutomationPreset>,
    /// How many pipes lead to it.
    pub pipe_count: i64,
    pub needs: Vec<CredentialNeed>,
    /// For each preset, how many active schedules it became.
    pub active_counts: Vec<i64>,
    pub runtime: EffectiveRuntime,
    /// How many limits the user set for it.
    pub runtime_overrides: i64,
    pub capabilities: Vec<CapabilityEntry>,
    /// What holds for everybody.
    pub global: Vec<PolicyRow>,
    /// What the user set.
    pub own: Vec<PolicyRow>,
    /// For each capability, how many requests it made.
    pub request_counts: Vec<i64>,
    pub egress: Vec<EgressEntryView>,
    /// The values that it stored for anybody, in the order in which they are shown.
    pub storage: Vec<StorageEntryView>,
    /// What it remembers for anybody, in the order in which it is shown.
    pub memory: Vec<MemoryEntryView>,
    /// The lessons that it learned from the user.
    pub insights: Vec<InsightView>,
    /// How many signals of the user lessons are learned from.
    pub signal_count: i64,
}

impl AgentFacts {
    /// Whether the facts can be shown: descriptions are cut between characters, and
    /// requests and entries are counted within 64 bits.
    pub open spec fn can_be_shown(self) -> bool {
        &&& forall|c: int, t: int|
            0 <= c < self.capabilities@.len() && 0 <= t < self.capabilities@[c].tools@.len()
                ==> (#[trigger] self.capabilities@[c].tools@[t]).can_be_shown()
        &&& forall|i: int|
            0 <= i < self.request_counts@.len() ==> 0 <= #[trigger] self.request_counts@[i]
        &&& sum(self.request_counts@) <= i64::MAX
        &&& self.storage@.len() <= i64::MAX
        &&& self.memory@.len() <= i64::MAX
    }
}

/// The page of an agent.
#[derive(Debug)]
pub struct AgentDetail {
    pub active_tab: String,
    pub agent_id: String,
    pub agent_name: String,
    pub is_admin: bool,
    pub overview: AgentOverviewStats,
    pub runtime_settings: AgentRuntimeSettingsView,
    pub automation: AgentAutomationView,
    pub capabilities: Vec<CapabilityView>,
    pub storage_entries: Vec<StorageEntryView>,
    pub memory_entries: Vec<MemoryEntryView>,
    pub builtin_policies: Vec<BuiltinPolicyView>,
    pub egress_entries: Vec<EgressEntryView>,
    pub improvement_insights: Vec<InsightView>,
    pub improvement_signal_count: i64,
    pub error: Option<String>,
    pub success: Option<String>,
}

/// Whether `v` counts what a page shows.
pub open spec fn counts_page(
    v: AgentOverviewStats,
    capabilities: Seq<CapabilityView>,
    builtin: Seq<BuiltinPolicyView>,
) -> bool {
    let words = policies_shown(capabilities, builtin);
    let secrets = secrets_shown(capabilities);
    &&& v.capability_count == capabilities.len()
    &&& v.permissions_allow_count == tally(words, "allow"@)
    &&& v.permissions_ask_count == tally(words, "ask"@)
    &&& v.permissions_block_count == words.len() - tally(words, "allow"@) - tally(words, "ask"@)
    &&& v.secrets_set_count == tally_set(secrets)
    &&& v.secrets_missing_count == secrets.len() - tally_set(secrets)
}

/// Whether `v` shows the limits of an agent.
pub open spec fn shows_runtime(
    v: AgentRuntimeSettingsView,
    e: EffectiveRuntime,
    overrides: i64,
) -> bool {
    &&& v.autonomy_level@ == e.autonomy_level@
    &&& v.use_advanced_limits == e.use_advanced_limits
    &&& v.max_tool_loop_iterations == e.max_tool_loop_iterations
    &&& v.max_delegation_hops == e.max_delegation_hops
    &&& v.agent_default_autonomy_level@ == e.agent_default.level@
    &&& v.agent_default_max_tool_loop_iterations == e.agent_default.max_tool_loop_iterations
    &&& v.agent_default_max_delegation_hops == e.agent_default.max_delegation_hops
    &&& v.has_user_override == (overrides > 0)
}

/// Whether a page shows the facts of an agent to somebody.
pub open spec fn shows_agent(
    page: AgentDetail,
    is_admin: bool,
    user_id: Seq<char>,
    agent_id: Seq<char>,
    facts: AgentFacts,
) -> bool {
    let storage = visible_storage(facts.storage@, is_admin, user_id);
    let memory = visible_memory(facts.memory@, is_admin, user_id);
    &&& page.agent_id@ == agent_id
    &&& page.is_admin == is_admin
    &&& page.storage_entries@ == first_shown(storage)
    &&& page.memory_entries@ == first_shown(memory)
    &&& page.overview.storage_count == storage.len()
    &&& page.overview.memory_count == memory.len()
    &&& page.improvement_insights == facts.insights
    &&& page.improvement_signal_count == facts.signal_count
    &&& page.agent_name@ == facts.agent_name@
    &&& shows_runtime(page.runtime_settings, facts.runtime, facts.runtime_overrides)
    &&& shows_automation(
        page.automation,
        facts.presets@,
        facts.pipe_count,
        facts.needs@,
        facts.active_counts@,
    )
    &&& page.capabilities@.len() == facts.capabilities@.len()
    &&& forall|i: int|
        0 <= i < facts.capabilities@.len() ==> shows_capability(
            #[trigger] page.capabilities@[i],
            facts.capabilities@[i],
            facts.global@,
            facts.own@,
        )
    &&& shows_builtins(
        page.builtin_policies@,
        builtin_tools(agent_id),
        facts.global@,
        facts.own@,
    )
    &&& page.egress_entries@ == latest(facts.egress@)
    &&& counts_page(page.overview, page.capabilities@, page.builtin_policies@)
    &&& page.overview.network_request_count == sum(facts.request_counts@)
}

/// The page of an agent, where there is one, as somebody sees it.
pub fn render_agent_detail_page(
    is_admin: bool,
    user_id: &str,
    agent_id: &str,
    query: AgentDetailQuery,
    active_tab: &str,
    facts: Option<AgentFacts>,
) -> (r: Verdict<AgentDetail>)
    requires
        facts matches Some(f) ==> f.can_be_shown(),
    ensures
        match facts {
            Some(f) => r matches Verdict::Proceed(page) && page.active_tab@ == active_tab@
                && page.error == query.error && page.success == query.success && shows_agent(
                page,
                is_admin,
                user_id@,
                agent_id@,
                f,
            ),
            None => r.answers(Sent::Status(404)),
        },
{
    let f = match facts {
        Some(f) => f,
        None => {
            return Verdict::Answer(WebAnswer::Status(response::NOT_FOUND));
        },
    };
    let mut capabilities: Vec<CapabilityView> = Vec::new();
    let mut i: usize = 0;
    while i < f.capabilities.len()
        invariant
            i <= f.capabilities@.len(),
            f.can_be_shown(),
            capabilities@.len() == i,
            forall|k: int|
                0 <= k < i ==> shows_capability(
                    #[trigger] capabilities@[k],
                    f.capabilities@[k],
                    f.global@,
                    f.own@,
                ),
        decreases f.capabilities@.len() - i,
    {
        assert forall|t: int| 0 <= t < f.capabilities@[i as int].tools@.len() implies (
        #[trigger] f.capabilities@[i as int].tools@[t]).can_be_shown() by {}
        capabilities.push(capability_view(&f.capabilities[i], &f.global, &f.own));
        i += 1;
    }
    let builtin = builtin_policies(agent_id, &f.global, &f.own);
    let requests = network_request_count(&f.request_counts);
    let mut storage = agent_entries::storage_seen(f.storage, is_admin, user_id);
    let mut memory = agent_entries::memory_seen(f.memory, is_admin, user_id);
    let storage_count: i64 = storage.len() as i64;
    let memory_count: i64 = memory.len() as i64;
    let ghost all_storage = storage@;
    let ghost all_memory = memory@;
    storage.truncate(ENTRIES_SHOWN);
    memory.truncate(ENTRIES_SHOWN);
    proof {
        assert(storage@ =~= first_shown(all_storage));
        assert(memory@ =~= first_shown(all_memory));
    }
    Verdict::Proceed(
        AgentDetail {
            active_tab: active_tab.to_string(),
            agent_id: agent_id.to_string(),
            agent_name: f.agent_name,
            is_admin,
            overview: overview(
                &capabilities,
                &builtin,
                storage_count,
                memory_count,
                requests,
            ),
            runtime_settings: agent_settings::runtime_settings_view(
                &f.runtime,
                f.runtime_overrides,
            ),
            automation: agent_settings::automation_view(
                &f.presets,
                f.pipe_count,
                &f.needs,
                &f.active_counts,
            ),
            capabilities,
            storage_entries: storage,
            memory_entries: memory,
            builtin_policies: builtin,
            egress_entries: egress_shown(f.egress),
            improvement_insights: f.insights,
            improvement_signal_count: f.signal_count,
            error: query.error,
            success: query.success,
        },
    )
}

/// On the page of an agent, somebody who is no administrator sees only entries of their
/// own, and only those are counted.
pub proof fn law_page_shows_own_entries(
    page: AgentDetail,
    user_id: Seq<char>,
    agent_id: Seq<char>,
    facts: AgentFacts,
)
    requires
        shows_agent(page, false, user_id, agent_id, facts),
    ensures
        forall|i: int|
            0 <= i < page.storage_entries@.len() ==> (#[trigger] page.storage_entries@[i]).user_id@
                == user_id,
        forall|i: int|
            0 <= i < page.memory_entries@.len() ==> (#[trigger] page.memory_entries@[i]).user_id@
                == user_id,
        page.overview.storage_count == facts.storage@.filter(storage_of(user_id)).len(),
        page.overview.memory_count == facts.memory@.filter(memory_of(user_id)).len(),
{
    let p = storage_of(user_id);
    let q = memory_of(user_id);
    assert forall|i: int| 0 <= i < page.storage_entries@.len() implies (
    #[trigger] page.storage_entries@[i]).user_id@ == user_id by {
        facts.storage@.lemma_filter_pred(p, i);
    }
    assert forall|i: int| 0 <= i < page.memory_entries@.len() implies (
    #[trigger] page.memory_entries@[i]).user_id@ == user_id by {
        facts.memory@.lemma_filter_pred(q, i);
    }
}

/// Every tool on the page of an agent is counted once, as one that it may use, has to
/// ask for or may not use; and so is every secret, as set or missing.
pub proof fn law_everything_is_counted(
    v: AgentOverviewStats,
    capabilities: Seq<CapabilityView>,
    builtin: Seq<BuiltinPolicyView>,
)
    requires
        counts_page(v, capabilities, builtin),
    ensures
        v.permissions_allow_count + v.permissions_ask_count + v.permissions_block_count
            == policies_shown(capabilities, builtin).len(),
        v.secrets_set_count + v.secrets_missing_count == secrets_shown(capabilities).len(),
{
}

/// What a user set for a tool holds for them, whatever holds for everybody; without it
/// they have what holds for everybody.
pub proof fn law_own_policy_wins(
    v: ToolView,
    capability_id: Seq<char>,
    tool: ToolEntry,
    global: Seq<PolicyRow>,
    own: Seq<PolicyRow>,
)
    requires
        shows_tool(v, capability_id, tool, global, own),
    ensures
        v.has_override ==> Some(v.policy@) == policy_for(own, capability_id, tool.name@),
        !v.has_override ==> v.policy@ == v.global_default@,
{
}

// ── Laws ─────────────────────────────────────────────────────────────────────

/// What holds for a tool is what the user set for it, else what holds for everybody, else nothing; a
/// setting for another tool or another capability never counts.
pub proof fn law_tool_shows_what_holds(
    capability_id: &str,
    tool: ToolEntry,
    global: Vec<PolicyRow>,
    own: Vec<PolicyRow>,
    v: ToolView,
)
    requires
        call_ensures(tool_view, (capability_id, &tool, &global, &own), v),
    ensures
        v.name@ == tool.name@,
        v.display_name@ == tool.display_name@,
        v.capability_id@ == capability_id@,
        v.has_override <==> exists|i: int|
            0 <= i < own@.len() && (#[trigger] own@[i]).capability_id@ == capability_id@
                && own@[i].tool_name@ == tool.name@,
        v.has_override ==> exists|i: int|
            0 <= i < own@.len() && (#[trigger] own@[i]).capability_id@ == capability_id@
                && own@[i].tool_name@ == tool.name@ && v.policy@ == own@[i].policy.word(),
        !v.has_override ==> v.policy@ == v.global_default@,
        v.global_default@ == "not set"@ || exists|i: int|
            0 <= i < global@.len() && (#[trigger] global@[i]).capability_id@ == capability_id@
                && global@[i].tool_name@ == tool.name@ && v.global_default@
                == global@[i].policy.word(),
        byte_len(tool.localized_description@) <= 120 ==> v.description@
            == tool.localized_description@,
{
    lemma_policy_for(own@, capability_id@, tool.name@);
    lemma_policy_for(global@, capability_id@, tool.name@);
}

/// A policy that is found is one that is stored for just that tool.
proof fn lemma_policy_for(rows: Seq<PolicyRow>, capability_id: Seq<char>, tool: Seq<char>)
    ensures
        match policy_for(rows, capability_id, tool) {
            Some(p) => exists|i: int|
                0 <= i < rows.len() && (#[trigger] rows[i]).capability_id@ == capability_id
                    && rows[i].tool_name@ == tool && rows[i].policy.word() == p,
            None => forall|i: int|
                0 <= i < rows.len() ==> (#[trigger] rows[i]).capability_id@ != capability_id
                    || rows[i].tool_name@ != tool,
        },
    decreases rows.len(),
{
    if rows.len() > 0 {
        let rest = rows.drop_last();
        let last = rows[rows.len() - 1];
        lemma_policy_for(rest, capability_id, tool);
        if !(last.capability_id@ == capability_id && last.tool_name@ == tool) {
            match policy_for(rest, capability_id, tool) {
                Some(p) => {
                    let i = choose|i: int|
                        0 <= i < rest.len() && (#[trigger] rest[i]).capability_id@ == capability_id
                            && rest[i].tool_name@ == tool && rest[i].policy.word() == p;
                    assert(rows[i] == rest[i]);
                },
                None => {
                    assert forall|i: int| 0 <= i < rows.len() implies (
                    #[trigger] rows[i]).capability_id@ != capability_id || rows[i].tool_name@
                        != tool by {
                        if i < rest.len() {
                            assert(rest[i] == rows[i]);
                        }
                    }
                },
            }
        }
    }
}

/// A credential is shown under its capability and name, in its own scope, as set exactly where it is
/// stored, with when it was; its value is not shown.
pub proof fn law_credential_is_shown_as_it_is(
    capability_id: &str,
    c: CredentialEntry,
    v: CredentialView,
)
    requires
        call_ensures(credential_view, (capability_id, &c), v),
    ensures
        v.capability_id@ == capability_id@,
        v.name@ == c.name@,
        v.description@ == c.description@,
        v.required == c.required,
        v.is_set <==> c.stored is Some,
        c.scope is System ==> v.scope@ == "system"@,
        c.scope is User ==> v.scope@ == "user"@,
        c.stored is Some ==> opt_text(v.set_at) == opt_text(c.stored->0),
        c.stored is None ==> v.set_at is None,
{
}

/// A capability is shown with its own limits and its own tools and credentials, and as closed to the
/// network only where it is.
pub proof fn law_capability_is_shown_as_it_is(
    c: CapabilityEntry,
    global: Vec<PolicyRow>,
    own: Vec<PolicyRow>,
    v: CapabilityView,
    i: int,
)
    requires
        call_ensures(capability_view, (&c, &global, &own), v),
    ensures
        v.id@ == c.id@,
        c.network_mode is Closed ==> v.effective_network_mode@ == "none"@,
        c.network_mode is Allowlist ==> v.effective_network_mode@ == "allowlist"@,
        c.network_mode is Any ==> v.effective_network_mode@ == "any"@,
        c.access == Some(Access::Deny) ==> v.network_access_policy@ == "deny"@,
        c.access != Some(Access::Deny) ==> v.network_access_policy@ == "allow"@,
        c.filesystem is Closed ==> v.filesystem@ == "none"@,
        c.filesystem is Temp ==> v.filesystem@ == "temp"@,
        c.filesystem is Workspace ==> v.filesystem@ == "workspace"@,
        v.max_memory_mb == c.max_memory_mb,
        v.max_cpu_fraction@ == c.max_cpu@,
        v.pids_limit == c.pids_limit,
        v.tools@.len() == c.tools@.len(),
        0 <= i < c.tools@.len() ==> v.tools@[i].name@ == c.tools@[i].name@
            && v.tools@[i].capability_id@ == c.id@,
        v.credentials@.len() == c.credentials@.len(),
        0 <= i < c.credentials@.len() ==> v.credentials@[i].name@ == c.credentials@[i].name@ && (
        v.credentials@[i].is_set <==> c.credentials@[i].stored is Some),
{
    if 0 <= i < c.tools@.len() {
        assert(shows_tool(v.tools@[i], c.id@, c.tools@[i], global@, own@));
    }
    if 0 <= i < c.credentials@.len() {
        assert(shows_credential(v.credentials@[i], c.id@, c.credentials@[i]));
    }
}

/// The page of an agent shows what is known of that agent: its name, what it learned from the user, its
/// limits as they hold, and every one of its capabilities; whoever is no administrator sees only what
/// it keeps for them.
pub proof fn law_page_is_that_of_the_agent(
    is_admin: bool,
    user_id: &str,
    agent_id: &str,
    query: AgentDetailQuery,
    active_tab: &str,
    f: AgentFacts,
    page: AgentDetail,
    i: int,
)
    requires
        call_ensures(
            render_agent_detail_page,
            (is_admin, user_id, agent_id, query, active_tab, Some(f)),
            Verdict::Proceed(page),
        ),
    ensures
        page.agent_id@ == agent_id@,
        page.agent_name@ == f.agent_name@,
        page.active_tab@ == active_tab@,
        page.is_admin == is_admin,
        page.improvement_insights == f.insights,
        page.improvement_signal_count == f.signal_count,
        page.runtime_settings.autonomy_level@ == f.runtime.autonomy_level@,
        page.runtime_settings.max_tool_loop_iterations == f.runtime.max_tool_loop_iterations,
        page.runtime_settings.max_delegation_hops == f.runtime.max_delegation_hops,
        page.runtime_settings.has_user_override <==> f.runtime_overrides > 0,
        page.capabilities@.len() == f.capabilities@.len(),
        0 <= i < f.capabilities@.len() ==> page.capabilities@[i].id@ == f.capabilities@[i].id@,
        !is_admin && 0 <= i < page.storage_entries@.len() ==> page.storage_entries@[i].user_id@
            == user_id@,
        !is_admin && 0 <= i < page.memory_entries@.len() ==> page.memory_entries@[i].user_id@
            == user_id@,
        is_admin && f.storage@.len() <= 500 ==> page.storage_entries@ == f.storage@,
        is_admin && f.memory@.len() <= 500 ==> page.memory_entries@ == f.memory@,
        page.storage_entries@.len() <= 500 && page.memory_entries@.len() <= 500,
        page.egress_entries@.len() <= 100,
{
    if 0 <= i < f.capabilities@.len() {
        assert(shows_capability(page.capabilities@[i], f.capabilities@[i], f.global@, f.own@));
    }
    if !is_admin {
        let p = agent_entries::storage_of(user_id@);
        let q = agent_entries::memory_of(user_id@);
        if 0 <= i < page.storage_entries@.len() {
            f.storage@.lemma_filter_pred(p, i);
        }
        if 0 <= i < page.memory_entries@.len() {
            f.memory@.lemma_filter_pred(q, i);
        }
    }
}

/// The tools that every agent has are all listed, with what holds for them; handing a task on is only
/// the default agent's.
pub proof fn law_own_tools_are_listed(
    agent_id: &str,
    global: Vec<PolicyRow>,
    own: Vec<PolicyRow>,
    r: Vec<BuiltinPolicyView>,
    i: int,
)
    requires
        call_ensures(builtin_policies, (agent_id, &global, &own), r),
        0 <= i < r@.len(),
    ensures
        agent_id@ == "default"@ ==> r@.len() == 11 && r@[0].tool_name@ == "delegate_to_agent"@,
        agent_id@ != "default"@ ==> r@.len() == 10 && r@[i].tool_name@ != "delegate_to_agent"@,
        r@[i].capability_id@ == "__builtin__"@,
        r@[i].has_override <==> exists|k: int|
            0 <= k < own@.len() && (#[trigger] own@[k]).capability_id@ == "__builtin__"@
                && own@[k].tool_name@ == r@[i].tool_name@,
        r@[i].has_override ==> exists|k: int|
            0 <= k < own@.len() && (#[trigger] own@[k]).capability_id@ == "__builtin__"@
                && own@[k].tool_name@ == r@[i].tool_name@ && r@[i].policy@ == own@[k].policy.word(),
{
    let tools = builtin_tools(agent_id@);
    assert(shows_builtin(r@[i], tools[i], global@, own@));
    assert(shows_builtin(r@[0], tools[0], global@, own@));
    lemma_policy_for(own@, "__builtin__"@, tools[i].0);
    reveal_strlit("delegate_to_agent");
    reveal_strlit("store_get");
    reveal_strlit("store_set");
    reveal_strlit("store_delete");
    reveal_strlit("store_list");
    reveal_strlit("memory_remember");
    reveal_strlit("memory_forget");
    reveal_strlit("memory_search");
    reveal_strlit("memory_list");
    reveal_strlit("set_schedule");
    reveal_strlit("set_reminder");
    assert("delegate_to_agent"@.len() == 17);
    assert("store_get"@.len() == 9 && "store_set"@.len() == 9 && "store_delete"@.len() == 12
        && "store_list"@.len() == 10 && "memory_remember"@.len() == 15 && "memory_forget"@.len()
        == 13 && "memory_search"@.len() == 13 && "memory_list"@.len() == 11
        && "set_schedule"@.len() == 12 && "set_reminder"@.len() == 12);
}

/// Requests are counted one by one: one capability more adds its own.
pub proof fn law_requests_add_up(counts: Vec<i64>, more: Vec<i64>, x: i64, a: i64, b: i64)
    requires
        forall|i: int| 0 <= i < more@.len() ==> 0 <= #[trigger] more@[i],
        call_ensures(network_request_count, (&counts,), a),
        call_ensures(network_request_count, (&more,), b),
        more@ == counts@.push(x),
    ensures
        b == a + x,
        counts@.len() == 0 ==> a == 0,
{
    assert(more@.drop_last() =~= counts@);
}

} // verus!
