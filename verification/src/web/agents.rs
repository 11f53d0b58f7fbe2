//! The agents that are installed and those that the marketplace offers.
use vstd::prelude::*;
use vstd::string::*;
use crate::text;
use crate::text::{find_from, opt_str, opt_text, texts, trimmed, trimmed_end_of};
use crate::web::order;
use crate::web::order::in_order;
use crate::web::providers::{or_empty, ProviderRow};
use crate::web::response;
use crate::web::response::{Sent, Verdict, WebAnswer};
use crate::web::url;
use crate::web::url::percent_encoded;

verus! {

/// The agent that talks to the user and hands work on.
pub const DEFAULT_AGENT_ID: &'static str = "default";

/// An installed agent as listed.
#[derive(Debug, Clone)]
pub struct InstalledAgentView {
    pub id: String,
    pub name: String,
    pub version: String,
    pub provider_id: String,
    pub model_id: String,
    pub model_display_name: String,
    pub image_provider_id: String,
    pub image_model_id: String,
    pub image_model_display_name: String,
    pub capability_count: usize,
    pub is_bundled: bool,
    pub setup_complete: bool,
    pub auto_update: bool,
    /// Whether the marketplace has a newer version.
    pub update_available: bool,
    /// The newer version, where there is one.
    pub marketplace_version: String,
}

/// An agent of the marketplace as listed, without its average rating.
#[derive(Debug, Clone)]
pub struct MarketplaceAgentView {
    pub id: String,
    pub name: String,
    pub description: String,
    pub version: String,
    pub author: String,
    pub is_installed: bool,
    /// The version that is installed, where one is.
    pub installed_version: String,
    /// Whether the marketplace has a newer version than the one installed.
    pub update_available: bool,
    /// The entry in JSON, for the form that installs or updates it.
    pub entry_json: String,
    pub rating_count: Option<u32>,
}

#[derive(Debug, Clone)]
pub struct ProviderOption {
    pub id: String,
    pub display_name: String,
}

#[derive(Debug)]
pub struct AgentsQuery {
    pub error: Option<String>,
    pub success: Option<String>,
}

#[derive(Debug)]
pub struct SetAgentModelForm {
    pub provider_id: String,
    pub model_id: String,
    pub temperature: String,
}

#[derive(Debug)]
pub struct SetDefaultModelForm {
    pub provider_id: String,
    pub model_id: String,
    pub temperature: String,
}

#[derive(Debug)]
pub struct SetDefaultImageModelForm {
    pub provider_id: String,
    pub model_id: String,
}

#[derive(Debug)]
pub struct SetAgentImageModelForm {
    pub provider_id: String,
    pub model_id: String,
}

#[derive(Debug)]
pub struct InstallForm {
    /// The entry of the marketplace in JSON.
    pub entry_json: String,
}

#[derive(Debug)]
pub struct ToggleAutoUpdateForm {
    pub auto_update: Option<String>,
}

#[derive(Debug)]
pub struct RateAgentForm {
    pub rating: u8,
}

/// The temperature of a model where a form gives none.
pub fn default_temp_str() -> (r: String)
    ensures
        r@ == "0.7"@,
{
    "0.7".to_string()
}

// ── Models and providers ─────────────────────────────────────────────────────

/// A model, and how it is called.
#[derive(Debug)]
pub struct ModelName {
    pub id: String,
    pub name: String,
}

/// How a model is called: as the first of the well-known ones with its ID, else by
/// its ID.
pub open spec fn called(model_id: Seq<char>, known: Seq<ModelName>) -> Seq<char>
    decreases known.len(),
{
    if model_id.len() == 0 || known.len() == 0 {
        model_id
    } else if known[0].id@ == model_id {
        known[0].name@
    } else {
        called(model_id, known.drop_first())
    }
}

/// How a model is called, among the well-known models of its provider.
pub fn resolve_model_display_name(model_id: &str, known: &Vec<ModelName>) -> (r: String)
    ensures
        r@ == called(model_id@, known@),
{
    if model_id.is_empty() {
        return String::new();
    }
    let mut i: usize = 0;
    proof {
        assert(known@.subrange(0, known@.len() as int) =~= known@);
    }
    while i < known.len()
        invariant
            i <= known@.len(),
            model_id@.len() > 0,
            called(model_id@, known@) == called(
                model_id@,
                known@.subrange(i as int, known@.len() as int),
            ),
        decreases known@.len() - i,
    {
        proof {
            let rest = known@.subrange(i as int, known@.len() as int);
            assert(rest[0] == known@[i as int]);
            assert(rest.drop_first() =~= known@.subrange(i + 1, known@.len() as int));
        }
        if text::same(known[i].id.as_str(), model_id) {
            return known[i].name.clone();
        }
        i += 1;
    }
    model_id.to_string()
}

/// Whether a value is given and not empty.
pub open spec fn is_given(o: Option<Seq<char>>) -> bool {
    o matches Some(v) && v.len() > 0
}

/// Whether a provider can be used by agents. Most need a key; Bedrock and Pico do
/// with an address.
pub open spec fn is_usable(
    provider_id: Seq<char>,
    key: Option<Seq<char>>,
    base_url: Option<Seq<char>>,
) -> bool {
    is_given(key) || ((provider_id == "bedrock"@ || provider_id == "pico"@) && is_given(base_url))
}

/// Whether a provider can be used by agents.
pub fn is_provider_configured_for_agent_selector(
    provider_id: &str,
    api_key_encrypted: Option<&str>,
    base_url: Option<&str>,
) -> (r: bool)
    ensures
        r == is_usable(provider_id@, opt_str(api_key_encrypted), opt_str(base_url)),
{
    let has_key = match api_key_encrypted {
        Some(k) => !k.is_empty(),
        None => false,
    };
    let has_base_url = match base_url {
        Some(u) => !u.is_empty(),
        None => false,
    };
    has_key || ((text::same(provider_id, "bedrock") || text::same(provider_id, "pico"))
        && has_base_url)
}

/// A stored provider as an option, as a value, where agents can use it.
pub open spec fn option_of(row: ProviderRow) -> Option<(Seq<char>, Seq<char>)> {
    let id = or_empty(opt_text(row.id));
    if is_usable(id, opt_text(row.api_key_encrypted), opt_text(row.base_url)) {
        Some((id, row.display_name@))
    } else {
        None
    }
}

/// The IDs and names that options hold.
pub open spec fn option_texts(v: Seq<ProviderOption>) -> Seq<(Seq<char>, Seq<char>)> {
    v.map_values(|o: ProviderOption| (o.id@, o.display_name@))
}

/// What an optional text is.
fn as_lent(o: &Option<String>) -> (r: Option<&str>)
    ensures
        opt_str(r) == opt_text(*o),
{
    match o {
        Some(s) => Some(s.as_str()),
        None => None,
    }
}

/// The providers that agents can use, in the order in which they are stored.
pub fn load_provider_options(rows: &Vec<ProviderRow>) -> (r: Vec<ProviderOption>)
    ensures
        option_texts(r@) == rows@.filter_map(|row: ProviderRow| option_of(row)),
{
    let ghost f = |row: ProviderRow| option_of(row);
    let mut out: Vec<ProviderOption> = Vec::new();
    let mut i: usize = 0;
    proof {
        assert(option_texts(out@) =~= rows@.take(0).filter_map(f));
    }
    while i < rows.len()
        invariant
            i <= rows@.len(),
            f == (|row: ProviderRow| option_of(row)),
            option_texts(out@) == rows@.take(i as int).filter_map(f),
        decreases rows@.len() - i,
    {
        let ghost before = option_texts(out@);
        proof {
            rows@.lemma_filter_map_take_succ(f, i as int);
            assert(before + Seq::<(Seq<char>, Seq<char>)>::empty() =~= before);
        }
        let row = &rows[i];
        let id = match &row.id {
            Some(v) => v.clone(),
            None => String::new(),
        };
        if is_provider_configured_for_agent_selector(
            id.as_str(),
            as_lent(&row.api_key_encrypted),
            as_lent(&row.base_url),
        ) {
            let option = ProviderOption { id, display_name: row.display_name.clone() };
            let ghost e = (option.id@, option.display_name@);
            out.push(option);
            proof {
                assert(option_texts(out@) =~= before.push(e));
                assert(before + seq![e] =~= before.push(e));
            }
        }
        i += 1;
    }
    proof {
        assert(rows@.take(i as int) =~= rows@);
    }
    out
}

/// A model as an option of a list.
pub open spec fn model_option(m: ModelName) -> Seq<char> {
    "<option value=\""@ + m.id@ + "\">"@ + m.name@ + "</option>"@
}

/// The options of a list of models.
pub fn models_for_provider(models: &Vec<ModelName>) -> (r: WebAnswer)
    ensures
        r@ == Sent::Html(
            if models@.len() == 0 {
                "<option value=\"\">No models available for this provider</option>"@
            } else {
                "<option value=\"\">-- Select a model --</option>"@ + models@.flat_map(
                    |m: ModelName| model_option(m),
                )
            },
        ),
{
    if models.is_empty() {
        return response::html(
            "<option value=\"\">No models available for this provider</option>",
        );
    }
    let ghost f = |m: ModelName| model_option(m);
    let ghost start = "<option value=\"\">-- Select a model --</option>"@;
    let mut html = "<option value=\"\">-- Select a model --</option>".to_string();
    let mut i: usize = 0;
    proof {
        assert(models@.take(0).flat_map(f) =~= Seq::<char>::empty());
        assert(html@ =~= start + models@.take(0).flat_map(f));
    }
    while i < models.len()
        invariant
            i <= models@.len(),
            f == (|m: ModelName| model_option(m)),
            html@ == start + models@.take(i as int).flat_map(f),
        decreases models@.len() - i,
    {
        let ghost before = html@;
        proof {
            models@.lemma_flat_map_take_append(f, i as int);
        }
        html.append("<option value=\"");
        html.append(models[i].id.as_str());
        html.append("\">");
        html.append(models[i].name.as_str());
        html.append("</option>");
        proof {
            assert(html@ =~= before + model_option(models@[i as int]));
            assert(html@ =~= start + models@.take(i + 1).flat_map(f));
        }
        i += 1;
    }
    proof {
        assert(models@.take(i as int) =~= models@);
    }
    WebAnswer::Html(html)
}

// ── The installed agents ─────────────────────────────────────────────────────

/// An agent that is loaded: its ID, its name in the user's language, and how many
/// capabilities it has.
#[derive(Debug)]
pub struct LoadedAgent {
    pub id: String,
    pub name: String,
    pub capability_count: usize,
}

/// An agent as stored.
#[derive(Debug)]
pub struct AgentRow {
    pub provider_id: Option<String>,
    pub model_id: Option<String>,
    pub image_provider_id: Option<String>,
    pub image_model_id: Option<String>,
    pub is_bundled: i32,
    pub setup_complete: i32,
    pub version: String,
    pub auto_update: i32,
}

/// Whether `v` shows a loaded agent and what is stored of it.
pub open spec fn shows_installed(
    v: InstalledAgentView,
    agent: LoadedAgent,
    row: Option<AgentRow>,
    known: Seq<ModelName>,
    known_image: Seq<ModelName>,
) -> bool {
    &&& v.id@ == agent.id@
    &&& v.name@ == agent.name@
    &&& v.capability_count == agent.capability_count
    &&& !v.update_available
    &&& v.marketplace_version@ == ""@
    &&& v.model_display_name@ == called(v.model_id@, known)
    &&& v.image_model_display_name@ == called(v.image_model_id@, known_image)
    &&& match row {
        Some(row) => {
            &&& v.version@ == row.version@
            &&& v.provider_id@ == or_empty(opt_text(row.provider_id))
            &&& v.model_id@ == or_empty(opt_text(row.model_id))
            &&& v.image_provider_id@ == or_empty(opt_text(row.image_provider_id))
            &&& v.image_model_id@ == or_empty(opt_text(row.image_model_id))
            &&& v.is_bundled == (row.is_bundled != 0)
            &&& v.setup_complete == (row.setup_complete != 0)
            &&& v.auto_update == (row.auto_update != 0)
        },
        None => {
            &&& v.version@ == "0.1.0"@
            &&& v.provider_id@ == ""@
            &&& v.model_id@ == ""@
            &&& v.image_provider_id@ == ""@
            &&& v.image_model_id@ == ""@
            &&& !v.is_bundled
            &&& v.setup_complete
            &&& !v.auto_update
        },
    }
}

/// A text, or nothing.
fn text_or_empty(o: &Option<String>) -> (r: String)
    ensures
        r@ == or_empty(opt_text(*o)),
{
    match o {
        Some(s) => s.clone(),
        None => String::new(),
    }
}

/// A loaded agent as listed. `known` and `known_image` are the well-known models of
/// the providers that its two models come from.
pub fn installed_agent(
    agent: &LoadedAgent,
    row: &Option<AgentRow>,
    known: &Vec<ModelName>,
    known_image: &Vec<ModelName>,
) -> (r: InstalledAgentView)
    ensures
        shows_installed(r, *agent, *row, known@, known_image@),
{
    proof {
        reveal_strlit("");
        assert(""@ =~= Seq::<char>::empty());
    }
    match row {
        Some(row) => {
            let model_id = text_or_empty(&row.model_id);
            let image_model_id = text_or_empty(&row.image_model_id);
            InstalledAgentView {
                id: agent.id.clone(),
                name: agent.name.clone(),
                version: row.version.clone(),
                provider_id: text_or_empty(&row.provider_id),
                model_display_name: resolve_model_display_name(model_id.as_str(), known),
                model_id,
                image_provider_id: text_or_empty(&row.image_provider_id),
                image_model_display_name: resolve_model_display_name(
                    image_model_id.as_str(),
                    known_image,
                ),
                image_model_id,
                capability_count: agent.capability_count,
                is_bundled: row.is_bundled != 0,
                setup_complete: row.setup_complete != 0,
                auto_update: row.auto_update != 0,
                update_available: false,
                marketplace_version: String::new(),
            }
        },
        None => InstalledAgentView {
            id: agent.id.clone(),
            name: agent.name.clone(),
            version: "0.1.0".to_string(),
            provider_id: String::new(),
            model_id: String::new(),
            model_display_name: resolve_model_display_name("", known),
            image_provider_id: String::new(),
            image_model_id: String::new(),
            image_model_display_name: resolve_model_display_name("", known_image),
            capability_count: agent.capability_count,
            is_bundled: false,
            setup_complete: true,
            auto_update: false,
            update_available: false,
            marketplace_version: String::new(),
        },
    }
}

/// An agent whose setup is not complete.
#[derive(Debug)]
pub struct PendingAgent {
    pub id: String,
    pub name: String,
}

/// The IDs of listed agents.
pub open spec fn ids(agents: Seq<InstalledAgentView>) -> Seq<Seq<char>> {
    agents.map_values(|a: InstalledAgentView| a.id@)
}

/// Whether `v` shows an agent whose setup is not complete.
pub open spec fn shows_pending(v: InstalledAgentView, p: PendingAgent) -> bool {
    &&& v.id@ == p.id@
    &&& v.name@ == p.name@
    &&& v.version@ == ""@
    &&& v.provider_id@ == ""@
    &&& v.model_id@ == ""@
    &&& v.model_display_name@ == ""@
    &&& v.image_provider_id@ == ""@
    &&& v.image_model_id@ == ""@
    &&& v.image_model_display_name@ == ""@
    &&& v.capability_count == 0
    &&& !v.is_bundled
    &&& !v.setup_complete
    &&& !v.auto_update
    &&& !v.update_available
    &&& v.marketplace_version@ == ""@
}

/// Whether one of some agents whose setup is not complete has an ID.
pub open spec fn is_pending(pending: Seq<PendingAgent>, id: Seq<char>) -> bool {
    exists|i: int| 0 <= i < pending.len() && (#[trigger] pending[i]).id@ == id
}

/// The agents whose setup is not complete that are not among `known`, each once.
pub open spec fn newcomers(pending: Seq<PendingAgent>, known: Seq<Seq<char>>) -> Seq<PendingAgent>
    decreases pending.len(),
{
    if pending.len() == 0 {
        Seq::empty()
    } else {
        let ahead = pending.drop_last();
        let p = pending.last();
        if known.contains(p.id@) || is_pending(ahead, p.id@) {
            newcomers(ahead, known)
        } else {
            newcomers(ahead, known).push(p)
        }
    }
}

/// The newcomers are those that are pending and not known.
proof fn lemma_newcomers(pending: Seq<PendingAgent>, known: Seq<Seq<char>>, id: Seq<char>)
    ensures
        is_pending(newcomers(pending, known), id) <==> is_pending(pending, id)
            && !known.contains(id),
    decreases pending.len(),
{
    if pending.len() > 0 {
        let ahead = pending.drop_last();
        let p = pending.last();
        lemma_newcomers(ahead, known, id);
        let found = newcomers(ahead, known);
        assert(is_pending(pending, id) <==> is_pending(ahead, id) || p.id@ == id) by {
            if is_pending(ahead, id) {
                let i = choose|i: int| 0 <= i < ahead.len() && (#[trigger] ahead[i]).id@ == id;
                assert(pending[i].id@ == id);
            }
            if p.id@ == id {
                assert(pending[pending.len() - 1].id@ == id);
            }
            if is_pending(pending, id) && p.id@ != id {
                let i = choose|i: int| 0 <= i < pending.len() && (#[trigger] pending[i]).id@ == id;
                assert(ahead[i].id@ == id);
            }
        }
        let grown = found.push(p);
        assert(is_pending(grown, id) <==> is_pending(found, id) || p.id@ == id) by {
            if is_pending(found, id) {
                let i = choose|i: int| 0 <= i < found.len() && (#[trigger] found[i]).id@ == id;
                assert(grown[i].id@ == id);
            }
            if p.id@ == id {
                assert(grown[found.len() as int].id@ == id);
            }
            if is_pending(grown, id) && p.id@ != id {
                let i = choose|i: int| 0 <= i < grown.len() && (#[trigger] grown[i]).id@ == id;
                assert(found[i].id@ == id);
            }
        }
    }
}

/// Whether `shown` lists the installed agents by their IDs, and behind them the
/// others whose setup is not complete.
pub open spec fn lists_agents(
    shown: Seq<InstalledAgentView>,
    installed: Seq<InstalledAgentView>,
    pending: Seq<PendingAgent>,
) -> bool {
    let new = newcomers(pending, ids(installed));
    &&& shown.len() == installed.len() + new.len()
    &&& shown.take(installed.len() as int) == in_order(installed, ids(installed), false)
    &&& forall|k: int|
        0 <= k < new.len() ==> shows_pending(#[trigger] shown[installed.len() + k], new[k])
}

/// Whether one of some listed agents has an ID.
fn lists_id(agents: &Vec<InstalledAgentView>, id: &str) -> (r: bool)
    ensures
        r == ids(agents@).contains(id@),
{
    let mut i: usize = 0;
    while i < agents.len()
        invariant
            i <= agents@.len(),
            forall|j: int| 0 <= j < i ==> (#[trigger] agents@[j]).id@ != id@,
        decreases agents@.len() - i,
    {
        if text::same(agents[i].id.as_str(), id) {
            assert(ids(agents@)[i as int] == id@);
            return true;
        }
        i += 1;
    }
    assert forall|j: int| 0 <= j < ids(agents@).len() implies ids(agents@)[j] != id@ by {
        assert(agents@[j].id@ != id@);
    }
    false
}

/// An agent whose setup is not complete, as listed.
fn pending_view(p: &PendingAgent) -> (r: InstalledAgentView)
    ensures
        shows_pending(r, *p),
{
    proof {
        reveal_strlit("");
        assert(""@ =~= Seq::<char>::empty());
    }
    InstalledAgentView {
        id: p.id.clone(),
        name: p.name.clone(),
        version: String::new(),
        provider_id: String::new(),
        model_id: String::new(),
        model_display_name: String::new(),
        image_provider_id: String::new(),
        image_model_id: String::new(),
        image_model_display_name: String::new(),
        capability_count: 0,
        is_bundled: false,
        setup_complete: false,
        auto_update: false,
        update_available: false,
        marketplace_version: String::new(),
    }
}

/// The IDs of installed agents and of newcomers behind them.
proof fn lemma_ids_of_all(
    shown: Seq<InstalledAgentView>,
    installed: Seq<InstalledAgentView>,
    new: Seq<PendingAgent>,
    id: Seq<char>,
)
    requires
        shown.len() == installed.len() + new.len(),
        shown.take(installed.len() as int) == in_order(installed, ids(installed), false),
        forall|k: int|
            0 <= k < new.len() ==> shows_pending(#[trigger] shown[installed.len() + k], new[k]),
    ensures
        ids(shown).contains(id) <==> ids(installed).contains(id) || is_pending(new, id),
{
    let n = installed.len() as int;
    let keys = ids(installed);
    let order = order::order_of(keys, false);
    order::law_in_order(keys, false);
    assert forall|i: int| 0 <= i < n implies shown[i] == installed[#[trigger] order[i]] by {
        assert(shown[i] == shown.take(n)[i]);
    }
    if ids(shown).contains(id) {
        let i = choose|i: int| 0 <= i < ids(shown).len() && ids(shown)[i] == id;
        assert(shown[i].id@ == id);
        if i < n {
            assert(keys[order[i]] == id);
        } else {
            assert(shows_pending(shown[n + (i - n)], new[i - n]));
            assert(new[i - n].id@ == id);
        }
    }
    if keys.contains(id) {
        let j = choose|j: int| 0 <= j < keys.len() && keys[j] == id;
        assert(vstd::set_lib::set_int_range(0, n).contains(j));
        assert(order.to_set().contains(j));
        let i = choose|i: int| 0 <= i < order.len() && order[i] == j;
        assert(shown[i] == installed[order[i]]);
        assert(ids(shown)[i] == id);
    }
    if is_pending(new, id) {
        let k = choose|k: int| 0 <= k < new.len() && (#[trigger] new[k]).id@ == id;
        assert(shows_pending(shown[n + k], new[k]));
        assert(ids(shown)[n + k] == id);
    }
}

/// The agents as listed: those that are installed by their IDs, and behind them the
/// others whose setup is not complete.
pub fn list_agents(installed: Vec<InstalledAgentView>, pending: &Vec<PendingAgent>) -> (r: Vec<
    InstalledAgentView,
>)
    ensures
        lists_agents(r@, installed@, pending@),
{
    let ghost all = installed@;
    let ghost known = ids(all);
    let mut keys: Vec<String> = Vec::new();
    let mut i: usize = 0;
    while i < installed.len()
        invariant
            i <= installed@.len(),
            texts(keys@) == ids(installed@).take(i as int),
        decreases installed@.len() - i,
    {
        let ghost before = texts(keys@);
        keys.push(installed[i].id.clone());
        proof {
            assert(texts(keys@) =~= before.push(installed@[i as int].id@));
            assert(ids(installed@).take(i + 1) =~= ids(installed@).take(i as int).push(
                installed@[i as int].id@,
            ));
        }
        i += 1;
    }
    proof {
        assert(ids(installed@).take(i as int) =~= known);
        order::law_in_order(known, false);
    }
    let mut out = order::sort(installed, &keys, false);
    proof {
        assert(out@.take(all.len() as int) =~= out@);
        assert(newcomers(pending@.take(0), known) =~= Seq::<PendingAgent>::empty());
    }
    let mut k: usize = 0;
    while k < pending.len()
        invariant
            k <= pending@.len(),
            known == ids(all),
            lists_agents(out@, all, pending@.take(k as int)),
        decreases pending@.len() - k,
    {
        let ghost ahead = pending@.take(k as int);
        let ghost p = pending@[k as int];
        let ghost new = newcomers(ahead, known);
        let ghost shown = out@;
        proof {
            assert(pending@.take(k + 1).drop_last() =~= ahead);
            assert(pending@.take(k + 1).last() == p);
            lemma_ids_of_all(shown, all, new, p.id@);
            lemma_newcomers(ahead, known, p.id@);
        }
        if !lists_id(&out, pending[k].id.as_str()) {
            let v = pending_view(&pending[k]);
            out.push(v);
            proof {
                let grown = new.push(p);
                assert(newcomers(pending@.take(k + 1), known) == grown);
                assert(out@.take(all.len() as int) =~= shown.take(all.len() as int));
                assert forall|j: int| 0 <= j < grown.len() implies shows_pending(
                    #[trigger] out@[all.len() + j],
                    grown[j],
                ) by {
                    if j < new.len() {
                        assert(shows_pending(shown[all.len() + j], new[j]));
                    }
                }
            }
        }
        k += 1;
    }
    proof {
        assert(pending@.take(k as int) =~= pending@);
    }
    out
}

/// Every installed agent and every agent whose setup is not complete is listed, and
/// no other.
pub proof fn law_every_agent_is_listed(
    shown: Seq<InstalledAgentView>,
    installed: Seq<InstalledAgentView>,
    pending: Seq<PendingAgent>,
    id: Seq<char>,
)
    requires
        lists_agents(shown, installed, pending),
    ensures
        ids(shown).contains(id) <==> ids(installed).contains(id) || is_pending(pending, id),
{
    lemma_ids_of_all(shown, installed, newcomers(pending, ids(installed)), id);
    lemma_newcomers(pending, ids(installed), id);
}

// ── The marketplace ──────────────────────────────────────────────────────────

/// An agent that the marketplace offers, with its name and its description in the
/// user's language.
#[derive(Debug)]
pub struct MarketplaceOffer {
    pub id: String,
    pub name: String,
    pub description: String,
    pub version: String,
    pub author: String,
    pub entry_json: String,
    pub rating_count: Option<u32>,
}

/// The version of the last of some listed agents that has an ID.
pub open spec fn version_of(agents: Seq<InstalledAgentView>, id: Seq<char>) -> Option<Seq<char>>
    decreases agents.len(),
{
    if agents.len() == 0 {
        None
    } else if agents.last().id@ == id {
        Some(agents.last().version@)
    } else {
        version_of(agents.drop_last(), id)
    }
}

/// The version of an agent, where it is listed.
pub fn installed_version(agents: &Vec<InstalledAgentView>, id: &str) -> (r: Option<String>)
    ensures
        opt_text(r) == version_of(agents@, id@),
{
    let mut i: usize = agents.len();
    proof {
        assert(agents@.take(i as int) =~= agents@);
    }
    while i > 0
        invariant
            i <= agents@.len(),
            version_of(agents@, id@) == version_of(agents@.take(i as int), id@),
        decreases i,
    {
        proof {
            assert(agents@.take(i as int).last() == agents@[i - 1]);
            assert(agents@.take(i as int).drop_last() =~= agents@.take(i - 1));
        }
        i -= 1;
        if text::same(agents[i].id.as_str(), id) {
            return Some(agents[i].version.clone());
        }
    }
    None
}

/// Whether `v` shows an agent that the marketplace offers, where the version
/// `installed` of it is installed and `newer` is whether the offered one is newer.
pub open spec fn shows_offer(
    v: MarketplaceAgentView,
    offer: MarketplaceOffer,
    installed: Option<Seq<char>>,
    newer: bool,
) -> bool {
    &&& v.id@ == offer.id@
    &&& v.name@ == offer.name@
    &&& v.description@ == offer.description@
    &&& v.version@ == offer.version@
    &&& v.author@ == offer.author@
    &&& v.entry_json@ == offer.entry_json@
    &&& v.rating_count == offer.rating_count
    &&& v.is_installed == installed is Some
    &&& v.installed_version@ == or_empty(installed)
    &&& v.update_available == (installed is Some && newer)
}

/// An agent that the marketplace offers, as listed.
pub fn marketplace_agent(
    offer: &MarketplaceOffer,
    installed: &Option<String>,
    newer: bool,
) -> (r: MarketplaceAgentView)
    ensures
        shows_offer(r, *offer, opt_text(*installed), newer),
{
    let is_installed = installed.is_some();
    MarketplaceAgentView {
        id: offer.id.clone(),
        name: offer.name.clone(),
        description: offer.description.clone(),
        version: offer.version.clone(),
        author: offer.author.clone(),
        is_installed,
        installed_version: text_or_empty(installed),
        update_available: is_installed && newer,
        entry_json: offer.entry_json.clone(),
        rating_count: offer.rating_count,
    }
}

/// The version that the last update for an agent would bring.
pub open spec fn update_for(offers: Seq<MarketplaceAgentView>, id: Seq<char>) -> Option<Seq<char>>
    decreases offers.len(),
{
    if offers.len() == 0 {
        None
    } else if offers.last().update_available && offers.last().id@ == id {
        Some(offers.last().version@)
    } else {
        update_for(offers.drop_last(), id)
    }
}

/// Whether no agent ahead of the one at `k` has its ID.
pub open spec fn is_first(agents: Seq<InstalledAgentView>, k: int) -> bool {
    forall|j: int| 0 <= j < k ==> (#[trigger] agents[j]).id@ != agents[k].id@
}

/// Whether `b` is `a` but for what it says of an update.
pub open spec fn same_but_update(a: InstalledAgentView, b: InstalledAgentView) -> bool {
    &&& b.id == a.id
    &&& b.name == a.name
    &&& b.version == a.version
    &&& b.provider_id == a.provider_id
    &&& b.model_id == a.model_id
    &&& b.model_display_name == a.model_display_name
    &&& b.image_provider_id == a.image_provider_id
    &&& b.image_model_id == a.image_model_id
    &&& b.image_model_display_name == a.image_model_display_name
    &&& b.capability_count == a.capability_count
    &&& b.is_bundled == a.is_bundled
    &&& b.setup_complete == a.setup_complete
    &&& b.auto_update == a.auto_update
}

/// What is said of an update after the offers have been gone through.
pub open spec fn shows_updates(
    before: Seq<InstalledAgentView>,
    after: Seq<InstalledAgentView>,
    offers: Seq<MarketplaceAgentView>,
) -> bool {
    &&& after.len() == before.len()
    &&& forall|k: int|
        0 <= k < before.len() ==> {
            &&& same_but_update(before[k], #[trigger] after[k])
            &&& match update_for(offers, before[k].id@) {
                Some(version) if is_first(before, k) => after[k].update_available
                    && after[k].marketplace_version@ == version,
                _ => after[k].update_available == before[k].update_available
                    && after[k].marketplace_version == before[k].marketplace_version,
            }
        }
}

/// Where the first of some listed agents with an ID stands.
fn place_of(agents: &Vec<InstalledAgentView>, id: &str) -> (r: Option<usize>)
    ensures
        match r {
            Some(k) => k < agents@.len() && agents@[k as int].id@ == id@ && is_first(
                agents@,
                k as int,
            ),
            None => forall|j: int| 0 <= j < agents@.len() ==> (#[trigger] agents@[j]).id@ != id@,
        },
{
    let mut i: usize = 0;
    while i < agents.len()
        invariant
            i <= agents@.len(),
            forall|j: int| 0 <= j < i ==> (#[trigger] agents@[j]).id@ != id@,
        decreases agents@.len() - i,
    {
        if text::same(agents[i].id.as_str(), id) {
            return Some(i);
        }
        i += 1;
    }
    None
}

/// Notes the updates that the marketplace offers with the agents that they are for.
pub fn note_updates(agents: &mut Vec<InstalledAgentView>, offers: &Vec<MarketplaceAgentView>)
    ensures
        shows_updates(old(agents)@, final(agents)@, offers@),
{
    let ghost start = agents@;
    let mut i: usize = 0;
    while i < offers.len()
        invariant
            i <= offers@.len(),
            shows_updates(start, agents@, offers@.take(i as int)),
        decreases offers@.len() - i,
    {
        let ghost was = agents@;
        proof {
            assert(offers@.take(i + 1).last() == offers@[i as int]);
            assert(offers@.take(i + 1).drop_last() =~= offers@.take(i as int));
            assert forall|j: int| 0 <= j < was.len() implies (#[trigger] was[j]).id@
                == start[j].id@ by {
                assert(same_but_update(start[j], was[j]));
            }
        }
        if offers[i].update_available {
            if let Some(k) = place_of(agents, offers[i].id.as_str()) {
                agents[k].update_available = true;
                agents[k].marketplace_version = offers[i].version.clone();
                proof {
                    assert(same_but_update(start[k as int], was[k as int]));
                    assert(is_first(start, k as int)) by {
                        assert forall|j: int| 0 <= j < k implies (#[trigger] start[j]).id@
                            != start[k as int].id@ by {
                            assert(was[j].id@ != was[k as int].id@);
                        }
                    }
                }
            }
        }
        proof {
            assert forall|j: int| 0 <= j < start.len() implies {
                &&& same_but_update(start[j], #[trigger] agents@[j])
                &&& match update_for(offers@.take(i + 1), start[j].id@) {
                    Some(version) if is_first(start, j) => agents@[j].update_available
                        && agents@[j].marketplace_version@ == version,
                    _ => agents@[j].update_available == start[j].update_available
                        && agents@[j].marketplace_version == start[j].marketplace_version,
                }
            } by {
                assert(same_but_update(start[j], was[j]));
            }
        }
        i += 1;
    }
    proof {
        assert(offers@.take(i as int) =~= offers@);
    }
}

/// An agent that the marketplace offers, and whether its version is newer than the one
/// that is installed.
#[derive(Debug)]
pub struct JudgedOffer {
    pub offer: MarketplaceOffer,
    pub newer: bool,
}

/// The agents with the updates for them, the agents that the marketplace offers, and
/// what is said where it could not be asked.
pub fn marketplace_page(
    agents: Vec<InstalledAgentView>,
    catalogue: &Result<Vec<JudgedOffer>, String>,
) -> (r: (Vec<InstalledAgentView>, Vec<MarketplaceAgentView>, String))
    ensures
        match *catalogue {
            Ok(offers) => {
                &&& r.1@.len() == offers@.len()
                &&& forall|i: int|
                    0 <= i < offers@.len() ==> shows_offer(
                        #[trigger] r.1@[i],
                        offers@[i].offer,
                        version_of(agents@, offers@[i].offer.id@),
                        offers@[i].newer,
                    )
                &&& shows_updates(agents@, r.0@, r.1@)
                &&& r.2@ == ""@
            },
            Err(e) => r.0 == agents && r.1@.len() == 0 && r.2@ == "Failed to fetch marketplace: "@
                + e@,
        },
{
    let mut agents = agents;
    let ghost start = agents@;
    match catalogue {
        Ok(offers) => {
            let mut views: Vec<MarketplaceAgentView> = Vec::new();
            let mut i: usize = 0;
            while i < offers.len()
                invariant
                    i <= offers@.len(),
                    agents@ == start,
                    views@.len() == i,
                    forall|k: int|
                        0 <= k < i ==> shows_offer(
                            #[trigger] views@[k],
                            offers@[k].offer,
                            version_of(start, offers@[k].offer.id@),
                            offers@[k].newer,
                        ),
                decreases offers@.len() - i,
            {
                let installed = installed_version(&agents, offers[i].offer.id.as_str());
                views.push(marketplace_agent(&offers[i].offer, &installed, offers[i].newer));
                i += 1;
            }
            note_updates(&mut agents, &views);
            (agents, views, "".to_string())
        },
        Err(e) => {
            let mut said = "Failed to fetch marketplace: ".to_string();
            said.append(e.as_str());
            (agents, Vec::new(), said)
        },
    }
}

/// The provider and the model of all agents, and how the model is called; nothing
/// where none is set. `known` are the well-known models of the provider.
pub fn default_model(found: Option<(String, String)>, known: &Vec<ModelName>) -> (r: (
    String,
    String,
    String,
))
    ensures
        match found {
            Some(m) => r.0 == m.0 && r.1 == m.1 && r.2@ == called(m.1@, known@),
            None => r.0@ == ""@ && r.1@ == ""@ && r.2@ == ""@,
        },
{
    match found {
        Some((provider, model)) => {
            let name = resolve_model_display_name(model.as_str(), known);
            (provider, model, name)
        },
        None => ("".to_string(), "".to_string(), "".to_string()),
    }
}

/// The page of the agents.
#[derive(Debug)]
pub struct AgentsPage {
    pub agents: Vec<InstalledAgentView>,
    pub marketplace_agents: Vec<MarketplaceAgentView>,
    pub marketplace_error: String,
    pub providers: Vec<ProviderOption>,
    pub global_provider: String,
    pub global_model: String,
    pub global_model_display_name: String,
    pub global_temperature: String,
    pub global_image_provider: String,
    pub global_image_model: String,
    pub global_image_model_display_name: String,
    pub error: Option<String>,
    pub success: Option<String>,
}

/// Whether a page shows the agents with their updates, and what the marketplace offers.
pub open spec fn shows_marketplace(
    page: AgentsPage,
    agents: Seq<InstalledAgentView>,
    catalogue: Result<Vec<JudgedOffer>, String>,
) -> bool {
    match catalogue {
        Ok(offers) => {
            &&& page.marketplace_agents@.len() == offers@.len()
            &&& forall|i: int|
                0 <= i < offers@.len() ==> shows_offer(
                    #[trigger] page.marketplace_agents@[i],
                    offers@[i].offer,
                    version_of(agents, offers@[i].offer.id@),
                    offers@[i].newer,
                )
            &&& shows_updates(agents, page.agents@, page.marketplace_agents@)
            &&& page.marketplace_error@ == ""@
        },
        Err(e) => page.agents@ == agents && page.marketplace_agents@.len() == 0
            && page.marketplace_error@ == "Failed to fetch marketplace: "@ + e@,
    }
}

/// A loaded agent, with what is stored of it and the well-known models of the providers
/// that its two models come from.
#[derive(Debug)]
pub struct LoadedEntry {
    pub agent: LoadedAgent,
    pub row: Option<AgentRow>,
    pub known: Vec<ModelName>,
    pub known_image: Vec<ModelName>,
}

/// Whether a list shows the loaded agents, one by one.
pub open spec fn shows_loaded(v: Seq<InstalledAgentView>, loaded: Seq<LoadedEntry>) -> bool {
    &&& v.len() == loaded.len()
    &&& forall|i: int|
        0 <= i < loaded.len() ==> shows_installed(
            #[trigger] v[i],
            loaded[i].agent,
            loaded[i].row,
            loaded[i].known@,
            loaded[i].known_image@,
        )
}

/// Whether a page shows agents: `installed` are the loaded ones one by one, `listed` are
/// these in the order of their IDs with those behind them that are still set up, and the
/// page shows the latter with the updates for them.
pub open spec fn shows_agents(
    page: AgentsPage,
    loaded: Seq<LoadedEntry>,
    pending: Seq<PendingAgent>,
    catalogue: Result<Vec<JudgedOffer>, String>,
    installed: Seq<InstalledAgentView>,
    listed: Seq<InstalledAgentView>,
) -> bool {
    &&& shows_loaded(installed, loaded)
    &&& lists_agents(listed, installed, pending)
    &&& shows_marketplace(page, listed, catalogue)
}

/// The loaded agents as shown, one by one.
fn show_loaded(loaded: &Vec<LoadedEntry>) -> (r: Vec<InstalledAgentView>)
    ensures
        shows_loaded(r@, loaded@),
{
    let mut out: Vec<InstalledAgentView> = Vec::new();
    let mut i: usize = 0;
    while i < loaded.len()
        invariant
            i <= loaded@.len(),
            shows_loaded(out@, loaded@.take(i as int)),
        decreases loaded@.len() - i,
    {
        let ghost before = out@;
        let e = &loaded[i];
        out.push(installed_agent(&e.agent, &e.row, &e.known, &e.known_image));
        proof {
            let ahead = loaded@.take(i as int);
            let grown = loaded@.take(i + 1);
            assert forall|k: int| 0 <= k < grown.len() implies shows_installed(
                #[trigger] out@[k],
                grown[k].agent,
                grown[k].row,
                grown[k].known@,
                grown[k].known_image@,
            ) by {
                if k < i {
                    assert(before[k] == out@[k]);
                    assert(ahead[k] == grown[k]);
                }
            }
        }
        i += 1;
    }
    proof {
        assert(loaded@.take(i as int) =~= loaded@);
    }
    out
}

/// The page of the agents: as they are listed, with the updates for them, what the
/// marketplace offers, the providers that agents can use, and the models of all agents.
/// `temperature` is that of the model of all agents, where there is one.
pub fn agents_index(
    is_admin: bool,
    base_path: &str,
    loaded: &Vec<LoadedEntry>,
    pending: &Vec<PendingAgent>,
    catalogue: &Result<Vec<JudgedOffer>, String>,
    providers: &Vec<ProviderRow>,
    global: Option<(String, String)>,
    temperature: Option<String>,
    known: &Vec<ModelName>,
    global_image: Option<(String, String)>,
    known_image: &Vec<ModelName>,
    query: AgentsQuery,
) -> (r: Verdict<AgentsPage>)
    ensures
        match r {
            Verdict::Answer(a) => !is_admin && a@ == Sent::Redirect(base_path@ + "/chat"@),
            Verdict::Proceed(page) => {
                &&& is_admin
                &&& page.error == query.error
                &&& page.success == query.success
                &&& exists|installed: Seq<InstalledAgentView>, listed: Seq<InstalledAgentView>|
                    #[trigger] shows_agents(
                        page,
                        loaded@,
                        pending@,
                        *catalogue,
                        installed,
                        listed,
                    )
                &&& page.global_temperature@ == match opt_text(temperature) {
                    Some(t) => t,
                    None => "0.7"@,
                }
                &&& option_texts(page.providers@) == providers@.filter_map(
                    |row: ProviderRow| option_of(row),
                )
                &&& match global {
                    Some(m) => page.global_provider == m.0 && page.global_model == m.1
                        && page.global_model_display_name@ == called(m.1@, known@),
                    None => page.global_provider@ == ""@ && page.global_model@ == ""@
                        && page.global_model_display_name@ == ""@,
                }
                &&& match global_image {
                    Some(m) => page.global_image_provider == m.0 && page.global_image_model == m.1
                        && page.global_image_model_display_name@ == called(m.1@, known_image@),
                    None => page.global_image_provider@ == ""@ && page.global_image_model@ == ""@
                        && page.global_image_model_display_name@ == ""@,
                }
            },
        },
{
    if !is_admin {
        return Verdict::Answer(response::redirect(base_path, "/chat"));
    }
    let installed = show_loaded(loaded);
    let ghost all = installed@;
    let agents = list_agents(installed, pending);
    let ghost listed = agents@;
    let (agents, marketplace_agents, marketplace_error) = marketplace_page(agents, catalogue);
    let (global_provider, global_model, global_model_display_name) = default_model(global, known);
    let (global_image_provider, global_image_model, global_image_model_display_name) =
        default_model(global_image, known_image);
    let page = AgentsPage {
        agents,
        marketplace_agents,
        marketplace_error,
        providers: load_provider_options(providers),
        global_provider,
        global_model,
        global_model_display_name,
        global_temperature: match temperature {
            Some(t) => t,
            None => default_temp_str(),
        },
        global_image_provider,
        global_image_model,
        global_image_model_display_name,
        error: query.error,
        success: query.success,
    };
    proof {
        assert(shows_agents(page, loaded@, pending@, *catalogue, all, listed));
    }
    Verdict::Proceed(page)
}

/// An update for an agent is one of the offers.
proof fn lemma_update_for(offers: Seq<MarketplaceAgentView>, id: Seq<char>)
    ensures
        update_for(offers, id) is Some <==> exists|i: int|
            0 <= i < offers.len() && (#[trigger] offers[i]).update_available && offers[i].id@ == id,
    decreases offers.len(),
{
    if offers.len() > 0 {
        let ahead = offers.drop_last();
        lemma_update_for(ahead, id);
        if update_for(ahead, id) is Some {
            let i = choose|i: int|
                0 <= i < ahead.len() && (#[trigger] ahead[i]).update_available && ahead[i].id@
                    == id;
            assert(offers[i].update_available && offers[i].id@ == id);
        }
        if exists|i: int|
            0 <= i < offers.len() && (#[trigger] offers[i]).update_available && offers[i].id@
                == id {
            let i = choose|i: int|
                0 <= i < offers.len() && (#[trigger] offers[i]).update_available && offers[i].id@
                    == id;
            if i < ahead.len() {
                assert(ahead[i].update_available && ahead[i].id@ == id);
            }
        }
    }
}

/// An agent, of which no update was known and whose ID no agent ahead of it has, is
/// shown with an update exactly where the marketplace offers one for it.
pub proof fn law_update_is_shown(
    before: Seq<InstalledAgentView>,
    after: Seq<InstalledAgentView>,
    offers: Seq<MarketplaceAgentView>,
    k: int,
)
    requires
        shows_updates(before, after, offers),
        0 <= k < before.len(),
        is_first(before, k),
        !before[k].update_available,
    ensures
        after[k].update_available <==> exists|i: int|
            0 <= i < offers.len() && (#[trigger] offers[i]).update_available && offers[i].id@
                == before[k].id@,
{
    lemma_update_for(offers, before[k].id@);
    assert(same_but_update(before[k], after[k]));
}

// ── Installing, updating, removing ───────────────────────────────────────────

/// Back to the agents with an error.
pub fn agents_error(base_path: &str, error: &str) -> (r: WebAnswer)
    ensures
        r@ == Sent::Redirect(base_path@ + "/agents?error="@ + percent_encoded(error@)),
{
    let e = url::encode(error);
    response::redirect_with(base_path, "/agents?error=", e.as_str())
}

/// Back to the agents with a success.
pub fn agents_success(base_path: &str, key: &str) -> (r: WebAnswer)
    ensures
        r@ == Sent::Redirect(base_path@ + "/agents?success="@ + percent_encoded(key@)),
{
    let k = url::encode(key);
    response::redirect_with(base_path, "/agents?success=", k.as_str())
}

/// How the installation of an agent, or its update, went.
#[derive(Debug)]
pub enum Installation {
    /// The entry could not be read.
    BadEntry,
    /// Docker cannot be reached.
    NoDocker,
    /// It is done, and the agent may have to be set up.
    Done { setup_required: bool },
    /// It failed.
    Failed(String),
}

/// Where an agent that was to be installed leads: to its setup where it has to be
/// set up, else to the agents.
pub fn install_agent(is_admin: bool, base_path: &str, agent_id: &str, how: &Installation) -> (r:
    WebAnswer)
    ensures
        r@ == if !is_admin {
            Sent::Status(403)
        } else {
            Sent::Redirect(
                match *how {
                    Installation::BadEntry => base_path@
                        + "/agents?error=Invalid+agent+data.+Please+try+again."@,
                    Installation::NoDocker => base_path@
                        + "/agents?error=Cannot+connect+to+Docker.+Is+Docker+running%3F"@,
                    Installation::Done { setup_required: true } => base_path@ + "/agents/"@ + agent_id@
                        + "/setup"@,
                    Installation::Done { setup_required: false } => base_path@ + "/agents"@,
                    Installation::Failed(e) => base_path@ + "/agents?error="@ + percent_encoded(
                        "Agent installation failed: "@ + e@,
                    ),
                },
            )
        },
{
    if !is_admin {
        return WebAnswer::Status(response::FORBIDDEN);
    }
    match how {
        Installation::BadEntry => response::redirect(
            base_path,
            "/agents?error=Invalid+agent+data.+Please+try+again.",
        ),
        Installation::NoDocker => response::redirect(
            base_path,
            "/agents?error=Cannot+connect+to+Docker.+Is+Docker+running%3F",
        ),
        Installation::Done { setup_required } => if *setup_required {
            response::redirect_about(base_path, "/agents/", agent_id, "/setup")
        } else {
            response::redirect(base_path, "/agents")
        },
        Installation::Failed(e) => {
            let mut text = "Agent installation failed: ".to_string();
            text.append(e.as_str());
            agents_error(base_path, text.as_str())
        },
    }
}

/// Where an agent that was to be updated leads: to its setup where it has to be set
/// up again, else to the agents.
pub fn update_agent(is_admin: bool, base_path: &str, agent_id: &str, how: &Installation) -> (r:
    WebAnswer)
    ensures
        r@ == if !is_admin {
            Sent::Status(403)
        } else {
            Sent::Redirect(
                match *how {
                    Installation::BadEntry => base_path@
                        + "/agents?error=Invalid+agent+data.+Please+try+again."@,
                    Installation::NoDocker => base_path@
                        + "/agents?error=Cannot+connect+to+Docker.+Is+Docker+running%3F"@,
                    Installation::Done { setup_required: true } => base_path@ + "/agents/"@ + agent_id@
                        + "/setup?flow=update"@,
                    Installation::Done { setup_required: false } => base_path@ + "/agents?success="@
                        + percent_encoded("updated"@),
                    Installation::Failed(e) => base_path@ + "/agents?error="@ + percent_encoded(
                        "Agent update failed: "@ + e@,
                    ),
                },
            )
        },
{
    if !is_admin {
        return WebAnswer::Status(response::FORBIDDEN);
    }
    match how {
        Installation::BadEntry => response::redirect(
            base_path,
            "/agents?error=Invalid+agent+data.+Please+try+again.",
        ),
        Installation::NoDocker => response::redirect(
            base_path,
            "/agents?error=Cannot+connect+to+Docker.+Is+Docker+running%3F",
        ),
        Installation::Done { setup_required } => if *setup_required {
            response::redirect_about(base_path, "/agents/", agent_id, "/setup?flow=update")
        } else {
            agents_success(base_path, "updated")
        },
        Installation::Failed(e) => {
            let mut text = "Agent update failed: ".to_string();
            text.append(e.as_str());
            agents_error(base_path, text.as_str())
        },
    }
}

/// Where an agent that was to be removed leads.
pub fn uninstall_agent(is_admin: bool, base_path: &str, done: &Result<(), String>) -> (r:
    WebAnswer)
    ensures
        r@ == if !is_admin {
            Sent::Status(403)
        } else {
            Sent::Redirect(
                match *done {
                    Ok(_) => base_path@ + "/agents?success=Agent+uninstalled+successfully."@,
                    Err(e) => base_path@ + "/agents?error="@ + percent_encoded(
                        "Failed to uninstall agent: "@ + e@,
                    ),
                },
            )
        },
{
    if !is_admin {
        return WebAnswer::Status(response::FORBIDDEN);
    }
    match done {
        Ok(_) => response::redirect(base_path, "/agents?success=Agent+uninstalled+successfully."),
        Err(e) => {
            let mut text = "Failed to uninstall agent: ".to_string();
            text.append(e.as_str());
            agents_error(base_path, text.as_str())
        },
    }
}

/// What the switch for automatic updates is set to.
pub fn toggle_auto_update(is_admin: bool, form: &ToggleAutoUpdateForm) -> (r: Verdict<i32>)
    ensures
        if !is_admin {
            r.answers(Sent::Status(403))
        } else {
            r == Verdict::<i32>::Proceed(
                if opt_text(form.auto_update) == Some("on"@) || opt_text(form.auto_update) == Some(
                    "1"@,
                ) {
                    1
                } else {
                    0
                },
            )
        },
{
    if !is_admin {
        return Verdict::Answer(WebAnswer::Status(response::FORBIDDEN));
    }
    match &form.auto_update {
        Some(v) => if text::same(v.as_str(), "on") || text::same(v.as_str(), "1") {
            Verdict::Proceed(1)
        } else {
            Verdict::Proceed(0)
        },
        None => Verdict::Proceed(0),
    }
}

/// Where the switch for automatic updates leads.
pub fn auto_update_saved(base_path: &str, done: bool) -> (r: WebAnswer)
    ensures
        r@ == Sent::Redirect(
            base_path@ + if done {
                "/agents?success=Auto-update+setting+saved."@
            } else {
                "/agents?error=Failed+to+update+setting.+Please+try+again."@
            },
        ),
{
    if done {
        response::redirect(base_path, "/agents?success=Auto-update+setting+saved.")
    } else {
        response::redirect(
            base_path,
            "/agents?error=Failed+to+update+setting.+Please+try+again.",
        )
    }
}

// ── Models of agents ─────────────────────────────────────────────────────────

/// The model that a form picks for an agent, where an administrator sent it.
pub fn set_agent_model_handler(is_admin: bool, form: SetAgentModelForm) -> (r: Verdict<
    SetAgentModelForm,
>)
    ensures
        if is_admin {
            r == Verdict::Proceed(form)
        } else {
            r.answers(Sent::Status(403))
        },
{
    match response::admin_only(is_admin) {
        Verdict::Answer(a) => Verdict::Answer(a),
        Verdict::Proceed(_) => Verdict::Proceed(form),
    }
}

/// Where the model of an agent that was to be set leads.
pub fn agent_model_saved(base_path: &str, done: bool) -> (r: WebAnswer)
    ensures
        r@ == Sent::Redirect(
            base_path@ + if done {
                "/agents?success=Model+updated+successfully."@
            } else {
                "/agents?error=Failed+to+update+model+assignment.+Please+try+again."@
            },
        ),
{
    if done {
        response::redirect(base_path, "/agents?success=Model+updated+successfully.")
    } else {
        response::redirect(
            base_path,
            "/agents?error=Failed+to+update+model+assignment.+Please+try+again.",
        )
    }
}

/// The provider and the model for images that a form picks for an agent, as they
/// stand in it; nothing where one of them is blank.
pub fn set_agent_image_model_handler(is_admin: bool, form: &SetAgentImageModelForm) -> (r: Verdict<
    Option<(String, String)>,
>)
    ensures
        if !is_admin {
            r.answers(Sent::Status(403))
        } else if trimmed(form.provider_id@).len() == 0 || trimmed(form.model_id@).len() == 0 {
            r == Verdict::<Option<(String, String)>>::Proceed(None)
        } else {
            r matches Verdict::Proceed(Some(c)) && c.0@ == form.provider_id@ && c.1@
                == form.model_id@
        },
{
    if !is_admin {
        return Verdict::Answer(WebAnswer::Status(response::FORBIDDEN));
    }
    if text::trim(form.provider_id.as_str()).is_empty() || text::trim(
        form.model_id.as_str(),
    ).is_empty() {
        Verdict::Proceed(None)
    } else {
        Verdict::Proceed(Some((form.provider_id.clone(), form.model_id.clone())))
    }
}

/// Where the model for images of an agent that was to be set leads.
pub fn agent_image_model_saved(base_path: &str, done: bool) -> (r: WebAnswer)
    ensures
        r@ == Sent::Redirect(
            base_path@ + if done {
                "/agents?success=image_model_updated"@
            } else {
                "/agents?error=Failed+to+update+image+model+assignment.+Please+try+again."@
            },
        ),
{
    if done {
        response::redirect(base_path, "/agents?success=image_model_updated")
    } else {
        response::redirect(
            base_path,
            "/agents?error=Failed+to+update+image+model+assignment.+Please+try+again.",
        )
    }
}

/// The model that a form picks for all agents, where an administrator sent it.
pub fn set_default_model(is_admin: bool, form: SetDefaultModelForm) -> (r: Verdict<
    SetDefaultModelForm,
>)
    ensures
        if is_admin {
            r == Verdict::Proceed(form)
        } else {
            r.answers(Sent::Status(403))
        },
{
    match response::admin_only(is_admin) {
        Verdict::Answer(a) => Verdict::Answer(a),
        Verdict::Proceed(_) => Verdict::Proceed(form),
    }
}

/// Where the model of all agents that was to be set leads.
pub fn default_model_saved(base_path: &str, done: bool) -> (r: WebAnswer)
    ensures
        r@ == Sent::Redirect(
            base_path@ + if done {
                "/agents?success=global_default_model_updated"@
            } else {
                "/agents?error=Failed+to+update+global+default+model.+Please+try+again."@
            },
        ),
{
    if done {
        response::redirect(base_path, "/agents?success=global_default_model_updated")
    } else {
        response::redirect(
            base_path,
            "/agents?error=Failed+to+update+global+default+model.+Please+try+again.",
        )
    }
}

/// The provider and the model for images that a form picks for all agents, without
/// the blanks around them; both empty where one of them is blank.
pub fn set_default_image_model(is_admin: bool, form: &SetDefaultImageModelForm) -> (r: Verdict<
    (String, String),
>)
    ensures
        if !is_admin {
            r.answers(Sent::Status(403))
        } else if trimmed(form.provider_id@).len() == 0 || trimmed(form.model_id@).len() == 0 {
            r matches Verdict::Proceed(c) && c.0@ == ""@ && c.1@ == ""@
        } else {
            r matches Verdict::Proceed(c) && c.0@ == trimmed(form.provider_id@) && c.1@ == trimmed(
                form.model_id@,
            )
        },
{
    if !is_admin {
        return Verdict::Answer(WebAnswer::Status(response::FORBIDDEN));
    }
    let provider = text::trim(form.provider_id.as_str());
    let model = text::trim(form.model_id.as_str());
    if provider.is_empty() || model.is_empty() {
        Verdict::Proceed(("".to_string(), "".to_string()))
    } else {
        Verdict::Proceed((provider.to_string(), model.to_string()))
    }
}

/// Where the model for images of all agents that was to be set leads.
pub fn default_image_model_saved(base_path: &str, done: bool) -> (r: WebAnswer)
    ensures
        r@ == Sent::Redirect(
            base_path@ + if done {
                "/agents?success=global_default_image_model_updated"@
            } else {
                "/agents?error=Failed+to+update+global+default+image+model.+Please+try+again."@
            },
        ),
{
    if done {
        response::redirect(base_path, "/agents?success=global_default_image_model_updated")
    } else {
        response::redirect(
            base_path,
            "/agents?error=Failed+to+update+global+default+image+model.+Please+try+again.",
        )
    }
}

// ── Rating ───────────────────────────────────────────────────────────────────

/// Whether an agent may be rated: it has to be installed, and the rating to be one
/// to five stars.
pub fn rate_agent(base_path: &str, is_installed: bool, form: &RateAgentForm) -> (r: Verdict<u8>)
    ensures
        if !is_installed {
            r.answers(
                Sent::Redirect(base_path@ + "/agents?error="@ + percent_encoded("not_installed"@)),
            )
        } else if form.rating < 1 || form.rating > 5 {
            r.answers(
                Sent::Redirect(base_path@ + "/agents?error="@ + percent_encoded("rating_invalid"@)),
            )
        } else {
            r == Verdict::<u8>::Proceed(form.rating)
        },
{
    if !is_installed {
        return Verdict::Answer(agents_error(base_path, "not_installed"));
    }
    if form.rating < 1 || form.rating > 5 {
        return Verdict::Answer(agents_error(base_path, "rating_invalid"));
    }
    Verdict::Proceed(form.rating)
}

/// The address that ratings are sent to: what stands ahead of the marketplace's
/// agents in its address.
pub open spec fn ratings_base(marketplace_url: Seq<char>) -> Option<Seq<char>> {
    let url = trimmed_end_of(marketplace_url, '/');
    match find_from(url, "/marketplace/agents"@, 0) {
        Some(i) => Some(url.take(i)),
        None => None,
    }
}

/// The address that ratings are sent to.
pub fn ratings_api_base_url(marketplace_url: &str) -> (r: Option<String>)
    ensures
        opt_text(r) == ratings_base(marketplace_url@),
{
    let trimmed = text::trim_end_of(marketplace_url, '/');
    proof {
        text::lemma_find_from(trimmed@, "/marketplace/agents"@, 0);
    }
    match text::find(trimmed, "/marketplace/agents") {
        Some(i) => {
            proof {
                assert(trimmed@.subrange(0, i as int) =~= trimmed@.take(i as int));
            }
            Some(trimmed.substring_char(0, i).to_string())
        },
        None => None,
    }
}

/// Where a rating of an agent is sent, where this instance has an ID.
pub fn rating_address(
    base_path: &str,
    agent_id: &str,
    has_instance_id: bool,
    marketplace_url: &str,
) -> (r: Verdict<String>)
    ensures
        if !has_instance_id {
            r.answers(
                Sent::Redirect(
                    base_path@ + "/agents?error="@ + percent_encoded("rating_submit_failed"@),
                ),
            )
        } else {
            match ratings_base(marketplace_url@) {
                Some(base) => r matches Verdict::Proceed(to) && to@ == base + "/ratings/agents/"@
                    + agent_id@,
                None => r.answers(
                    Sent::Redirect(
                        base_path@ + "/agents?error="@ + percent_encoded("rating_unavailable"@),
                    ),
                ),
            }
        },
{
    if !has_instance_id {
        return Verdict::Answer(agents_error(base_path, "rating_submit_failed"));
    }
    match ratings_api_base_url(marketplace_url) {
        Some(base) => {
            let mut to = base;
            to.append("/ratings/agents/");
            to.append(agent_id);
            Verdict::Proceed(to)
        },
        None => Verdict::Answer(agents_error(base_path, "rating_unavailable")),
    }
}

/// How the sending of a rating went.
#[derive(Debug)]
pub enum RatingSent {
    /// There is nothing to send it with.
    NoClient,
    /// It was answered, with a status that stands for success or not.
    Answered { success: bool },
    /// It was not answered.
    Lost,
}

/// Where a rating that was sent leads.
pub fn rating_sent(base_path: &str, how: &RatingSent) -> (r: WebAnswer)
    ensures
        r@ == Sent::Redirect(
            match *how {
                RatingSent::NoClient => base_path@ + "/agents?error="@ + percent_encoded(
                    "rating_unavailable"@,
                ),
                RatingSent::Answered { success: true } => base_path@ + "/agents?success="@
                    + percent_encoded("rating_saved"@),
                _ => base_path@ + "/agents?error="@ + percent_encoded("rating_save_failed"@),
            },
        ),
{
    match how {
        RatingSent::NoClient => agents_error(base_path, "rating_unavailable"),
        RatingSent::Answered { success } => if *success {
            agents_success(base_path, "rating_saved")
        } else {
            agents_error(base_path, "rating_save_failed")
        },
        RatingSent::Lost => agents_error(base_path, "rating_save_failed"),
    }
}

// ── Laws ─────────────────────────────────────────────────────────────────────

/// An agent is listed with what is stored of it, each part in its place: the model that writes is
/// not the one that draws, and what is not stored is not made up.
pub proof fn law_agent_is_listed_as_stored(
    agent: LoadedAgent,
    row: AgentRow,
    known: Vec<ModelName>,
    known_image: Vec<ModelName>,
    v: InstalledAgentView,
)
    requires
        call_ensures(installed_agent, (&agent, &Some(row), &known, &known_image), v),
    ensures
        v.id@ == agent.id@,
        v.name@ == agent.name@,
        v.capability_count == agent.capability_count,
        v.version@ == row.version@,
        row.provider_id is Some ==> v.provider_id@ == row.provider_id->0@,
        row.model_id is Some ==> v.model_id@ == row.model_id->0@,
        row.image_provider_id is Some ==> v.image_provider_id@ == row.image_provider_id->0@,
        row.image_model_id is Some ==> v.image_model_id@ == row.image_model_id->0@,
        row.provider_id is None ==> v.provider_id@.len() == 0,
        row.image_provider_id is None ==> v.image_provider_id@.len() == 0,
        v.is_bundled <==> row.is_bundled != 0,
        v.setup_complete <==> row.setup_complete != 0,
        v.auto_update <==> row.auto_update != 0,
        !v.update_available,
{
}

/// A model is shown by the name that is known for its ID, and by its ID where none is.
pub proof fn law_model_is_called_by_its_name(model_id: &str, known: Vec<ModelName>, r: String)
    requires
        call_ensures(resolve_model_display_name, (model_id, &known), r),
    ensures
        r@ == model_id@ || exists|i: int|
            0 <= i < known@.len() && (#[trigger] known@[i]).id@ == model_id@ && known@[i].name@
                == r@,
        model_id@.len() > 0 && (exists|i: int|
            0 <= i < known@.len() && (#[trigger] known@[i]).id@ == model_id@) ==> exists|i: int|
            0 <= i < known@.len() && (#[trigger] known@[i]).id@ == model_id@ && known@[i].name@
                == r@,
{
    lemma_called(model_id@, known@);
}

/// What a model is called.
proof fn lemma_called(model_id: Seq<char>, known: Seq<ModelName>)
    ensures
        ({
            let named = exists|i: int|
                0 <= i < known.len() && (#[trigger] known[i]).id@ == model_id && known[i].name@
                    == called(model_id, known);
            let present = exists|i: int|
                0 <= i < known.len() && (#[trigger] known[i]).id@ == model_id;
            &&& named || called(model_id, known) == model_id
            &&& model_id.len() > 0 && present ==> named
        }),
    decreases known.len(),
{
    if model_id.len() > 0 && known.len() > 0 {
        if known[0].id@ == model_id {
            assert(known[0].name@ == called(model_id, known));
        } else {
            let rest = known.drop_first();
            lemma_called(model_id, rest);
            if exists|i: int| 0 <= i < known.len() && (#[trigger] known[i]).id@ == model_id {
                let i = choose|i: int|
                    0 <= i < known.len() && (#[trigger] known[i]).id@ == model_id;
                assert(rest[i - 1] == known[i]);
            }
            if exists|i: int|
                0 <= i < rest.len() && (#[trigger] rest[i]).id@ == model_id && rest[i].name@
                    == called(model_id, rest) {
                let i = choose|i: int|
                    0 <= i < rest.len() && (#[trigger] rest[i]).id@ == model_id && rest[i].name@
                        == called(model_id, rest);
                assert(known[i + 1] == rest[i]);
            }
        }
    }
}

/// A provider can be chosen exactly where a key is stored for it, or, for the two that need none,
/// an address.
pub proof fn law_provider_can_be_chosen_with_its_key(
    provider_id: &str,
    key: Option<&str>,
    base_url: Option<&str>,
    r: bool,
)
    requires
        call_ensures(is_provider_configured_for_agent_selector, (provider_id, key, base_url), r),
    ensures
        key is Some && key->0@.len() > 0 ==> r,
        (key is None || key->0@.len() == 0) ==> (r <==> (provider_id@ == "bedrock"@ || provider_id@
            == "pico"@) && base_url is Some && base_url->0@.len() > 0),
{
}

/// An offer of the marketplace is shown as it is; it counts as an update only of an agent that is
/// installed, and where it was found newer.
pub proof fn law_offer_is_shown_as_it_is(
    offer: MarketplaceOffer,
    installed: Option<String>,
    newer: bool,
    v: MarketplaceAgentView,
)
    requires
        call_ensures(marketplace_agent, (&offer, &installed, newer), v),
    ensures
        v.id@ == offer.id@,
        v.name@ == offer.name@,
        v.description@ == offer.description@,
        v.version@ == offer.version@,
        v.author@ == offer.author@,
        v.entry_json@ == offer.entry_json@,
        v.rating_count == offer.rating_count,
        v.is_installed <==> installed is Some,
        installed is Some ==> v.installed_version@ == installed->0@,
        v.update_available <==> installed is Some && newer,
{
}

/// The page shows the default models as they are stored: the one that writes as the one that
/// writes, and the one that draws as the one that draws; and only to administrators.
pub proof fn law_default_models_are_shown_apart(
    is_admin: bool,
    base_path: &str,
    loaded: Vec<LoadedEntry>,
    pending: Vec<PendingAgent>,
    catalogue: Result<Vec<JudgedOffer>, String>,
    providers: Vec<ProviderRow>,
    global: Option<(String, String)>,
    temperature: Option<String>,
    known: Vec<ModelName>,
    global_image: Option<(String, String)>,
    known_image: Vec<ModelName>,
    query: AgentsQuery,
    r: Verdict<AgentsPage>,
)
    requires
        call_ensures(
            agents_index,
            (
                is_admin,
                base_path,
                &loaded,
                &pending,
                &catalogue,
                &providers,
                global,
                temperature,
                &known,
                global_image,
                &known_image,
                query,
            ),
            r,
        ),
    ensures
        r is Proceed <==> is_admin,
        r matches Verdict::Proceed(page) ==> {
            &&& global matches Some((p, m)) ==> page.global_provider@ == p@ && page.global_model@
                == m@
            &&& global_image matches Some((p, m)) ==> page.global_image_provider@ == p@
                && page.global_image_model@ == m@
            &&& temperature is Some ==> page.global_temperature@ == temperature->0@
            &&& page.error == query.error && page.success == query.success
            &&& catalogue is Err ==> page.marketplace_agents@.len() == 0
            &&& catalogue matches Ok(offers) ==> page.marketplace_agents@.len() == offers@.len()
        },
{
}

/// The choices of an administrator are saved as they were made, and those of nobody else: a model
/// for its agent, both parts of it or neither; whether an agent is updated by itself.
pub proof fn law_model_choices_are_saved_as_made(
    is_admin: bool,
    model: SetAgentModelForm,
    image: SetAgentImageModelForm,
    usual: SetDefaultImageModelForm,
    auto: ToggleAutoUpdateForm,
    r: Verdict<SetAgentModelForm>,
    s: Verdict<Option<(String, String)>>,
    t: Verdict<(String, String)>,
    u: Verdict<i32>,
)
    requires
        call_ensures(set_agent_model_handler, (is_admin, model), r),
        call_ensures(set_agent_image_model_handler, (is_admin, &image), s),
        call_ensures(set_default_image_model, (is_admin, &usual), t),
        call_ensures(toggle_auto_update, (is_admin, &auto), u),
    ensures
        (r is Proceed <==> is_admin) && (s is Proceed <==> is_admin) && (t is Proceed <==> is_admin)
            && (u is Proceed <==> is_admin),
        r matches Verdict::Proceed(m) ==> m.provider_id@ == model.provider_id@ && m.model_id@
            == model.model_id@ && m.temperature@ == model.temperature@,
        s matches Verdict::Proceed(c) ==> (c is Some <==> trimmed(image.provider_id@).len() > 0
            && trimmed(image.model_id@).len() > 0),
        s matches Verdict::Proceed(Some((p, m))) ==> p@ == image.provider_id@ && m@
            == image.model_id@,
        t matches Verdict::Proceed((p, m)) ==> (trimmed(usual.provider_id@).len() > 0 && trimmed(
            usual.model_id@,
        ).len() > 0 ==> p@ == trimmed(usual.provider_id@) && m@ == trimmed(usual.model_id@)),
        u matches Verdict::Proceed(v) ==> (v == 1 <==> auto.auto_update is Some && (
        auto.auto_update->0@ == "on"@ || auto.auto_update->0@ == "1"@)),
{
}

/// An agent is rated from one to five, with the rating that was given, and only where it is
/// installed; the rating is sent for that agent to the service beside the marketplace.
pub proof fn law_rating_is_the_given_one(
    base_path: &str,
    is_installed: bool,
    form: RateAgentForm,
    agent_id: &str,
    marketplace_url: &str,
    r: Verdict<u8>,
    to: Verdict<String>,
)
    requires
        call_ensures(rate_agent, (base_path, is_installed, &form), r),
        call_ensures(rating_address, (base_path, agent_id, true, marketplace_url), to),
    ensures
        r is Proceed <==> is_installed && 1 <= form.rating <= 5,
        r matches Verdict::Proceed(v) ==> v == form.rating,
        to is Proceed <==> ratings_base(marketplace_url@) is Some,
        to matches Verdict::Proceed(a) ==> a@ == ratings_base(marketplace_url@)->0
            + "/ratings/agents/"@ + agent_id@,
{
}

/// An offer of the marketplace is shown as it is made, in its place: as installed exactly where an agent
/// of its ID is, and as an update exactly where it is newer than that one.
pub proof fn law_offers_are_shown_as_made(
    agents: Vec<InstalledAgentView>,
    offers: Vec<JudgedOffer>,
    r: (Vec<InstalledAgentView>, Vec<MarketplaceAgentView>, String),
    i: int,
)
    requires
        call_ensures(
            marketplace_page,
            (agents, &Ok::<Vec<JudgedOffer>, String>(offers)),
            r,
        ),
        0 <= i < offers@.len(),
    ensures
        r.1@.len() == offers@.len(),
        r.0@.len() == agents@.len(),
        r.1@[i].id@ == offers@[i].offer.id@,
        r.1@[i].name@ == offers@[i].offer.name@,
        r.1@[i].description@ == offers@[i].offer.description@,
        r.1@[i].version@ == offers@[i].offer.version@,
        r.1@[i].author@ == offers@[i].offer.author@,
        r.1@[i].entry_json@ == offers@[i].offer.entry_json@,
        r.1@[i].rating_count == offers@[i].offer.rating_count,
        r.1@[i].is_installed <==> exists|k: int|
            0 <= k < agents@.len() && (#[trigger] agents@[k]).id@ == offers@[i].offer.id@,
        r.1@[i].is_installed ==> exists|k: int|
            0 <= k < agents@.len() && (#[trigger] agents@[k]).id@ == offers@[i].offer.id@
                && agents@[k].version@ == r.1@[i].installed_version@,
        r.1@[i].update_available <==> r.1@[i].is_installed && offers@[i].newer,
        r.2@ == ""@,
{
    lemma_version_of(agents@, offers@[i].offer.id@);
    assert(shows_offer(
        r.1@[i],
        offers@[i].offer,
        version_of(agents@, offers@[i].offer.id@),
        offers@[i].newer,
    ));
}

/// A version that is found is that of an agent of the ID.
proof fn lemma_version_of(agents: Seq<InstalledAgentView>, id: Seq<char>)
    ensures
        match version_of(agents, id) {
            Some(v) => exists|k: int|
                0 <= k < agents.len() && (#[trigger] agents[k]).id@ == id && agents[k].version@
                    == v,
            None => forall|k: int| 0 <= k < agents.len() ==> (#[trigger] agents[k]).id@ != id,
        },
    decreases agents.len(),
{
    if agents.len() > 0 {
        let rest = agents.drop_last();
        if agents.last().id@ == id {
            assert(agents[agents.len() - 1].id@ == id);
        } else {
            lemma_version_of(rest, id);
            match version_of(rest, id) {
                Some(v) => {
                    let k = choose|k: int|
                        0 <= k < rest.len() && (#[trigger] rest[k]).id@ == id && rest[k].version@
                            == v;
                    assert(agents[k] == rest[k]);
                },
                None => {
                    assert forall|k: int| 0 <= k < agents.len() implies (#[trigger] agents[k]).id@
                        != id by {
                        if k < rest.len() {
                            assert(rest[k] == agents[k]);
                        }
                    }
                },
            }
        }
    }
}

/// Without a catalogue the agents stay as they are, nothing is offered, and the page says why.
pub proof fn law_no_catalogue_no_offers(
    agents: Vec<InstalledAgentView>,
    e: String,
    r: (Vec<InstalledAgentView>, Vec<MarketplaceAgentView>, String),
)
    requires
        call_ensures(marketplace_page, (agents, &Err::<Vec<JudgedOffer>, String>(e)), r),
    ensures
        r.0@ == agents@,
        r.1@.len() == 0,
        r.2@ == "Failed to fetch marketplace: "@ + e@,
{
}

/// A provider can be chosen where it has a key; or, for those that are reached by an address, where it
/// has that. It is offered under its own ID and name.
pub proof fn law_usable_providers_are_offered(
    rows: Vec<ProviderRow>,
    r: Vec<ProviderOption>,
    i: int,
)
    requires
        call_ensures(load_provider_options, (&rows,), r),
        0 <= i < rows@.len(),
        rows@[i].id is Some,
        is_given(opt_text(rows@[i].api_key_encrypted)) || (rows@[i].id->0@ == "bedrock"@
            || rows@[i].id->0@ == "pico"@) && is_given(opt_text(rows@[i].base_url)),
    ensures
        exists|k: int|
            0 <= k < r@.len() && (#[trigger] r@[k]).id@ == rows@[i].id->0@ && r@[k].display_name@
                == rows@[i].display_name@,
{
    let f = |row: ProviderRow| option_of(row);
    text::lemma_item_is_kept(rows@, f, i);
    let x = f(rows@[i])->0;
    let t = option_texts(r@);
    let k = choose|k: int| 0 <= k < t.len() && t[k] == x;
    assert(t[k] == (r@[k].id@, r@[k].display_name@));
    assert(r@[k].id@ == rows@[i].id->0@);
}

/// No other provider is offered.
pub proof fn law_only_usable_providers_are_offered(
    rows: Vec<ProviderRow>,
    r: Vec<ProviderOption>,
    k: int,
)
    requires
        call_ensures(load_provider_options, (&rows,), r),
        0 <= k < r@.len(),
    ensures
        exists|i: int|
            0 <= i < rows@.len() && {
                let row = #[trigger] rows@[i];
                &&& row.display_name@ == r@[k].display_name@
                &&& row.id is Some ==> row.id->0@ == r@[k].id@
                &&& is_given(opt_text(row.api_key_encrypted)) || (r@[k].id@ == "bedrock"@
                    || r@[k].id@ == "pico"@) && is_given(opt_text(row.base_url))
            },
{
    let f = |row: ProviderRow| option_of(row);
    let t = option_texts(r@);
    let x = (r@[k].id@, r@[k].display_name@);
    assert(t[k] == x);
    assert(t.contains(x));
    rows@.lemma_filter_map_contains(f, x);
    let row = choose|row: ProviderRow| rows@.contains(row) && f(row) == Some(x);
    let i = choose|i: int| 0 <= i < rows@.len() && rows@[i] == row;
    assert(rows@[i].display_name@ == r@[k].display_name@);
}

/// The default model is told with its provider and the name by which it is known; one that is not known
/// goes by its ID.
pub proof fn law_default_model_is_named(
    found: (String, String),
    known: Vec<ModelName>,
    r: (String, String, String),
    i: int,
)
    requires
        call_ensures(default_model, (Some(found), &known), r),
    ensures
        r.0@ == found.0@,
        r.1@ == found.1@,
        found.1@.len() > 0 && 0 <= i < known@.len() && known@[i].id@ == found.1@ && (forall|j: int|
            0 <= j < i ==> (#[trigger] known@[j]).id@ != found.1@) ==> r.2@ == known@[i].name@,
        (forall|j: int| 0 <= j < known@.len() ==> (#[trigger] known@[j]).id@ != found.1@)
            ==> r.2@ == found.1@,
{
    lemma_called_at(found.1@, known@, i);
}

proof fn lemma_called_at(model_id: Seq<char>, known: Seq<ModelName>, i: int)
    ensures
        model_id.len() > 0 && 0 <= i < known.len() && known[i].id@ == model_id && (forall|j: int|
            0 <= j < i ==> (#[trigger] known[j]).id@ != model_id) ==> called(model_id, known)
            == known[i].name@,
        (forall|j: int| 0 <= j < known.len() ==> (#[trigger] known[j]).id@ != model_id) ==> called(
            model_id,
            known,
        ) == model_id,
    decreases known.len(),
{
    if model_id.len() > 0 && known.len() > 0 && known[0].id@ != model_id {
        let rest = known.drop_first();
        lemma_called_at(model_id, rest, i - 1);
        assert forall|j: int| 0 <= j < rest.len() implies #[trigger] rest[j] == known[j + 1] by {}
    }
}

} // verus!
