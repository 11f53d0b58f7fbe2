//! The providers of language models: which there are, and which are connected.
use vstd::prelude::*;
use vstd::string::*;
use crate::text;
use crate::text::{blank, opt_str, opt_text, trimmed, trimmed_end_of};
use crate::web::response;
use crate::web::response::{Sent, Verdict, WebAnswer};

verus! {

#[derive(Debug, Clone)]
pub struct ProviderView {
    pub id: String,
    pub display_name: String,
    pub category_key: &'static str,
    pub subtitle_key: &'static str,
}

#[derive(Debug, Clone)]
pub struct ProviderCatalogView {
    pub id: &'static str,
    pub display_name: &'static str,
    pub category_key: &'static str,
    pub subtitle_key: &'static str,
    pub already_active: bool,
}

#[derive(Debug)]
pub struct ProvidersQuery {
    pub error: Option<String>,
    pub success: Option<String>,
}

#[derive(Debug)]
pub struct SetupQuery {
    pub error: Option<String>,
}

#[derive(Debug)]
pub struct ProviderSetupForm {
    pub api_key: Option<String>,
    pub base_url: Option<String>,
}

/// What is known of a provider.
#[derive(Debug, Clone, Copy)]
pub struct ProviderMeta {
    pub id: &'static str,
    pub display_name: &'static str,
    pub category_key: &'static str,
    pub subtitle_key: &'static str,
    pub requires_api_key: bool,
    pub requires_base_url: bool,
    pub api_key_label_key: &'static str,
    pub base_url_label_key: &'static str,
    pub api_key_placeholder_key: &'static str,
    pub base_url_placeholder_key: &'static str,
    pub base_url_hint_key: &'static str,
    pub default_base_url: &'static str,
}

/// What is known of a provider, as a value.
pub struct Meta {
    pub id: Seq<char>,
    pub display_name: Seq<char>,
    pub category_key: Seq<char>,
    pub subtitle_key: Seq<char>,
    pub requires_api_key: bool,
    pub requires_base_url: bool,
    pub api_key_label_key: Seq<char>,
    pub base_url_label_key: Seq<char>,
    pub api_key_placeholder_key: Seq<char>,
    pub base_url_placeholder_key: Seq<char>,
    pub base_url_hint_key: Seq<char>,
    pub default_base_url: Seq<char>,
}

impl ProviderMeta {
    pub open spec fn view(&self) -> Meta {
        Meta {
            id: self.id@,
            display_name: self.display_name@,
            category_key: self.category_key@,
            subtitle_key: self.subtitle_key@,
            requires_api_key: self.requires_api_key,
            requires_base_url: self.requires_base_url,
            api_key_label_key: self.api_key_label_key@,
            base_url_label_key: self.base_url_label_key@,
            api_key_placeholder_key: self.api_key_placeholder_key@,
            base_url_placeholder_key: self.base_url_placeholder_key@,
            base_url_hint_key: self.base_url_hint_key@,
            default_base_url: self.default_base_url@,
        }
    }
}

/// What is known of OpenAI.
pub open spec fn openai_meta() -> Meta {
    Meta {
        id: "openai"@,
        display_name: "OpenAI"@,
        category_key: "providers.category.cloud"@,
        subtitle_key: "providers.provider.openai.subtitle"@,
        requires_api_key: true,
        requires_base_url: false,
        api_key_label_key: "providers.field.api_key"@,
        base_url_label_key: "providers.field.base_url"@,
        api_key_placeholder_key: "providers.provider.openai.key_placeholder"@,
        base_url_placeholder_key: "providers.provider.openai.base_placeholder"@,
        base_url_hint_key: "providers.provider.openai.base_hint"@,
        default_base_url: ""@,
    }
}

/// What is known of OpenAI.
pub(crate) fn openai() -> (r: ProviderMeta)
    ensures
        r@ == openai_meta(),
{
    ProviderMeta {
        id: "openai",
        display_name: "OpenAI",
        category_key: "providers.category.cloud",
        subtitle_key: "providers.provider.openai.subtitle",
        requires_api_key: true,
        requires_base_url: false,
        api_key_label_key: "providers.field.api_key",
        base_url_label_key: "providers.field.base_url",
        api_key_placeholder_key: "providers.provider.openai.key_placeholder",
        base_url_placeholder_key: "providers.provider.openai.base_placeholder",
        base_url_hint_key: "providers.provider.openai.base_hint",
        default_base_url: "",
    }
}

/// What is known of Anthropic.
pub open spec fn anthropic_meta() -> Meta {
    Meta {
        id: "anthropic"@,
        display_name: "Anthropic"@,
        category_key: "providers.category.cloud"@,
        subtitle_key: "providers.provider.anthropic.subtitle"@,
        requires_api_key: true,
        requires_base_url: false,
        api_key_label_key: "providers.field.api_key"@,
        base_url_label_key: "providers.field.base_url"@,
        api_key_placeholder_key: "providers.provider.anthropic.key_placeholder"@,
        base_url_placeholder_key: "providers.provider.anthropic.base_placeholder"@,
        base_url_hint_key: "providers.provider.anthropic.base_hint"@,
        default_base_url: ""@,
    }
}

/// What is known of Anthropic.
pub(crate) fn anthropic() -> (r: ProviderMeta)
    ensures
        r@ == anthropic_meta(),
{
    ProviderMeta {
        id: "anthropic",
        display_name: "Anthropic",
        category_key: "providers.category.cloud",
        subtitle_key: "providers.provider.anthropic.subtitle",
        requires_api_key: true,
        requires_base_url: false,
        api_key_label_key: "providers.field.api_key",
        base_url_label_key: "providers.field.base_url",
        api_key_placeholder_key: "providers.provider.anthropic.key_placeholder",
        base_url_placeholder_key: "providers.provider.anthropic.base_placeholder",
        base_url_hint_key: "providers.provider.anthropic.base_hint",
        default_base_url: "",
    }
}

/// What is known of Amazon Bedrock.
pub open spec fn bedrock_meta() -> Meta {
    Meta {
        id: "bedrock"@,
        display_name: "Amazon Bedrock"@,
        category_key: "providers.category.cloud"@,
        subtitle_key: "providers.provider.bedrock.subtitle"@,
        requires_api_key: true,
        requires_base_url: true,
        api_key_label_key: "providers.provider.bedrock.token_label"@,
        base_url_label_key: "providers.provider.bedrock.region_label"@,
        api_key_placeholder_key: "providers.provider.bedrock.token_placeholder"@,
        base_url_placeholder_key: "providers.provider.bedrock.region_placeholder"@,
        base_url_hint_key: "providers.provider.bedrock.region_hint"@,
        default_base_url: "us-east-1"@,
    }
}

/// What is known of Amazon Bedrock.
pub(crate) fn bedrock() -> (r: ProviderMeta)
    ensures
        r@ == bedrock_meta(),
{
    ProviderMeta {
        id: "bedrock",
        display_name: "Amazon Bedrock",
        category_key: "providers.category.cloud",
        subtitle_key: "providers.provider.bedrock.subtitle",
        requires_api_key: true,
        requires_base_url: true,
        api_key_label_key: "providers.provider.bedrock.token_label",
        base_url_label_key: "providers.provider.bedrock.region_label",
        api_key_placeholder_key: "providers.provider.bedrock.token_placeholder",
        base_url_placeholder_key: "providers.provider.bedrock.region_placeholder",
        base_url_hint_key: "providers.provider.bedrock.region_hint",
        default_base_url: "us-east-1",
    }
}

/// What is known of Ollama.
pub open spec fn ollama_meta() -> Meta {
    Meta {
        id: "ollama"@,
        display_name: "Ollama"@,
        category_key: "providers.category.local"@,
        subtitle_key: "providers.provider.ollama.subtitle"@,
        requires_api_key: false,
        requires_base_url: true,
        api_key_label_key: "providers.provider.ollama.key_label"@,
        base_url_label_key: "providers.provider.ollama.url_label"@,
        api_key_placeholder_key: "providers.provider.ollama.key_placeholder"@,
        base_url_placeholder_key: "providers.provider.ollama.url_placeholder"@,
        base_url_hint_key: "providers.provider.ollama.url_hint"@,
        default_base_url: "http://localhost:11434"@,
    }
}

/// What is known of Ollama.
fn ollama() -> (r: ProviderMeta)
    ensures
        r@ == ollama_meta(),
{
    ProviderMeta {
        id: "ollama",
        display_name: "Ollama",
        category_key: "providers.category.local",
        subtitle_key: "providers.provider.ollama.subtitle",
        requires_api_key: false,
        requires_base_url: true,
        api_key_label_key: "providers.provider.ollama.key_label",
        base_url_label_key: "providers.provider.ollama.url_label",
        api_key_placeholder_key: "providers.provider.ollama.key_placeholder",
        base_url_placeholder_key: "providers.provider.ollama.url_placeholder",
        base_url_hint_key: "providers.provider.ollama.url_hint",
        default_base_url: "http://localhost:11434",
    }
}

/// What is known of the provider with a given ID.
pub open spec fn meta_of(id: Seq<char>) -> Option<Meta> {
    if id == "openai"@ {
        Some(openai_meta())
    } else if id == "anthropic"@ {
        Some(anthropic_meta())
    } else if id == "bedrock"@ {
        Some(bedrock_meta())
    } else if id == "ollama"@ {
        Some(ollama_meta())
    } else {
        None
    }
}

/// The view of what is known of a provider, where there is anything.
pub open spec fn meta_view(m: Option<ProviderMeta>) -> Option<Meta> {
    match m {
        Some(p) => Some(p@),
        None => None,
    }
}

/// What is known of the provider with a given ID.
pub fn provider_meta(provider_id: &str) -> (r: Option<ProviderMeta>)
    ensures
        meta_view(r) == meta_of(provider_id@),
{
    if text::same(provider_id, "openai") {
        Some(openai())
    } else if text::same(provider_id, "anthropic") {
        Some(anthropic())
    } else if text::same(provider_id, "bedrock") {
        Some(bedrock())
    } else if text::same(provider_id, "ollama") {
        Some(ollama())
    } else {
        None
    }
}

/// Whether a text is there and not blank.
pub open spec fn is_given(o: Option<Seq<char>>) -> bool {
    o matches Some(v) && !blank(v)
}

/// Whether a provider is connected: it has what it needs of a key and an address.
pub open spec fn is_connected(id: Seq<char>, key: Option<Seq<char>>, base_url: Option<Seq<char>>) -> bool {
    if id == "openai"@ || id == "anthropic"@ {
        is_given(key)
    } else if id == "bedrock"@ {
        is_given(key) && is_given(base_url)
    } else if id == "ollama"@ {
        is_given(base_url)
    } else {
        false
    }
}

/// Whether a text is there and not blank.
fn given(o: Option<&str>) -> (r: bool)
    ensures
        r == is_given(opt_str(o)),
{
    match o {
        Some(v) => !text::is_blank(v),
        None => false,
    }
}

/// Whether a provider is connected.
pub fn is_provider_connected(provider_id: &str, key: Option<&str>, base_url: Option<&str>) -> (r:
    bool)
    ensures
        r == is_connected(provider_id@, opt_str(key), opt_str(base_url)),
{
    let has_key = given(key);
    let has_base = given(base_url);
    if text::same(provider_id, "openai") || text::same(provider_id, "anthropic") {
        has_key
    } else if text::same(provider_id, "bedrock") {
        has_key && has_base
    } else if text::same(provider_id, "ollama") {
        has_base
    } else {
        false
    }
}

// ── The list ─────────────────────────────────────────────────────────────────

/// A provider as stored.
pub struct ProviderRow {
    pub id: Option<String>,
    pub display_name: String,
    pub api_key_encrypted: Option<String>,
    pub base_url: Option<String>,
}

/// A text, or nothing.
pub open spec fn or_empty(o: Option<Seq<char>>) -> Seq<char> {
    match o {
        Some(v) => v,
        None => Seq::empty(),
    }
}

/// A text, borrowed where there is one.
fn borrowed(o: &Option<String>) -> (r: Option<&str>)
    ensures
        opt_str(r) == opt_text(*o),
{
    match o {
        Some(v) => Some(v.as_str()),
        None => None,
    }
}

impl ProviderRow {
    /// Whether the provider is connected.
    pub open spec fn connected(&self) -> bool {
        is_connected(
            or_empty(opt_text(self.id)),
            opt_text(self.api_key_encrypted),
            opt_text(self.base_url),
        )
    }
}

/// A connected provider as listed: with what is known of it, and its own name where
/// nothing is.
pub open spec fn listed(row: ProviderRow, v: ProviderView) -> bool {
    let id = or_empty(opt_text(row.id));
    &&& v.id@ == id
    &&& match meta_of(id) {
        Some(m) => v.display_name@ == m.display_name && v.category_key@ == m.category_key
            && v.subtitle_key@ == m.subtitle_key,
        None => v.display_name@ == row.display_name@ && v.category_key@
            == "providers.category.cloud"@ && v.subtitle_key@
            == "providers.provider.custom.subtitle"@,
    }
}

/// The connected ones of stored providers.
pub open spec fn connected_rows(rows: Seq<ProviderRow>) -> Seq<ProviderRow> {
    rows.filter(|r: ProviderRow| r.connected())
}

/// Whether a stored provider is connected.
fn row_is_connected(row: &ProviderRow) -> (r: bool)
    ensures
        r == row.connected(),
{
    let id = match &row.id {
        Some(id) => id.as_str(),
        None => "",
    };
    proof {
        reveal_strlit("");
        assert(""@ =~= Seq::<char>::empty());
    }
    is_provider_connected(id, borrowed(&row.api_key_encrypted), borrowed(&row.base_url))
}

/// A connected provider as listed.
fn view_row(row: &ProviderRow) -> (r: ProviderView)
    ensures
        listed(*row, r),
{
    let id = match &row.id {
        Some(id) => id.clone(),
        None => String::new(),
    };
    match provider_meta(id.as_str()) {
        Some(m) => ProviderView {
            id,
            display_name: m.display_name.to_string(),
            category_key: m.category_key,
            subtitle_key: m.subtitle_key,
        },
        None => ProviderView {
            id,
            display_name: row.display_name.clone(),
            category_key: "providers.category.cloud",
            subtitle_key: "providers.provider.custom.subtitle",
        },
    }
}

/// The page of the connected providers.
#[derive(Debug)]
pub struct ProvidersPage {
    pub providers: Vec<ProviderView>,
    pub error: Option<String>,
    pub success: Option<String>,
}

/// The page of the connected providers, in the order in which they are stored, for
/// administrators.
pub fn providers_index(
    is_admin: bool,
    base_path: &str,
    rows: &Vec<ProviderRow>,
    query: ProvidersQuery,
) -> (r: Verdict<ProvidersPage>)
    ensures
        if !is_admin {
            r.answers(Sent::Redirect(base_path@ + "/chat"@))
        } else {
            r matches Verdict::Proceed(page) && {
                let v = page.providers;
                &&& v@.len() == connected_rows(rows@).len()
                &&& forall|i: int|
                    0 <= i < v@.len() ==> listed(connected_rows(rows@)[i], #[trigger] v@[i])
                &&& page.error == query.error
                &&& page.success == query.success
            }
        },
{
    if !is_admin {
        return Verdict::Answer(response::redirect(base_path, "/chat"));
    }
    Verdict::Proceed(
        ProvidersPage {
            providers: list_connected(rows),
            error: query.error,
            success: query.success,
        },
    )
}

/// The connected providers, in the order in which they are stored.
fn list_connected(rows: &Vec<ProviderRow>) -> (r: Vec<ProviderView>)
    ensures
        r@.len() == connected_rows(rows@).len(),
        forall|i: int| 0 <= i < r@.len() ==> listed(connected_rows(rows@)[i], #[trigger] r@[i]),
{
    let ghost p = |r: ProviderRow| r.connected();
    let mut out: Vec<ProviderView> = Vec::new();
    let mut i: usize = 0;
    proof {
        assert(rows@.take(0).filter(p) =~= Seq::<ProviderRow>::empty());
    }
    while i < rows.len()
        invariant
            i <= rows@.len(),
            p == (|r: ProviderRow| r.connected()),
            out@.len() == rows@.take(i as int).filter(p).len(),
            forall|k: int|
                0 <= k < out@.len() ==> listed(
                    rows@.take(i as int).filter(p)[k],
                    #[trigger] out@[k],
                ),
        decreases rows@.len() - i,
    {
        proof {
            assert(rows@.take(i + 1) =~= rows@.take(i as int).push(rows@[i as int]));
            rows@.take(i as int).lemma_filter_push(rows@[i as int], p);
        }
        if row_is_connected(&rows[i]) {
            out.push(view_row(&rows[i]));
        }
        i += 1;
    }
    proof {
        assert(rows@.take(i as int) =~= rows@);
    }
    out
}

/// A provider of the catalog, and whether it is connected.
pub open spec fn catalogued(m: Meta, active: bool, v: ProviderCatalogView) -> bool {
    &&& v.id@ == m.id
    &&& v.display_name@ == m.display_name
    &&& v.category_key@ == m.category_key
    &&& v.subtitle_key@ == m.subtitle_key
    &&& v.already_active == active
}

/// Whether one of stored providers has an ID and is connected.
pub open spec fn has_connected(rows: Seq<ProviderRow>, id: Seq<char>) -> bool {
    exists|i: int|
        0 <= i < rows.len() && (#[trigger] rows[i]).connected() && or_empty(opt_text(rows[i].id))
            == id
}

/// Whether one of stored providers has an ID and is connected.
fn any_connected(rows: &Vec<ProviderRow>, id: &str) -> (r: bool)
    ensures
        r == has_connected(rows@, id@),
{
    let mut i: usize = 0;
    while i < rows.len()
        invariant
            i <= rows@.len(),
            forall|j: int|
                0 <= j < i ==> !((#[trigger] rows@[j]).connected() && or_empty(opt_text(rows@[j].id))
                    == id@),
        decreases rows@.len() - i,
    {
        let row_id = match &rows[i].id {
            Some(v) => v.as_str(),
            None => "",
        };
        proof {
            reveal_strlit("");
            assert(""@ =~= Seq::<char>::empty());
        }
        if row_is_connected(&rows[i]) && text::same(row_id, id) {
            return true;
        }
        i += 1;
    }
    false
}

/// A provider of the catalog, and whether it is connected.
fn catalog_view(m: ProviderMeta, active: bool) -> (r: ProviderCatalogView)
    ensures
        catalogued(m@, active, r),
{
    ProviderCatalogView {
        id: m.id,
        display_name: m.display_name,
        category_key: m.category_key,
        subtitle_key: m.subtitle_key,
        already_active: active,
    }
}

/// The page of the catalog.
#[derive(Debug)]
pub struct ProvidersNewPage {
    pub providers: Vec<ProviderCatalogView>,
    pub error: Option<String>,
}

/// The page of the catalog, with what is connected already, for administrators.
pub fn providers_new(
    is_admin: bool,
    base_path: &str,
    rows: &Vec<ProviderRow>,
    query: SetupQuery,
) -> (r: Verdict<ProvidersNewPage>)
    ensures
        if !is_admin {
            r.answers(Sent::Redirect(base_path@ + "/chat"@))
        } else {
            r matches Verdict::Proceed(page) && {
                let v = page.providers;
                &&& page.error == query.error
                &&& v@.len() == 4
                &&& catalogued(openai_meta(), has_connected(rows@, "openai"@), v@[0])
                &&& catalogued(anthropic_meta(), has_connected(rows@, "anthropic"@), v@[1])
                &&& catalogued(bedrock_meta(), has_connected(rows@, "bedrock"@), v@[2])
                &&& catalogued(ollama_meta(), has_connected(rows@, "ollama"@), v@[3])
            }
        },
{
    if !is_admin {
        return Verdict::Answer(response::redirect(base_path, "/chat"));
    }
    Verdict::Proceed(ProvidersNewPage { providers: list_catalog(rows), error: query.error })
}

/// The catalog, with what is connected already.
fn list_catalog(rows: &Vec<ProviderRow>) -> (r: Vec<ProviderCatalogView>)
    ensures
        r@.len() == 4,
        catalogued(openai_meta(), has_connected(rows@, "openai"@), r@[0]),
        catalogued(anthropic_meta(), has_connected(rows@, "anthropic"@), r@[1]),
        catalogued(bedrock_meta(), has_connected(rows@, "bedrock"@), r@[2]),
        catalogued(ollama_meta(), has_connected(rows@, "ollama"@), r@[3]),
{
    let mut out: Vec<ProviderCatalogView> = Vec::new();
    out.push(catalog_view(openai(), any_connected(rows, "openai")));
    out.push(catalog_view(anthropic(), any_connected(rows, "anthropic")));
    out.push(catalog_view(bedrock(), any_connected(rows, "bedrock")));
    out.push(catalog_view(ollama(), any_connected(rows, "ollama")));
    out
}

// ── Setting one up ───────────────────────────────────────────────────────────

/// What the page that sets up a provider starts with.
pub struct ProviderSetupPage {
    pub provider_id: String,
    pub meta: ProviderMeta,
    pub base_url: String,
    pub has_key: bool,
    pub error: Option<String>,
}

/// What the page that sets up a provider starts with: the stored address, else the
/// usual one, and whether there is a key. `row` is the stored address and key.
pub fn providers_setup_page(
    is_admin: bool,
    base_path: &str,
    provider_id: &str,
    row: Option<(Option<String>, Option<String>)>,
    query: SetupQuery,
) -> (r: Verdict<ProviderSetupPage>)
    ensures
        if !is_admin {
            r.answers(Sent::Redirect(base_path@ + "/chat"@))
        } else {
            match meta_of(provider_id@) {
                None => r.answers(Sent::Redirect(base_path@ + "/providers/new"@)),
                Some(m) => r matches Verdict::Proceed(p) && p.provider_id@ == provider_id@ && p.error
                    == query.error && p.meta@ == m && match row {
                    Some(t) => p.base_url@ == (match opt_text(t.0) {
                        Some(u) => u,
                        None => m.default_base_url,
                    }) && p.has_key == (opt_text(t.1) matches Some(k) && k.len() > 0),
                    None => p.base_url@ == m.default_base_url && !p.has_key,
                },
            }
        },
{
    if !is_admin {
        return Verdict::Answer(response::redirect(base_path, "/chat"));
    }
    let meta = match provider_meta(provider_id) {
        Some(m) => m,
        None => {
            return Verdict::Answer(response::redirect(base_path, "/providers/new"));
        },
    };
    let (base_url, has_key) = match row {
        Some((url, key)) => (
            match url {
                Some(u) => u,
                None => meta.default_base_url.to_string(),
            },
            match key {
                Some(k) => !k.as_str().is_empty(),
                None => false,
            },
        ),
        None => (meta.default_base_url.to_string(), false),
    };
    Verdict::Proceed(
        ProviderSetupPage {
            provider_id: provider_id.to_string(),
            meta,
            base_url,
            has_key,
            error: query.error,
        },
    )
}

/// What is to be stored of a provider, once it was found to answer.
pub struct ProviderSettings {
    pub meta: ProviderMeta,
    pub api_key: String,
    pub base_url: String,
}

/// Back to the page that sets up a provider, with an error.
pub fn setup_error(base_path: &str, provider_id: &str, error: &str) -> (r: WebAnswer)
    ensures
        r@ == Sent::Redirect(
            base_path@ + "/providers/new/"@ + provider_id@ + ("?error="@ + error@),
        ),
{
    let mut more = "?error=".to_string();
    more.append(error);
    response::redirect_about(base_path, "/providers/new/", provider_id, more.as_str())
}

/// What a form sets a provider to: the key and the address that the provider needs
/// have to be there.
pub fn providers_setup_submit(
    is_admin: bool,
    base_path: &str,
    provider_id: &str,
    form: &ProviderSetupForm,
) -> (r: Verdict<ProviderSettings>)
    ensures
        if !is_admin {
            r.answers(Sent::Status(response::FORBIDDEN))
        } else {
            match meta_of(provider_id@) {
                None => r.answers(Sent::Redirect(base_path@ + "/providers/new"@)),
                Some(m) => {
                    let key = trimmed(or_empty(opt_text(form.api_key)));
                    let url = trimmed(
                        match opt_text(form.base_url) {
                            Some(u) => u,
                            None => m.default_base_url,
                        },
                    );
                    if m.requires_api_key && key.len() == 0 {
                        r.answers(
                            Sent::Redirect(
                                base_path@ + "/providers/new/"@ + provider_id@ + ("?error="@
                                    + "Please+add+the+required+key+before+continuing."@),
                            ),
                        )
                    } else if m.requires_base_url && url.len() == 0 {
                        r.answers(
                            Sent::Redirect(
                                base_path@ + "/providers/new/"@ + provider_id@ + ("?error="@
                                    + "Please+fill+in+the+required+field+before+continuing."@),
                            ),
                        )
                    } else {
                        r matches Verdict::Proceed(s) && s.meta@ == m && s.api_key@ == key
                            && s.base_url@ == url
                    }
                },
            }
        },
{
    if !is_admin {
        return Verdict::Answer(WebAnswer::Status(response::FORBIDDEN));
    }
    let meta = match provider_meta(provider_id) {
        Some(m) => m,
        None => {
            return Verdict::Answer(response::redirect(base_path, "/providers/new"));
        },
    };
    let api_key = match &form.api_key {
        Some(k) => text::trim(k.as_str()).to_string(),
        None => String::new(),
    };
    proof {
        assert(trimmed(Seq::<char>::empty()) =~= Seq::<char>::empty()) by {
            text::lemma_trimmed_len(Seq::<char>::empty());
        }
    }
    let base_url = match &form.base_url {
        Some(u) => text::trim(u.as_str()).to_string(),
        None => text::trim(meta.default_base_url).to_string(),
    };
    if meta.requires_api_key && api_key.as_str().is_empty() {
        return Verdict::Answer(
            setup_error(
                base_path,
                provider_id,
                "Please+add+the+required+key+before+continuing.",
            ),
        );
    }
    if meta.requires_base_url && base_url.as_str().is_empty() {
        return Verdict::Answer(
            setup_error(
                base_path,
                provider_id,
                "Please+fill+in+the+required+field+before+continuing.",
            ),
        );
    }
    Verdict::Proceed(ProviderSettings { meta, api_key, base_url })
}

/// How far a provider that was to be stored has come.
#[derive(Debug, Clone, Copy, PartialEq, Eq, Structural)]
pub enum SetupProgress {
    NoAccess,
    NotEncrypted,
    NotSaved,
    Saved,
}

/// Where a provider that was to be stored leads.
pub fn provider_saved(base_path: &str, provider_id: &str, progress: SetupProgress) -> (r: WebAnswer)
    ensures
        r@ == Sent::Redirect(
            match progress {
                SetupProgress::Saved => base_path@ + "/providers?success=connected"@,
                SetupProgress::NoAccess => base_path@ + "/providers/new/"@ + provider_id@ + (
                "?error="@
                    + "Couldn%27t+connect.+Please+check+your+details+and+try+again."@),
                SetupProgress::NotEncrypted => base_path@ + "/providers/new/"@ + provider_id@ + (
                "?error="@ + "Couldn%27t+save+your+key.+Please+try+again."@),
                SetupProgress::NotSaved => base_path@ + "/providers/new/"@ + provider_id@ + (
                "?error="@ + "Couldn%27t+save+your+settings.+Please+try+again."@),
            },
        ),
{
    match progress {
        SetupProgress::Saved => response::redirect(base_path, "/providers?success=connected"),
        SetupProgress::NoAccess => setup_error(
            base_path,
            provider_id,
            "Couldn%27t+connect.+Please+check+your+details+and+try+again.",
        ),
        SetupProgress::NotEncrypted => setup_error(
            base_path,
            provider_id,
            "Couldn%27t+save+your+key.+Please+try+again.",
        ),
        SetupProgress::NotSaved => setup_error(
            base_path,
            provider_id,
            "Couldn%27t+save+your+settings.+Please+try+again.",
        ),
    }
}

/// What a provider is stored as.
#[derive(Debug, PartialEq, Eq)]
pub struct StoredProvider {
    pub id: String,
    pub api_key_encrypted: String,
    pub base_url: String,
    pub active: bool,
}

/// What a provider that is disconnected is stored as: without a key and an address, and not
/// active.
pub fn providers_disconnect(is_admin: bool, base_path: &str, provider_id: &str) -> (r: Verdict<
    StoredProvider,
>)
    ensures
        if !is_admin {
            r.answers(Sent::Status(response::FORBIDDEN))
        } else if meta_of(provider_id@) is None {
            r.answers(Sent::Redirect(base_path@ + "/providers"@))
        } else {
            r matches Verdict::Proceed(p) && p.id@ == provider_id@ && p.api_key_encrypted@
                == Seq::<char>::empty() && p.base_url@ == Seq::<char>::empty() && !p.active
        },
{
    if !is_admin {
        return Verdict::Answer(WebAnswer::Status(response::FORBIDDEN));
    }
    if provider_meta(provider_id).is_none() {
        return Verdict::Answer(response::redirect(base_path, "/providers"));
    }
    Verdict::Proceed(
        StoredProvider {
            id: provider_id.to_string(),
            api_key_encrypted: String::new(),
            base_url: String::new(),
            active: false,
        },
    )
}

/// Where a provider that was to be disconnected leads.
pub fn provider_disconnected(base_path: &str, done: bool) -> (r: WebAnswer)
    ensures
        r@ == Sent::Redirect(
            base_path@ + if done {
                "/providers?success=disconnected"@
            } else {
                "/providers?error=Couldn%27t+disconnect+the+provider.+Please+try+again."@
            },
        ),
{
    if done {
        response::redirect(base_path, "/providers?success=disconnected")
    } else {
        response::redirect(
            base_path,
            "/providers?error=Couldn%27t+disconnect+the+provider.+Please+try+again.",
        )
    }
}

// ── Trying the access ────────────────────────────────────────────────────────

/// How a provider is asked whether it answers: at which address, with the key as a
/// bearer token or in a header of its own, and by what name it is called in an
/// error.
pub struct AccessCheck {
    pub url: String,
    pub bearer: bool,
    pub key_header: bool,
    pub name: &'static str,
}

/// The address that a provider with an address of its own is asked at.
pub open spec fn own_address(base_url: Seq<char>, usual: Seq<char>) -> Seq<char> {
    if blank(base_url) {
        usual
    } else {
        trimmed_end_of(base_url, '/')
    }
}

/// The region of the cloud that a provider is asked in.
pub open spec fn region_of(base_url: Seq<char>) -> Seq<char> {
    if blank(base_url) {
        "us-east-1"@
    } else {
        trimmed(base_url)
    }
}

/// How a provider is asked whether it answers; an error for one that is not
/// supported.
pub fn check_provider_access(provider_id: &str, api_key: &str, base_url: &str) -> (r: Result<
    AccessCheck,
    String,
>)
    ensures
        if provider_id@ == "openai"@ {
            r matches Ok(c) && c.url@ == own_address(base_url@, "https://api.openai.com"@)
                + "/v1/models"@ && c.bearer && !c.key_header && c.name@ == "OpenAI"@
        } else if provider_id@ == "anthropic"@ {
            r matches Ok(c) && c.url@ == "https://api.anthropic.com/v1/models?limit=1"@
                && !c.bearer && c.key_header && c.name@ == "Anthropic"@
        } else if provider_id@ == "bedrock"@ {
            r matches Ok(c) && c.url@ == "https://bedrock."@ + region_of(base_url@)
                + ".amazonaws.com/foundation-models"@ && c.bearer && !c.key_header && c.name@
                == "Bedrock"@
        } else if provider_id@ == "ollama"@ {
            r matches Ok(c) && c.url@ == own_address(base_url@, "http://localhost:11434"@)
                + "/api/tags"@ && c.bearer == !blank(api_key@) && !c.key_header && c.name@
                == "Ollama"@
        } else {
            r is Err && r->Err_0@ == "Unsupported provider"@
        },
{
    if text::same(provider_id, "openai") {
        let mut url = if text::is_blank(base_url) {
            "https://api.openai.com".to_string()
        } else {
            text::trim_end_of(base_url, '/').to_string()
        };
        url.append("/v1/models");
        Ok(AccessCheck { url, bearer: true, key_header: false, name: "OpenAI" })
    } else if text::same(provider_id, "anthropic") {
        Ok(
            AccessCheck {
                url: "https://api.anthropic.com/v1/models?limit=1".to_string(),
                bearer: false,
                key_header: true,
                name: "Anthropic",
            },
        )
    } else if text::same(provider_id, "bedrock") {
        let region = if text::is_blank(base_url) {
            "us-east-1"
        } else {
            text::trim(base_url)
        };
        let mut url = "https://bedrock.".to_string();
        url.append(region);
        url.append(".amazonaws.com/foundation-models");
        Ok(AccessCheck { url, bearer: true, key_header: false, name: "Bedrock" })
    } else if text::same(provider_id, "ollama") {
        let mut url = if text::is_blank(base_url) {
            "http://localhost:11434".to_string()
        } else {
            text::trim_end_of(base_url, '/').to_string()
        };
        url.append("/api/tags");
        Ok(
            AccessCheck {
                url,
                bearer: !text::is_blank(api_key),
                key_header: false,
                name: "Ollama",
            },
        )
    } else {
        Err("Unsupported provider".to_string())
    }
}

/// What is said of a provider that answered with an error.
pub fn access_refused(name: &str, status: &str) -> (r: String)
    ensures
        r@ == name@ + " returned HTTP "@ + status@,
{
    let mut out = name.to_string();
    out.append(" returned HTTP ");
    out.append(status);
    out
}

// ── Laws ─────────────────────────────────────────────────────────────────────

/// A provider that is connected is one of the catalog.
pub proof fn law_connected_is_known(
    id: Seq<char>,
    key: Option<Seq<char>>,
    base_url: Option<Seq<char>>,
)
    requires
        is_connected(id, key, base_url),
    ensures
        meta_of(id) is Some,
        meta_of(id)->0.id == id,
{
}

/// What a form may set a provider to makes it connected: the key and the address
/// that were asked for are those that the provider needs.
pub proof fn law_set_up_is_connected(id: Seq<char>, key: Seq<char>, base_url: Seq<char>)
    requires
        meta_of(id) matches Some(m) && (m.requires_api_key ==> !blank(key))
            && (m.requires_base_url ==> !blank(base_url)),
    ensures
        is_connected(id, Some(key), Some(base_url)),
{
}

/// A provider is set up only by an administrator and only where there is such a one. Its key and its
/// address are those of the form, each without white space around it, and its usual address where
/// the form has none; a key is never taken for an address.
pub proof fn law_provider_is_set_up_as_entered(
    is_admin: bool,
    base_path: &str,
    provider_id: &str,
    form: ProviderSetupForm,
    s: ProviderSettings,
)
    requires
        call_ensures(
            providers_setup_submit,
            (is_admin, base_path, provider_id, &form),
            Verdict::Proceed(s),
        ),
    ensures
        is_admin,
        s.meta.id@ == provider_id@,
        form.api_key is Some ==> s.api_key@ == trimmed(form.api_key->0@),
        form.api_key is None ==> s.api_key@.len() == 0,
        form.base_url is Some ==> s.base_url@ == trimmed(form.base_url->0@),
        form.base_url is None ==> s.base_url@ == trimmed(s.meta.default_base_url@),
        provider_id@ == "openai"@ || provider_id@ == "anthropic"@ || provider_id@ == "bedrock"@
            ==> s.api_key@.len() > 0,
        provider_id@ == "bedrock"@ || provider_id@ == "ollama"@ ==> s.base_url@.len() > 0,
{
    assert(s.meta@.id == s.meta.id@ && s.meta@.default_base_url == s.meta.default_base_url@);
    lemma_ids_differ();
    if form.api_key is None {
        text::lemma_trimmed_len(Seq::<char>::empty());
    }
}

/// The providers have different IDs.
proof fn lemma_ids_differ()
    ensures
        "openai"@ != "anthropic"@,
        "openai"@ != "bedrock"@,
        "openai"@ != "ollama"@,
        "anthropic"@ != "bedrock"@,
        "anthropic"@ != "ollama"@,
        "bedrock"@ != "ollama"@,
{
    reveal_strlit("openai");
    reveal_strlit("anthropic");
    reveal_strlit("bedrock");
    reveal_strlit("ollama");
    assert("openai"@.len() == 6 && "anthropic"@.len() == 9 && "bedrock"@.len() == 7
        && "ollama"@.len() == 6);
    assert("openai"@[1] != "ollama"@[1]);
}

/// What is known of a provider is what is known under its ID, and just four are known.
pub proof fn law_known_providers(provider_id: &str, r: Option<ProviderMeta>)
    requires
        call_ensures(provider_meta, (provider_id,), r),
    ensures
        r is Some <==> provider_id@ == "openai"@ || provider_id@ == "anthropic"@ || provider_id@
            == "bedrock"@ || provider_id@ == "ollama"@,
        r matches Some(m) ==> m.id@ == provider_id@,
        r matches Some(m) ==> (m.requires_api_key <==> provider_id@ != "ollama"@) && (
        m.requires_base_url <==> provider_id@ == "bedrock"@ || provider_id@ == "ollama"@),
        provider_id@ == "openai"@ ==> r->0.display_name@ == "OpenAI"@,
        provider_id@ == "anthropic"@ ==> r->0.display_name@ == "Anthropic"@,
        provider_id@ == "bedrock"@ ==> r->0.display_name@ == "Amazon Bedrock"@
            && r->0.default_base_url@ == "us-east-1"@,
        provider_id@ == "ollama"@ ==> r->0.display_name@ == "Ollama"@ && r->0.default_base_url@
            == "http://localhost:11434"@,
{
    lemma_ids_differ();
    if r is Some {
        assert(r->0@.id == r->0.id@ && r->0@.display_name == r->0.display_name@
            && r->0@.default_base_url == r->0.default_base_url@);
    }
}

/// A provider is connected exactly with what it needs: a key, an address, or both.
pub proof fn law_connected_with_what_it_needs(
    provider_id: &str,
    key: Option<&str>,
    base_url: Option<&str>,
    r: bool,
)
    requires
        call_ensures(is_provider_connected, (provider_id, key, base_url), r),
    ensures
        ({
            let has_key = key is Some && trimmed(key->0@).len() > 0;
            let has_url = base_url is Some && trimmed(base_url->0@).len() > 0;
            let id = provider_id@;
            &&& id == "openai"@ || id == "anthropic"@ ==> (r <==> has_key)
            &&& id == "bedrock"@ ==> (r <==> has_key && has_url)
            &&& id == "ollama"@ ==> (r <==> has_url)
            &&& id != "openai"@ && id != "anthropic"@ && id != "bedrock"@ && id != "ollama"@ ==> !r
        }),
{
    lemma_ids_differ();
    if key is Some {
        text::lemma_blank(key->0@);
    }
    if base_url is Some {
        text::lemma_blank(base_url->0@);
    }
}

/// A provider that is disconnected is the one that was named, and keeps neither key nor address; it
/// is then not connected.
pub proof fn law_disconnected_keeps_nothing(
    is_admin: bool,
    base_path: &str,
    provider_id: &str,
    p: StoredProvider,
)
    requires
        call_ensures(
            providers_disconnect,
            (is_admin, base_path, provider_id),
            Verdict::Proceed(p),
        ),
    ensures
        is_admin,
        p.id@ == provider_id@,
        !p.active,
        p.api_key_encrypted@.len() == 0,
        p.base_url@.len() == 0,
        !is_connected(p.id@, Some(p.api_key_encrypted@), Some(p.base_url@)),
{
    text::lemma_trimmed_len(p.base_url@);
    text::lemma_blank(p.base_url@);
    text::lemma_blank(p.api_key_encrypted@);
    text::lemma_trimmed_len(p.api_key_encrypted@);
}

/// Access is tried at the provider itself: each at its own address, and the two that can stand
/// elsewhere at the address that was given.
pub proof fn law_access_is_tried_at_the_provider(
    provider_id: &str,
    api_key: &str,
    base_url: &str,
    r: Result<AccessCheck, String>,
)
    requires
        call_ensures(check_provider_access, (provider_id, api_key, base_url), r),
    ensures
        ({
            let id = provider_id@;
            let given = trimmed(base_url@).len() > 0;
            &&& id == "openai"@ && given ==> r is Ok && r->Ok_0.url@ == trimmed_end_of(
                base_url@,
                '/',
            ) + "/v1/models"@
            &&& id == "openai"@ && !given ==> r is Ok && r->Ok_0.url@ == "https://api.openai.com"@
                + "/v1/models"@
            &&& id == "openai"@ ==> r->Ok_0.bearer && !r->Ok_0.key_header
            &&& id == "anthropic"@ ==> r is Ok && r->Ok_0.url@
                == "https://api.anthropic.com/v1/models?limit=1"@ && r->Ok_0.key_header
                && !r->Ok_0.bearer
            &&& id == "bedrock"@ && given ==> r is Ok && r->Ok_0.url@ == "https://bedrock."@
                + trimmed(base_url@) + ".amazonaws.com/foundation-models"@
            &&& id == "bedrock"@ && !given ==> r is Ok && r->Ok_0.url@ == "https://bedrock."@
                + "us-east-1"@ + ".amazonaws.com/foundation-models"@
            &&& id == "ollama"@ && given ==> r is Ok && r->Ok_0.url@ == trimmed_end_of(
                base_url@,
                '/',
            ) + "/api/tags"@
            &&& id == "ollama"@ ==> r is Ok && (r->Ok_0.bearer <==> trimmed(api_key@).len() > 0)
            &&& r is Ok <==> id == "openai"@ || id == "anthropic"@ || id == "bedrock"@ || id
                == "ollama"@
        }),
{
    lemma_ids_differ();
    text::lemma_blank(base_url@);
    text::lemma_blank(api_key@);
}

/// The catalogue lists the four providers once each, and says of each whether it is connected.
pub proof fn law_catalogue_lists_every_provider(
    is_admin: bool,
    base_path: &str,
    rows: Vec<ProviderRow>,
    query: SetupQuery,
    page: ProvidersNewPage,
)
    requires
        call_ensures(providers_new, (is_admin, base_path, &rows, query), Verdict::Proceed(page)),
    ensures
        is_admin,
        page.providers@.len() == 4,
        page.providers@[0].id@ == "openai"@,
        page.providers@[1].id@ == "anthropic"@,
        page.providers@[2].id@ == "bedrock"@,
        page.providers@[3].id@ == "ollama"@,
        forall|k: int|
            0 <= k < 4 ==> ((#[trigger] page.providers@[k]).already_active <==> exists|i: int|
                0 <= i < rows@.len() && (#[trigger] rows@[i]).connected() && or_empty(
                    opt_text(rows@[i].id),
                ) == page.providers@[k].id@),
{
}

/// The page lists providers that are connected, and no others, each under its own ID; to administrators
/// only.
pub proof fn law_connected_providers_are_listed(
    is_admin: bool,
    base_path: &str,
    rows: Vec<ProviderRow>,
    query: ProvidersQuery,
    r: Verdict<ProvidersPage>,
    i: int,
)
    requires
        call_ensures(providers_index, (is_admin, base_path, &rows, query), r),
    ensures
        r is Proceed <==> is_admin,
        r matches Verdict::Proceed(page) ==> {
            &&& page.error == query.error && page.success == query.success
            &&& 0 <= i < page.providers@.len() ==> exists|k: int|
                0 <= k < rows@.len() && (#[trigger] rows@[k]).connected() && page.providers@[i].id@
                    == or_empty(opt_text(rows@[k].id))
            &&& 0 <= i < rows@.len() && rows@[i].connected() ==> exists|k: int|
                0 <= k < page.providers@.len() && (#[trigger] page.providers@[k]).id@ == or_empty(
                    opt_text(rows@[i].id),
                )
        },
{
    if let Verdict::Proceed(page) = r {
        let p = |row: ProviderRow| row.connected();
        let shown = connected_rows(rows@);
        let v = page.providers@;
        if 0 <= i < v.len() {
            assert(listed(shown[i], v[i]));
            rows@.lemma_filter_pred(p, i);
            rows@.lemma_filter_contains_rev(p, shown[i]);
            let k = choose|k: int| 0 <= k < rows@.len() && rows@[k] == shown[i];
            assert(rows@[k].connected());
        }
        if 0 <= i < rows@.len() && rows@[i].connected() {
            rows@.lemma_filter_contains(p, i);
            assert(shown.contains(rows@[i]));
            let k = choose|k: int| 0 <= k < shown.len() && shown[k] == rows@[i];
            assert(listed(shown[k], v[k]));
        }
    }
}

} // verus!
