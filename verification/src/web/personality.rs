//! What the assistant knows about a user, by category.
use vstd::prelude::*;
use vstd::string::*;
use crate::text;
use crate::text::{blank, opt_text, trimmed};
use crate::web::response;
use crate::web::response::{Sent, Verdict, WebAnswer};

verus! {

#[derive(Debug, Clone)]
pub struct FactRow {
    pub id: String,
    pub category: String,
    pub fact: String,
    pub source: String,
    pub created_at: String,
}

/// The facts of one category.
#[derive(Debug, Clone)]
pub struct FactGroup {
    pub category: String,
    pub label_en: &'static str,
    pub facts: Vec<FactRow>,
}

#[derive(Debug)]
pub struct PersonalityQuery {
    pub error: Option<String>,
    pub success: Option<String>,
}

#[derive(Debug)]
pub struct AddFactForm {
    pub category: String,
    pub fact: String,
}

#[derive(Debug)]
pub struct UpdateFactForm {
    pub category: String,
    pub fact: String,
}

/// A fact, as a value.
pub struct Fact {
    pub id: Seq<char>,
    pub category: Seq<char>,
    pub fact: Seq<char>,
    pub source: Seq<char>,
    pub created_at: Seq<char>,
}

impl FactRow {
    pub open spec fn view(&self) -> Fact {
        Fact {
            id: self.id@,
            category: self.category@,
            fact: self.fact@,
            source: self.source@,
            created_at: self.created_at@,
        }
    }

    /// The same fact once more.
    pub fn copied(&self) -> (r: FactRow)
        ensures
            r@ == self@,
    {
        FactRow {
            id: self.id.clone(),
            category: self.category.clone(),
            fact: self.fact.clone(),
            source: self.source.clone(),
            created_at: self.created_at.clone(),
        }
    }
}

/// The facts that a list holds.
pub open spec fn fact_views(v: Seq<FactRow>) -> Seq<Fact> {
    v.map_values(|f: FactRow| f@)
}

/// The categories, in the order in which they are shown.
pub open spec fn categories() -> Seq<Seq<char>> {
    seq!["personal"@, "preferences"@, "location"@, "work"@, "other"@]
}

/// The English label of a category.
pub open spec fn label_of(cat: Seq<char>) -> Seq<char> {
    if cat == "personal"@ {
        "Personal"@
    } else if cat == "preferences"@ {
        "Preferences"@
    } else if cat == "location"@ {
        "Location"@
    } else if cat == "work"@ {
        "Work & Skills"@
    } else {
        "Other"@
    }
}

/// The English label of a category.
pub fn category_label(cat: &str) -> (r: &'static str)
    ensures
        r@ == label_of(cat@),
{
    if text::same(cat, "personal") {
        "Personal"
    } else if text::same(cat, "preferences") {
        "Preferences"
    } else if text::same(cat, "location") {
        "Location"
    } else if text::same(cat, "work") {
        "Work & Skills"
    } else {
        "Other"
    }
}

/// The facts of one category, in their order.
pub open spec fn of_category(facts: Seq<Fact>, cat: Seq<char>) -> Seq<Fact> {
    facts.filter(|f: Fact| f.category == cat)
}

/// The facts of one category.
fn pick_category(facts: &Vec<FactRow>, cat: &str) -> (r: Vec<FactRow>)
    ensures
        fact_views(r@) == of_category(fact_views(facts@), cat@),
{
    let ghost all = fact_views(facts@);
    let ghost p = |f: Fact| f.category == cat@;
    let mut out: Vec<FactRow> = Vec::new();
    let mut i: usize = 0;
    proof {
        assert(all.take(0).filter(p) =~= Seq::<Fact>::empty());
        assert(fact_views(out@) =~= all.take(0).filter(p));
    }
    while i < facts.len()
        invariant
            i <= facts@.len(),
            all == fact_views(facts@),
            p == (|f: Fact| f.category == cat@),
            fact_views(out@) == all.take(i as int).filter(p),
        decreases facts@.len() - i,
    {
        let ghost before = fact_views(out@);
        proof {
            assert(all.take(i + 1) =~= all.take(i as int).push(all[i as int]));
            all.take(i as int).lemma_filter_push(all[i as int], p);
        }
        if text::same(facts[i].category.as_str(), cat) {
            out.push(facts[i].copied());
            proof {
                assert(fact_views(out@) =~= before.push(all[i as int]));
            }
        }
        i += 1;
    }
    proof {
        assert(all.take(i as int) =~= all);
    }
    out
}

impl FactGroup {
    /// Whether this is the group of a category.
    pub open spec fn is_of(&self, facts: Seq<Fact>, cat: Seq<char>) -> bool {
        &&& self.category@ == cat
        &&& self.label_en@ == label_of(cat)
        &&& fact_views(self.facts@) == of_category(facts, cat)
    }
}

/// The group of a category.
fn group(facts: &Vec<FactRow>, cat: &'static str) -> (r: FactGroup)
    ensures
        r.is_of(fact_views(facts@), cat@),
{
    FactGroup {
        category: cat.to_string(),
        label_en: category_label(cat),
        facts: pick_category(facts, cat),
    }
}

/// The facts by category; every category has its group, also without facts.
pub fn group_facts(facts: &Vec<FactRow>) -> (r: Vec<FactGroup>)
    ensures
        r@.len() == categories().len(),
        forall|i: int|
            0 <= i < r@.len() ==> (#[trigger] r@[i]).is_of(fact_views(facts@), categories()[i]),
{
    let mut out: Vec<FactGroup> = Vec::new();
    out.push(group(facts, "personal"));
    out.push(group(facts, "preferences"));
    out.push(group(facts, "location"));
    out.push(group(facts, "work"));
    out.push(group(facts, "other"));
    out
}

/// The category that a fact is stored under: the one that was chosen where there
/// is such a one.
pub open spec fn stored_category(chosen: Seq<char>) -> Seq<char> {
    if categories().contains(chosen) {
        chosen
    } else {
        "other"@
    }
}

/// The category that a fact is stored under.
pub fn pick_stored_category(chosen: &str) -> (r: String)
    ensures
        r@ == stored_category(chosen@),
{
    let known = text::same(chosen, "personal") || text::same(chosen, "preferences") || text::same(
        chosen,
        "location",
    ) || text::same(chosen, "work") || text::same(chosen, "other");
    proof {
        let c = categories();
        assert(c[0] == "personal"@ && c[1] == "preferences"@ && c[2] == "location"@ && c[3]
            == "work"@ && c[4] == "other"@);
    }
    if known {
        chosen.to_string()
    } else {
        "other".to_string()
    }
}

/// A fact to add: its category and its words.
pub fn personality_add(base_path: &str, form: &AddFactForm) -> (r: Verdict<(String, String)>)
    ensures
        if blank(form.fact@) {
            r.answers(Sent::Redirect(base_path@ + "/personality?error=empty"@))
        } else {
            r matches Verdict::Proceed(f) && f.0@ == stored_category(form.category@) && f.1@
                == trimmed(form.fact@)
        },
{
    if text::is_blank(form.fact.as_str()) {
        return Verdict::Answer(response::redirect(base_path, "/personality?error=empty"));
    }
    Verdict::Proceed(
        (
            pick_stored_category(form.category.as_str()),
            text::trim(form.fact.as_str()).to_string(),
        ),
    )
}

/// Where a fact that was to be added leads.
pub fn fact_added(base_path: &str, done: bool) -> (r: WebAnswer)
    ensures
        r@ == Sent::Redirect(
            base_path@ + if done {
                "/personality?success=added"@
            } else {
                "/personality?error=add_failed"@
            },
        ),
{
    if done {
        response::redirect(base_path, "/personality?success=added")
    } else {
        response::redirect(base_path, "/personality?error=add_failed")
    }
}

/// A fact after it was changed, as it is shown; `source` is where it came from,
/// where that could be loaded.
pub fn personality_update(fact_id: String, form: &UpdateFactForm, source: Option<String>) -> (r:
    FactRow)
    ensures
        r@ == (Fact {
            id: fact_id@,
            category: stored_category(form.category@),
            fact: trimmed(form.fact@),
            source: match opt_text(source) {
                Some(s) => s,
                None => "manual"@,
            },
            created_at: Seq::empty(),
        }),
{
    FactRow {
        id: fact_id,
        category: pick_stored_category(form.category.as_str()),
        fact: text::trim(form.fact.as_str()).to_string(),
        source: match source {
            Some(s) => s,
            None => "manual".to_string(),
        },
        created_at: String::new(),
    }
}

// ── Laws ─────────────────────────────────────────────────────────────────────

/// Every fact with a category of the list is shown in the group of its category,
/// and no group shows a fact of another one.
pub proof fn law_facts_are_grouped(facts: Seq<Fact>, i: int, cat: Seq<char>)
    requires
        0 <= i < facts.len(),
    ensures
        facts[i].category == cat <==> of_category(facts, cat).contains(facts[i]),
{
    let p = |f: Fact| f.category == cat;
    if facts[i].category == cat {
        facts.lemma_filter_contains(p, i);
    }
    if of_category(facts, cat).contains(facts[i]) {
        let k = choose|k: int|
            0 <= k < of_category(facts, cat).len() && of_category(facts, cat)[k] == facts[i];
        facts.lemma_filter_pred(p, k);
    }
}

/// The page of what is known of a user.
#[derive(Debug)]
pub struct PersonalityPage {
    pub groups: Vec<FactGroup>,
    pub error: Option<String>,
    pub success: Option<String>,
}

/// The page of what is known of a user: the facts in groups.
pub fn personality_index(facts: &Vec<FactRow>, query: PersonalityQuery) -> (r: PersonalityPage)
    ensures
        r.groups@.len() == categories().len(),
        forall|i: int|
            0 <= i < r.groups@.len() ==> (#[trigger] r.groups@[i]).is_of(fact_views(facts@), categories()[i]),
        r.error == query.error,
        r.success == query.success,
{
    PersonalityPage { groups: group_facts(facts), error: query.error, success: query.success }
}

/// A fact as a piece of the page, to be read or to be changed; one that is not there is
/// not found.
pub fn personality_row(fact: Option<FactRow>) -> (r: Verdict<FactRow>)
    ensures
        match fact {
            Some(f) => r == Verdict::Proceed(f),
            None => r.answers(Sent::Status(404)),
        },
{
    match fact {
        Some(f) => Verdict::Proceed(f),
        None => Verdict::Answer(WebAnswer::Status(response::NOT_FOUND)),
    }
}

/// A fact is stored as it was entered, without white space around it, under the category that was
/// chosen where there is such a one; and only where there is more than white space.
pub proof fn law_fact_is_stored_as_entered(
    base_path: &str,
    form: AddFactForm,
    r: Verdict<(String, String)>,
)
    requires
        call_ensures(personality_add, (base_path, &form), r),
    ensures
        r is Proceed <==> trimmed(form.fact@).len() > 0,
        r matches Verdict::Proceed(f) ==> {
            let c = form.category@;
            let known = c == "personal"@ || c == "preferences"@ || c == "location"@ || c == "work"@
                || c == "other"@;
            &&& f.1@ == trimmed(form.fact@)
            &&& known ==> f.0@ == c
            &&& !known ==> f.0@ == "other"@
        },
{
    text::lemma_blank(form.fact@);
    lemma_categories(form.category@);
}

/// Which categories there are.
proof fn lemma_categories(c: Seq<char>)
    ensures
        categories().contains(c) <==> c == "personal"@ || c == "preferences"@ || c == "location"@
            || c == "work"@ || c == "other"@,
{
    let all = categories();
    assert(all[0] == "personal"@ && all[1] == "preferences"@ && all[2] == "location"@ && all[3]
        == "work"@ && all[4] == "other"@);
}

/// A fact that is changed stays the same one, holds what the form says, and keeps where it came from.
pub proof fn law_changed_fact_holds_what_the_form_says(
    fact_id: String,
    form: UpdateFactForm,
    source: Option<String>,
    r: FactRow,
)
    requires
        call_ensures(personality_update, (fact_id, &form, source), r),
    ensures
        r.id@ == fact_id@,
        r.fact@ == trimmed(form.fact@),
        source is Some ==> r.source@ == source->0@,
        source is None ==> r.source@ == "manual"@,
        form.category@ == "work"@ || form.category@ == "personal"@ || form.category@
            == "preferences"@ || form.category@ == "location"@ ==> r.category@ == form.category@,
{
    lemma_categories(form.category@);
    assert(r@.id == r.id@ && r@.fact == r.fact@ && r@.source == r.source@ && r@.category
        == r.category@);
}

/// Each group holds exactly the facts of its category, and every fact of one of the categories is in
/// its group.
pub proof fn law_groups_hold_their_facts(
    facts: Vec<FactRow>,
    query: PersonalityQuery,
    page: PersonalityPage,
    g: int,
    f: Fact,
)
    requires
        call_ensures(personality_index, (&facts, query), page),
        0 <= g < page.groups@.len(),
    ensures
        page.groups@.len() == 5,
        fact_views(page.groups@[g].facts@).contains(f) <==> fact_views(facts@).contains(f)
            && f.category == page.groups@[g].category@,
        page.groups@[0].category@ == "personal"@,
        page.groups@[1].category@ == "preferences"@,
        page.groups@[2].category@ == "location"@,
        page.groups@[3].category@ == "work"@,
        page.groups@[4].category@ == "other"@,
{
    lemma_categories(f.category);
    assert(page.groups@[g].is_of(fact_views(facts@), categories()[g]));
    assert(page.groups@[0].is_of(fact_views(facts@), categories()[0]));
    assert(page.groups@[1].is_of(fact_views(facts@), categories()[1]));
    assert(page.groups@[2].is_of(fact_views(facts@), categories()[2]));
    assert(page.groups@[3].is_of(fact_views(facts@), categories()[3]));
    assert(page.groups@[4].is_of(fact_views(facts@), categories()[4]));
    let p = |x: Fact| x.category == categories()[g];
    let all = fact_views(facts@);
    assert(of_category(all, categories()[g]) == all.filter(p));
    let held = all.filter(p);
    if held.contains(f) {
        all.lemma_filter_contains_rev(p, f);
        let k = choose|k: int| 0 <= k < held.len() && held[k] == f;
        all.lemma_filter_pred(p, k);
    }
    if all.contains(f) && p(f) {
        let k = choose|k: int| 0 <= k < all.len() && all[k] == f;
        all.lemma_filter_contains(p, k);
    }
}

/// A fact is stored under the category that was chosen where it is one of the five, else among the
/// others; and each category has a label of its own.
pub proof fn law_category_is_the_chosen_one(chosen: &str, r: String, label: &'static str)
    requires
        call_ensures(pick_stored_category, (chosen,), r),
        call_ensures(category_label, (chosen,), label),
    ensures
        chosen@ == "personal"@ || chosen@ == "preferences"@ || chosen@ == "location"@ || chosen@
            == "work"@ || chosen@ == "other"@ ==> r@ == chosen@,
        !(chosen@ == "personal"@ || chosen@ == "preferences"@ || chosen@ == "location"@ || chosen@
            == "work"@) ==> r@ == "other"@ && label@ == "Other"@,
        chosen@ == "personal"@ ==> label@ == "Personal"@,
        chosen@ == "preferences"@ ==> label@ == "Preferences"@,
        chosen@ == "location"@ ==> label@ == "Location"@,
        chosen@ == "work"@ ==> label@ == "Work & Skills"@,
{
    let c = categories();
    assert(c[0] == "personal"@ && c[1] == "preferences"@ && c[2] == "location"@ && c[3] == "work"@
        && c[4] == "other"@);
    reveal_strlit("personal");
    reveal_strlit("preferences");
    reveal_strlit("location");
    reveal_strlit("work");
    assert("personal"@.len() == 8 && "preferences"@.len() == 11 && "location"@.len() == 8
        && "work"@.len() == 4);
    assert("personal"@[0] != "location"@[0]);
}

} // verus!
