//! The people who may write through a pipe, and the lists they are entered in.
use vstd::prelude::*;
use vstd::string::*;
use crate::text;
use crate::text::{blank, find_from, occurs_in, opt_str, opt_text, pieces, texts, trimmed};
use crate::web::response;
use crate::web::response::{Sent, Verdict, WebAnswer};

verus! {

/// A user that can be chosen.
#[derive(Debug, Clone)]
pub struct UserOption {
    pub id: String,
    pub display: String,
}

#[derive(Debug)]
pub struct AddPersonForm {
    pub user_id: String,
    pub sender_ref: String,
}

#[derive(Debug)]
pub struct FlashQuery {
    pub msg: Option<String>,
    pub error: Option<String>,
}

/// A user that can be chosen: by the name that is shown, and the one to sign in
/// with.
pub fn user_option(id: Option<String>, username: &str, display_name: &str) -> (r: UserOption)
    ensures
        r.id@ == match opt_text(id) {
            Some(i) => i,
            None => Seq::<char>::empty(),
        },
        r.display@ == display_name@ + " ("@ + username@ + ")"@,
{
    let mut display = display_name.to_string();
    display.append(" (");
    display.append(username);
    display.append(")");
    UserOption {
        id: match id {
            Some(i) => i,
            None => String::new(),
        },
        display,
    }
}

/// A user as stored, as far as one is chosen by it.
#[derive(Debug)]
pub struct StoredName {
    pub id: Option<String>,
    pub username: String,
    pub display_name: String,
}

/// Whether `o` offers a stored user.
pub open spec fn offers_user(o: UserOption, row: StoredName) -> bool {
    &&& o.id@ == match opt_text(row.id) {
        Some(i) => i,
        None => Seq::<char>::empty(),
    }
    &&& o.display@ == row.display_name@ + " ("@ + row.username@ + ")"@
}

/// The users that can be chosen.
pub fn user_options(rows: Vec<StoredName>) -> (r: Vec<UserOption>)
    ensures
        r@.len() == rows@.len(),
        forall|i: int| 0 <= i < rows@.len() ==> offers_user(#[trigger] r@[i], rows@[i]),
{
    let mut out: Vec<UserOption> = Vec::new();
    for row in it: rows
        invariant
            it.seq() == rows@,
            out@.len() == it.index(),
            forall|k: int| 0 <= k < out@.len() ==> offers_user(#[trigger] out@[k], rows@[k]),
    {
        out.push(user_option(row.id, row.username.as_str(), row.display_name.as_str()));
    }
    out
}

// ── The pages of a pipe ──────────────────────────────────────────────────────

/// The page of a pipe: who may write through it, who can be let, and what is said.
#[derive(Debug)]
pub struct PipePage<T, P> {
    pub config: T,
    pub people: Vec<P>,
    pub users: Vec<UserOption>,
    pub flash: Option<String>,
    pub error: Option<String>,
}

/// Whether `r` is the page of a pipe: only an administrator sees it, and a pipe that is not
/// there leads to the list of them.
pub open spec fn shows_pipe<T, P>(
    r: Verdict<PipePage<T, P>>,
    is_admin: bool,
    base_path: Seq<char>,
    config: Option<T>,
    people: Vec<P>,
    users: Vec<UserOption>,
    query: FlashQuery,
) -> bool {
    if !is_admin {
        r.answers(Sent::Redirect(base_path + "/chat"@))
    } else {
        match config {
            Some(c) => r == Verdict::<PipePage<T, P>>::Proceed(
                PipePage { config: c, people, users, flash: query.msg, error: query.error },
            ),
            None => r.answers(Sent::Redirect(base_path + "/pipes"@)),
        }
    }
}

/// The page of a pipe.
pub fn pipe_page<T, P>(
    is_admin: bool,
    base_path: &str,
    config: Option<T>,
    people: Vec<P>,
    users: Vec<UserOption>,
    query: FlashQuery,
) -> (r: Verdict<PipePage<T, P>>)
    ensures
        shows_pipe(r, is_admin, base_path@, config, people, users, query),
{
    if !is_admin {
        return Verdict::Answer(response::redirect(base_path, "/chat"));
    }
    match config {
        Some(c) => Verdict::Proceed(
            PipePage { config: c, people, users, flash: query.msg, error: query.error },
        ),
        None => Verdict::Answer(response::redirect(base_path, "/pipes")),
    }
}

/// The person who is taken from those who may write through a pipe, by an administrator.
pub fn person_to_remove(is_admin: bool, ref_id: String) -> (r: Verdict<String>)
    ensures
        if is_admin {
            r == Verdict::Proceed(ref_id)
        } else {
            r.answers(Sent::Status(403))
        },
{
    match response::admin_only(is_admin) {
        Verdict::Answer(a) => Verdict::Answer(a),
        Verdict::Proceed(_) => Verdict::Proceed(ref_id),
    }
}

/// Where a pipe leads once it was removed.
pub fn pipe_removed(base_path: &str) -> (r: WebAnswer)
    ensures
        r@ == Sent::Redirect(base_path@ + "/pipes?msg=Pipe+removed"@),
{
    response::redirect(base_path, "/pipes?msg=Pipe+removed")
}

// ── Initials ─────────────────────────────────────────────────────────────────

/// Whether `char::is_alphabetic` holds of a character.
pub uninterp spec fn is_letter(c: char) -> bool;

/// `char::is_alphabetic`: whether a character is a letter, named by `is_letter`.
#[verifier::external_body]
pub(crate) fn char_is_letter(c: char) -> (r: bool)
    ensures
        r == is_letter(c),
{
    c.is_alphabetic()
}

/// The text that `str::to_uppercase` gives.
pub uninterp spec fn capitals(s: Seq<char>) -> Seq<char>;

/// `str::to_uppercase`: a text in capital letters, named by `capitals`.
#[verifier::external_body]
pub(crate) fn to_capitals(s: &str) -> (r: String)
    ensures
        r@ == capitals(s@),
{
    s.to_uppercase()
}

/// The letters of a name, two at the most.
pub open spec fn first_letters(name: Seq<char>) -> Seq<char> {
    let letters = name.filter(|c: char| is_letter(c));
    if letters.len() > 2 {
        letters.take(2)
    } else {
        letters
    }
}

/// The initials of a name: its first two letters as capitals, and a question mark
/// where there are none.
pub open spec fn initials_of(name: Seq<char>) -> Seq<char> {
    if capitals(first_letters(name)).len() == 0 {
        "?"@
    } else {
        capitals(first_letters(name))
    }
}

/// The letters of a name, two at the most.
fn pick_letters(name: &str) -> (r: String)
    ensures
        r@ == first_letters(name@),
{
    let v = text::chars_of(name);
    let ghost p = |c: char| is_letter(c);
    let mut out = String::new();
    let mut count: usize = 0;
    let mut i: usize = 0;
    proof {
        assert(name@.take(0).filter(p) =~= Seq::<char>::empty());
    }
    while i < v.len()
        invariant
            i <= v@.len(),
            v@ == name@,
            p == (|c: char| is_letter(c)),
            count <= 2,
            count == out@.len(),
            ({
                let f = name@.take(i as int).filter(p);
                if f.len() > 2 {
                    out@ == f.take(2)
                } else {
                    out@ == f
                }
            }),
        decreases v@.len() - i,
    {
        let ghost before = name@.take(i as int).filter(p);
        proof {
            assert(name@.take(i + 1) =~= name@.take(i as int).push(name@[i as int]));
            name@.take(i as int).lemma_filter_push(name@[i as int], p);
        }
        let ghost out0 = out@;
        if char_is_letter(v[i]) {
            if count < 2 {
                out.push(v[i]);
                count += 1;
            } else {
                proof {
                    assert(before.push(name@[i as int]).take(2) =~= out0);
                }
            }
        }
        i += 1;
    }
    proof {
        assert(name@.take(i as int) =~= name@);
    }
    out
}

/// The initials of a text in capital letters: itself, and a question mark where it
/// is empty.
pub fn shown_initials(capital_letters: String) -> (r: String)
    ensures
        r@ == if capital_letters@.len() == 0 {
            "?"@
        } else {
            capital_letters@
        },
{
    if capital_letters.as_str().is_empty() {
        "?".to_string()
    } else {
        capital_letters
    }
}

/// The initials of a name.
pub fn initials(display_name: &str) -> (r: String)
    ensures
        r@ == initials_of(display_name@),
{
    let letters = pick_letters(display_name);
    shown_initials(to_capitals(letters.as_str()))
}

/// Somebody who may write through a pipe.
#[derive(Debug, Clone)]
pub struct AllowedPerson {
    pub ref_id: String,
    pub display_name: String,
    pub sender_ref: String,
    pub initials: String,
}

/// Somebody who may write through a pipe.
pub fn allowed_person(ref_id: Option<String>, display_name: String, sender_ref: String) -> (r:
    AllowedPerson)
    ensures
        r.ref_id@ == match opt_text(ref_id) {
            Some(i) => i,
            None => Seq::<char>::empty(),
        },
        r.display_name == display_name,
        r.sender_ref == sender_ref,
        r.initials@ == initials_of(display_name@),
{
    let initials = initials(display_name.as_str());
    AllowedPerson {
        ref_id: match ref_id {
            Some(i) => i,
            None => String::new(),
        },
        display_name,
        sender_ref,
        initials,
    }
}

// ── Lists of people ──────────────────────────────────────────────────────────

/// What stands before and behind the first colon of an entry.
pub open spec fn entry_parts(entry: Seq<char>) -> Option<(Seq<char>, Seq<char>)> {
    let e = trimmed(entry);
    match find_from(e, ":"@, 0) {
        Some(i) => Some((trimmed(e.subrange(0, i)), trimmed(e.subrange(i + 1, e.len() as int)))),
        None => None,
    }
}

/// The user that an entry names.
pub open spec fn owner_in(entry: Seq<char>) -> Option<Seq<char>> {
    match entry_parts(entry) {
        Some((_, user)) if user.len() > 0 => Some(user),
        _ => None,
    }
}

/// The sender and the user that an entry names, where it names both.
pub open spec fn person_in(entry: Seq<char>) -> Option<(Seq<char>, Seq<char>)> {
    match entry_parts(entry) {
        Some((sender, user)) if sender.len() > 0 && user.len() > 0 => Some((sender, user)),
        _ => None,
    }
}

/// The first user that a list of entries names.
pub open spec fn first_owner(entries: Seq<Seq<char>>) -> Option<Seq<char>>
    decreases entries.len(),
{
    if entries.len() == 0 {
        None
    } else {
        match owner_in(entries[0]) {
            Some(u) => Some(u),
            None => first_owner(entries.drop_first()),
        }
    }
}

/// The senders and users that a list of entries names.
pub open spec fn people_in(entries: Seq<Seq<char>>) -> Seq<(Seq<char>, Seq<char>)> {
    entries.filter_map(|e: Seq<char>| person_in(e))
}

/// What stands before and behind the first colon of an entry.
fn parts_of(entry: &str) -> (r: Option<(String, String)>)
    ensures
        match r {
            Some(p) => entry_parts(entry@) == Some((p.0@, p.1@)),
            None => entry_parts(entry@) is None,
        },
{
    proof {
        reveal_strlit(":");
    }
    let e = text::trim(entry);
    match text::split_once(e, ":") {
        Some((a, b)) => Some((text::trim(a).to_string(), text::trim(b).to_string())),
        None => None,
    }
}

/// The user who owns a pipe: the first one that the list of people names, else the
/// first user that there is.
pub fn find_pipe_owner(people: Option<&str>, first_user: Option<String>) -> (r: Option<String>)
    ensures
        opt_text(r) == match opt_str(people) {
            Some(list) => match first_owner(pieces(list, ',')) {
                Some(u) => Some(u),
                None => opt_text(first_user),
            },
            None => opt_text(first_user),
        },
{
    let list = match people {
        Some(list) => list,
        None => {
            return first_user;
        },
    };
    let entries = text::split(list, ',');
    let ghost all = texts(entries@);
    let mut i: usize = 0;
    proof {
        assert(all.subrange(0, all.len() as int) =~= all);
    }
    while i < entries.len()
        invariant
            i <= entries@.len(),
            opt_str(people) == Some(list@),
            all == texts(entries@),
            all == pieces(list@, ','),
            first_owner(all) == first_owner(all.subrange(i as int, all.len() as int)),
        decreases entries@.len() - i,
    {
        let ghost rest = all.subrange(i as int, all.len() as int);
        proof {
            assert(rest[0] == entries@[i as int]@);
            assert(rest.drop_first() =~= all.subrange(i + 1, all.len() as int));
        }
        match parts_of(entries[i].as_str()) {
            Some((_, user)) => {
                if !user.as_str().is_empty() {
                    return Some(user);
                }
            },
            None => {},
        }
        i += 1;
    }
    first_user
}

/// The pairs of texts that a list holds.
pub open spec fn pair_views(v: Seq<(String, String)>) -> Seq<(Seq<char>, Seq<char>)> {
    v.map_values(|p: (String, String)| (p.0@, p.1@))
}

/// The senders and users that a list of people names, in their order.
pub fn sender_mappings(people: Option<&str>) -> (r: Vec<(String, String)>)
    ensures
        pair_views(r@) == match opt_str(people) {
            Some(list) => people_in(pieces(list, ',')),
            None => Seq::empty(),
        },
{
    let mut out: Vec<(String, String)> = Vec::new();
    let list = match people {
        Some(list) => list,
        None => {
            proof {
                assert(pair_views(out@) =~= Seq::<(Seq<char>, Seq<char>)>::empty());
            }
            return out;
        },
    };
    let entries = text::split(list, ',');
    let ghost all = texts(entries@);
    let ghost f = |e: Seq<char>| person_in(e);
    let mut i: usize = 0;
    proof {
        assert(pair_views(out@) =~= all.take(0).filter_map(f));
    }
    while i < entries.len()
        invariant
            i <= entries@.len(),
            all == texts(entries@),
            f == (|e: Seq<char>| person_in(e)),
            pair_views(out@) == all.take(i as int).filter_map(f),
        decreases entries@.len() - i,
    {
        let ghost before = pair_views(out@);
        proof {
            all.lemma_filter_map_take_succ(f, i as int);
            assert(all[i as int] == entries@[i as int]@);
            assert(before + Seq::<(Seq<char>, Seq<char>)>::empty() =~= before);
        }
        match parts_of(entries[i].as_str()) {
            Some((sender, user)) => {
                if !sender.as_str().is_empty() && !user.as_str().is_empty() {
                    let ghost p = (sender@, user@);
                    out.push((sender, user));
                    proof {
                        assert(pair_views(out@) =~= before.push(p));
                        assert(before + seq![p] =~= before.push(p));
                    }
                }
            },
            None => {},
        }
        i += 1;
    }
    proof {
        assert(all.take(i as int) =~= all);
    }
    out
}

// ── Adding somebody ──────────────────────────────────────────────────────────

/// Whether a form that adds somebody is filled in.
pub fn person_is_complete(form: &AddPersonForm) -> (r: bool)
    ensures
        r == (form.user_id@.len() > 0 && !blank(form.sender_ref@)),
{
    !form.user_id.as_str().is_empty() && !text::is_blank(form.sender_ref.as_str())
}

/// Somebody who is let write through a pipe, but for the ID of the entry.
#[derive(Debug, PartialEq, Eq)]
pub struct NewPerson {
    pub pipe_id: String,
    pub user_id: String,
    pub sender_ref: String,
}

/// Whether `r` is the entry of somebody who is added to a pipe: nobody is where the pipe is
/// not there, which leads to the list of pipes.
pub open spec fn adds_person(
    r: Verdict<NewPerson>,
    base_path: Seq<char>,
    pipe_id: Option<String>,
    form: AddPersonForm,
) -> bool {
    match pipe_id {
        Some(p) => r matches Verdict::Proceed(n) && n.pipe_id@ == p@ && n.user_id@ == form.user_id@
            && n.sender_ref@ == form.sender_ref@,
        None => r.answers(Sent::Redirect(base_path + "/pipes"@)),
    }
}

/// The entry of somebody who is added to a pipe.
pub fn add_person(base_path: &str, pipe_id: Option<String>, form: &AddPersonForm) -> (r: Verdict<
    NewPerson,
>)
    ensures
        adds_person(r, base_path@, pipe_id, *form),
{
    match pipe_id {
        Some(pipe_id) => Verdict::Proceed(
            NewPerson {
                pipe_id,
                user_id: form.user_id.clone(),
                sender_ref: form.sender_ref.clone(),
            },
        ),
        None => Verdict::Answer(response::redirect(base_path, "/pipes")),
    }
}

/// What became of somebody who was to be added.
#[derive(Debug, Clone, Copy, PartialEq, Eq, Structural)]
pub enum Added {
    Done,
    Twice,
    Failed,
}

/// What became of somebody who was to be added, by the error of the database: it
/// was tried twice where the error speaks of something unique.
pub fn person_added(error: Option<&str>) -> (r: Added)
    ensures
        r == match opt_str(error) {
            None => Added::Done,
            Some(e) => if occurs_in(e, "UNIQUE"@) {
                Added::Twice
            } else {
                Added::Failed
            },
        },
{
    match error {
        None => Added::Done,
        Some(e) => if text::contains(e, "UNIQUE") {
            Added::Twice
        } else {
            Added::Failed
        },
    }
}

// ── Laws ─────────────────────────────────────────────────────────────────────

/// Whoever is let in by a list names both a sender and a user, and neither has
/// white space at an end.
pub proof fn law_people_are_complete(entries: Seq<Seq<char>>, i: int)
    requires
        0 <= i < people_in(entries).len(),
    ensures
        people_in(entries)[i].0.len() > 0,
        people_in(entries)[i].1.len() > 0,
        trimmed(people_in(entries)[i].0) == people_in(entries)[i].0,
        trimmed(people_in(entries)[i].1) == people_in(entries)[i].1,
{
    let f = |e: Seq<char>| person_in(e);
    let x = people_in(entries)[i];
    assert(people_in(entries).contains(x));
    entries.lemma_filter_map_contains(f, x);
    let e = choose|e: Seq<char>| entries.contains(e) && f(e) == Some(x);
    let t = trimmed(e);
    let k = find_from(t, ":"@, 0)->0;
    text::lemma_trimmed_twice(t.subrange(0, k));
    text::lemma_trimmed_twice(t.subrange(k + 1, t.len() as int));
}

/// An entry is read as a sender, a colon and a user: whatever sender without a colon and whatever
/// user are put together, just they are read back, each on its side.
pub proof fn law_entry_is_sender_and_user(sender: Seq<char>, user: Seq<char>)
    requires
        sender.len() > 0,
        user.len() > 0,
        trimmed(sender) == sender,
        trimmed(user) == user,
        forall|i: int| 0 <= i < sender.len() ==> #[trigger] sender[i] != ':',
    ensures
        person_in(sender + ":"@ + user) == Some((sender, user)),
        owner_in(sender + ":"@ + user) == Some(user),
{
    reveal_strlit(":");
    let e = sender + ":"@ + user;
    let n = sender.len() as int;
    text::lemma_trimmed_ends(sender);
    text::lemma_trimmed_ends(user);
    assert(e[0] == sender[0]);
    assert(e.last() == user.last());
    text::lemma_trimmed_same(e);
    assert(e.subrange(n, n + 1) =~= ":"@);
    assert forall|j: int| 0 <= j < n implies !text::occurs(e, ":"@, j) by {
        assert(e.subrange(j, j + 1)[0] == sender[j]);
        assert(":"@[0] == ':');
    }
    text::lemma_find_at(e, ":"@, 0, n);
    assert(e.subrange(0, n) =~= sender);
    assert(e.subrange(n + 1, e.len() as int) =~= user);
}

/// The owner of a pipe is a user whom an entry of its list names; only where none does, it is the
/// first user that there is.
pub proof fn law_owner_is_named_or_first(
    people: Option<&str>,
    first_user: Option<String>,
    r: Option<String>,
)
    requires
        call_ensures(find_pipe_owner, (people, first_user), r),
    ensures
        people is None ==> opt_text(r) == opt_text(first_user),
        people is Some ==> {
            let entries = pieces(people->0@, ',');
            ||| r is Some && exists|i: int|
                0 <= i < entries.len() && owner_in(#[trigger] entries[i]) == Some(r->0@)
            ||| opt_text(r) == opt_text(first_user) && forall|i: int|
                0 <= i < entries.len() ==> owner_in(#[trigger] entries[i]) is None
        },
{
    if people is Some {
        lemma_first_owner(pieces(people->0@, ','));
    }
}

/// What the first user of a list is.
proof fn lemma_first_owner(entries: Seq<Seq<char>>)
    ensures
        match first_owner(entries) {
            Some(u) => exists|i: int|
                0 <= i < entries.len() && owner_in(#[trigger] entries[i]) == Some(u),
            None => forall|i: int| 0 <= i < entries.len() ==> owner_in(#[trigger] entries[i]) is None,
        },
    decreases entries.len(),
{
    if entries.len() > 0 {
        let rest = entries.drop_first();
        lemma_first_owner(rest);
        if owner_in(entries[0]) is None {
            match first_owner(rest) {
                Some(u) => {
                    let i = choose|i: int|
                        0 <= i < rest.len() && owner_in(#[trigger] rest[i]) == Some(u);
                    assert(rest[i] == entries[i + 1]);
                },
                None => {
                    assert forall|i: int| 0 <= i < entries.len() implies owner_in(
                        #[trigger] entries[i],
                    ) is None by {
                        if i > 0 {
                            assert(rest[i - 1] == entries[i]);
                        }
                    }
                },
            }
        }
    }
}

/// Somebody is added to the pipe that was given, as the user and the sender of the form.
pub proof fn law_person_is_added_as_entered(
    base_path: &str,
    pipe_id: Option<String>,
    form: AddPersonForm,
    r: Verdict<NewPerson>,
)
    requires
        call_ensures(add_person, (base_path, pipe_id, &form), r),
    ensures
        r is Proceed <==> pipe_id is Some,
        r matches Verdict::Proceed(n) ==> n.pipe_id@ == pipe_id->0@ && n.user_id@ == form.user_id@
            && n.sender_ref@ == form.sender_ref@,
{
}

/// Users are offered as they are stored, each in its place: under their own ID, by display name and
/// name.
pub proof fn law_users_are_offered_as_stored(rows: Vec<StoredName>, r: Vec<UserOption>, i: int)
    requires
        call_ensures(user_options, (rows,), r),
        0 <= i < rows@.len(),
    ensures
        r@.len() == rows@.len(),
        rows@[i].id is Some ==> r@[i].id@ == rows@[i].id->0@,
        rows@[i].id is None ==> r@[i].id@.len() == 0,
        r@[i].display@ == rows@[i].display_name@ + " ("@ + rows@[i].username@ + ")"@,
{
    assert(offers_user(r@[i], rows@[i]));
}

/// The page of a pipe shows that pipe with its people, to administrators only; whoever asks for one
/// that is not there is led to the list.
pub proof fn law_pipe_is_shown_to_administrators<T, P>(
    is_admin: bool,
    base_path: &str,
    config: Option<T>,
    people: Vec<P>,
    users: Vec<UserOption>,
    query: FlashQuery,
    r: Verdict<PipePage<T, P>>,
)
    requires
        call_ensures(pipe_page::<T, P>, (is_admin, base_path, config, people, users, query), r),
    ensures
        r is Proceed <==> is_admin && config is Some,
        !is_admin ==> r.answers(Sent::Redirect(base_path@ + "/chat"@)),
        is_admin && config is None ==> r.answers(Sent::Redirect(base_path@ + "/pipes"@)),
        r matches Verdict::Proceed(page) ==> page.config == config->0 && page.people == people
            && page.users == users && page.flash == query.msg && page.error == query.error,
{
}

} // verus!
