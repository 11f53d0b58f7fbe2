//! What an agent keeps for its users: stored values and memories. An administrator sees
//! and deletes those of everybody, others their own.
use vstd::prelude::*;
use vstd::string::*;
use crate::text;
use crate::text::opt_text;
use crate::web::response;
use crate::web::response::{Sent, WebAnswer};

verus! {

/// How many entries of a kind are shown.
pub const ENTRIES_SHOWN: usize = 500;

#[derive(Debug, Clone)]
pub struct StorageEntryView {
    pub id: String,
    pub user_id: String,
    pub key: String,
    pub value: String,
    pub updated_at: String,
}

#[derive(Debug, Clone)]
pub struct MemoryEntryView {
    pub id: String,
    pub user_id: String,
    pub memory: String,
    pub tags: String,
    pub source: String,
    pub updated_at: String,
}

#[derive(Debug)]
pub struct DeleteStorageForm {
    pub entry_id: String,
}

#[derive(Debug)]
pub struct DeleteMemoryForm {
    pub memory_id: String,
}

/// Whether somebody may see and delete the entries of an owner.
pub open spec fn may_see(is_admin: bool, user_id: Seq<char>, owner: Seq<char>) -> bool {
    is_admin || owner == user_id
}

/// Whose entries somebody sees and may delete: those of anybody for an administrator,
/// else their own.
pub fn entries_restricted_to(is_admin: bool, user_id: &str) -> (r: Option<String>)
    ensures
        opt_text(r) == if is_admin {
            None
        } else {
            Some(user_id@)
        },
{
    if is_admin {
        None
    } else {
        Some(user_id.to_string())
    }
}

// ── Seeing entries ───────────────────────────────────────────────────────────

/// Whether a stored value is a user's.
pub open spec fn storage_of(user_id: Seq<char>) -> spec_fn(StorageEntryView) -> bool {
    |e: StorageEntryView| e.user_id@ == user_id
}

/// Whether a memory is a user's.
pub open spec fn memory_of(user_id: Seq<char>) -> spec_fn(MemoryEntryView) -> bool {
    |e: MemoryEntryView| e.user_id@ == user_id
}

/// The stored values that somebody may see.
pub open spec fn visible_storage(
    entries: Seq<StorageEntryView>,
    is_admin: bool,
    user_id: Seq<char>,
) -> Seq<StorageEntryView> {
    if is_admin {
        entries
    } else {
        entries.filter(storage_of(user_id))
    }
}

/// The memories that somebody may see.
pub open spec fn visible_memory(
    entries: Seq<MemoryEntryView>,
    is_admin: bool,
    user_id: Seq<char>,
) -> Seq<MemoryEntryView> {
    if is_admin {
        entries
    } else {
        entries.filter(memory_of(user_id))
    }
}

/// The first entries of a list, as many as are shown.
pub open spec fn first_shown<T>(entries: Seq<T>) -> Seq<T> {
    if entries.len() <= ENTRIES_SHOWN {
        entries
    } else {
        entries.take(ENTRIES_SHOWN as int)
    }
}

/// The stored values that somebody may see.
pub fn storage_seen(entries: Vec<StorageEntryView>, is_admin: bool, user_id: &str) -> (r: Vec<
    StorageEntryView,
>)
    ensures
        r@ == visible_storage(entries@, is_admin, user_id@),
        r@.len() <= entries@.len(),
{
    let only = match entries_restricted_to(is_admin, user_id) {
        Some(user) => user,
        None => {
            return entries;
        },
    };
    let ghost p = storage_of(user_id@);
    let mut out: Vec<StorageEntryView> = Vec::new();
    proof {
        assert(out@ =~= entries@.take(0).filter(p));
    }
    for entry in it: entries
        invariant
            only@ == user_id@,
            p == storage_of(user_id@),
            it.seq() == entries@,
            out@ == entries@.take(it.index() as int).filter(p),
            out@.len() <= it.index(),
    {
        let ghost k = it.index() as int;
        proof {
            assert(entries@.take(k + 1) =~= entries@.take(k).push(entries@[k]));
            entries@.take(k).lemma_filter_push(entries@[k], p);
        }
        if text::same(entry.user_id.as_str(), only.as_str()) {
            out.push(entry);
        }
    }
    proof {
        assert(entries@.take(entries@.len() as int) =~= entries@);
    }
    out
}

/// The memories that somebody may see.
pub fn memory_seen(entries: Vec<MemoryEntryView>, is_admin: bool, user_id: &str) -> (r: Vec<
    MemoryEntryView,
>)
    ensures
        r@ == visible_memory(entries@, is_admin, user_id@),
        r@.len() <= entries@.len(),
{
    let only = match entries_restricted_to(is_admin, user_id) {
        Some(user) => user,
        None => {
            return entries;
        },
    };
    let ghost p = memory_of(user_id@);
    let mut out: Vec<MemoryEntryView> = Vec::new();
    proof {
        assert(out@ =~= entries@.take(0).filter(p));
    }
    for entry in it: entries
        invariant
            only@ == user_id@,
            p == memory_of(user_id@),
            it.seq() == entries@,
            out@ == entries@.take(it.index() as int).filter(p),
            out@.len() <= it.index(),
    {
        let ghost k = it.index() as int;
        proof {
            assert(entries@.take(k + 1) =~= entries@.take(k).push(entries@[k]));
            entries@.take(k).lemma_filter_push(entries@[k], p);
        }
        if text::same(entry.user_id.as_str(), only.as_str()) {
            out.push(entry);
        }
    }
    proof {
        assert(entries@.take(entries@.len() as int) =~= entries@);
    }
    out
}

/// Somebody who is no administrator sees only stored values and memories of their own, and
/// all of those; an administrator sees every one.
pub proof fn law_entries_are_seen_by_their_owners(
    storage: Seq<StorageEntryView>,
    memory: Seq<MemoryEntryView>,
    is_admin: bool,
    user_id: Seq<char>,
)
    ensures
        forall|e: StorageEntryView|
            #[trigger] visible_storage(storage, is_admin, user_id).contains(e)
                <==> storage.contains(e) && may_see(is_admin, user_id, e.user_id@),
        forall|e: MemoryEntryView|
            #[trigger] visible_memory(memory, is_admin, user_id).contains(e) <==> memory.contains(
                e,
            ) && may_see(is_admin, user_id, e.user_id@),
{
    let p = storage_of(user_id);
    let q = memory_of(user_id);
    assert forall|e: StorageEntryView| #[trigger]
        visible_storage(storage, is_admin, user_id).contains(e) <==> storage.contains(e)
            && may_see(is_admin, user_id, e.user_id@) by {
        if !is_admin {
            if storage.filter(p).contains(e) {
                storage.lemma_filter_contains_rev(p, e);
                let i = choose|i: int| 0 <= i < storage.filter(p).len() && storage.filter(p)[i] == e;
                storage.lemma_filter_pred(p, i);
            }
            if storage.contains(e) && p(e) {
                let i = choose|i: int| 0 <= i < storage.len() && storage[i] == e;
                storage.lemma_filter_contains(p, i);
            }
        }
    }
    assert forall|e: MemoryEntryView| #[trigger]
        visible_memory(memory, is_admin, user_id).contains(e) <==> memory.contains(e) && may_see(
            is_admin,
            user_id,
            e.user_id@,
        ) by {
        if !is_admin {
            if memory.filter(q).contains(e) {
                memory.lemma_filter_contains_rev(q, e);
                let i = choose|i: int| 0 <= i < memory.filter(q).len() && memory.filter(q)[i] == e;
                memory.lemma_filter_pred(q, i);
            }
            if memory.contains(e) && q(e) {
                let i = choose|i: int| 0 <= i < memory.len() && memory[i] == e;
                memory.lemma_filter_contains(q, i);
            }
        }
    }
}

// ── Deleting entries ─────────────────────────────────────────────────────────

/// Which entry of an agent is deleted: the one with an ID, and where `only_of` names a
/// user, only if it is theirs.
#[derive(Debug, PartialEq, Eq)]
pub struct EntryRemoval {
    pub id: String,
    pub agent_id: String,
    pub only_of: Option<String>,
}

impl EntryRemoval {
    /// Whether an entry is deleted.
    pub open spec fn covers(self, id: Seq<char>, agent_id: Seq<char>, owner: Seq<char>) -> bool {
        &&& id == self.id@
        &&& agent_id == self.agent_id@
        &&& match opt_text(self.only_of) {
            Some(user) => owner == user,
            None => true,
        }
    }
}

/// Which stored value of an agent is deleted.
pub fn agent_storage_delete(
    is_admin: bool,
    user_id: &str,
    agent_id: &str,
    form: &DeleteStorageForm,
) -> (r: EntryRemoval)
    ensures
        r.id@ == form.entry_id@,
        r.agent_id@ == agent_id@,
        opt_text(r.only_of) == if is_admin {
            None
        } else {
            Some(user_id@)
        },
{
    EntryRemoval {
        id: form.entry_id.clone(),
        agent_id: agent_id.to_string(),
        only_of: entries_restricted_to(is_admin, user_id),
    }
}

/// Which memory of an agent is deleted.
pub fn agent_memory_delete(
    is_admin: bool,
    user_id: &str,
    agent_id: &str,
    form: &DeleteMemoryForm,
) -> (r: EntryRemoval)
    ensures
        r.id@ == form.memory_id@,
        r.agent_id@ == agent_id@,
        opt_text(r.only_of) == if is_admin {
            None
        } else {
            Some(user_id@)
        },
{
    EntryRemoval {
        id: form.memory_id.clone(),
        agent_id: agent_id.to_string(),
        only_of: entries_restricted_to(is_admin, user_id),
    }
}

/// The answer once an entry was to be deleted, whether or not there was one; `done` is
/// whether the store could be asked.
pub fn entry_deleted(done: bool) -> (r: WebAnswer)
    ensures
        r@ == Sent::Status(
            if done {
                200
            } else {
                500
            },
        ),
{
    if done {
        WebAnswer::Status(response::OK)
    } else {
        WebAnswer::Status(response::INTERNAL_SERVER_ERROR)
    }
}

/// Somebody deletes an entry of the agent exactly where they named it and may see it.
pub proof fn law_only_visible_entries_are_deleted(
    removal: EntryRemoval,
    is_admin: bool,
    user_id: Seq<char>,
    id: Seq<char>,
    owner: Seq<char>,
)
    requires
        opt_text(removal.only_of) == if is_admin {
            None
        } else {
            Some(user_id)
        },
    ensures
        removal.covers(id, removal.agent_id@, owner) <==> id == removal.id@ && may_see(
            is_admin,
            user_id,
            owner,
        ),
{
}

} // verus!
