//! Tool calls that wait for the approval of a user.
use vstd::prelude::*;
use vstd::string::*;
use crate::text;
use crate::text::opt_str;

verus! {

/// The requests for approval that wait, each with what its answer is sent through.
#[derive(Debug)]
pub struct PendingConfirmations<T> {
    pub entries: Vec<(String, T)>,
}

/// What waits in a list, by its ID.
pub open spec fn waiting_in<T>(entries: Seq<(String, T)>) -> Map<Seq<char>, T>
    decreases entries.len(),
{
    if entries.len() == 0 {
        Map::empty()
    } else {
        waiting_in(entries.drop_last()).insert(entries.last().0@, entries.last().1)
    }
}

/// Whether no ID stands twice in a list.
pub open spec fn ids_differ<T>(entries: Seq<(String, T)>) -> bool {
    forall|i: int, j: int|
        0 <= i < j < entries.len() ==> (#[trigger] entries[i]).0@ != (#[trigger] entries[j]).0@
}

/// An ID that does not stand in a list does not wait.
proof fn lemma_absent<T>(entries: Seq<(String, T)>, id: Seq<char>)
    requires
        forall|i: int| 0 <= i < entries.len() ==> (#[trigger] entries[i]).0@ != id,
    ensures
        !waiting_in(entries).contains_key(id),
    decreases entries.len(),
{
    if entries.len() > 0 {
        let ahead = entries.drop_last();
        assert forall|i: int| 0 <= i < ahead.len() implies (#[trigger] ahead[i]).0@ != id by {
            assert(ahead[i] == entries[i]);
        }
        lemma_absent(ahead, id);
        assert(entries.last() == entries[entries.len() - 1]);
    }
}

/// An entry of a list waits, and without it only the others do.
proof fn lemma_present<T>(entries: Seq<(String, T)>, i: int)
    requires
        ids_differ(entries),
        0 <= i < entries.len(),
    ensures
        waiting_in(entries).contains_key(entries[i].0@),
        waiting_in(entries)[entries[i].0@] == entries[i].1,
        waiting_in(entries.remove(i)) == waiting_in(entries).remove(entries[i].0@),
        ids_differ(entries.remove(i)),
    decreases entries.len(),
{
    let n = entries.len() - 1;
    let ahead = entries.drop_last();
    let id = entries[i].0@;
    assert(ids_differ(ahead)) by {
        assert forall|a: int, b: int| 0 <= a < b < ahead.len() implies (#[trigger] ahead[a]).0@ != (
        #[trigger] ahead[b]).0@ by {
            assert(ahead[a] == entries[a] && ahead[b] == entries[b]);
        }
    }
    if i == n {
        assert(entries.remove(i) =~= ahead);
        assert forall|k: int| 0 <= k < ahead.len() implies (#[trigger] ahead[k]).0@ != id by {
            assert(ahead[k] == entries[k]);
        }
        lemma_absent(ahead, id);
        assert(waiting_in(ahead) =~= waiting_in(entries).remove(id));
    } else {
        assert(ahead[i] == entries[i]);
        lemma_present(ahead, i);
        assert(entries[n].0@ != id);
        let rest = entries.remove(i);
        assert(rest.drop_last() =~= ahead.remove(i));
        assert(rest.last() == entries[n]);
        assert(waiting_in(rest) =~= waiting_in(entries).remove(id));
    }
    assert forall|a: int, b: int| 0 <= a < b < entries.remove(i).len() implies (
    #[trigger] entries.remove(i)[a]).0@ != (#[trigger] entries.remove(i)[b]).0@ by {
        let x = if a < i {
            a
        } else {
            a + 1
        };
        let y = if b < i {
            b
        } else {
            b + 1
        };
        assert(entries.remove(i)[a] == entries[x] && entries.remove(i)[b] == entries[y]);
    }
}

impl<T> PendingConfirmations<T> {
    /// What waits, by its ID.
    pub open spec fn view(&self) -> Map<Seq<char>, T> {
        waiting_in(self.entries@)
    }

    /// Whether no ID waits twice.
    pub open spec fn wf(&self) -> bool {
        ids_differ(self.entries@)
    }

    /// Nothing waits.
    pub fn new() -> (r: PendingConfirmations<T>)
        ensures
            r.wf(),
            r@ == Map::<Seq<char>, T>::empty(),
    {
        PendingConfirmations { entries: Vec::new() }
    }

    /// Where an ID stands.
    fn place_of(&self, id: &str) -> (r: Option<usize>)
        ensures
            match r {
                Some(i) => i < self.entries@.len() && self.entries@[i as int].0@ == id@,
                None => forall|i: int|
                    0 <= i < self.entries@.len() ==> (#[trigger] self.entries@[i]).0@ != id@,
            },
    {
        let mut i: usize = 0;
        while i < self.entries.len()
            invariant
                i <= self.entries@.len(),
                forall|k: int| 0 <= k < i ==> (#[trigger] self.entries@[k]).0@ != id@,
            decreases self.entries@.len() - i,
        {
            if text::same(self.entries[i].0.as_str(), id) {
                return Some(i);
            }
            i += 1;
        }
        None
    }

    /// Takes out what waits under an ID, where something does. Nothing else changes.
    pub fn take(&mut self, id: &str) -> (r: Option<T>)
        requires
            old(self).wf(),
        ensures
            final(self).wf(),
            final(self)@ == old(self)@.remove(id@),
            match r {
                Some(v) => old(self)@.contains_key(id@) && old(self)@[id@] == v,
                None => !old(self)@.contains_key(id@),
            },
            forall|i: int|
                0 <= i < final(self).entries@.len() ==> (#[trigger] final(self).entries@[i]).0@
                    != id@,
    {
        let ghost before = self.entries@;
        match self.place_of(id) {
            Some(i) => {
                let entry = self.entries.remove(i);
                proof {
                    lemma_present(before, i as int);
                    assert forall|k: int| 0 <= k < self.entries@.len() implies (
                    #[trigger] self.entries@[k]).0@ != id@ by {
                        let x = if k < i {
                            k
                        } else {
                            k + 1
                        };
                        assert(self.entries@[k] == before[x]);
                        assert(before[i as int].0@ == id@);
                    }
                }
                Some(entry.1)
            },
            None => {
                proof {
                    lemma_absent(before, id@);
                    assert(waiting_in(before) =~= waiting_in(before).remove(id@));
                }
                None
            },
        }
    }

    /// Lets a request wait under an ID, in place of what waited under it.
    pub fn ask(&mut self, id: String, reply: T)
        requires
            old(self).wf(),
        ensures
            final(self).wf(),
            final(self)@ == old(self)@.insert(id@, reply),
    {
        let ghost before = self@;
        let ghost key = id@;
        let _ = self.take(id.as_str());
        let ghost rest = self.entries@;
        self.entries.push((id, reply));
        proof {
            assert(self.entries@.drop_last() =~= rest);
            assert(self@ =~= before.insert(key, reply));
        }
    }
}

// ── Answering ────────────────────────────────────────────────────────────────

/// Whether a request approves a tool call.
pub open spec fn approves(answer: Option<Seq<char>>) -> bool {
    answer == Some("true"@)
}

/// Whether a request approves a tool call.
pub fn is_approved(answer: Option<&str>) -> (r: bool)
    ensures
        r == approves(opt_str(answer)),
{
    match answer {
        Some(v) => text::same(v, "true"),
        None => false,
    }
}

/// What is shown where nothing waits under an ID.
pub open spec fn expired_text() -> Seq<char> {
    "<div class=\"flex justify-start\"><div class=\"tool-status\"><span data-i18n=\"chat.confirm.expired\">Confirmation expired or already handled.</span></div></div>"@
}

/// What is shown of a request for approval that was answered.
pub open spec fn answered_text(approved: bool) -> Seq<char> {
    if approved {
        "<div class=\"flex justify-start\"><div class=\"tool-status\" style=\"color:#6ee7b7;border-color:rgba(16,185,129,0.3);background:rgba(6,95,70,0.15)\"><svg class=\"w-3.5 h-3.5\" viewBox=\"0 0 24 24\" fill=\"none\" stroke=\"currentColor\" stroke-width=\"2\" stroke-linecap=\"round\" stroke-linejoin=\"round\"><polyline points=\"20 6 9 17 4 12\"/></svg><span data-i18n=\"chat.confirm.approved\">Approved</span></div></div>"@
    } else {
        "<div class=\"flex justify-start\"><div class=\"tool-status\" style=\"color:#fca5a5;border-color:rgba(220,38,38,0.3);background:rgba(127,29,29,0.15)\"><svg class=\"w-3.5 h-3.5\" viewBox=\"0 0 24 24\" fill=\"none\" stroke=\"currentColor\" stroke-width=\"2\" stroke-linecap=\"round\" stroke-linejoin=\"round\"><line x1=\"18\" y1=\"6\" x2=\"6\" y2=\"18\"/><line x1=\"6\" y1=\"6\" x2=\"18\" y2=\"18\"/></svg><span data-i18n=\"chat.confirm.denied\">Denied</span></div></div>"@
    }
}

/// What an answer is sent through and what it is, where something waits under an ID.
pub open spec fn answer_sent<T>(
    pending: Map<Seq<char>, T>,
    id: Seq<char>,
    answer: Option<Seq<char>>,
) -> Option<(T, bool)> {
    if pending.contains_key(id) {
        Some((pending[id], approves(answer)))
    } else {
        None
    }
}

/// What is shown in place of a request for approval.
pub open spec fn confirm_shown<T>(
    pending: Map<Seq<char>, T>,
    id: Seq<char>,
    answer: Option<Seq<char>>,
) -> Seq<char> {
    if pending.contains_key(id) {
        answered_text(approves(answer))
    } else {
        expired_text()
    }
}

/// Answers a request for approval, which then waits no more. Gives what the answer is sent
/// through with the answer, where the request waited, and what is shown in its place.
pub fn chat_confirm<T>(
    pending: &mut PendingConfirmations<T>,
    id: &str,
    answer: Option<&str>,
) -> (r: (Option<(T, bool)>, &'static str))
    requires
        old(pending).wf(),
    ensures
        final(pending).wf(),
        final(pending)@ == old(pending)@.remove(id@),
        r.0 == answer_sent(old(pending)@, id@, opt_str(answer)),
        r.1@ == confirm_shown(old(pending)@, id@, opt_str(answer)),
{
    let approved = is_approved(answer);
    match pending.take(id) {
        Some(reply) => (
            Some((reply, approved)),
            if approved {
                "<div class=\"flex justify-start\"><div class=\"tool-status\" style=\"color:#6ee7b7;border-color:rgba(16,185,129,0.3);background:rgba(6,95,70,0.15)\"><svg class=\"w-3.5 h-3.5\" viewBox=\"0 0 24 24\" fill=\"none\" stroke=\"currentColor\" stroke-width=\"2\" stroke-linecap=\"round\" stroke-linejoin=\"round\"><polyline points=\"20 6 9 17 4 12\"/></svg><span data-i18n=\"chat.confirm.approved\">Approved</span></div></div>"
            } else {
                "<div class=\"flex justify-start\"><div class=\"tool-status\" style=\"color:#fca5a5;border-color:rgba(220,38,38,0.3);background:rgba(127,29,29,0.15)\"><svg class=\"w-3.5 h-3.5\" viewBox=\"0 0 24 24\" fill=\"none\" stroke=\"currentColor\" stroke-width=\"2\" stroke-linecap=\"round\" stroke-linejoin=\"round\"><line x1=\"18\" y1=\"6\" x2=\"6\" y2=\"18\"/><line x1=\"6\" y1=\"6\" x2=\"18\" y2=\"18\"/></svg><span data-i18n=\"chat.confirm.denied\">Denied</span></div></div>"
            },
        ),
        None => (
            None,
            "<div class=\"flex justify-start\"><div class=\"tool-status\"><span data-i18n=\"chat.confirm.expired\">Confirmation expired or already handled.</span></div></div>",
        ),
    }
}

/// A request for approval is answered once: the first answer is sent, and is yes exactly
/// where it says so. A second one is sent nowhere, is told that the request is over, and
/// changes nothing. All other requests wait on.
pub proof fn law_confirmation_is_answered_once<T>(
    pending: Map<Seq<char>, T>,
    id: Seq<char>,
    first: Option<Seq<char>>,
    second: Option<Seq<char>>,
)
    requires
        pending.contains_key(id),
    ensures
        ({
            let after = pending.remove(id);
            &&& answer_sent(pending, id, first) == Some((pending[id], first == Some("true"@)))
            &&& answer_sent(after, id, second) is None
            &&& confirm_shown(after, id, second) == expired_text()
            &&& after.remove(id) == after
            &&& forall|other: Seq<char>|
                other != id ==> {
                    &&& (#[trigger] after.contains_key(other)) == pending.contains_key(other)
                    &&& pending.contains_key(other) ==> after[other] == pending[other]
                }
        }),
{
    assert(pending.remove(id).remove(id) =~= pending.remove(id));
}

// ── Laws ─────────────────────────────────────────────────────────────────────

/// An answer reaches exactly the one that waits under its ID, once, as approved only where the answer
/// is the word for it; everyone else goes on waiting, and an answer that nobody waits for reaches
/// nobody.
pub proof fn law_answer_reaches_who_waits<T>(
    pending: &mut PendingConfirmations<T>,
    id: &str,
    answer: Option<&str>,
    other: Seq<char>,
    r: (Option<(T, bool)>, &'static str),
)
    requires
        pending.wf(),
        call_ensures(chat_confirm::<T>, (pending, id, answer), r),
    ensures
        r.0 is Some <==> old(pending)@.contains_key(id@),
        r.0 matches Some((reply, approved)) ==> reply == old(pending)@[id@] && (approved <==> answer
            is Some && answer->0@ == "true"@),
        !final(pending)@.contains_key(id@),
        other != id@ ==> (final(pending)@.contains_key(other) <==> old(pending)@.contains_key(
            other,
        )) && (old(pending)@.contains_key(other) ==> final(pending)@[other] == old(pending)@[other]),
{
}

/// Only a plain yes approves: no other answer does, nor none.
pub proof fn law_only_yes_approves(answer: Option<&str>, r: bool)
    requires
        call_ensures(is_approved, (answer,), r),
    ensures
        r <==> answer is Some && answer->0@ == "true"@,
{
}

} // verus!
