//! Writing groups of assignments to the environment file while others do the same: each
//! writer takes the lock, reads the file, publishes it anew in one go and gives the lock
//! back.
use vstd::prelude::*;
use vstd::string::*;
use crate::text::{lines_of, opt_text, trimmed};
use crate::updater::env_document;
use crate::updater::env_document::{
    assigned_all, disturbs, lookup, one_line, readable_key, rendered, EnvDocument,
};

verus! {

/// Where a writer stands.
#[derive(Debug, Clone, Copy, PartialEq, Eq, Structural)]
pub enum WriteStage {
    /// Wait for the lock.
    Lock,
    /// Read the file.
    Read,
    /// Put another file in its place.
    Publish,
    /// Give the lock back.
    Unlock,
    /// Over.
    Over,
}

/// How something that a writer asked for went.
#[derive(Debug)]
pub enum WriteReply {
    Done,
    Content(String),
    Failed(String),
}

/// How something that a writer asked for went, as a value.
pub enum WriteAnswer {
    Done,
    Content(Seq<char>),
    Failed(Seq<char>),
}

impl WriteReply {
    pub open spec fn view(&self) -> WriteAnswer {
        match *self {
            WriteReply::Done => WriteAnswer::Done,
            WriteReply::Content(c) => WriteAnswer::Content(c@),
            WriteReply::Failed(e) => WriteAnswer::Failed(e@),
        }
    }
}

/// What a writer asks for.
#[derive(Debug)]
pub enum WriteAction {
    Lock,
    Read,
    Publish(String),
    Unlock,
    Finish(Result<(), String>),
}

/// A group of assignments.
pub type Group = Seq<(Seq<char>, Seq<char>)>;

/// The file after a group was written to it; it stays as it is where nothing changes.
pub open spec fn written(content: Seq<char>, values: Group) -> Seq<char> {
    if disturbs(lines_of(content), values) {
        rendered(assigned_all(lines_of(content), values))
    } else {
        content
    }
}

/// A writer, as a value.
pub struct Writing {
    pub values: Group,
    pub content: Seq<char>,
    pub error: Option<Seq<char>>,
    pub stage: WriteStage,
}

impl Writing {
    /// Whether an answer is one to what the writer asked for.
    pub open spec fn expects(self, answer: WriteAnswer) -> bool {
        match self.stage {
            WriteStage::Read => answer is Content || answer is Failed,
            WriteStage::Publish => answer is Done || answer is Failed,
            _ => answer is Done,
        }
    }

    /// The writer after it was told how what it asked for went.
    pub open spec fn next(self, answer: WriteAnswer) -> Writing {
        match (self.stage, answer) {
            (WriteStage::Lock, _) => Writing { stage: WriteStage::Read, ..self },
            (WriteStage::Read, WriteAnswer::Content(c)) => if disturbs(lines_of(c), self.values) {
                Writing { content: written(c, self.values), stage: WriteStage::Publish, ..self }
            } else {
                Writing { stage: WriteStage::Unlock, ..self }
            },
            (WriteStage::Read, WriteAnswer::Failed(e)) => Writing {
                error: Some(e),
                stage: WriteStage::Unlock,
                ..self
            },
            (WriteStage::Publish, WriteAnswer::Failed(e)) => Writing {
                error: Some(e),
                stage: WriteStage::Unlock,
                ..self
            },
            (WriteStage::Publish, _) => Writing { stage: WriteStage::Unlock, ..self },
            (WriteStage::Unlock, _) => Writing { stage: WriteStage::Over, ..self },
            (_, _) => self,
        }
    }
}

/// The texts of a group of assignments.
pub open spec fn group_of(values: Seq<(String, String)>) -> Group {
    values.map_values(|p: (String, String)| (p.0@, p.1@))
}

/// A writer.
#[derive(Debug)]
pub struct EnvWrite {
    pub values: Vec<(String, String)>,
    pub content: String,
    pub error: Option<String>,
    pub stage: WriteStage,
}

impl EnvWrite {
    pub open spec fn view(&self) -> Writing {
        Writing {
            values: group_of(self.values@),
            content: self.content@,
            error: opt_text(self.error),
            stage: self.stage,
        }
    }

    /// A writer of a group of assignments, before it did anything.
    pub fn start(values: Vec<(String, String)>) -> (r: EnvWrite)
        ensures
            r@.values == group_of(values@),
            r@.error is None,
            r@.stage == WriteStage::Lock,
    {
        EnvWrite { values, content: String::new(), error: None, stage: WriteStage::Lock }
    }

    /// What the writer asks for.
    pub fn action(&self) -> (r: WriteAction)
        ensures
            match self@.stage {
                WriteStage::Lock => r is Lock,
                WriteStage::Read => r is Read,
                WriteStage::Publish => r matches WriteAction::Publish(c) && c@ == self@.content,
                WriteStage::Unlock => r is Unlock,
                WriteStage::Over => match self@.error {
                    Some(e) => r matches WriteAction::Finish(Err(said)) && said@ == e,
                    None => r matches WriteAction::Finish(Ok(_)),
                },
            },
    {
        match self.stage {
            WriteStage::Lock => WriteAction::Lock,
            WriteStage::Read => WriteAction::Read,
            WriteStage::Publish => WriteAction::Publish(self.content.clone()),
            WriteStage::Unlock => WriteAction::Unlock,
            WriteStage::Over => match &self.error {
                Some(e) => WriteAction::Finish(Err(e.clone())),
                None => WriteAction::Finish(Ok(())),
            },
        }
    }

    /// The file with the group in it, where that changes anything.
    fn compose(&self, content: &str) -> (r: Option<String>)
        ensures
            match r {
                Some(c) => disturbs(lines_of(content@), self@.values) && c@ == written(
                    content@,
                    self@.values,
                ),
                None => !disturbs(lines_of(content@), self@.values),
            },
    {
        let mut document = EnvDocument::parse(content);
        let ghost all = group_of(self.values@);
        let ghost start = document@;
        let mut i: usize = 0;
        while i < self.values.len()
            invariant
                i <= self.values@.len(),
                all == group_of(self.values@),
                document@ == assigned_all(start, all.take(i as int)),
                document.dirty == disturbs(start, all.take(i as int)),
            decreases self.values@.len() - i,
        {
            proof {
                assert(all.take(i + 1).drop_last() =~= all.take(i as int));
                assert(all.take(i + 1).last() == all[i as int]);
            }
            document.set(self.values[i].0.as_str(), self.values[i].1.as_str());
            i += 1;
        }
        proof {
            assert(all.take(i as int) =~= all);
        }
        if document.dirty {
            Some(document.render())
        } else {
            None
        }
    }

    /// Takes the writer on after it was told how what it asked for went.
    pub fn step(&mut self, reply: WriteReply)
        requires
            old(self)@.expects(reply@),
        ensures
            final(self)@ == old(self)@.next(reply@),
    {
        match (self.stage, reply) {
            (WriteStage::Lock, _) => {
                self.stage = WriteStage::Read;
            },
            (WriteStage::Read, WriteReply::Content(c)) => {
                match self.compose(c.as_str()) {
                    Some(content) => {
                        self.content = content;
                        self.stage = WriteStage::Publish;
                    },
                    None => {
                        self.stage = WriteStage::Unlock;
                    },
                }
            },
            (WriteStage::Read, WriteReply::Failed(e)) => {
                self.error = Some(e);
                self.stage = WriteStage::Unlock;
            },
            (WriteStage::Publish, WriteReply::Failed(e)) => {
                self.error = Some(e);
                self.stage = WriteStage::Unlock;
            },
            (WriteStage::Publish, _) => {
                self.stage = WriteStage::Unlock;
            },
            (WriteStage::Unlock, _) => {
                self.stage = WriteStage::Over;
            },
            (_, _) => {},
        }
    }
}

// ── Many writers ─────────────────────────────────────────────────────────────

/// The file, the lock and the writers, each by its number. `published` are the groups that
/// were published, one after another.
pub struct World {
    pub file: Seq<char>,
    pub holder: Option<int>,
    pub writers: Map<int, Writing>,
    pub published: Seq<Group>,
}

impl World {
    /// The world with a writer told how what it asked for went.
    pub open spec fn told(self, i: int, answer: WriteAnswer) -> World {
        World { writers: self.writers.insert(i, self.writers[i].next(answer)), ..self }
    }

    /// Whether `next` is the world after the writer `i` got what it asked for, or was told
    /// that it cannot be had. The lock has one holder, a read gives what stands in the file,
    /// and a file is put in the place of another in one go, or not at all.
    pub open spec fn moves(self, i: int, answer: WriteAnswer, next: World) -> bool {
        &&& self.writers.contains_key(i)
        &&& self.writers[i].expects(answer)
        &&& match self.writers[i].stage {
            WriteStage::Lock => self.holder is None && next == (World {
                holder: Some(i),
                ..self.told(i, answer)
            }),
            WriteStage::Read => (answer matches WriteAnswer::Content(c) ==> c == self.file) && next
                == self.told(i, answer),
            WriteStage::Publish => if answer is Done {
                next == (World {
                    file: self.writers[i].content,
                    published: self.published.push(self.writers[i].values),
                    ..self.told(i, answer)
                })
            } else {
                next == self.told(i, answer)
            },
            WriteStage::Unlock => next == (World { holder: None, ..self.told(i, answer) }),
            WriteStage::Over => false,
        }
    }

    /// Whether nothing was done yet.
    pub open spec fn fresh(self) -> bool {
        &&& self.holder is None
        &&& self.published.len() == 0
        &&& forall|i: int|
            self.writers.contains_key(i) ==> (#[trigger] self.writers[i]).stage == WriteStage::Lock
    }

    /// Whether one writer at most is at work, and what it is about to publish is the file
    /// with its group in it.
    pub open spec fn orderly(self) -> bool {
        forall|i: int|
            self.writers.contains_key(i) ==> {
                let w = #[trigger] self.writers[i];
                &&& w.stage == WriteStage::Read || w.stage == WriteStage::Publish || w.stage
                    == WriteStage::Unlock ==> self.holder == Some(i)
                &&& w.stage == WriteStage::Publish ==> w.content == written(self.file, w.values)
            }
    }
}

/// The file after groups were written to it one after another.
pub open spec fn written_in_turn(content: Seq<char>, groups: Seq<Group>) -> Seq<char>
    decreases groups.len(),
{
    if groups.len() == 0 {
        content
    } else {
        written(written_in_turn(content, groups.drop_last()), groups.last())
    }
}

/// Whether the world behind the one at `k` comes of it by a move of some writer.
pub open spec fn moves_on(run: Seq<World>, k: int) -> bool {
    exists|i: int, answer: WriteAnswer| #[trigger] run[k].moves(i, answer, run[k + 1])
}

/// Whether `run` is a history of the world: it starts fresh, and each world comes of the
/// one before it by a move of some writer.
pub open spec fn is_history(run: Seq<World>) -> bool {
    &&& run.len() > 0
    &&& run[0].fresh()
    &&& forall|k: int| 0 <= k < run.len() - 1 ==> #[trigger] moves_on(run, k)
}

/// A move keeps the world orderly, publishes at most the group of its writer, and leaves
/// the group of every writer.
proof fn lemma_move(w: World, i: int, answer: WriteAnswer, next: World, start: Seq<char>)
    requires
        w.orderly(),
        w.file == written_in_turn(start, w.published),
        w.moves(i, answer, next),
    ensures
        next.orderly(),
        next.file == written_in_turn(start, next.published),
        next.writers.dom() == w.writers.dom(),
        forall|j: int|
            w.writers.contains_key(j) ==> (#[trigger] next.writers[j]).values == w.writers[j].values,
        next.published == w.published || next.published == w.published.push(w.writers[i].values),
{
    let me = w.writers[i];
    assert(next.writers.dom() =~= w.writers.dom());
    if me.stage == WriteStage::Publish && answer is Done {
        assert(next.published.drop_last() =~= w.published);
        assert(next.published.last() == me.values);
    }
    assert forall|j: int| next.writers.contains_key(j) implies {
        let x = #[trigger] next.writers[j];
        &&& x.stage == WriteStage::Read || x.stage == WriteStage::Publish || x.stage
            == WriteStage::Unlock ==> next.holder == Some(j)
        &&& x.stage == WriteStage::Publish ==> x.content == written(next.file, x.values)
    } by {
        assert(w.writers.contains_key(j));
        let before = w.writers[j];
        if j != i {
            assert(next.writers[j] == before);
        }
    }
}

/// Writers take turns: however many there are and however they come in between each other,
/// at every moment the file holds the groups that were published so far, each written whole
/// to what the one before it left. No group is lost.
pub proof fn law_writers_take_turns(run: Seq<World>, k: int)
    requires
        is_history(run),
        0 <= k < run.len(),
    ensures
        run[k].orderly(),
        run[k].file == written_in_turn(run[0].file, run[k].published),
        run[k].writers.dom() == run[0].writers.dom(),
        forall|j: int|
            run[0].writers.contains_key(j) ==> (#[trigger] run[k].writers[j]).values
                == run[0].writers[j].values,
        forall|g: int|
            0 <= g < run[k].published.len() ==> exists|j: int|
                run[0].writers.contains_key(j) && run[0].writers[j].values
                    == #[trigger] run[k].published[g],
    decreases k,
{
    if k > 0 {
        law_writers_take_turns(run, k - 1);
        let w = run[k - 1];
        let next = run[k];
        assert(moves_on(run, k - 1));
        let (i, answer) = choose|i: int, answer: WriteAnswer| #[trigger]
            w.moves(i, answer, run[k - 1 + 1]);
        lemma_move(w, i, answer, next, run[0].file);
        assert forall|j: int| run[0].writers.contains_key(j) implies (
        #[trigger] next.writers[j]).values == run[0].writers[j].values by {
            assert(w.writers.contains_key(j));
            assert(w.writers[j].values == run[0].writers[j].values);
        }
        assert forall|g: int| 0 <= g < next.published.len() implies exists|j: int|
            run[0].writers.contains_key(j) && run[0].writers[j].values
                == #[trigger] next.published[g] by {
            if g < w.published.len() {
                assert(next.published[g] == w.published[g]);
            } else {
                assert(run[0].writers.contains_key(i));
                assert(w.writers[i].values == run[0].writers[i].values);
                assert(next.published[g] == run[0].writers[i].values);
            }
        }
    }
}

/// A group that can be read back: its keys differ, and keys and values are one line each.
pub open spec fn readable_group(values: Group) -> bool {
    &&& forall|j: int|
        0 <= j < values.len() ==> readable_key((#[trigger] values[j]).0)
            && !values[j].0.contains('=') && one_line(values[j].0) && one_line(values[j].1)
    &&& forall|j: int, k: int|
        0 <= j < k < values.len() ==> (#[trigger] values[j]).0 != (#[trigger] values[k]).0
}

/// Whether a group sets two keys to the same value and leaves a third one.
pub open spec fn sets_both(
    values: Group,
    first: Seq<char>,
    second: Seq<char>,
    other: Seq<char>,
) -> bool {
    &&& readable_group(values)
    &&& forall|j: int| 0 <= j < values.len() ==> (#[trigger] values[j]).0 != other
    &&& exists|a: int, b: int|
        0 <= a < values.len() && 0 <= b < values.len() && (#[trigger] values[a]).0 == first && (
        #[trigger] values[b]).0 == second && trimmed(values[a].1) == trimmed(values[b].1)
}

/// Groups that each set two keys to the same value keep the two alike, and leave a key that
/// none of them names.
proof fn lemma_alike_in_turn(
    content: Seq<char>,
    groups: Seq<Group>,
    first: Seq<char>,
    second: Seq<char>,
    other: Seq<char>,
)
    requires
        !other.contains('='),
        lookup(lines_of(content), first) == lookup(lines_of(content), second),
        forall|g: int| 0 <= g < groups.len() ==> sets_both(#[trigger] groups[g], first, second, other),
    ensures
        ({
            let lines = lines_of(written_in_turn(content, groups));
            &&& lookup(lines, first) == lookup(lines, second)
            &&& lookup(lines, other) == lookup(lines_of(content), other)
        }),
    decreases groups.len(),
{
    if groups.len() > 0 {
        let ahead = groups.drop_last();
        let values = groups.last();
        assert(values == groups[groups.len() - 1]);
        assert forall|g: int| 0 <= g < ahead.len() implies sets_both(
            #[trigger] ahead[g],
            first,
            second,
            other,
        ) by {
            assert(ahead[g] == groups[g]);
        }
        lemma_alike_in_turn(content, ahead, first, second, other);
        let before = written_in_turn(content, ahead);
        if disturbs(lines_of(before), values) {
            let (a, b) = choose|a: int, b: int|
                0 <= a < values.len() && 0 <= b < values.len() && (#[trigger] values[a]).0 == first
                    && (#[trigger] values[b]).0 == second && trimmed(values[a].1) == trimmed(
                    values[b].1,
                );
            env_document::law_group_is_published_whole(before, values, a, other);
            env_document::law_group_is_published_whole(before, values, b, other);
        }
    }
}

/// Nobody ever reads half a group: where every writer sets two keys to the same value and
/// leaves a third key, and the two were alike at first, then at every moment whoever reads
/// the file reads the same value for both, and the third key as it was.
pub proof fn law_no_half_group_is_read(
    run: Seq<World>,
    k: int,
    first: Seq<char>,
    second: Seq<char>,
    other: Seq<char>,
)
    requires
        is_history(run),
        0 <= k < run.len(),
        !other.contains('='),
        lookup(lines_of(run[0].file), first) == lookup(lines_of(run[0].file), second),
        forall|i: int|
            run[0].writers.contains_key(i) ==> sets_both(
                (#[trigger] run[0].writers[i]).values,
                first,
                second,
                other,
            ),
    ensures
        ({
            let lines = lines_of(run[k].file);
            &&& lookup(lines, first) == lookup(lines, second)
            &&& lookup(lines, other) == lookup(lines_of(run[0].file), other)
        }),
{
    law_writers_take_turns(run, k);
    let groups = run[k].published;
    assert forall|g: int| 0 <= g < groups.len() implies sets_both(
        #[trigger] groups[g],
        first,
        second,
        other,
    ) by {
        let j = choose|j: int|
            run[0].writers.contains_key(j) && run[0].writers[j].values == groups[g];
        assert(sets_both(run[0].writers[j].values, first, second, other));
    }
    lemma_alike_in_turn(run[0].file, groups, first, second, other);
}

/// A writer that can read and publish the file ends well, with its group published or in
/// the file already.
pub proof fn law_writer_ends_well(w: Writing, content: Seq<char>)
    requires
        w.stage == WriteStage::Lock,
        w.error is None,
    ensures
        ({
            let read = w.next(WriteAnswer::Done).next(WriteAnswer::Content(content));
            let end = if read.stage == WriteStage::Publish {
                read.next(WriteAnswer::Done)
            } else {
                read
            };
            &&& read.stage == WriteStage::Publish ==> read.content == written(content, w.values)
            &&& read.stage != WriteStage::Publish ==> written(content, w.values) == content
            &&& end.next(WriteAnswer::Done).stage == WriteStage::Over
            &&& end.next(WriteAnswer::Done).error is None
        }),
{
}

// ── Laws ─────────────────────────────────────────────────────────────────────

/// A writer that could not read or publish gives the lock back, publishes nothing more, and says why.
pub proof fn law_failed_write_is_told(w: Writing, e: Seq<char>)
    requires
        w.stage == WriteStage::Read || w.stage == WriteStage::Publish,
    ensures
        w.next(WriteAnswer::Failed(e)).stage == WriteStage::Unlock,
        w.next(WriteAnswer::Failed(e)).error == Some(e),
        w.next(WriteAnswer::Failed(e)).next(WriteAnswer::Done).stage == WriteStage::Over,
        w.next(WriteAnswer::Failed(e)).next(WriteAnswer::Done).error == Some(e),
{
}

/// Every writer waits for the lock first, and then reads; whatever comes of that, it gives the lock
/// back before it is over.
pub proof fn law_lock_is_given_back(w: Writing, answer: WriteAnswer)
    requires
        w.expects(answer),
    ensures
        w.next(answer).values == w.values,
        w.stage == WriteStage::Lock ==> w.next(answer).stage == WriteStage::Read,
        w.next(answer).stage == WriteStage::Over ==> w.stage == WriteStage::Unlock || w.stage
            == WriteStage::Over,
        w.next(answer).stage == WriteStage::Publish ==> w.stage == WriteStage::Read
            && answer is Content,
{
}

/// What a writer asks for is what its stage needs; what it publishes is what it made of what it read,
/// and it ends well exactly where nothing went wrong.
pub proof fn law_writer_asks_for_what_it_needs(w: EnvWrite, r: WriteAction)
    requires
        call_ensures(EnvWrite::action, (&w,), r),
    ensures
        r is Lock <==> w.stage == WriteStage::Lock,
        r is Read <==> w.stage == WriteStage::Read,
        r is Publish <==> w.stage == WriteStage::Publish,
        r is Unlock <==> w.stage == WriteStage::Unlock,
        r matches WriteAction::Publish(c) ==> c@ == w.content@,
        r matches WriteAction::Finish(outcome) ==> (outcome is Ok <==> w.error is None),
        r matches WriteAction::Finish(Err(said)) ==> w.error is Some && said@ == w.error->0@,
{
}

} // verus!
