//! The three actions of the settings page on updates, step by step: checking for one,
//! applying it, and undoing it.
use vstd::prelude::*;
use vstd::string::*;
use crate::text::{blank, trimmed};
use crate::updater::types::{
    AckResponse, ApplyRequest, CheckRequest, RollbackRequest, StatusResponse,
};
use crate::web::system_updates;
use crate::web::system_updates::{
    or_nothing, release_of, FinishedJob, ReleaseMetadata, UpdateState, Updates, STATUS_CHECKING,
    STATUS_UPDATING,
};

verus! {

/// What is done about updates.
#[derive(Debug, Clone, Copy, PartialEq, Eq, Structural)]
pub enum UpdateKind {
    Check,
    Apply,
    Rollback,
}

/// Where an action stands.
#[derive(Debug, Clone, Copy, PartialEq, Eq, Structural)]
pub enum RunStage {
    /// Fetch what is known of the release.
    Fetch,
    /// Claim the slot of the running job.
    Claim,
    /// Open an entry of the journal.
    Journal,
    /// Give the slot back, as the entry could not be opened.
    GiveBack,
    /// Ask the update service.
    Ask,
    /// Note what it said.
    Note,
    /// Over, with an error.
    Failed,
}

/// How something that an action asked for went.
#[derive(Debug)]
pub enum RunReply {
    Done,
    Metadata(ReleaseMetadata),
    Claimed(bool),
    Ack(Result<AckResponse, String>),
    Failed(String),
}

/// What an action asks to be done next.
#[derive(Debug)]
pub enum RunAction {
    FetchMetadata,
    /// Claim the slot with a status and a progress, and note the attempt or not.
    Claim { status: &'static str, progress_key: &'static str, attempt: bool },
    /// Open an entry of the journal for what is asked for.
    Journal { action: &'static str, tag: String, digest: String },
    /// Note a failure, which gives the slot back.
    Fail { progress_key: &'static str, message: &'static str },
    AskCheck(CheckRequest),
    AskApply(ApplyRequest),
    AskRollback(RollbackRequest),
    /// Load the state, and hand it to `finish`.
    Note,
    /// Nothing: the action is over with an error.
    Over(String),
}

/// An action on updates.
#[derive(Debug)]
pub struct UpdateRun {
    pub kind: UpdateKind,
    pub job_id: String,
    pub channel: String,
    pub metadata: ReleaseMetadata,
    pub state: UpdateState,
    pub ack: Result<AckResponse, String>,
    pub error: String,
    pub stage: RunStage,
}

/// What is wrong with the metadata of a release for an action.
pub open spec fn metadata_fault(kind: UpdateKind, m: ReleaseMetadata) -> Option<Seq<char>> {
    if blank(m.tag@) {
        Some("Release metadata did not include a tag"@)
    } else if kind == UpdateKind::Apply && blank(m.digest@) {
        Some("Release metadata did not include a digest"@)
    } else {
        None
    }
}

/// Whether a reply is one to what an action asked for.
pub open spec fn fits(stage: RunStage, reply: RunReply) -> bool {
    reply is Failed || match stage {
        RunStage::Fetch => reply is Metadata,
        RunStage::Claim => reply is Claimed,
        RunStage::Ask => reply is Ack,
        _ => reply is Done,
    }
}

/// The stage that follows when an action was told how what it asked for went.
pub open spec fn stage_after(kind: UpdateKind, stage: RunStage, reply: RunReply) -> RunStage {
    match (stage, reply) {
        (RunStage::Note, _) => stage,
        (RunStage::Failed, _) => stage,
        (RunStage::GiveBack, _) => RunStage::Failed,
        (RunStage::Journal, RunReply::Failed(_)) => RunStage::GiveBack,
        (_, RunReply::Failed(_)) => RunStage::Failed,
        (RunStage::Fetch, RunReply::Metadata(m)) => if metadata_fault(kind, m) is Some {
            RunStage::Failed
        } else if kind == UpdateKind::Check {
            RunStage::Ask
        } else {
            RunStage::Claim
        },
        (RunStage::Claim, RunReply::Claimed(got)) => if got {
            RunStage::Journal
        } else {
            RunStage::Failed
        },
        (RunStage::Journal, RunReply::Done) => if kind == UpdateKind::Check {
            RunStage::Fetch
        } else {
            RunStage::Ask
        },
        (RunStage::Ask, RunReply::Ack(_)) => RunStage::Note,
        _ => stage,
    }
}

/// The error that an action keeps in mind when it was told how something went.
pub open spec fn error_after(
    kind: UpdateKind,
    stage: RunStage,
    reply: RunReply,
    error: Seq<char>,
) -> Seq<char> {
    match (stage, reply) {
        (RunStage::GiveBack, _) => error,
        (_, RunReply::Failed(e)) => e@,
        (RunStage::Fetch, RunReply::Metadata(m)) => match metadata_fault(kind, m) {
            Some(e) => e,
            None => error,
        },
        (RunStage::Claim, RunReply::Claimed(false)) => "Another update action is already running"@,
        _ => error,
    }
}

impl UpdateRun {
    /// Whether the action waits for nothing any more: it can be finished, or has
    /// failed.
    pub open spec fn over(self) -> bool {
        self.stage == RunStage::Note || self.stage == RunStage::Failed
    }

    /// Starts an action. `state` is how the updates stand; what is undone is the
    /// version before, which has to be known.
    pub fn start(kind: UpdateKind, job_id: &str, channel: &str, state: UpdateState) -> (r: UpdateRun)
        ensures
            r.kind == kind,
            r.job_id@ == job_id@,
            r.channel@ == channel@,
            r.state == state,
            match kind {
                UpdateKind::Check => r.stage == RunStage::Claim,
                UpdateKind::Apply => r.stage == RunStage::Fetch,
                UpdateKind::Rollback => if blank(state@.previous_version) {
                    r.stage == RunStage::Failed && r.error@
                        == "No previous version is available for rollback"@
                } else {
                    r.stage == RunStage::Claim
                },
            },
    {
        let (stage, error) = match kind {
            UpdateKind::Check => (RunStage::Claim, String::new()),
            UpdateKind::Apply => (RunStage::Fetch, String::new()),
            UpdateKind::Rollback => match system_updates::vet_rollback(&state) {
                Ok(_) => (RunStage::Claim, String::new()),
                Err(e) => (RunStage::Failed, e),
            },
        };
        UpdateRun {
            kind,
            job_id: job_id.to_string(),
            channel: channel.to_string(),
            metadata: ReleaseMetadata {
                channel: String::new(),
                version: String::new(),
                image: String::new(),
                tag: String::new(),
                digest: String::new(),
                published_at: String::new(),
                changelog_url: String::new(),
                changelog_body: String::new(),
                build_number: String::new(),
                previous_digest: String::new(),
                min_supported_db_schema: 0,
            },
            state,
            ack: Err(String::new()),
            error,
            stage,
        }
    }

    /// What the action asks for.
    pub fn action(&self) -> (r: RunAction)
        ensures
            self.asks(r),
    {
        match self.stage {
            RunStage::Fetch => RunAction::FetchMetadata,
            RunStage::Claim => match self.kind {
                UpdateKind::Check => RunAction::Claim {
                    status: STATUS_CHECKING,
                    progress_key: "updates.progress.checking",
                    attempt: false,
                },
                UpdateKind::Apply => RunAction::Claim {
                    status: STATUS_UPDATING,
                    progress_key: "updates.progress.preparing",
                    attempt: true,
                },
                UpdateKind::Rollback => RunAction::Claim {
                    status: STATUS_UPDATING,
                    progress_key: "updates.progress.rollback_start",
                    attempt: true,
                },
            },
            RunStage::Journal => match self.kind {
                UpdateKind::Check => RunAction::Journal {
                    action: "check",
                    tag: "".to_string(),
                    digest: "".to_string(),
                },
                UpdateKind::Apply => RunAction::Journal {
                    action: "apply",
                    tag: self.metadata.tag.clone(),
                    digest: self.metadata.digest.clone(),
                },
                UpdateKind::Rollback => RunAction::Journal {
                    action: "rollback",
                    tag: self.state.previous_version.clone(),
                    digest: self.state.previous_digest.clone(),
                },
            },
            RunStage::GiveBack => match self.kind {
                UpdateKind::Check => RunAction::Fail {
                    progress_key: "updates.progress.check_failed",
                    message: "Could not start update check",
                },
                UpdateKind::Apply => RunAction::Fail {
                    progress_key: "updates.progress.apply_failed",
                    message: "Could not start update job",
                },
                UpdateKind::Rollback => RunAction::Fail {
                    progress_key: "updates.progress.apply_failed",
                    message: "Could not start rollback job",
                },
            },
            RunStage::Ask => {
                let id = self.job_id.as_str();
                let channel = self.channel.as_str();
                match self.kind {
                    UpdateKind::Check => RunAction::AskCheck(
                        system_updates::check_request(id, channel, &self.metadata),
                    ),
                    UpdateKind::Apply => RunAction::AskApply(
                        system_updates::apply_request(id, channel, &self.metadata),
                    ),
                    UpdateKind::Rollback => RunAction::AskRollback(
                        system_updates::rollback_request(id, channel, &self.state),
                    ),
                }
            },
            RunStage::Note => RunAction::Note,
            RunStage::Failed => RunAction::Over(self.error.clone()),
        }
    }

    /// Whether `r` is what the action asks for at its stage.
    pub open spec fn asks(&self, r: RunAction) -> bool {
        match self.stage {
            RunStage::Fetch => r is FetchMetadata,
            RunStage::Claim => r matches RunAction::Claim { status, progress_key, attempt }
                && match self.kind {
                UpdateKind::Check => status@ == STATUS_CHECKING@ && progress_key@
                    == "updates.progress.checking"@ && !attempt,
                UpdateKind::Apply => status@ == STATUS_UPDATING@ && progress_key@
                    == "updates.progress.preparing"@ && attempt,
                UpdateKind::Rollback => status@ == STATUS_UPDATING@ && progress_key@
                    == "updates.progress.rollback_start"@ && attempt,
            },
            RunStage::Journal => r matches RunAction::Journal { action, tag, digest }
                && match self.kind {
                UpdateKind::Check => action@ == "check"@ && tag@ == ""@ && digest@ == ""@,
                UpdateKind::Apply => action@ == "apply"@ && tag@ == self.metadata.tag@ && digest@
                    == self.metadata.digest@,
                UpdateKind::Rollback => action@ == "rollback"@ && tag@
                    == self.state.previous_version@ && digest@ == self.state.previous_digest@,
            },
            RunStage::GiveBack => r matches RunAction::Fail { progress_key, message }
                && match self.kind {
                UpdateKind::Check => progress_key@ == "updates.progress.check_failed"@ && message@
                    == "Could not start update check"@,
                UpdateKind::Apply => progress_key@ == "updates.progress.apply_failed"@ && message@
                    == "Could not start update job"@,
                UpdateKind::Rollback => progress_key@ == "updates.progress.apply_failed"@
                    && message@ == "Could not start rollback job"@,
            },
            RunStage::Ask => match self.kind {
                UpdateKind::Check => r matches RunAction::AskCheck(q) && q.request_id@
                    == self.job_id@ && q.channel@ == self.channel@ && q.target_tag@
                    == self.metadata.tag@ && q.target_digest@ == self.metadata.digest@,
                UpdateKind::Apply => r matches RunAction::AskApply(q) && q.request_id@
                    == self.job_id@ && q.channel@ == self.channel@ && q.target_tag@
                    == self.metadata.tag@ && q.target_digest@ == self.metadata.digest@
                    && q.target_version@ == release_of(self.metadata.version@, self.metadata.tag@)
                    && q.target_build@ == self.metadata.build_number@,
                UpdateKind::Rollback => r matches RunAction::AskRollback(q) && q.request_id@
                    == self.job_id@ && q.channel@ == self.channel@ && q.rollback_tag@
                    == self.state@.previous_version && q.rollback_digest@
                    == self.state@.previous_digest && q.rollback_version@
                    == self.state@.previous_release_version && q.rollback_build@
                    == self.state@.previous_build_number,
            },
            RunStage::Note => r is Note,
            RunStage::Failed => r matches RunAction::Over(e) && e@ == self.error@,
        }
    }

    /// Takes the action on after it was told how what it asked for went.
    pub fn step(&mut self, reply: RunReply)
        requires
            !old(self).over(),
            fits(old(self).stage, reply),
        ensures
            final(self).kind == old(self).kind,
            final(self).job_id == old(self).job_id,
            final(self).channel == old(self).channel,
            final(self).state == old(self).state,
            final(self).stage == stage_after(old(self).kind, old(self).stage, reply),
            final(self).error@ == error_after(
                old(self).kind,
                old(self).stage,
                reply,
                old(self).error@,
            ),
            final(self).metadata == match reply {
                RunReply::Metadata(m) => m,
                _ => old(self).metadata,
            },
            final(self).ack == match reply {
                RunReply::Ack(a) if old(self).stage == RunStage::Ask => a,
                _ => old(self).ack,
            },
    {
        match reply {
            RunReply::Failed(e) => {
                if self.stage == RunStage::GiveBack {
                    self.stage = RunStage::Failed;
                } else if self.stage == RunStage::Journal {
                    self.error = e;
                    self.stage = RunStage::GiveBack;
                } else {
                    self.error = e;
                    self.stage = RunStage::Failed;
                }
            },
            RunReply::Metadata(m) => {
                let vetted = match self.kind {
                    UpdateKind::Apply => system_updates::vet_apply(&m),
                    _ => system_updates::vet_check(&m),
                };
                self.metadata = m;
                match vetted {
                    Err(e) => {
                        self.error = e;
                        self.stage = RunStage::Failed;
                    },
                    Ok(_) => {
                        self.stage = match self.kind {
                            UpdateKind::Check => RunStage::Ask,
                            _ => RunStage::Claim,
                        };
                    },
                }
            },
            RunReply::Claimed(got) => {
                if got {
                    self.stage = RunStage::Journal;
                } else {
                    self.error = system_updates::already_running();
                    self.stage = RunStage::Failed;
                }
            },
            RunReply::Ack(ack) => {
                self.ack = ack;
                self.stage = RunStage::Note;
            },
            RunReply::Done => {
                self.stage = match (self.stage, self.kind) {
                    (RunStage::GiveBack, _) => RunStage::Failed,
                    (_, UpdateKind::Check) => RunStage::Fetch,
                    _ => RunStage::Ask,
                };
            },
        }
    }

    /// Notes in the state what the update service said: the entry of the journal that
    /// is to be closed, and how the action went; of a check, whether there is an
    /// update. `status` is what the update service says is installed.
    pub fn finish(
        self,
        s: &mut UpdateState,
        status: &Option<StatusResponse>,
        now: &str,
    ) -> (r: (FinishedJob, Result<bool, String>))
        ensures
            self.is_noted(old(s)@, *status, now@, final(s)@, r.0, r.1),
    {
        match self.kind {
            UpdateKind::Check => system_updates::finish_check(
                s,
                status,
                self.channel.as_str(),
                &self.metadata,
                self.ack,
                self.job_id.as_str(),
                now,
            ),
            UpdateKind::Apply => {
                let (job, done) = system_updates::finish_apply(
                    s,
                    self.channel.as_str(),
                    &self.metadata,
                    self.ack,
                    self.job_id.as_str(),
                    now,
                );
                match done {
                    Ok(_) => (job, Ok(true)),
                    Err(e) => (job, Err(e)),
                }
            },
            UpdateKind::Rollback => {
                let (job, done) = system_updates::finish_rollback(
                    s,
                    self.ack,
                    self.job_id.as_str(),
                    now,
                );
                match done {
                    Ok(_) => (job, Ok(true)),
                    Err(e) => (job, Err(e)),
                }
            },
        }
    }

    /// Whether what the update service said is noted in the state `after`, closes the
    /// entry `job`, and gives `outcome`.
    pub open spec fn is_noted(
        self,
        before: Updates,
        status: Option<StatusResponse>,
        now: Seq<char>,
        after: Updates,
        job: FinishedJob,
        outcome: Result<bool, String>,
    ) -> bool {
        let id = self.job_id@;
        match (self.kind, self.ack) {
            (UpdateKind::Check, Ok(a)) => {
                &&& after == before.checked(
                    status,
                    self.channel@,
                    self.metadata,
                    crate::text::opt_text(a.progress_key),
                    now,
                )
                &&& outcome == Ok::<bool, String>(
                    before.finds_update(status, self.channel@, self.metadata),
                )
                &&& job.says(
                    id,
                    if a.accepted {
                        "completed"@
                    } else {
                        "failed"@
                    },
                    after.progress_key,
                    or_nothing(crate::text::opt_text(a.message)),
                )
            },
            (UpdateKind::Check, Err(e)) => {
                &&& after == before.broken(
                    "updates.progress.check_failed"@,
                    "Could not check for updates via updater sidecar."@,
                )
                &&& outcome == Err::<bool, String>(e)
                &&& job.says(id, "failed"@, "updates.progress.check_failed"@, e@)
            },
            (UpdateKind::Apply, Ok(a)) => if a.accepted {
                &&& after == before.offered(self.metadata).kept_installed().started(
                    a,
                    id,
                    "updates.progress.restarting"@,
                    now,
                )
                &&& outcome == Ok::<bool, String>(true)
                &&& job.says(
                    id,
                    "started"@,
                    after.progress_key,
                    or_nothing(crate::text::opt_text(a.message)),
                )
            } else {
                &&& after == before.offered(self.metadata).turned_down(
                    "Updater sidecar rejected the update request."@,
                    now,
                )
                &&& outcome matches Err(e) && e@ == "Updater sidecar rejected update request"@
                &&& job.says(
                    id,
                    "failed"@,
                    after.progress_key,
                    "Updater sidecar rejected the update request."@,
                )
            },
            (UpdateKind::Apply, Err(e)) => {
                &&& after == before.broken(
                    "updates.progress.apply_failed"@,
                    "Could not reach updater sidecar for update."@,
                )
                &&& outcome == Err::<bool, String>(e)
                &&& job.says(id, "failed"@, "updates.progress.apply_failed"@, e@)
            },
            (UpdateKind::Rollback, Ok(a)) => if a.accepted {
                &&& after == before.kept_installed_image().started(
                    a,
                    id,
                    "updates.progress.rollback_restarting"@,
                    now,
                )
                &&& outcome == Ok::<bool, String>(true)
                &&& job.says(
                    id,
                    "started"@,
                    after.progress_key,
                    or_nothing(crate::text::opt_text(a.message)),
                )
            } else {
                &&& after == before.turned_down(
                    "Updater sidecar rejected the rollback request."@,
                    now,
                )
                &&& outcome matches Err(e) && e@ == "Updater sidecar rejected rollback request"@
                &&& job.says(
                    id,
                    "failed"@,
                    after.progress_key,
                    "Updater sidecar rejected the rollback request."@,
                )
            },
            (UpdateKind::Rollback, Err(e)) => {
                &&& after == before.broken(
                    "updates.progress.apply_failed"@,
                    "Could not reach updater sidecar for rollback."@,
                )
                &&& outcome == Err::<bool, String>(e)
                &&& job.says(id, "failed"@, "updates.progress.apply_failed"@, e@)
            },
        }
    }
}

// ── Laws ─────────────────────────────────────────────────────────────────────

/// The stage that an action of a kind starts at, where it does not fail at once.
pub open spec fn first_stage(kind: UpdateKind) -> RunStage {
    match kind {
        UpdateKind::Apply => RunStage::Fetch,
        _ => RunStage::Claim,
    }
}

/// The stage that an action has come to after some replies.
pub open spec fn stage_after_all(kind: UpdateKind, replies: Seq<RunReply>) -> RunStage
    decreases replies.len(),
{
    if replies.len() == 0 {
        first_stage(kind)
    } else {
        stage_after(kind, stage_after_all(kind, replies.drop_last()), replies.last())
    }
}

/// Whether an action got the slot.
pub open spec fn got_the_slot(replies: Seq<RunReply>) -> bool {
    exists|i: int| 0 <= i < replies.len() && #[trigger] replies[i] == RunReply::Claimed(true)
}

/// The stages that an action only comes to with the slot.
pub open spec fn needs_the_slot(kind: UpdateKind, stage: RunStage) -> bool {
    match stage {
        RunStage::Journal | RunStage::GiveBack | RunStage::Ask | RunStage::Note => true,
        RunStage::Fetch => kind == UpdateKind::Check,
        _ => false,
    }
}

/// No action asks the update service for anything without the slot of the running job,
/// which only one action has at a time.
pub proof fn law_asks_only_with_the_slot(kind: UpdateKind, replies: Seq<RunReply>)
    requires
        needs_the_slot(kind, stage_after_all(kind, replies)),
    ensures
        got_the_slot(replies),
    decreases replies.len(),
{
    if replies.len() > 0 {
        let ahead = replies.drop_last();
        let stage = stage_after_all(kind, ahead);
        if needs_the_slot(kind, stage) {
            law_asks_only_with_the_slot(kind, ahead);
            let i = choose|i: int|
                0 <= i < ahead.len() && #[trigger] ahead[i] == RunReply::Claimed(true);
            assert(replies[i] == RunReply::Claimed(true));
        } else {
            assert(replies[replies.len() - 1] == RunReply::Claimed(true));
        }
    }
}

/// How far a stage is from the end.
pub open spec fn way_to_go(kind: UpdateKind, stage: RunStage) -> int {
    match stage {
        RunStage::Claim => if kind == UpdateKind::Apply {
            3
        } else {
            4
        },
        RunStage::Journal => if kind == UpdateKind::Check {
            3
        } else {
            2
        },
        RunStage::Fetch => if kind == UpdateKind::Check {
            2
        } else {
            4
        },
        RunStage::Ask => 1,
        RunStage::GiveBack => 1,
        RunStage::Note => 0,
        RunStage::Failed => 0,
    }
}

/// Every action ends: each reply takes it nearer to its end.
pub proof fn law_update_action_ends(kind: UpdateKind, stage: RunStage, reply: RunReply)
    requires
        way_to_go(kind, stage) > 0,
        fits(stage, reply),
        kind == UpdateKind::Rollback ==> stage != RunStage::Fetch,
    ensures
        0 <= way_to_go(kind, stage_after(kind, stage, reply)) < way_to_go(kind, stage),
{
}

/// Whether an action that was told how what it asked for went is taken on from `before` to
/// `after`.
pub open spec fn follows(before: UpdateRun, reply: RunReply, after: UpdateRun) -> bool {
    &&& !before.over()
    &&& fits(before.stage, reply)
    &&& after.kind == before.kind
    &&& after.job_id == before.job_id
    &&& after.channel == before.channel
    &&& after.state == before.state
    &&& after.stage == stage_after(before.kind, before.stage, reply)
    &&& after.error@ == error_after(before.kind, before.stage, reply, before.error@)
    &&& after.metadata == match reply {
        RunReply::Metadata(m) => m,
        _ => before.metadata,
    }
    &&& after.ack == match reply {
        RunReply::Ack(a) if before.stage == RunStage::Ask => a,
        _ => before.ack,
    }
}

/// Taking an action on is a step from what it was to what it is.
pub proof fn law_step_is_followed(run: &mut UpdateRun, reply: RunReply)
    requires
        !run.over(),
        fits(run.stage, reply),
        call_ensures(UpdateRun::step, (run, reply), ()),
    ensures
        follows(*old(run), reply, *final(run)),
{
}

/// Whether `runs` is the course of an action, with the reply that led from each of its states to
/// the next.
pub open spec fn is_course(
    kind: UpdateKind,
    job_id: &str,
    channel: &str,
    state: UpdateState,
    runs: Seq<UpdateRun>,
    replies: Seq<RunReply>,
) -> bool {
    &&& runs.len() == replies.len() + 1
    &&& call_ensures(UpdateRun::start, (kind, job_id, channel, state), runs[0])
    &&& forall|i: int|
        0 <= i < replies.len() ==> follows(#[trigger] runs[i], replies[i], runs[i + 1])
}

/// Whether a release was offered in the course of an action before its state `k`, and was the last
/// one that was.
pub open spec fn last_offer(replies: Seq<RunReply>, k: int, j: int, m: ReleaseMetadata) -> bool {
    &&& 0 <= j < k
    &&& replies[j] == RunReply::Metadata(m)
    &&& forall|i: int| j < i < k ==> replies[i] !is Metadata
}

/// What is known of an action at each point of its course.
proof fn lemma_course(
    kind: UpdateKind,
    job_id: &str,
    channel: &str,
    state: UpdateState,
    runs: Seq<UpdateRun>,
    replies: Seq<RunReply>,
    k: int,
)
    requires
        is_course(kind, job_id, channel, state, runs, replies),
        0 <= k < runs.len(),
    ensures
        runs[k].kind == kind,
        runs[k].job_id@ == job_id@,
        runs[k].channel@ == channel@,
        runs[k].state == state,
        forall|j: int, m: ReleaseMetadata| #[trigger]
            last_offer(replies, k, j, m) ==> runs[k].metadata == m,
    decreases k,
{
    if k > 0 {
        lemma_course(kind, job_id, channel, state, runs, replies, k - 1);
        assert(follows(runs[k - 1], replies[k - 1], runs[k - 1 + 1]));
        assert forall|j: int, m: ReleaseMetadata| #[trigger]
            last_offer(replies, k, j, m) implies runs[k].metadata == m by {
            if j < k - 1 {
                assert(last_offer(replies, k - 1, j, m));
            }
        }
    }
}

/// Whatever an action is told on its way, what it asks of the update service is asked for its own
/// job on its own channel: for the release that was offered, or for the version before that the
/// state knows; and the journal says the same.
pub proof fn law_action_asks_for_what_was_offered(
    kind: UpdateKind,
    job_id: &str,
    channel: &str,
    state: UpdateState,
    runs: Seq<UpdateRun>,
    replies: Seq<RunReply>,
    k: int,
    j: int,
    m: ReleaseMetadata,
    deed: RunAction,
)
    requires
        is_course(kind, job_id, channel, state, runs, replies),
        0 <= k < runs.len(),
        call_ensures(UpdateRun::action, (&runs[k],), deed),
    ensures
        deed matches RunAction::AskApply(q) ==> {
            &&& kind == UpdateKind::Apply
            &&& q.request_id@ == job_id@ && q.channel@ == channel@
            &&& last_offer(replies, k, j, m) ==> q.target_tag@ == m.tag@ && q.target_digest@
                == m.digest@ && q.target_build@ == m.build_number@ && (!blank(m.version@)
                ==> q.target_version@ == trimmed(m.version@)) && (blank(m.version@)
                ==> q.target_version@ == trimmed(m.tag@))
        },
        deed matches RunAction::AskCheck(q) ==> {
            &&& kind == UpdateKind::Check
            &&& q.request_id@ == job_id@ && q.channel@ == channel@
            &&& last_offer(replies, k, j, m) ==> q.target_tag@ == m.tag@ && q.target_digest@
                == m.digest@
        },
        deed matches RunAction::AskRollback(q) ==> {
            &&& kind == UpdateKind::Rollback
            &&& q.request_id@ == job_id@ && q.channel@ == channel@
            &&& q.rollback_tag@ == state.previous_version@
            &&& q.rollback_digest@ == state.previous_digest@
            &&& q.rollback_version@ == state.previous_release_version@
            &&& q.rollback_build@ == state.previous_build_number@
        },
        deed matches RunAction::Journal { action, tag, digest } ==> {
            &&& kind == UpdateKind::Check ==> action@ == "check"@
            &&& kind == UpdateKind::Apply ==> action@ == "apply"@ && (last_offer(replies, k, j, m)
                ==> tag@ == m.tag@ && digest@ == m.digest@)
            &&& kind == UpdateKind::Rollback ==> action@ == "rollback"@ && tag@
                == state.previous_version@ && digest@ == state.previous_digest@
        },
        deed matches RunAction::Claim { status, progress_key, attempt } ==> {
            &&& kind == UpdateKind::Check ==> status@ == "checking"@ && !attempt
            &&& kind != UpdateKind::Check ==> status@ == "updating"@ && attempt
        },
{
    lemma_course(kind, job_id, channel, state, runs, replies, k);
    if last_offer(replies, k, j, m) {
        assert(runs[k].metadata == m);
    }
}

/// The three actions go their ways where all goes well: a check claims the slot, opens its entry,
/// fetches what is offered and asks; an update fetches what is offered first; a rollback fetches
/// nothing.
pub proof fn law_actions_go_their_ways(m: ReleaseMetadata, ack: Result<AckResponse, String>)
    requires
        !blank(m.tag@),
        !blank(m.digest@),
    ensures
        ({
            let got = RunReply::Claimed(true);
            let offer = RunReply::Metadata(m);
            let told = RunReply::Ack(ack);
            let check = UpdateKind::Check;
            let apply = UpdateKind::Apply;
            let undo = UpdateKind::Rollback;
            &&& stage_after(check, RunStage::Claim, got) == RunStage::Journal
            &&& stage_after(check, RunStage::Journal, RunReply::Done) == RunStage::Fetch
            &&& stage_after(check, RunStage::Fetch, offer) == RunStage::Ask
            &&& stage_after(apply, RunStage::Fetch, offer) == RunStage::Claim
            &&& stage_after(apply, RunStage::Claim, got) == RunStage::Journal
            &&& stage_after(apply, RunStage::Journal, RunReply::Done) == RunStage::Ask
            &&& stage_after(undo, RunStage::Claim, got) == RunStage::Journal
            &&& stage_after(undo, RunStage::Journal, RunReply::Done) == RunStage::Ask
            &&& forall|kind: UpdateKind| #[trigger]
                stage_after(kind, RunStage::Ask, told) == RunStage::Note
        }),
{
}

/// A slot that is taken, or an offer without what the action needs, ends the action with an error
/// before the update service is asked; a failed entry of the journal gives the slot back first.
pub proof fn law_action_ends_where_it_must(kind: UpdateKind, m: ReleaseMetadata, e: String)
    ensures
        stage_after(kind, RunStage::Claim, RunReply::Claimed(false)) == RunStage::Failed,
        blank(m.tag@) ==> stage_after(kind, RunStage::Fetch, RunReply::Metadata(m))
            == RunStage::Failed,
        blank(m.digest@) ==> stage_after(
            UpdateKind::Apply,
            RunStage::Fetch,
            RunReply::Metadata(m),
        ) == RunStage::Failed,
        stage_after(kind, RunStage::Journal, RunReply::Failed(e)) == RunStage::GiveBack,
        stage_after(kind, RunStage::GiveBack, RunReply::Done) == RunStage::Failed,
        stage_after(kind, RunStage::Ask, RunReply::Failed(e)) == RunStage::Failed,
{
}

/// What becomes of an action is noted as of that action: an update that was taken on keeps what was
/// installed as what to go back to, a rollback keeps its tag and digest, and a check frees the slot.
pub proof fn law_finish_notes_its_action(
    run: UpdateRun,
    s: &mut UpdateState,
    status: Option<StatusResponse>,
    now: &str,
    r: (FinishedJob, Result<bool, String>),
)
    requires
        call_ensures(UpdateRun::finish, (run, s, &status, now), r),
    ensures
        r.0.id@ == run.job_id@,
        run.ack is Err ==> r.1 is Err && final(s).status@ == "failed"@ && final(s).active_job_id@.len() == 0,
        run.kind == UpdateKind::Check ==> final(s).previous_version@ == old(s).previous_version@
            && final(s).active_job_id@.len() == 0,
        run.kind != UpdateKind::Check && run.ack is Ok ==> (r.1 is Ok
            <==> run.ack->Ok_0.accepted),
        run.kind != UpdateKind::Check && run.ack is Ok && run.ack->Ok_0.accepted ==> final(s).previous_version@ == old(s).installed_version@ && final(s).previous_digest@ == old(s).installed_digest@,
        run.kind == UpdateKind::Apply && run.ack is Ok ==> final(s).available_version@
            == run.metadata.tag@ && final(s).available_digest@ == run.metadata.digest@,
        run.kind == UpdateKind::Check && run.ack is Ok ==> final(s).available_version@
            == run.metadata.tag@ && final(s).available_digest@ == run.metadata.digest@
            && final(s).last_checked_at@ == now@,
        run.kind == UpdateKind::Rollback ==> final(s).available_version@ == old(s).available_version@,
{
    let a = old(s)@;
    let b = final(s)@;
    assert(a.previous_version == old(s).previous_version@ && b.previous_version == final(s).previous_version@ && a.installed_version == old(s).installed_version@ && b.previous_digest
        == final(s).previous_digest@ && a.installed_digest == old(s).installed_digest@
        && b.available_version == final(s).available_version@ && a.available_version == old(s).available_version@ && b.available_digest == final(s).available_digest@ && b.status == final(s).status@ && b.active_job_id == final(s).active_job_id@ && b.last_checked_at == final(s).last_checked_at@);
}

} // verus!
