//! The job that brings the update service itself to another tag, and when it is
//! due.
use vstd::prelude::*;
use vstd::string::*;
use crate::text;
use crate::text::{blank, opt_text, texts, trimmed};
use crate::updater::compose;
use crate::updater::compose::pull_args;
use crate::updater::image_ref;
use crate::updater::image_ref::repository_of;
use crate::updater::types::{ImageIdentity, UpdaterConfig};

verus! {

// ── When a refresh is due ────────────────────────────────────────────────────

/// What is to be done about the updater after an update of the assistant.
pub enum RefreshDecision {
    /// Nothing: no channel was named.
    Nothing,
    /// Bring the updater to a tag now.
    Now(String),
    /// Bring the updater to the tag that was put off, then note the channel.
    Pending(String),
    /// Only note the channel.
    Note,
}

/// Whether there is a tag that was put off.
pub open spec fn put_off(current: Seq<char>, pending: Seq<char>) -> bool {
    !blank(pending) && trimmed(pending) != trimmed(current)
}

/// What is to be done about the updater after an update of the assistant.
pub fn maybe_refresh_updater_sidecar(
    self_update_on_apply: bool,
    channel: &str,
    current_tag: &str,
    pending_tag: &str,
) -> (r: RefreshDecision)
    ensures
        if blank(channel@) {
            r is Nothing
        } else if self_update_on_apply {
            r matches RefreshDecision::Now(tag) && tag@ == trimmed(channel@)
        } else if put_off(current_tag@, pending_tag@) {
            r matches RefreshDecision::Pending(tag) && tag@ == trimmed(pending_tag@)
        } else {
            r is Note
        },
{
    if text::is_blank(channel) {
        return RefreshDecision::Nothing;
    }
    if self_update_on_apply {
        return RefreshDecision::Now(text::trim(channel).to_string());
    }
    let pending = text::trim(pending_tag);
    if !text::is_blank(pending_tag) && !text::same(pending, text::trim(current_tag)) {
        return RefreshDecision::Pending(pending.to_string());
    }
    RefreshDecision::Note
}

/// The tag that the updater has once a tag that was put off was brought in.
pub open spec fn effective_tag(current: Seq<char>, pending: Seq<char>) -> Seq<char> {
    if put_off(current, pending) {
        trimmed(pending)
    } else {
        current
    }
}

/// What is to be noted as put off: the channel where the updater has another
/// tag, nothing in place of a tag that was put off where it has that tag, and
/// no change where there is none.
pub fn pending_note(channel: &str, current_tag: &str, pending_tag: &str) -> (r: Option<String>)
    ensures
        opt_text(r) == if trimmed(channel@) != effective_tag(current_tag@, pending_tag@) {
            Some(trimmed(channel@))
        } else if !blank(pending_tag@) {
            Some(Seq::empty())
        } else {
            None
        },
{
    let desired = text::trim(channel);
    let pending = text::trim(pending_tag);
    let effective = if !text::is_blank(pending_tag) && !text::same(pending, text::trim(current_tag)) {
        pending
    } else {
        current_tag
    };
    if !text::same(desired, effective) {
        Some(desired.to_string())
    } else if !text::is_blank(pending_tag) {
        Some(String::new())
    } else {
        None
    }
}

// ── The job ──────────────────────────────────────────────────────────────────

/// Where a refresh stands.
#[derive(Debug, Clone, Copy, PartialEq, Eq, Structural)]
pub enum RefreshStage {
    /// Read what the environment file says of the updater.
    ReadPrior,
    /// Ask which image the compose file names.
    ResolveCurrent,
    /// Find out which image runs.
    InspectRunning,
    /// Make the compose file name the new tag.
    WriteTag,
    /// Pull it.
    Pull,
    /// Ask which image the compose file names now.
    ResolveDesired,
    /// Find out its identity.
    InspectDesired,
    /// Make the compose file name the tag before.
    UndoTag,
    /// Write down the restart.
    Persist,
    /// Start the helper that replaces the updater.
    Restart,
    /// Write down the state before.
    UndoState,
    /// Over: the helper is at work.
    Refreshed,
    /// Over, with an error.
    Failed,
}

/// How something that a refresh asked for went.
pub enum RefreshReply {
    Done,
    Prior { tag: String, protected: String, retain_until: String },
    Image(String),
    Identity(Option<ImageIdentity>),
    Failed(String),
}

/// What a refresh asks to be done next.
pub enum RefreshAction {
    ReadPrior,
    ResolveImage,
    InspectOwnContainer { repository: String },
    WriteTag(String),
    Compose(Vec<String>),
    InspectImage { image_ref: String, repository: String },
    Persist {
        tag: String,
        current_ref: String,
        previous_ref: String,
        retain_until: Option<String>,
        helper_active: bool,
    },
    Restart,
    Finish(Result<(), String>),
}

/// A refresh of the updater.
pub struct RefreshJob {
    pub desired_tag: String,
    pub previous_tag: String,
    pub previous_protected: String,
    pub previous_retain_until: String,
    pub image: String,
    pub repository: String,
    pub running_ref: String,
    pub desired_ref: String,
    pub error: String,
    pub stage: RefreshStage,
}

/// A refresh of the updater, as a value.
pub struct Refresh {
    pub desired_tag: Seq<char>,
    pub previous_tag: Seq<char>,
    pub previous_protected: Seq<char>,
    pub previous_retain_until: Seq<char>,
    pub image: Seq<char>,
    pub repository: Seq<char>,
    pub running_ref: Seq<char>,
    pub desired_ref: Seq<char>,
    pub error: Seq<char>,
    pub stage: RefreshStage,
}

/// How something that a refresh asked for went, as a value.
pub enum RefreshAnswer {
    Done,
    Prior { tag: Seq<char>, protected: Seq<char>, retain_until: Seq<char> },
    Image(Seq<char>),
    Identity(Option<Seq<char>>),
    Failed(Seq<char>),
}

/// What a refresh asks to be done next, as a value.
pub enum RefreshDeed {
    ReadPrior,
    ResolveImage,
    InspectOwnContainer { repository: Seq<char> },
    WriteTag(Seq<char>),
    Compose(Seq<Seq<char>>),
    InspectImage { image_ref: Seq<char>, repository: Seq<char> },
    Persist {
        tag: Seq<char>,
        current_ref: Seq<char>,
        previous_ref: Seq<char>,
        retain_until: Option<Seq<char>>,
        helper_active: bool,
    },
    Restart,
    Finish(Result<(), Seq<char>>),
}

impl RefreshReply {
    pub open spec fn view(&self) -> RefreshAnswer {
        match *self {
            RefreshReply::Done => RefreshAnswer::Done,
            RefreshReply::Prior { tag, protected, retain_until } => RefreshAnswer::Prior {
                tag: tag@,
                protected: protected@,
                retain_until: retain_until@,
            },
            RefreshReply::Image(s) => RefreshAnswer::Image(s@),
            RefreshReply::Identity(None) => RefreshAnswer::Identity(None),
            RefreshReply::Identity(Some(i)) => RefreshAnswer::Identity(Some(i.immutable_ref@)),
            RefreshReply::Failed(e) => RefreshAnswer::Failed(e@),
        }
    }
}

impl RefreshAction {
    pub open spec fn view(&self) -> RefreshDeed {
        match *self {
            RefreshAction::ReadPrior => RefreshDeed::ReadPrior,
            RefreshAction::ResolveImage => RefreshDeed::ResolveImage,
            RefreshAction::InspectOwnContainer { repository } => RefreshDeed::InspectOwnContainer {
                repository: repository@,
            },
            RefreshAction::WriteTag(tag) => RefreshDeed::WriteTag(tag@),
            RefreshAction::Compose(args) => RefreshDeed::Compose(texts(args@)),
            RefreshAction::InspectImage { image_ref, repository } => RefreshDeed::InspectImage {
                image_ref: image_ref@,
                repository: repository@,
            },
            RefreshAction::Persist {
                tag,
                current_ref,
                previous_ref,
                retain_until,
                helper_active,
            } => RefreshDeed::Persist {
                tag: tag@,
                current_ref: current_ref@,
                previous_ref: previous_ref@,
                retain_until: opt_text(retain_until),
                helper_active,
            },
            RefreshAction::Restart => RefreshDeed::Restart,
            RefreshAction::Finish(Ok(_)) => RefreshDeed::Finish(Ok(())),
            RefreshAction::Finish(Err(e)) => RefreshDeed::Finish(Err(e@)),
        }
    }
}

impl Refresh {
    /// Whether the job is over.
    pub open spec fn over(self) -> bool {
        self.stage == RefreshStage::Refreshed || self.stage == RefreshStage::Failed
    }

    /// The job at another stage.
    pub open spec fn at(self, stage: RefreshStage) -> Refresh {
        Refresh { stage, ..self }
    }

    /// The job at another stage with an error.
    pub open spec fn troubled(self, stage: RefreshStage, error: Seq<char>) -> Refresh {
        Refresh { stage, error, ..self }
    }

    /// The image to keep as the previous one: the running one where the new one
    /// differs, else the one that was kept before.
    pub open spec fn kept(self) -> Seq<char> {
        if self.desired_ref != self.running_ref {
            self.running_ref
        } else {
            self.previous_protected
        }
    }

    /// The job after it was told how what it asked for went.
    pub open spec fn next(self, answer: RefreshAnswer) -> Refresh {
        match (self.stage, answer) {
            (RefreshStage::Refreshed, _) => self,
            (RefreshStage::Failed, _) => self,
            (RefreshStage::UndoTag, _) => self.at(RefreshStage::Failed),
            (RefreshStage::UndoState, _) => self.at(RefreshStage::Failed),
            (RefreshStage::Pull, RefreshAnswer::Failed(e)) => self.troubled(
                RefreshStage::UndoTag,
                e,
            ),
            (RefreshStage::ResolveDesired, RefreshAnswer::Failed(e)) => self.troubled(
                RefreshStage::UndoTag,
                e,
            ),
            (RefreshStage::InspectDesired, RefreshAnswer::Failed(e)) => self.troubled(
                RefreshStage::UndoTag,
                e,
            ),
            (RefreshStage::Restart, RefreshAnswer::Failed(e)) => self.troubled(
                RefreshStage::UndoState,
                e,
            ),
            (_, RefreshAnswer::Failed(e)) => self.troubled(RefreshStage::Failed, e),
            (RefreshStage::ReadPrior, RefreshAnswer::Prior { tag, protected, retain_until }) =>
            Refresh {
                previous_tag: tag,
                previous_protected: protected,
                previous_retain_until: retain_until,
                ..self
            }.at(RefreshStage::ResolveCurrent),
            (RefreshStage::ResolveCurrent, RefreshAnswer::Image(image)) => match repository_of(
                image,
            ) {
                Some(repository) => Refresh { repository, ..self }.at(RefreshStage::InspectRunning),
                None => self.troubled(
                    RefreshStage::Failed,
                    "Could not resolve updater image repository"@,
                ),
            },
            (RefreshStage::InspectRunning, RefreshAnswer::Identity(Some(r))) => Refresh {
                running_ref: r,
                ..self
            }.at(RefreshStage::WriteTag),
            (RefreshStage::InspectRunning, _) => self.troubled(
                RefreshStage::Failed,
                "Could not inspect the running updater image"@,
            ),
            (RefreshStage::WriteTag, _) => self.at(RefreshStage::Pull),
            (RefreshStage::Pull, _) => self.at(RefreshStage::ResolveDesired),
            (RefreshStage::ResolveDesired, RefreshAnswer::Image(image)) => match repository_of(
                image,
            ) {
                Some(repository) => Refresh { image, repository, ..self }.at(
                    RefreshStage::InspectDesired,
                ),
                None => self.troubled(
                    RefreshStage::UndoTag,
                    "Could not resolve pulled updater image repository"@,
                ),
            },
            (RefreshStage::InspectDesired, RefreshAnswer::Identity(Some(r))) => Refresh {
                desired_ref: r,
                ..self
            }.at(RefreshStage::Persist),
            (RefreshStage::Persist, _) => self.at(RefreshStage::Restart),
            (RefreshStage::Restart, _) => self.at(RefreshStage::Refreshed),
            (_, _) => self,
        }
    }

    /// Whether an answer is one to what the job asks for.
    pub open spec fn expects(self, answer: RefreshAnswer) -> bool {
        answer is Failed || match self.stage {
            RefreshStage::ReadPrior => answer is Prior,
            RefreshStage::ResolveCurrent => answer is Image,
            RefreshStage::ResolveDesired => answer is Image,
            RefreshStage::InspectRunning => answer is Identity,
            RefreshStage::InspectDesired => answer matches RefreshAnswer::Identity(Some(_)),
            _ => answer is Done,
        }
    }

    /// What the job asks for at its stage.
    pub open spec fn deed(self, config: UpdaterConfig) -> RefreshDeed {
        match self.stage {
            RefreshStage::ReadPrior => RefreshDeed::ReadPrior,
            RefreshStage::ResolveCurrent => RefreshDeed::ResolveImage,
            RefreshStage::ResolveDesired => RefreshDeed::ResolveImage,
            RefreshStage::InspectRunning => RefreshDeed::InspectOwnContainer {
                repository: self.repository,
            },
            RefreshStage::WriteTag => RefreshDeed::WriteTag(self.desired_tag),
            RefreshStage::Pull => RefreshDeed::Compose(pull_args(config.updater_service@)),
            RefreshStage::InspectDesired => RefreshDeed::InspectImage {
                image_ref: self.image,
                repository: self.repository,
            },
            RefreshStage::UndoTag => RefreshDeed::WriteTag(self.previous_tag),
            RefreshStage::Persist => RefreshDeed::Persist {
                tag: self.desired_tag,
                current_ref: self.desired_ref,
                previous_ref: self.kept(),
                retain_until: None,
                helper_active: true,
            },
            RefreshStage::Restart => RefreshDeed::Restart,
            RefreshStage::UndoState => RefreshDeed::Persist {
                tag: self.previous_tag,
                current_ref: self.running_ref,
                previous_ref: self.previous_protected,
                retain_until: Some(self.previous_retain_until),
                helper_active: false,
            },
            RefreshStage::Refreshed => RefreshDeed::Finish(Ok(())),
            RefreshStage::Failed => RefreshDeed::Finish(Err(self.error)),
        }
    }
}

impl RefreshJob {
    pub open spec fn view(&self) -> Refresh {
        Refresh {
            desired_tag: self.desired_tag@,
            previous_tag: self.previous_tag@,
            previous_protected: self.previous_protected@,
            previous_retain_until: self.previous_retain_until@,
            image: self.image@,
            repository: self.repository@,
            running_ref: self.running_ref@,
            desired_ref: self.desired_ref@,
            error: self.error@,
            stage: self.stage,
        }
    }

    /// The refresh to a tag.
    pub fn start(desired_tag: &str) -> (r: RefreshJob)
        ensures
            r@ == (Refresh {
                desired_tag: desired_tag@,
                previous_tag: Seq::empty(),
                previous_protected: Seq::empty(),
                previous_retain_until: Seq::empty(),
                image: Seq::empty(),
                repository: Seq::empty(),
                running_ref: Seq::empty(),
                desired_ref: Seq::empty(),
                error: Seq::empty(),
                stage: RefreshStage::ReadPrior,
            }),
    {
        RefreshJob {
            desired_tag: desired_tag.to_string(),
            previous_tag: String::new(),
            previous_protected: String::new(),
            previous_retain_until: String::new(),
            image: String::new(),
            repository: String::new(),
            running_ref: String::new(),
            desired_ref: String::new(),
            error: String::new(),
            stage: RefreshStage::ReadPrior,
        }
    }

    /// What the job asks for.
    pub fn action(&self, config: &UpdaterConfig) -> (r: RefreshAction)
        ensures
            r@ == self@.deed(*config),
    {
        match self.stage {
            RefreshStage::ReadPrior => RefreshAction::ReadPrior,
            RefreshStage::ResolveCurrent => RefreshAction::ResolveImage,
            RefreshStage::ResolveDesired => RefreshAction::ResolveImage,
            RefreshStage::InspectRunning => RefreshAction::InspectOwnContainer {
                repository: self.repository.clone(),
            },
            RefreshStage::WriteTag => RefreshAction::WriteTag(self.desired_tag.clone()),
            RefreshStage::Pull => RefreshAction::Compose(
                compose::pull_service(config.updater_service.as_str()),
            ),
            RefreshStage::InspectDesired => RefreshAction::InspectImage {
                image_ref: self.image.clone(),
                repository: self.repository.clone(),
            },
            RefreshStage::UndoTag => RefreshAction::WriteTag(self.previous_tag.clone()),
            RefreshStage::Persist => RefreshAction::Persist {
                tag: self.desired_tag.clone(),
                current_ref: self.desired_ref.clone(),
                previous_ref: if !text::same(self.desired_ref.as_str(), self.running_ref.as_str()) {
                    self.running_ref.clone()
                } else {
                    self.previous_protected.clone()
                },
                retain_until: None,
                helper_active: true,
            },
            RefreshStage::Restart => RefreshAction::Restart,
            RefreshStage::UndoState => RefreshAction::Persist {
                tag: self.previous_tag.clone(),
                current_ref: self.running_ref.clone(),
                previous_ref: self.previous_protected.clone(),
                retain_until: Some(self.previous_retain_until.clone()),
                helper_active: false,
            },
            RefreshStage::Refreshed => RefreshAction::Finish(Ok(())),
            RefreshStage::Failed => RefreshAction::Finish(Err(self.error.clone())),
        }
    }

    /// Takes the job on after it was told how what it asked for went.
    pub fn step(&mut self, reply: RefreshReply)
        requires
            !old(self)@.over(),
            old(self)@.expects(reply@),
        ensures
            final(self)@ == old(self)@.next(reply@),
    {
        match self.stage {
            RefreshStage::UndoTag | RefreshStage::UndoState => {
                self.stage = RefreshStage::Failed;
                return;
            },
            _ => {},
        }
        match reply {
            RefreshReply::Failed(e) => {
                self.error = e;
                self.stage = match self.stage {
                    RefreshStage::Pull | RefreshStage::ResolveDesired
                    | RefreshStage::InspectDesired => RefreshStage::UndoTag,
                    RefreshStage::Restart => RefreshStage::UndoState,
                    _ => RefreshStage::Failed,
                };
            },
            RefreshReply::Prior { tag, protected, retain_until } => {
                self.previous_tag = tag;
                self.previous_protected = protected;
                self.previous_retain_until = retain_until;
                self.stage = RefreshStage::ResolveCurrent;
            },
            RefreshReply::Image(image) => {
                self.resolved(image);
            },
            RefreshReply::Identity(identity) => match (self.stage, identity) {
                (RefreshStage::InspectRunning, Some(i)) => {
                    self.running_ref = i.immutable_ref;
                    self.stage = RefreshStage::WriteTag;
                },
                (_, Some(i)) => {
                    self.desired_ref = i.immutable_ref;
                    self.stage = RefreshStage::Persist;
                },
                (_, None) => {
                    self.error = "Could not inspect the running updater image".to_string();
                    self.stage = RefreshStage::Failed;
                },
            },
            RefreshReply::Done => {
                self.stage = match self.stage {
                    RefreshStage::WriteTag => RefreshStage::Pull,
                    RefreshStage::Pull => RefreshStage::ResolveDesired,
                    RefreshStage::Persist => RefreshStage::Restart,
                    _ => RefreshStage::Refreshed,
                };
            },
        }
    }

    /// Takes the job on after it was told which image the compose file names.
    fn resolved(&mut self, image: String)
        requires
            old(self).stage == RefreshStage::ResolveCurrent || old(self).stage
                == RefreshStage::ResolveDesired,
        ensures
            final(self)@ == old(self)@.next(RefreshAnswer::Image(image@)),
    {
        match (self.stage, image_ref::repository_from_image_ref(image.as_str())) {
            (RefreshStage::ResolveCurrent, Some(repository)) => {
                self.repository = repository;
                self.stage = RefreshStage::InspectRunning;
            },
            (RefreshStage::ResolveCurrent, None) => {
                self.error = "Could not resolve updater image repository".to_string();
                self.stage = RefreshStage::Failed;
            },
            (_, Some(repository)) => {
                self.image = image;
                self.repository = repository;
                self.stage = RefreshStage::InspectDesired;
            },
            (_, None) => {
                self.error = "Could not resolve pulled updater image repository".to_string();
                self.stage = RefreshStage::UndoTag;
            },
        }
    }
}

// ── Laws ─────────────────────────────────────────────────────────────────────

/// A refresh that fails after it named the new tag names the tag before again, or
/// writes down the whole state before: until the helper runs, no failure leaves
/// the new tag behind unasked.
pub proof fn law_failed_refresh_is_undone(job: Refresh, e: Seq<char>, config: UpdaterConfig)
    requires
        job.stage == RefreshStage::Pull || job.stage == RefreshStage::ResolveDesired || job.stage
            == RefreshStage::InspectDesired || job.stage == RefreshStage::Restart,
    ensures
        ({
            let after = job.next(RefreshAnswer::Failed(e));
            &&& after.error == e
            &&& !after.over()
            &&& match after.deed(config) {
                RefreshDeed::WriteTag(tag) => tag == job.previous_tag,
                RefreshDeed::Persist {
                    tag,
                    current_ref,
                    previous_ref,
                    retain_until,
                    helper_active,
                } => tag == job.previous_tag && current_ref == job.running_ref && previous_ref
                    == job.previous_protected && retain_until == Some(job.previous_retain_until)
                    && !helper_active,
                _ => false,
            }
        }),
{
}

/// The image that the updater runs from is never given up: once a refresh writes
/// down the new image, the running one is kept as the previous one, unless it is
/// the same.
pub proof fn law_refresh_keeps_the_running_image(job: Refresh, config: UpdaterConfig)
    requires
        job.stage == RefreshStage::Persist,
    ensures
        job.deed(config) matches RefreshDeed::Persist {
            tag,
            current_ref,
            previous_ref,
            retain_until,
            helper_active,
        } && helper_active && (current_ref == job.running_ref || previous_ref == job.running_ref),
{
}

/// A refresh after the first `k` answers.
pub open spec fn after(job: Refresh, answers: Seq<RefreshAnswer>, k: int) -> Refresh
    decreases k,
{
    if k <= 0 {
        job
    } else {
        after(job, answers, k - 1).next(answers[k - 1])
    }
}

/// Whether all went well as far as the first `k` answers say: the file was read, the compose
/// file named an image with a repository, the image that runs was found, the tag was written and
/// pulled, the pulled image was found, and the restart was written down and begun.
pub open spec fn goes_well(answers: Seq<RefreshAnswer>, k: int) -> bool {
    &&& k > 0 ==> answers[0] is Prior
    &&& k > 1 ==> (answers[1] matches RefreshAnswer::Image(i) && repository_of(i) is Some)
    &&& k > 2 ==> (answers[2] matches RefreshAnswer::Identity(Some(_)))
    &&& k > 3 ==> answers[3] is Done
    &&& k > 4 ==> answers[4] is Done
    &&& k > 5 ==> (answers[5] matches RefreshAnswer::Image(i) && repository_of(i) is Some)
    &&& k > 6 ==> (answers[6] matches RefreshAnswer::Identity(Some(_)))
    &&& k > 7 ==> answers[7] is Done
    &&& k > 8 ==> answers[8] is Done
}

/// Where a refresh is, and what it knows, as long as all goes well.
proof fn lemma_refresh_way(
    desired_tag: &str,
    job: RefreshJob,
    answers: Seq<RefreshAnswer>,
    k: int,
)
    requires
        call_ensures(RefreshJob::start, (desired_tag,), job),
        0 <= k <= 9,
        goes_well(answers, k),
    ensures
        ({
            let j = after(job@, answers, k);
            &&& j.desired_tag == desired_tag@
            &&& k > 0 ==> j.previous_tag == answers[0]->Prior_tag && j.previous_protected
                == answers[0]->Prior_protected && j.previous_retain_until
                == answers[0]->Prior_retain_until
            &&& 2 <= k <= 5 ==> Some(j.repository) == repository_of(answers[1]->Image_0)
            &&& k > 2 ==> Some(j.running_ref) == answers[2]->Identity_0
            &&& k > 5 ==> j.image == answers[5]->Image_0 && Some(j.repository) == repository_of(
                answers[5]->Image_0,
            )
            &&& k > 6 ==> Some(j.desired_ref) == answers[6]->Identity_0
            &&& j.stage == if k == 0 {
                RefreshStage::ReadPrior
            } else if k == 1 {
                RefreshStage::ResolveCurrent
            } else if k == 2 {
                RefreshStage::InspectRunning
            } else if k == 3 {
                RefreshStage::WriteTag
            } else if k == 4 {
                RefreshStage::Pull
            } else if k == 5 {
                RefreshStage::ResolveDesired
            } else if k == 6 {
                RefreshStage::InspectDesired
            } else if k == 7 {
                RefreshStage::Persist
            } else if k == 8 {
                RefreshStage::Restart
            } else {
                RefreshStage::Refreshed
            }
        }),
    decreases k,
{
    if k > 0 {
        lemma_refresh_way(desired_tag, job, answers, k - 1);
    }
}

/// A refresh that goes well brings the updater to the tag that was asked for, step by step: it
/// finds the image that runs in the repository that the compose file names, makes the compose
/// file name the tag, pulls the updater's service, finds what was pulled, writes that down as
/// current with what ran before as previous (or what was previous before, where the same image
/// runs), marks the helper as at work, and restarts.
pub proof fn law_refresh_brings_the_tag(
    desired_tag: &str,
    job: RefreshJob,
    answers: Seq<RefreshAnswer>,
    k: int,
    config: UpdaterConfig,
)
    requires
        call_ensures(RefreshJob::start, (desired_tag,), job),
        0 <= k <= 9,
        goes_well(answers, k),
    ensures
        ({
            let deed = after(job@, answers, k).deed(config);
            let ran = answers[2]->Identity_0->0;
            let pulled = answers[6]->Identity_0->0;
            &&& k == 0 ==> deed is ReadPrior
            &&& k == 1 || k == 5 ==> deed is ResolveImage
            &&& k == 2 ==> deed is InspectOwnContainer && Some(
                deed->InspectOwnContainer_repository,
            ) == repository_of(answers[1]->Image_0)
            &&& k == 3 ==> deed == RefreshDeed::WriteTag(desired_tag@)
            &&& k == 4 ==> deed is Compose && deed->Compose_0 == seq![
                "pull"@,
                config.updater_service@,
            ]
            &&& k == 6 ==> deed is InspectImage && deed->InspectImage_image_ref
                == answers[5]->Image_0 && Some(deed->InspectImage_repository) == repository_of(
                answers[5]->Image_0,
            )
            &&& k == 7 ==> deed is Persist && deed->Persist_tag == desired_tag@
                && deed->Persist_current_ref == pulled && deed->Persist_helper_active
                && deed->Persist_retain_until is None && (ran != pulled ==> deed->Persist_previous_ref
                == ran) && (ran == pulled ==> deed->Persist_previous_ref
                == answers[0]->Prior_protected)
            &&& k == 8 ==> deed is Restart
            &&& k == 9 ==> deed == RefreshDeed::Finish(Ok(()))
        }),
{
    lemma_refresh_way(desired_tag, job, answers, k);
}

/// A refresh that fails ends with its error, and puts back what it changed before: the tag where
/// it was written, and the whole state before where the restart was written down. Nothing that
/// comes after the failure is tried.
pub proof fn law_failed_refresh_puts_back(
    desired_tag: &str,
    job: RefreshJob,
    answers: Seq<RefreshAnswer>,
    k: int,
    e: Seq<char>,
    config: UpdaterConfig,
)
    requires
        call_ensures(RefreshJob::start, (desired_tag,), job),
        0 <= k < 9,
        goes_well(answers, k),
        answers[k] == RefreshAnswer::Failed(e),
    ensures
        ({
            let first = after(job@, answers, k + 1).deed(config);
            let second = after(job@, answers, k + 2).deed(config);
            &&& k < 4 || k == 7 ==> first == RefreshDeed::Finish(Err(e))
            &&& 4 <= k <= 6 ==> first == RefreshDeed::WriteTag(answers[0]->Prior_tag) && second
                == RefreshDeed::Finish(Err(e))
            &&& k == 8 ==> first is Persist && first->Persist_tag == answers[0]->Prior_tag && Some(
                first->Persist_current_ref,
            ) == answers[2]->Identity_0 && first->Persist_previous_ref
                == answers[0]->Prior_protected && first->Persist_retain_until == Some(
                answers[0]->Prior_retain_until,
            ) && !first->Persist_helper_active && second == RefreshDeed::Finish(Err(e))
        }),
{
    lemma_refresh_way(desired_tag, job, answers, k);
    reveal_with_fuel(after, 3);
}

/// The updater is brought to the channel's tag at once where it is set to follow updates; else a
/// tag that was put off before is brought in, unless the updater has it. White space around a tag
/// does not count, and without a channel nothing is done.
pub proof fn law_refresh_when_due(
    self_update: bool,
    channel: &str,
    current_tag: &str,
    pending_tag: &str,
    r: RefreshDecision,
)
    requires
        call_ensures(
            maybe_refresh_updater_sidecar,
            (self_update, channel, current_tag, pending_tag),
            r,
        ),
    ensures
        r is Nothing <==> trimmed(channel@).len() == 0,
        r is Now <==> trimmed(channel@).len() > 0 && self_update,
        r is Pending <==> trimmed(channel@).len() > 0 && !self_update && trimmed(pending_tag@).len()
            > 0 && trimmed(pending_tag@) != trimmed(current_tag@),
        r matches RefreshDecision::Now(tag) ==> tag@ == trimmed(channel@),
        r matches RefreshDecision::Pending(tag) ==> tag@ == trimmed(pending_tag@),
{
    text::lemma_blank(channel@);
    text::lemma_blank(pending_tag@);
}

/// What is noted as put off is the channel exactly where the updater, with what was put off
/// before brought in, does not have its tag.
pub proof fn law_note_says_what_is_left(
    channel: &str,
    current_tag: &str,
    pending_tag: &str,
    r: Option<String>,
)
    requires
        call_ensures(pending_note, (channel, current_tag, pending_tag), r),
    ensures
        ({
            let pending = trimmed(pending_tag@);
            let brought = pending.len() > 0 && pending != trimmed(current_tag@);
            let tag = if brought {
                pending
            } else {
                current_tag@
            };
            &&& trimmed(channel@) != tag ==> r is Some && r->0@ == trimmed(channel@)
            &&& trimmed(channel@) == tag && pending.len() > 0 ==> r is Some && r->0@.len() == 0
            &&& trimmed(channel@) == tag && pending.len() == 0 ==> r is None
        }),
{
    text::lemma_blank(pending_tag@);
}

} // verus!
