//! The job that sets the assistant back to a version that was asked for.
use vstd::prelude::*;
use vstd::string::*;
use crate::text;
use crate::text::{blank, texts};
use crate::updater::compose;
use crate::updater::compose::{recreate_args, strings};
use crate::updater::image_ref;
use crate::updater::image_ref::{
    canonical, digest_error, repository_of, rollback_tag, ImmutableImagePlan,
};
use crate::updater::jobs;
use crate::updater::jobs::{no_root, Action, Answer, Deed, Reply};
use crate::updater::runtime::{Root, Runtime, Version};
use crate::updater::types::{RollbackRequest, RollbackRoot, RuntimeState, UpdaterConfig};

verus! {

/// Where a rollback stands.
#[derive(Debug, Clone, Copy, PartialEq, Eq, Structural)]
pub enum RollbackStage {
    /// Find out which image runs.
    Capture,
    /// Pull the image by its digest.
    Pull,
    /// See that it has that digest.
    Verify,
    /// Find out its ID.
    Inspect,
    /// Tag it on this machine by its digest.
    Tag,
    /// Make the compose file start it.
    WriteTarget,
    /// Start it.
    Recreate,
    /// Wait until it is well.
    Check,
    /// Write down the image that ran before.
    Persist,
    /// Make the compose file start the image that ran before.
    Restore,
    /// Start the image that ran before.
    RecreatePrior,
    /// Wait until it is well.
    CheckPrior,
    /// Make the compose file name the image that ran before, which cannot be
    /// started.
    RestoreMetadata,
    /// Over: the version that was asked for runs.
    RolledBack,
    /// Over, with an error.
    Failed,
}

/// A rollback, as a value.
pub struct Rollback {
    pub job_id: Seq<char>,
    pub target: Version,
    pub pull_ref: Seq<char>,
    pub local_ref: Seq<char>,
    pub compose_tag: Seq<char>,
    pub image_id: Seq<char>,
    pub previous: Root,
    pub error: Seq<char>,
    pub stage: RollbackStage,
}

impl Rollback {
    /// Whether the job is over.
    pub open spec fn over(self) -> bool {
        self.stage == RollbackStage::RolledBack || self.stage == RollbackStage::Failed
    }

    /// The job at another stage.
    pub open spec fn at(self, stage: RollbackStage) -> Rollback {
        Rollback { stage, ..self }
    }

    /// The job over with an error.
    pub open spec fn failed(self, error: Seq<char>) -> Rollback {
        Rollback { stage: RollbackStage::Failed, error, ..self }
    }

    /// The job after the image was started in vain.
    pub open spec fn in_vain(self, error: Seq<char>) -> Rollback {
        Rollback {
            error,
            stage: if self.previous.available() {
                RollbackStage::Restore
            } else {
                RollbackStage::RestoreMetadata
            },
            ..self
        }
    }

    /// What is said where the way back does not work either.
    pub open spec fn twice_failed(self, error: Seq<char>) -> Seq<char> {
        "Manual rollback failed ("@ + self.error
            + "); restoring the current version also failed: "@ + error
    }

    /// The job after something went well; `root` and `image_id` are what was
    /// found out.
    pub open spec fn onward(self, root: Root, image_id: Seq<char>) -> Rollback {
        match self.stage {
            RollbackStage::Capture => Rollback { previous: root, ..self }.at(RollbackStage::Pull),
            RollbackStage::Pull => self.at(RollbackStage::Verify),
            RollbackStage::Verify => self.at(RollbackStage::Inspect),
            RollbackStage::Inspect => if image_id.len() == 0 {
                self.failed("Pulled rollback image did not have an image ID"@)
            } else {
                Rollback { image_id, ..self }.at(RollbackStage::Tag)
            },
            RollbackStage::Tag => self.at(RollbackStage::WriteTarget),
            RollbackStage::WriteTarget => self.at(RollbackStage::Recreate),
            RollbackStage::Recreate => self.at(RollbackStage::Check),
            RollbackStage::Check => self.at(RollbackStage::Persist),
            RollbackStage::Persist => self.at(RollbackStage::RolledBack),
            RollbackStage::Restore => self.at(RollbackStage::RecreatePrior),
            RollbackStage::RecreatePrior => self.at(RollbackStage::CheckPrior),
            RollbackStage::CheckPrior => self.failed(
                "Manual rollback failed and the prior running version was restored: "@ + self.error,
            ),
            RollbackStage::RestoreMetadata => self.failed(
                "Manual rollback failed and no immutable prior image was available: "@ + self.error,
            ),
            _ => self,
        }
    }

    /// The job after something went wrong.
    pub open spec fn amiss(self, e: Seq<char>) -> Rollback {
        match self.stage {
            RollbackStage::Recreate | RollbackStage::Check => self.in_vain(e),
            RollbackStage::Restore => self.failed(self.twice_failed(e)),
            RollbackStage::RecreatePrior => self.failed(
                self.twice_failed("Failed to recreate the captured rollback image: "@ + e),
            ),
            RollbackStage::CheckPrior => self.failed(
                self.twice_failed("Restored rollback image failed its health check: "@ + e),
            ),
            RollbackStage::RestoreMetadata => self.failed(
                "Manual rollback failed ("@ + self.error
                    + "); no immutable prior image was available and restoring metadata failed: "@
                    + e,
            ),
            RollbackStage::RolledBack | RollbackStage::Failed => self,
            _ => self.failed(e),
        }
    }

    /// The job after it was told how what it asked for went.
    pub open spec fn next(self, answer: Answer) -> Rollback {
        match answer {
            Answer::Failed(e) => self.amiss(e),
            Answer::Root(root) => self.onward(root, Seq::empty()),
            Answer::Identity { image_id, immutable_ref } => self.onward(no_root(), image_id),
            Answer::Done => self.onward(no_root(), Seq::empty()),
        }
    }

    /// What the service says of itself once the job has come to its stage.
    pub open spec fn announced(self, r: Runtime) -> Runtime {
        match self.stage {
            RollbackStage::Pull => r.doing(
                Some(self.job_id),
                "updating"@,
                "updates.progress.pulling"@,
                "Downloading immutable rollback image"@,
            ),
            RollbackStage::Recreate => r.doing(
                Some(self.job_id),
                "updating"@,
                "updates.progress.rollback_restarting"@,
                "Restarting previous version"@,
            ),
            RollbackStage::Check => r.doing(
                None,
                "updating"@,
                "updates.progress.health_check"@,
                "Running health checks"@,
            ),
            RollbackStage::RolledBack => r.doing(
                None,
                "idle"@,
                "updates.progress.rollback_done"@,
                "Rollback completed"@,
            ).knowing(self.target, self.previous.shown()),
            _ => r,
        }
    }

    /// What the job asks for at its stage.
    pub open spec fn deed(self, config: UpdaterConfig) -> Deed {
        match self.stage {
            RollbackStage::Capture => Deed::CaptureRunning,
            RollbackStage::Pull => Deed::Docker(seq!["pull"@, self.pull_ref]),
            RollbackStage::Verify => Deed::VerifyDigest {
                image_ref: self.pull_ref,
                digest: self.target.digest,
            },
            RollbackStage::Inspect => Deed::InspectImage {
                image_ref: self.pull_ref,
                repository: config.image_repo@,
            },
            RollbackStage::Tag => Deed::Docker(
                seq!["image"@, "tag"@, self.image_id, self.local_ref],
            ),
            RollbackStage::WriteTarget => Deed::WriteImageEnv {
                tag: self.compose_tag,
                digest: self.target.digest,
                version: self.target.version,
                build: self.target.build,
            },
            RollbackStage::Recreate | RollbackStage::RecreatePrior => Deed::Compose(
                recreate_args(config.compose_service@),
            ),
            RollbackStage::Check | RollbackStage::CheckPrior => Deed::WaitForHealth,
            RollbackStage::Persist => Deed::PersistRollback(self.previous),
            RollbackStage::Restore | RollbackStage::RestoreMetadata => Deed::WriteImageEnv {
                tag: self.previous.start_tag(),
                digest: self.previous.digest,
                version: self.previous.version,
                build: self.previous.build,
            },
            RollbackStage::RolledBack => Deed::Finish(Ok(())),
            RollbackStage::Failed => Deed::Finish(Err(self.error)),
        }
    }
}

/// A rollback.
pub struct RollbackJob {
    pub job_id: String,
    pub rollback_tag: String,
    pub rollback_digest: String,
    pub rollback_version: String,
    pub rollback_build: String,
    pub plan: ImmutableImagePlan,
    pub image_id: String,
    pub previous: RollbackRoot,
    pub error: String,
    pub stage: RollbackStage,
}

impl RollbackJob {
    pub open spec fn view(&self) -> Rollback {
        Rollback {
            job_id: self.job_id@,
            target: Version {
                tag: self.rollback_tag@,
                digest: self.rollback_digest@,
                version: self.rollback_version@,
                build: self.rollback_build@,
            },
            pull_ref: self.plan.pull_ref@,
            local_ref: self.plan.local_ref@,
            compose_tag: self.plan.compose_tag@,
            image_id: self.image_id@,
            previous: self.previous@,
            error: self.error@,
            stage: self.stage,
        }
    }

    /// The rollback that a request asks for; it needs a tag to show and a digest
    /// with a canonical form.
    pub fn start(request: &RollbackRequest, image_repo: &str) -> (r: Result<RollbackJob, String>)
        ensures
            if blank(request.rollback_tag@) {
                r is Err && r->Err_0@ == "Rollback tag is required"@
            } else {
                match (canonical(request.rollback_digest@), repository_of(image_repo@)) {
                    (None, _) => r is Err && r->Err_0@ == digest_error(),
                    (Some(_), None) => r is Err && r->Err_0@
                        == "Image repository must not be empty"@,
                    (Some(d), Some(repository)) => r is Ok && r->Ok_0@ == (Rollback {
                        job_id: request.request_id@,
                        target: Version {
                            tag: request.rollback_tag@,
                            digest: d,
                            version: request.rollback_version@,
                            build: request.rollback_build@,
                        },
                        pull_ref: repository + "@"@ + d,
                        local_ref: repository + ":"@ + rollback_tag(d),
                        compose_tag: rollback_tag(d),
                        image_id: Seq::empty(),
                        previous: no_root(),
                        error: Seq::empty(),
                        stage: RollbackStage::Capture,
                    }),
                }
            },
    {
        if text::is_blank(request.rollback_tag.as_str()) {
            return Err("Rollback tag is required".to_string());
        }
        let rollback_digest = match image_ref::canonical_sha256_digest(
            request.rollback_digest.as_str(),
        ) {
            Ok(d) => d,
            Err(e) => {
                return Err(e);
            },
        };
        proof {
            image_ref::law_canonical_twice(request.rollback_digest@);
        }
        let plan = match image_ref::immutable_image_plan(image_repo, rollback_digest.as_str()) {
            Ok(plan) => plan,
            Err(e) => {
                return Err(e);
            },
        };
        Ok(
            RollbackJob {
                job_id: request.request_id.clone(),
                rollback_tag: request.rollback_tag.clone(),
                rollback_digest,
                rollback_version: request.rollback_version.clone(),
                rollback_build: request.rollback_build.clone(),
                plan,
                image_id: String::new(),
                previous: jobs::empty_root(),
                error: String::new(),
                stage: RollbackStage::Capture,
            },
        )
    }

    /// What the job asks for.
    pub fn action(&self, config: &UpdaterConfig) -> (r: Action)
        ensures
            r@ == self@.deed(*config),
    {
        match self.stage {
            RollbackStage::Capture => Action::CaptureRunning,
            RollbackStage::Pull => {
                let args = strings(&["pull", self.plan.pull_ref.as_str()]);
                proof {
                    assert(texts(args@) =~= seq!["pull"@, self.plan.pull_ref@]);
                }
                Action::Docker(args)
            },
            RollbackStage::Verify => Action::VerifyDigest {
                image_ref: self.plan.pull_ref.clone(),
                digest: self.rollback_digest.clone(),
            },
            RollbackStage::Inspect => Action::InspectImage {
                image_ref: self.plan.pull_ref.clone(),
                repository: config.image_repo.clone(),
            },
            RollbackStage::Tag => {
                let args = strings(
                    &["image", "tag", self.image_id.as_str(), self.plan.local_ref.as_str()],
                );
                proof {
                    assert(texts(args@) =~= seq![
                        "image"@,
                        "tag"@,
                        self.image_id@,
                        self.plan.local_ref@,
                    ]);
                }
                Action::Docker(args)
            },
            RollbackStage::WriteTarget => Action::WriteImageEnv {
                tag: self.plan.compose_tag.clone(),
                digest: self.rollback_digest.clone(),
                version: self.rollback_version.clone(),
                build: self.rollback_build.clone(),
            },
            RollbackStage::Recreate | RollbackStage::RecreatePrior => Action::Compose(
                compose::recreate_service_without_pull(config.compose_service.as_str()),
            ),
            RollbackStage::Check | RollbackStage::CheckPrior => Action::WaitForHealth,
            RollbackStage::Persist => Action::PersistRollback(self.previous.copied()),
            RollbackStage::Restore | RollbackStage::RestoreMetadata => Action::WriteImageEnv {
                tag: if self.previous.compose_tag.as_str().is_empty() {
                    self.previous.display_tag.clone()
                } else {
                    self.previous.compose_tag.clone()
                },
                digest: self.previous.digest.clone(),
                version: self.previous.version.clone(),
                build: self.previous.build.clone(),
            },
            RollbackStage::RolledBack => Action::Finish(Ok(())),
            RollbackStage::Failed => Action::Finish(Err(self.error.clone())),
        }
    }

    /// Takes the job on after it was told how what it asked for went, and notes
    /// in the state of the service what it does now.
    pub fn step(&mut self, reply: Reply, runtime: &mut RuntimeState)
        requires
            !old(self)@.over(),
        ensures
            final(self)@ == old(self)@.next(reply@),
            final(runtime)@ == final(self)@.announced(old(runtime)@),
    {
        match reply {
            Reply::Failed(e) => {
                self.amiss(e);
            },
            Reply::Root(root) => {
                self.onward(root, String::new());
            },
            Reply::Identity(identity) => {
                self.onward(jobs::empty_root(), identity.image_id);
            },
            Reply::Done => {
                self.onward(jobs::empty_root(), String::new());
            },
        }
        self.announce(runtime);
    }

    fn onward(&mut self, root: RollbackRoot, image_id: String)
        requires
            !old(self)@.over(),
        ensures
            final(self)@ == old(self)@.onward(root@, image_id@),
    {
        match self.stage {
            RollbackStage::Capture => {
                self.previous = root;
                self.stage = RollbackStage::Pull;
            },
            RollbackStage::Pull => {
                self.stage = RollbackStage::Verify;
            },
            RollbackStage::Verify => {
                self.stage = RollbackStage::Inspect;
            },
            RollbackStage::Inspect => {
                if image_id.as_str().is_empty() {
                    self.error = "Pulled rollback image did not have an image ID".to_string();
                    self.stage = RollbackStage::Failed;
                } else {
                    self.image_id = image_id;
                    self.stage = RollbackStage::Tag;
                }
            },
            RollbackStage::Tag => {
                self.stage = RollbackStage::WriteTarget;
            },
            RollbackStage::WriteTarget => {
                self.stage = RollbackStage::Recreate;
            },
            RollbackStage::Recreate => {
                self.stage = RollbackStage::Check;
            },
            RollbackStage::Check => {
                self.stage = RollbackStage::Persist;
            },
            RollbackStage::Persist => {
                self.stage = RollbackStage::RolledBack;
            },
            RollbackStage::Restore => {
                self.stage = RollbackStage::RecreatePrior;
            },
            RollbackStage::RecreatePrior => {
                self.stage = RollbackStage::CheckPrior;
            },
            RollbackStage::CheckPrior => {
                let mut m = "Manual rollback failed and the prior running version was restored: ".to_string();
                m.append(self.error.as_str());
                self.error = m;
                self.stage = RollbackStage::Failed;
            },
            RollbackStage::RestoreMetadata => {
                let mut m = "Manual rollback failed and no immutable prior image was available: ".to_string();
                m.append(self.error.as_str());
                self.error = m;
                self.stage = RollbackStage::Failed;
            },
            _ => {},
        }
    }

    fn amiss(&mut self, e: String)
        requires
            !old(self)@.over(),
        ensures
            final(self)@ == old(self)@.amiss(e@),
    {
        match self.stage {
            RollbackStage::Recreate | RollbackStage::Check => {
                self.error = e;
                if self.previous.is_available() {
                    self.stage = RollbackStage::Restore;
                } else {
                    self.stage = RollbackStage::RestoreMetadata;
                }
            },
            RollbackStage::Restore => {
                self.fail_twice(e.as_str());
            },
            RollbackStage::RecreatePrior => {
                let mut m = "Failed to recreate the captured rollback image: ".to_string();
                m.append(e.as_str());
                self.fail_twice(m.as_str());
            },
            RollbackStage::CheckPrior => {
                let mut m = "Restored rollback image failed its health check: ".to_string();
                m.append(e.as_str());
                self.fail_twice(m.as_str());
            },
            RollbackStage::RestoreMetadata => {
                self.error = jobs::two_errors(
                    "Manual rollback failed (",
                    self.error.as_str(),
                    "); no immutable prior image was available and restoring metadata failed: ",
                    e.as_str(),
                );
                self.stage = RollbackStage::Failed;
            },
            _ => {
                self.error = e;
                self.stage = RollbackStage::Failed;
            },
        }
    }

    fn fail_twice(&mut self, e: &str)
        ensures
            final(self)@ == old(self)@.failed(old(self)@.twice_failed(e@)),
    {
        self.error = jobs::two_errors(
            "Manual rollback failed (",
            self.error.as_str(),
            "); restoring the current version also failed: ",
            e,
        );
        self.stage = RollbackStage::Failed;
    }

    fn announce(&self, runtime: &mut RuntimeState)
        ensures
            final(runtime)@ == self@.announced(old(runtime)@),
    {
        match self.stage {
            RollbackStage::Pull => {
                runtime.set_runtime(
                    Some(self.job_id.clone()),
                    "updating",
                    "updates.progress.pulling",
                    "Downloading immutable rollback image",
                );
            },
            RollbackStage::Recreate => {
                runtime.set_runtime(
                    Some(self.job_id.clone()),
                    "updating",
                    "updates.progress.rollback_restarting",
                    "Restarting previous version",
                );
            },
            RollbackStage::Check => {
                runtime.set_runtime(
                    None,
                    "updating",
                    "updates.progress.health_check",
                    "Running health checks",
                );
            },
            RollbackStage::RolledBack => {
                runtime.set_runtime(
                    None,
                    "idle",
                    "updates.progress.rollback_done",
                    "Rollback completed",
                );
                runtime.set_runtime_versions(
                    self.rollback_tag.as_str(),
                    self.rollback_digest.as_str(),
                    self.rollback_version.as_str(),
                    self.rollback_build.as_str(),
                    self.previous.display_tag.as_str(),
                    self.previous.digest.as_str(),
                    self.previous.version.as_str(),
                    self.previous.build.as_str(),
                );
            },
            _ => {},
        }
    }
}

// ── Laws ─────────────────────────────────────────────────────────────────────

impl Rollback {
    /// The job after a number of answers.
    pub open spec fn run(self, answers: Seq<Answer>) -> Rollback
        decreases answers.len(),
    {
        if answers.len() == 0 {
            self
        } else {
            self.run(answers.drop_last()).next(answers.last())
        }
    }

    /// Whether the job asked for what it asks for at a stage, and was told that
    /// it went well.
    #[verifier::opaque]
    pub open spec fn did(self, answers: Seq<Answer>, stage: RollbackStage) -> bool {
        exists|i: int|
            0 <= i < answers.len() && self.run(answers.take(i)).stage == stage && !(
            #[trigger] answers[i] is Failed)
    }

    /// How far a stage is from the start.
    pub open spec fn rank(self) -> int {
        match self.stage {
            RollbackStage::Capture => 0,
            RollbackStage::Pull => 1,
            RollbackStage::Verify => 2,
            RollbackStage::Inspect => 3,
            RollbackStage::Tag => 4,
            RollbackStage::WriteTarget => 5,
            RollbackStage::Recreate => 6,
            RollbackStage::Check => 7,
            RollbackStage::Persist => 8,
            RollbackStage::Restore => 9,
            RollbackStage::RecreatePrior => 10,
            RollbackStage::CheckPrior => 11,
            RollbackStage::RestoreMetadata => 12,
            _ => 13,
        }
    }
}

/// What was done stays done, and the last answer may add to it.
proof fn lemma_did_extends(job: Rollback, answers: Seq<Answer>, stage: RollbackStage)
    requires
        answers.len() > 0,
    ensures
        job.did(answers.drop_last(), stage) ==> job.did(answers, stage),
        job.run(answers.drop_last()).stage == stage && !(answers.last() is Failed) ==> job.did(
            answers,
            stage,
        ),
{
    reveal(Rollback::did);
    let front = answers.drop_last();
    if job.did(front, stage) {
        let i = choose|i: int|
            0 <= i < front.len() && job.run(front.take(i)).stage == stage && !(
            #[trigger] front[i] is Failed);
        assert(front.take(i) =~= answers.take(i));
        assert(answers[i] == front[i]);
    }
    if job.run(front).stage == stage && !(answers.last() is Failed) {
        let i = answers.len() - 1;
        assert(answers.take(i) =~= front);
        assert(answers[i] == answers.last());
    }
}

/// What has been done once a job has come to a stage, and what stays as it was
/// at the start.
proof fn lemma_history(job: Rollback, answers: Seq<Answer>)
    requires
        job.stage == RollbackStage::Capture,
    ensures
        ({
            let end = job.run(answers);
            let now = end.stage;
            let done = now == RollbackStage::Persist || now == RollbackStage::RolledBack;
            let tagged = now == RollbackStage::WriteTarget || now == RollbackStage::Recreate || now
                == RollbackStage::Check || done;
            &&& now == RollbackStage::Verify || now == RollbackStage::Inspect || now
                == RollbackStage::Tag || tagged ==> job.did(answers, RollbackStage::Pull)
            &&& now == RollbackStage::Inspect || now == RollbackStage::Tag || tagged ==> job.did(
                answers,
                RollbackStage::Verify,
            )
            &&& tagged ==> job.did(answers, RollbackStage::Tag)
            &&& now == RollbackStage::Recreate || now == RollbackStage::Check || done ==> job.did(
                answers,
                RollbackStage::WriteTarget,
            )
            &&& now == RollbackStage::Check || done ==> job.did(answers, RollbackStage::Recreate)
            &&& done ==> job.did(answers, RollbackStage::Check)
            &&& now == RollbackStage::RolledBack ==> job.did(answers, RollbackStage::Persist)
            &&& end.pull_ref == job.pull_ref
            &&& end.local_ref == job.local_ref
            &&& end.compose_tag == job.compose_tag
            &&& end.target == job.target
        }),
    decreases answers.len(),
{
    if answers.len() > 0 {
        lemma_history(job, answers.drop_last());
        lemma_did_extends(job, answers, RollbackStage::Pull);
        lemma_did_extends(job, answers, RollbackStage::Verify);
        lemma_did_extends(job, answers, RollbackStage::Tag);
        lemma_did_extends(job, answers, RollbackStage::WriteTarget);
        lemma_did_extends(job, answers, RollbackStage::Recreate);
        lemma_did_extends(job, answers, RollbackStage::Check);
        lemma_did_extends(job, answers, RollbackStage::Persist);
    }
}

/// A rollback ends as done only after the image was pulled, had the digest that
/// was asked for, was tagged by that digest, activated, started without a pull
/// and found well, and the image before it was written down.
pub proof fn law_rolled_back_only_when_well(job: Rollback, answers: Seq<Answer>)
    requires
        job.stage == RollbackStage::Capture,
        job.run(answers).stage == RollbackStage::RolledBack,
    ensures
        job.did(answers, RollbackStage::Pull),
        job.did(answers, RollbackStage::Verify),
        job.did(answers, RollbackStage::Tag),
        job.did(answers, RollbackStage::WriteTarget),
        job.did(answers, RollbackStage::Recreate),
        job.did(answers, RollbackStage::Check),
        job.did(answers, RollbackStage::Persist),
{
    lemma_history(job, answers);
}

/// At every stage a rollback names the image it was asked for by its digest
/// alone: the reference it pulls, the reference it tags and the tag it activates
/// are those it started with.
pub proof fn law_rollback_keeps_its_plan(job: Rollback, answers: Seq<Answer>)
    requires
        job.stage == RollbackStage::Capture,
    ensures
        job.run(answers).pull_ref == job.pull_ref,
        job.run(answers).local_ref == job.local_ref,
        job.run(answers).compose_tag == job.compose_tag,
        job.run(answers).target == job.target,
{
    lemma_history(job, answers);
}

/// Each answer takes a rollback nearer to its end, so that it ends after at most
/// thirteen of them.
pub proof fn law_rollback_ends(job: Rollback, answer: Answer)
    requires
        !job.over(),
    ensures
        job.rank() < job.next(answer).rank() <= 13,
        job.next(answer).rank() == 13 <==> job.next(answer).over(),
{
}

// ── What a rollback does, from its request to its end ────────────────────────

/// What a capture answered with; nothing where it was answered with something else.
pub open spec fn root_in(answer: Answer) -> Root {
    match answer {
        Answer::Root(root) => root,
        _ => no_root(),
    }
}

/// The stage of a rollback that goes well, after `k` answers.
spec fn way(k: int) -> RollbackStage {
    if k == 0 {
        RollbackStage::Capture
    } else if k == 1 {
        RollbackStage::Pull
    } else if k == 2 {
        RollbackStage::Verify
    } else if k == 3 {
        RollbackStage::Inspect
    } else if k == 4 {
        RollbackStage::Tag
    } else if k == 5 {
        RollbackStage::WriteTarget
    } else if k == 6 {
        RollbackStage::Recreate
    } else if k == 7 {
        RollbackStage::Check
    } else if k == 8 {
        RollbackStage::Persist
    } else {
        RollbackStage::RolledBack
    }
}

/// Whether a rollback has left the way to the version that was asked for, for good.
spec fn astray(stage: RollbackStage) -> bool {
    ||| stage == RollbackStage::Restore
    ||| stage == RollbackStage::RecreatePrior
    ||| stage == RollbackStage::CheckPrior
    ||| stage == RollbackStage::RestoreMetadata
    ||| stage == RollbackStage::Failed
}

/// A rollback after one answer more.
proof fn lemma_one_more(job: Rollback, answers: Seq<Answer>, k: int)
    requires
        0 <= k < answers.len(),
    ensures
        job.run(answers.take(k + 1)) == job.run(answers.take(k)).next(answers[k]),
{
    assert(answers.take(k + 1).drop_last() =~= answers.take(k));
    assert(answers.take(k + 1).last() == answers[k]);
}

/// A rollback that left its way does not come back to it.
proof fn lemma_stays_astray(job: Rollback, answers: Seq<Answer>, k: int, m: int)
    requires
        0 <= k <= m <= answers.len(),
        astray(job.run(answers.take(k)).stage),
    ensures
        astray(job.run(answers.take(m)).stage),
    decreases m,
{
    if k < m {
        lemma_stays_astray(job, answers, k, m - 1);
        lemma_one_more(job, answers, m - 1);
    }
}

/// Where a rollback stands after `k` answers, and what it knows then.
proof fn lemma_way(job: Rollback, answers: Seq<Answer>, k: int)
    requires
        job.stage == RollbackStage::Capture,
        0 <= k <= answers.len(),
    ensures
        ({
            let now = job.run(answers.take(k));
            &&& now.job_id == job.job_id && now.target == job.target
            &&& now.pull_ref == job.pull_ref && now.local_ref == job.local_ref
            &&& now.compose_tag == job.compose_tag
            &&& k >= 1 && !(answers[0] is Failed) ==> now.previous == root_in(answers[0])
            &&& k >= 1 && answers[0] is Failed ==> now.stage == RollbackStage::Failed
            &&& k == 0 ==> now == job
            &&& astray(now.stage) && now.stage != RollbackStage::Failed ==> k >= 7
                && job.run(answers.take(6)).stage == RollbackStage::Recreate
            &&& astray(now.stage) || {
                &&& now.stage == way(k)
                &&& forall|j: int| 0 <= j < k && j < 9 ==> !(#[trigger] answers[j] is Failed)
                &&& k >= 4 ==> answers[3] is Identity && answers[3]->Identity_image_id.len() > 0
                    && now.image_id == answers[3]->Identity_image_id
            }
        }),
    decreases k, 0int,
{
    if k == 0 {
        assert(answers.take(0) =~= Seq::<Answer>::empty());
    } else {
        lemma_way(job, answers, k - 1);
        lemma_one_more(job, answers, k - 1);
        if k >= 7 && !astray(job.run(answers.take(k - 1)).stage) {
            lemma_way_at_six(job, answers, k - 1);
        }
    }
}

/// A rollback that is still on its way after more than six answers was to recreate the
/// service after six.
proof fn lemma_way_at_six(job: Rollback, answers: Seq<Answer>, k: int)
    requires
        job.stage == RollbackStage::Capture,
        6 <= k < answers.len(),
        !astray(job.run(answers.take(k)).stage),
    ensures
        job.run(answers.take(6)).stage == RollbackStage::Recreate,
    decreases k, 1int,
{
    if astray(job.run(answers.take(6)).stage) {
        lemma_stays_astray(job, answers, 6, k);
    }
    lemma_way(job, answers, 6);
}

/// What a job asks for after `k` answers.
pub open spec fn asks_at(job: Rollback, answers: Seq<Answer>, k: int, config: UpdaterConfig) -> Deed {
    job.run(answers.take(k)).deed(config)
}

/// Whether something that is asked for starts a service anew from an image on this machine,
/// without a pull.
pub open spec fn recreates(deed: Deed, service: Seq<char>) -> bool {
    deed == Deed::Compose(
        seq!["up"@, "-d"@, "--no-deps"@, "--force-recreate"@, "--pull"@, "never"@, service],
    )
}

/// An image is written into the compose file either before the service was recreated, and
/// then it is the one of the request: by the tag that is made of its digest alone, with the
/// canonical form of the digest and the version and build of the request; or behind that,
/// and then it is the one that was captured as running.
pub proof fn law_rollback_writes_the_right_image(
    request: RollbackRequest,
    image_repo: &str,
    first: RollbackJob,
    answers: Seq<Answer>,
    job: RollbackJob,
    config: UpdaterConfig,
    action: Action,
)
    requires
        call_ensures(RollbackJob::start, (&request, image_repo), Ok(first)),
        job@ == first@.run(answers),
        call_ensures(RollbackJob::action, (&job, &config), action),
        action is WriteImageEnv,
    ensures
        ({
            let tag = action->WriteImageEnv_tag@;
            let digest = action->WriteImageEnv_digest@;
            let version = action->WriteImageEnv_version@;
            let build = action->WriteImageEnv_build@;
            let recreated = exists|k: int|
                0 <= k < answers.len() && recreates(
                    #[trigger] asks_at(first@, answers, k, config),
                    config.compose_service@,
                );
            if !recreated {
                &&& Some(digest) == canonical(request.rollback_digest@)
                &&& tag == "selu-rollback-"@ + digest.subrange("sha256:"@.len() as int, digest.len() as int)
                &&& version == request.rollback_version@
                &&& build == request.rollback_build@
            } else {
                answers[0] matches Answer::Root(running) ==> {
                    &&& tag == if running.compose_tag.len() > 0 {
                        running.compose_tag
                    } else {
                        running.display_tag
                    }
                    &&& digest == running.digest
                    &&& version == running.version
                    &&& build == running.build
                }
            }
        }),
{
    let n = answers.len() as int;
    assert(answers.take(n) =~= answers);
    lemma_way(first@, answers, n);
    reveal_strlit("sha256:");
    if job@.stage == RollbackStage::WriteTarget {
        assert forall|k: int| 0 <= k < n implies !recreates(
            #[trigger] asks_at(first@, answers, k, config),
            config.compose_service@,
        ) by {
            lemma_way(first@, answers, k);
            if astray(first@.run(answers.take(k)).stage) {
                lemma_stays_astray(first@, answers, k, n);
            }
        }
    } else {
        assert(recreates(asks_at(first@, answers, 6, config), config.compose_service@));
    }
}

/// A rollback ends as done only along this way, each step of which went well: the running
/// image was captured; the image was pulled by the digest of the request and seen to have
/// it; its ID was found out and tagged by that digest; that tag was written into the compose
/// file, which no later write changed; the service was recreated without a pull and found
/// well; and the image that was captured was written down as the one to go back to.
pub proof fn law_rolled_back_is_what_was_asked(
    request: RollbackRequest,
    image_repo: &str,
    first: RollbackJob,
    answers: Seq<Answer>,
    config: UpdaterConfig,
    k: int,
)
    requires
        call_ensures(RollbackJob::start, (&request, image_repo), Ok(first)),
        first@.run(answers).stage == RollbackStage::RolledBack,
        0 <= k <= answers.len(),
    ensures
        answers.len() >= 9,
        ({
            let digest = canonical(request.rollback_digest@)->0;
            let repository = repository_of(image_repo@)->0;
            let tag = "selu-rollback-"@ + digest.subrange("sha256:"@.len() as int, digest.len() as int);
            &&& canonical(request.rollback_digest@) is Some
            &&& repository_of(image_repo@) is Some
            &&& asks_at(first@, answers, 0, config) is CaptureRunning
            &&& asks_at(first@, answers, 1, config) == Deed::Docker(
                seq!["pull"@, repository + "@"@ + digest],
            )
            &&& asks_at(first@, answers, 2, config) == (Deed::VerifyDigest {
                image_ref: repository + "@"@ + digest,
                digest,
            })
            &&& asks_at(first@, answers, 3, config) == (Deed::InspectImage {
                image_ref: repository + "@"@ + digest,
                repository: config.image_repo@,
            })
            &&& answers[3] is Identity && answers[3]->Identity_image_id.len() > 0
            &&& asks_at(first@, answers, 4, config) == Deed::Docker(
                seq!["image"@, "tag"@, answers[3]->Identity_image_id, repository + ":"@ + tag],
            )
            &&& asks_at(first@, answers, 5, config) == (Deed::WriteImageEnv {
                tag,
                digest,
                version: request.rollback_version@,
                build: request.rollback_build@,
            })
            &&& recreates(asks_at(first@, answers, 6, config), config.compose_service@)
            &&& asks_at(first@, answers, 7, config) is WaitForHealth
            &&& answers[0] matches Answer::Root(running) ==> asks_at(first@, answers, 8, config)
                == Deed::PersistRollback(running)
        }),
        forall|j: int| 0 <= j < 9 ==> !(#[trigger] answers[j] is Failed),
        k != 5 ==> !(asks_at(first@, answers, k, config) is WriteImageEnv),
        k >= 9 ==> asks_at(first@, answers, k, config) == Deed::Finish(Ok(())),
{
    let n = answers.len() as int;
    assert(answers.take(n) =~= answers);
    lemma_way(first@, answers, n);
    reveal_strlit("sha256:");
    assert forall|j: int| 0 <= j <= n implies #[trigger] first@.run(answers.take(j)).stage == way(
        j,
    ) by {
        lemma_way(first@, answers, j);
        if astray(first@.run(answers.take(j)).stage) {
            lemma_stays_astray(first@, answers, j, n);
        }
    }
    lemma_way(first@, answers, 0);
    lemma_way(first@, answers, 1);
    lemma_way(first@, answers, 2);
    lemma_way(first@, answers, 3);
    lemma_way(first@, answers, 4);
    lemma_way(first@, answers, 5);
    lemma_way(first@, answers, 6);
    lemma_way(first@, answers, 7);
    lemma_way(first@, answers, 8);
    assert(first@.run(answers.take(k)).stage == way(k));
}

/// A rollback that meets no trouble comes to its end.
pub proof fn law_rollback_comes_through(first: Rollback, answers: Seq<Answer>)
    requires
        first.stage == RollbackStage::Capture,
        answers.len() == 9,
        answers[3] is Identity && answers[3]->Identity_image_id.len() > 0,
        forall|j: int| 0 <= j < 9 ==> !(#[trigger] answers[j] is Failed),
    ensures
        first.run(answers).stage == RollbackStage::RolledBack,
{
    assert(answers.take(0) =~= Seq::<Answer>::empty());
    lemma_one_more(first, answers, 0);
    lemma_one_more(first, answers, 1);
    lemma_one_more(first, answers, 2);
    lemma_one_more(first, answers, 3);
    lemma_one_more(first, answers, 4);
    lemma_one_more(first, answers, 5);
    lemma_one_more(first, answers, 6);
    lemma_one_more(first, answers, 7);
    lemma_one_more(first, answers, 8);
    assert(answers.take(9) =~= answers);
}

/// A rollback is started exactly where its request has a tag to show and a digest with a
/// canonical form, and the images have a repository.
pub proof fn law_rollback_needs_tag_and_digest(
    request: RollbackRequest,
    image_repo: &str,
    r: Result<RollbackJob, String>,
    config: UpdaterConfig,
)
    requires
        call_ensures(RollbackJob::start, (&request, image_repo), r),
    ensures
        r is Ok <==> !blank(request.rollback_tag@) && canonical(request.rollback_digest@) is Some
            && repository_of(image_repo@) is Some,
        r matches Ok(job) ==> job@.deed(config) is CaptureRunning,
{
}

/// A rollback that does not come up is taken back: where recreating the service or waiting
/// for it to be well fails, the image that was captured is written into the compose file
/// again. Where it can be started, it is started without a pull and waited for. The job ends
/// with an error in any case.
pub proof fn law_failed_rollback_is_taken_back(
    first: Rollback,
    answers: Seq<Answer>,
    f: int,
    running: Root,
    config: UpdaterConfig,
)
    requires
        first.stage == RollbackStage::Capture,
        6 <= f <= 7,
        answers.len() == f + 4,
        answers[0] == Answer::Root(running),
        answers[3] is Identity && answers[3]->Identity_image_id.len() > 0,
        forall|j: int| 0 <= j < answers.len() ==> (#[trigger] answers[j] is Failed <==> j == f),
    ensures
        asks_at(first, answers, f + 1, config) == (Deed::WriteImageEnv {
            tag: if running.compose_tag.len() > 0 {
                running.compose_tag
            } else {
                running.display_tag
            },
            digest: running.digest,
            version: running.version,
            build: running.build,
        }),
        running.image_id.len() > 0 && running.compose_tag.len() > 0 ==> recreates(
            asks_at(first, answers, f + 2, config),
            config.compose_service@,
        ) && asks_at(first, answers, f + 3, config) is WaitForHealth,
        asks_at(first, answers, f + 4, config) matches Deed::Finish(Err(_)),
        first.run(answers).stage == RollbackStage::Failed,
{
    assert(answers.take(0) =~= Seq::<Answer>::empty());
    lemma_one_more(first, answers, 0);
    lemma_one_more(first, answers, 1);
    lemma_one_more(first, answers, 2);
    lemma_one_more(first, answers, 3);
    lemma_one_more(first, answers, 4);
    lemma_one_more(first, answers, 5);
    lemma_one_more(first, answers, 6);
    lemma_one_more(first, answers, 7);
    lemma_one_more(first, answers, 8);
    lemma_one_more(first, answers, 9);
    if f == 7 {
        lemma_one_more(first, answers, 10);
    }
    assert(answers.take(f + 4) =~= answers);
}

/// The service reports the version of a request as installed only once the rollback is done,
/// and then names the image that was captured as the one before; at no other time does a
/// rollback change the versions that the service reports.
pub proof fn law_rollback_reports_what_runs(
    request: RollbackRequest,
    image_repo: &str,
    first: RollbackJob,
    answers: Seq<Answer>,
    r: Runtime,
)
    requires
        call_ensures(RollbackJob::start, (&request, image_repo), Ok(first)),
        answers.len() > 0,
    ensures
        ({
            let job = first@.run(answers);
            let said = job.announced(r);
            let captured = root_in(answers[0]);
            if job.stage == RollbackStage::RolledBack {
                &&& said.installed.tag == request.rollback_tag@
                &&& Some(said.installed.digest) == canonical(request.rollback_digest@)
                &&& said.installed.version == request.rollback_version@
                &&& said.installed.build == request.rollback_build@
                &&& said.previous.tag == captured.display_tag
                &&& said.previous.digest == captured.digest
                &&& said.previous.version == captured.version
                &&& said.previous.build == captured.build
                &&& said.job is None
                &&& said.status == "idle"@
            } else {
                &&& said.installed == r.installed
                &&& said.previous == r.previous
                &&& said.job == r.job || said.job is None || said.job == Some(request.request_id@)
            }
        }),
{
    let n = answers.len() as int;
    assert(answers.take(n) =~= answers);
    lemma_way(first@, answers, n);
}

} // verus!
