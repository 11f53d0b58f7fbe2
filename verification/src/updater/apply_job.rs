//! The job that brings the assistant to another version, and back where that
//! does not work.
use vstd::prelude::*;
use vstd::string::*;
use crate::text;
use crate::updater::compose;
use crate::updater::compose::{pull_args, recreate_args, start_args};
use crate::updater::image_ref;
use crate::updater::image_ref::{canonical, digest_error, glued};
use crate::updater::jobs;
use crate::updater::jobs::{no_root, Action, Answer, Deed, Reply};
use crate::updater::runtime::{Root, Runtime, Version};
use crate::updater::types::{ApplyRequest, RollbackRoot, RuntimeState, UpdaterConfig};

verus! {

/// Where an update stands.
#[derive(Debug, Clone, Copy, PartialEq, Eq, Structural)]
pub enum ApplyStage {
    /// Find out which image runs.
    Capture,
    /// Make the compose file start the new image.
    WriteTarget,
    /// Pull the new image.
    Pull,
    /// See that it has the digest that was asked for.
    Verify,
    /// Make it one to set back to.
    CaptureTarget,
    /// Make the compose file start the running image again.
    RestoreEnv,
    /// Start the new image.
    Start,
    /// Wait until it is well.
    Check,
    /// Write down the image that ran before.
    Persist,
    /// Bring the updater along.
    Refresh,
    /// Make the compose file start the image that ran before.
    Revert,
    /// Start the image that ran before.
    Recreate,
    /// Wait until it is well.
    CheckReverted,
    /// Write down the image that did not work.
    PersistFailed,
    /// Over: the new version runs.
    Updated,
    /// Over: the version ran already.
    Current,
    /// Over: the version before runs again.
    Reverted,
    /// Over, with an error.
    Failed,
}

/// An update, as a value.
pub struct Apply {
    pub job_id: Seq<char>,
    pub channel: Seq<char>,
    pub target: Version,
    pub previous: Root,
    pub target_root: Root,
    pub error: Seq<char>,
    pub stage: ApplyStage,
}

impl Apply {
    /// Whether the job is over.
    pub open spec fn over(self) -> bool {
        ||| self.stage == ApplyStage::Updated
        ||| self.stage == ApplyStage::Current
        ||| self.stage == ApplyStage::Reverted
        ||| self.stage == ApplyStage::Failed
    }

    /// The job at another stage.
    pub open spec fn at(self, stage: ApplyStage) -> Apply {
        Apply { stage, ..self }
    }

    /// The job over with an error.
    pub open spec fn failed(self, error: Seq<char>) -> Apply {
        Apply { stage: ApplyStage::Failed, error, ..self }
    }

    /// The job at another stage with an error to keep in mind.
    pub open spec fn troubled(self, stage: ApplyStage, error: Seq<char>) -> Apply {
        Apply { stage, error, ..self }
    }

    /// The job after the new image was started in vain.
    pub open spec fn in_vain(self, error: Seq<char>) -> Apply {
        if self.previous.available() {
            self.troubled(ApplyStage::Revert, error)
        } else {
            self.failed(
                "Update failed ("@ + error + ") and no immutable rollback image was available"@,
            )
        }
    }

    /// What is said where the way back does not work either.
    pub open spec fn twice_failed(self, error: Seq<char>) -> Seq<char> {
        "Update failed ("@ + self.error + "); automatic rollback also failed: "@ + error
    }

    /// The job after something went well; `root` is what a capture found.
    pub open spec fn onward(self, root: Root) -> Apply {
        match self.stage {
            ApplyStage::Capture => if root.digest.len() > 0 && root.digest == self.target.digest {
                Apply { previous: root, ..self }.at(ApplyStage::Current)
            } else {
                Apply { previous: root, ..self }.at(ApplyStage::WriteTarget)
            },
            ApplyStage::WriteTarget => self.at(ApplyStage::Pull),
            ApplyStage::Pull => self.at(ApplyStage::Verify),
            ApplyStage::Verify => self.at(ApplyStage::CaptureTarget),
            ApplyStage::CaptureTarget => Apply { target_root: root, ..self }.at(ApplyStage::Start),
            ApplyStage::RestoreEnv => self.at(ApplyStage::Failed),
            ApplyStage::Start => self.at(ApplyStage::Check),
            ApplyStage::Check => self.at(ApplyStage::Persist),
            ApplyStage::Persist => self.at(ApplyStage::Refresh),
            ApplyStage::Refresh => self.at(ApplyStage::Updated),
            ApplyStage::Revert => self.at(ApplyStage::Recreate),
            ApplyStage::Recreate => self.at(ApplyStage::CheckReverted),
            ApplyStage::CheckReverted => self.at(ApplyStage::PersistFailed),
            ApplyStage::PersistFailed => self.at(ApplyStage::Reverted),
            _ => self,
        }
    }

    /// The job after something went wrong.
    pub open spec fn amiss(self, e: Seq<char>) -> Apply {
        match self.stage {
            ApplyStage::Pull | ApplyStage::Verify | ApplyStage::CaptureTarget => self.troubled(
                ApplyStage::RestoreEnv,
                e,
            ),
            ApplyStage::RestoreEnv => self.failed(
                "Update failed ("@ + self.error
                    + "); restoring prior image metadata also failed: "@ + e,
            ),
            ApplyStage::Start | ApplyStage::Check => self.in_vain(e),
            ApplyStage::Refresh => self.at(ApplyStage::Updated),
            ApplyStage::Revert => self.failed(self.twice_failed(e)),
            ApplyStage::Recreate => self.failed(
                self.twice_failed("Failed to recreate the captured rollback image: "@ + e),
            ),
            ApplyStage::CheckReverted => self.failed(
                self.twice_failed("Restored rollback image failed its health check: "@ + e),
            ),
            ApplyStage::Updated | ApplyStage::Current | ApplyStage::Reverted
            | ApplyStage::Failed => self,
            _ => self.failed(e),
        }
    }

    /// The job after it was told how what it asked for went.
    pub open spec fn next(self, answer: Answer) -> Apply {
        match answer {
            Answer::Failed(e) => self.amiss(e),
            Answer::Root(root) => self.onward(root),
            _ => self.onward(no_root()),
        }
    }

    /// What the service says of itself once the job has come to its stage.
    pub open spec fn announced(self, r: Runtime) -> Runtime {
        match self.stage {
            ApplyStage::WriteTarget => r.doing(
                Some(self.job_id),
                "updating"@,
                "updates.progress.preparing"@,
                "Preparing update"@,
            ),
            ApplyStage::Pull => r.doing(
                Some(self.job_id),
                "updating"@,
                "updates.progress.pulling"@,
                "Downloading image"@,
            ),
            ApplyStage::Start => r.doing(
                Some(self.job_id),
                "updating"@,
                "updates.progress.restarting"@,
                "Restarting Selu"@,
            ),
            ApplyStage::Check => r.doing(
                Some(self.job_id),
                "updating"@,
                "updates.progress.health_check"@,
                "Running health checks"@,
            ),
            ApplyStage::Refresh => r.doing(
                None,
                "idle"@,
                "updates.progress.apply_done"@,
                "Update completed"@,
            ).knowing(self.target, self.previous.shown()),
            ApplyStage::Current => r.doing(
                None,
                "idle"@,
                "updates.progress.already_current"@,
                "You are already on the latest version."@,
            ).knowing(self.target, self.previous.shown()),
            ApplyStage::Reverted => r.doing(
                None,
                "rollback_available"@,
                "updates.progress.rollback_ready"@,
                "Update failed. The previous version was recreated and passed its health check."@,
            ).knowing(self.previous.shown(), self.target_root.shown()),
            _ => r,
        }
    }

    /// What the job asks for at its stage.
    pub open spec fn deed(self, config: UpdaterConfig) -> Deed {
        match self.stage {
            ApplyStage::Capture => Deed::CaptureRunning,
            ApplyStage::WriteTarget => Deed::WriteImageEnv {
                tag: self.target.tag,
                digest: self.target.digest,
                version: self.target.version,
                build: self.target.build,
            },
            ApplyStage::Pull => Deed::Compose(pull_args(config.compose_service@)),
            ApplyStage::Verify => Deed::VerifyDigest {
                image_ref: config.image_repo@ + ":"@ + self.target.tag,
                digest: self.target.digest,
            },
            ApplyStage::CaptureTarget => Deed::CaptureTarget {
                tag: self.target.tag,
                digest: self.target.digest,
                version: self.target.version,
                build: self.target.build,
            },
            ApplyStage::Start => Deed::Compose(start_args(config.compose_service@)),
            ApplyStage::Check | ApplyStage::CheckReverted => Deed::WaitForHealth,
            ApplyStage::Persist => Deed::PersistRollback(self.previous),
            ApplyStage::Refresh => Deed::RefreshUpdater(self.channel),
            ApplyStage::RestoreEnv | ApplyStage::Revert => Deed::WriteImageEnv {
                tag: self.previous.start_tag(),
                digest: self.previous.digest,
                version: self.previous.version,
                build: self.previous.build,
            },
            ApplyStage::Recreate => Deed::Compose(recreate_args(config.compose_service@)),
            ApplyStage::PersistFailed => Deed::PersistRollback(self.target_root),
            ApplyStage::Updated | ApplyStage::Current | ApplyStage::Reverted => Deed::Finish(
                Ok(()),
            ),
            ApplyStage::Failed => Deed::Finish(Err(self.error)),
        }
    }
}

/// An update.
pub struct ApplyJob {
    pub job_id: String,
    pub channel: String,
    pub target_tag: String,
    pub target_digest: String,
    pub target_version: String,
    pub target_build: String,
    pub previous: RollbackRoot,
    pub target: RollbackRoot,
    pub error: String,
    pub stage: ApplyStage,
}

impl ApplyJob {
    pub open spec fn view(&self) -> Apply {
        Apply {
            job_id: self.job_id@,
            channel: self.channel@,
            target: Version {
                tag: self.target_tag@,
                digest: self.target_digest@,
                version: self.target_version@,
                build: self.target_build@,
            },
            previous: self.previous@,
            target_root: self.target@,
            error: self.error@,
            stage: self.stage,
        }
    }

    /// The update that a request asks for; it needs a digest with a canonical
    /// form.
    pub fn start(request: &ApplyRequest) -> (r: Result<ApplyJob, String>)
        ensures
            match canonical(request.target_digest@) {
                None => r is Err && r->Err_0@ == digest_error(),
                Some(d) => r is Ok && r->Ok_0@ == (Apply {
                    job_id: request.request_id@,
                    channel: request.channel@,
                    target: Version {
                        tag: request.target_tag@,
                        digest: d,
                        version: request.target_version@,
                        build: request.target_build@,
                    },
                    previous: no_root(),
                    target_root: no_root(),
                    error: Seq::empty(),
                    stage: ApplyStage::Capture,
                }),
            },
    {
        let target_digest = match image_ref::canonical_sha256_digest(
            request.target_digest.as_str(),
        ) {
            Ok(d) => d,
            Err(e) => {
                return Err(e);
            },
        };
        Ok(
            ApplyJob {
                job_id: request.request_id.clone(),
                channel: request.channel.clone(),
                target_tag: request.target_tag.clone(),
                target_digest,
                target_version: request.target_version.clone(),
                target_build: request.target_build.clone(),
                previous: jobs::empty_root(),
                target: jobs::empty_root(),
                error: String::new(),
                stage: ApplyStage::Capture,
            },
        )
    }

    /// What the job asks for.
    pub fn action(&self, config: &UpdaterConfig) -> (r: Action)
        ensures
            r@ == self@.deed(*config),
    {
        match self.stage {
            ApplyStage::Capture => Action::CaptureRunning,
            ApplyStage::WriteTarget => Action::WriteImageEnv {
                tag: self.target_tag.clone(),
                digest: self.target_digest.clone(),
                version: self.target_version.clone(),
                build: self.target_build.clone(),
            },
            ApplyStage::Pull => Action::Compose(
                compose::pull_service(config.compose_service.as_str()),
            ),
            ApplyStage::Verify => Action::VerifyDigest {
                image_ref: glued(config.image_repo.as_str(), ":", self.target_tag.as_str()),
                digest: self.target_digest.clone(),
            },
            ApplyStage::CaptureTarget => Action::CaptureTarget {
                tag: self.target_tag.clone(),
                digest: self.target_digest.clone(),
                version: self.target_version.clone(),
                build: self.target_build.clone(),
            },
            ApplyStage::Start => Action::Compose(
                compose::start_service(config.compose_service.as_str()),
            ),
            ApplyStage::Check | ApplyStage::CheckReverted => Action::WaitForHealth,
            ApplyStage::Persist => Action::PersistRollback(self.previous.copied()),
            ApplyStage::Refresh => Action::RefreshUpdater(self.channel.clone()),
            ApplyStage::RestoreEnv | ApplyStage::Revert => Action::WriteImageEnv {
                tag: if self.previous.compose_tag.as_str().is_empty() {
                    self.previous.display_tag.clone()
                } else {
                    self.previous.compose_tag.clone()
                },
                digest: self.previous.digest.clone(),
                version: self.previous.version.clone(),
                build: self.previous.build.clone(),
            },
            ApplyStage::Recreate => Action::Compose(
                compose::recreate_service_without_pull(config.compose_service.as_str()),
            ),
            ApplyStage::PersistFailed => Action::PersistRollback(self.target.copied()),
            ApplyStage::Updated | ApplyStage::Current | ApplyStage::Reverted => Action::Finish(
                Ok(()),
            ),
            ApplyStage::Failed => Action::Finish(Err(self.error.clone())),
        }
    }

    /// Takes the job on after it was told how what it asked for went, and notes
    /// in the state of the service what it does now.
    pub fn step(&mut self, reply: Reply, runtime: &mut RuntimeState)
        requires
            !old(self)@.over(),
        ensures
            final(self)@ == old(self)@.next(reply@),
            final(runtime)@ == final(self)@.announced(old(runtime)@),
    {
        match reply {
            Reply::Failed(e) => {
                self.amiss(e);
            },
            Reply::Root(root) => {
                self.onward(root);
            },
            _ => {
                self.onward(jobs::empty_root());
            },
        }
        self.announce(runtime);
    }

    fn onward(&mut self, root: RollbackRoot)
        requires
            !old(self)@.over(),
        ensures
            final(self)@ == old(self)@.onward(root@),
    {
        match self.stage {
            ApplyStage::Capture => {
                let current = !root.digest.as_str().is_empty() && text::same(
                    root.digest.as_str(),
                    self.target_digest.as_str(),
                );
                self.previous = root;
                if current {
                    self.stage = ApplyStage::Current;
                } else {
                    self.stage = ApplyStage::WriteTarget;
                }
            },
            ApplyStage::WriteTarget => {
                self.stage = ApplyStage::Pull;
            },
            ApplyStage::Pull => {
                self.stage = ApplyStage::Verify;
            },
            ApplyStage::Verify => {
                self.stage = ApplyStage::CaptureTarget;
            },
            ApplyStage::CaptureTarget => {
                self.target = root;
                self.stage = ApplyStage::Start;
            },
            ApplyStage::RestoreEnv => {
                self.stage = ApplyStage::Failed;
            },
            ApplyStage::Start => {
                self.stage = ApplyStage::Check;
            },
            ApplyStage::Check => {
                self.stage = ApplyStage::Persist;
            },
            ApplyStage::Persist => {
                self.stage = ApplyStage::Refresh;
            },
            ApplyStage::Refresh => {
                self.stage = ApplyStage::Updated;
            },
            ApplyStage::Revert => {
                self.stage = ApplyStage::Recreate;
            },
            ApplyStage::Recreate => {
                self.stage = ApplyStage::CheckReverted;
            },
            ApplyStage::CheckReverted => {
                self.stage = ApplyStage::PersistFailed;
            },
            ApplyStage::PersistFailed => {
                self.stage = ApplyStage::Reverted;
            },
            _ => {},
        }
    }

    fn amiss(&mut self, e: String)
        requires
            !old(self)@.over(),
        ensures
            final(self)@ == old(self)@.amiss(e@),
    {
        match self.stage {
            ApplyStage::Pull | ApplyStage::Verify | ApplyStage::CaptureTarget => {
                self.error = e;
                self.stage = ApplyStage::RestoreEnv;
            },
            ApplyStage::RestoreEnv => {
                self.error = jobs::two_errors(
                    "Update failed (",
                    self.error.as_str(),
                    "); restoring prior image metadata also failed: ",
                    e.as_str(),
                );
                self.stage = ApplyStage::Failed;
            },
            ApplyStage::Start | ApplyStage::Check => {
                if self.previous.is_available() {
                    self.error = e;
                    self.stage = ApplyStage::Revert;
                } else {
                    self.error = glued(
                        "Update failed (",
                        e.as_str(),
                        ") and no immutable rollback image was available",
                    );
                    self.stage = ApplyStage::Failed;
                }
            },
            ApplyStage::Refresh => {
                self.stage = ApplyStage::Updated;
            },
            ApplyStage::Revert => {
                self.fail_twice(e.as_str());
            },
            ApplyStage::Recreate => {
                let mut m = "Failed to recreate the captured rollback image: ".to_string();
                m.append(e.as_str());
                self.fail_twice(m.as_str());
            },
            ApplyStage::CheckReverted => {
                let mut m = "Restored rollback image failed its health check: ".to_string();
                m.append(e.as_str());
                self.fail_twice(m.as_str());
            },
            _ => {
                self.error = e;
                self.stage = ApplyStage::Failed;
            },
        }
    }

    fn fail_twice(&mut self, e: &str)
        ensures
            final(self)@ == old(self)@.failed(old(self)@.twice_failed(e@)),
    {
        self.error = jobs::two_errors(
            "Update failed (",
            self.error.as_str(),
            "); automatic rollback also failed: ",
            e,
        );
        self.stage = ApplyStage::Failed;
    }

    fn announce(&self, runtime: &mut RuntimeState)
        ensures
            final(runtime)@ == self@.announced(old(runtime)@),
    {
        match self.stage {
            ApplyStage::WriteTarget => {
                runtime.set_runtime(
                    Some(self.job_id.clone()),
                    "updating",
                    "updates.progress.preparing",
                    "Preparing update",
                );
            },
            ApplyStage::Pull => {
                runtime.set_runtime(
                    Some(self.job_id.clone()),
                    "updating",
                    "updates.progress.pulling",
                    "Downloading image",
                );
            },
            ApplyStage::Start => {
                runtime.set_runtime(
                    Some(self.job_id.clone()),
                    "updating",
                    "updates.progress.restarting",
                    "Restarting Selu",
                );
            },
            ApplyStage::Check => {
                runtime.set_runtime(
                    Some(self.job_id.clone()),
                    "updating",
                    "updates.progress.health_check",
                    "Running health checks",
                );
            },
            ApplyStage::Refresh => {
                runtime.set_runtime(
                    None,
                    "idle",
                    "updates.progress.apply_done",
                    "Update completed",
                );
                self.show_target(runtime);
            },
            ApplyStage::Current => {
                runtime.set_runtime(
                    None,
                    "idle",
                    "updates.progress.already_current",
                    "You are already on the latest version.",
                );
                self.show_target(runtime);
            },
            ApplyStage::Reverted => {
                runtime.set_runtime(
                    None,
                    "rollback_available",
                    "updates.progress.rollback_ready",
                    "Update failed. The previous version was recreated and passed its health check.",
                );
                runtime.set_runtime_versions(
                    self.previous.display_tag.as_str(),
                    self.previous.digest.as_str(),
                    self.previous.version.as_str(),
                    self.previous.build.as_str(),
                    self.target.display_tag.as_str(),
                    self.target.digest.as_str(),
                    self.target.version.as_str(),
                    self.target.build.as_str(),
                );
            },
            _ => {},
        }
    }

    fn show_target(&self, runtime: &mut RuntimeState)
        ensures
            final(runtime)@ == old(runtime)@.knowing(self@.target, self@.previous.shown()),
    {
        runtime.set_runtime_versions(
            self.target_tag.as_str(),
            self.target_digest.as_str(),
            self.target_version.as_str(),
            self.target_build.as_str(),
            self.previous.display_tag.as_str(),
            self.previous.digest.as_str(),
            self.previous.version.as_str(),
            self.previous.build.as_str(),
        );
    }
}

// ── Laws ─────────────────────────────────────────────────────────────────────

impl Apply {
    /// The job after a number of answers.
    pub open spec fn run(self, answers: Seq<Answer>) -> Apply
        decreases answers.len(),
    {
        if answers.len() == 0 {
            self
        } else {
            self.run(answers.drop_last()).next(answers.last())
        }
    }

    /// Whether the job asked for what it asks for at a stage, and was told that
    /// it went well.
    #[verifier::opaque]
    pub open spec fn did(self, answers: Seq<Answer>, stage: ApplyStage) -> bool {
        exists|i: int|
            0 <= i < answers.len() && self.run(answers.take(i)).stage == stage && !(
            #[trigger] answers[i] is Failed)
    }

    /// Whether the job asked for what it asks for at a stage.
    pub open spec fn asked(self, answers: Seq<Answer>, stage: ApplyStage) -> bool {
        exists|i: int|
            0 <= i <= answers.len() && #[trigger] self.run(answers.take(i)).stage == stage
    }

    /// How far a stage is from the start.
    pub open spec fn rank(self) -> int {
        match self.stage {
            ApplyStage::Capture => 0,
            ApplyStage::WriteTarget => 1,
            ApplyStage::Pull => 2,
            ApplyStage::Verify => 3,
            ApplyStage::CaptureTarget => 4,
            ApplyStage::RestoreEnv => 5,
            ApplyStage::Start => 6,
            ApplyStage::Check => 7,
            ApplyStage::Persist => 8,
            ApplyStage::Refresh => 9,
            ApplyStage::Revert => 10,
            ApplyStage::Recreate => 11,
            ApplyStage::CheckReverted => 12,
            ApplyStage::PersistFailed => 13,
            _ => 14,
        }
    }
}

/// What was done stays done, and the last answer may add to it.
proof fn lemma_did_extends(job: Apply, answers: Seq<Answer>, stage: ApplyStage)
    requires
        answers.len() > 0,
    ensures
        job.did(answers.drop_last(), stage) ==> job.did(answers, stage),
        job.run(answers.drop_last()).stage == stage && !(answers.last() is Failed) ==> job.did(
            answers,
            stage,
        ),
{
    reveal(Apply::did);
    let front = answers.drop_last();
    if job.did(front, stage) {
        let i = choose|i: int|
            0 <= i < front.len() && job.run(front.take(i)).stage == stage && !(
            #[trigger] front[i] is Failed);
        assert(front.take(i) =~= answers.take(i));
        assert(answers[i] == front[i]);
    }
    if job.run(front).stage == stage && !(answers.last() is Failed) {
        let i = answers.len() - 1;
        assert(answers.take(i) =~= front);
        assert(answers[i] == answers.last());
    }
}

/// What was asked for stays so, and the last stage is one that was asked for.
proof fn lemma_asked_extends(job: Apply, answers: Seq<Answer>, stage: ApplyStage)
    ensures
        answers.len() > 0 && job.asked(answers.drop_last(), stage) ==> job.asked(answers, stage),
        job.run(answers).stage == stage ==> job.asked(answers, stage),
{
    if answers.len() > 0 && job.asked(answers.drop_last(), stage) {
        let front = answers.drop_last();
        let i = choose|i: int|
            0 <= i <= front.len() && #[trigger] job.run(front.take(i)).stage == stage;
        assert(front.take(i) =~= answers.take(i));
        assert(job.run(answers.take(i)).stage == stage);
    }
    if job.run(answers).stage == stage {
        assert(answers.take(answers.len() as int) =~= answers);
        assert(job.run(answers.take(answers.len() as int)).stage == stage);
    }
}

/// What has been done once a job has come to a stage.
proof fn lemma_history(job: Apply, answers: Seq<Answer>)
    requires
        job.stage == ApplyStage::Capture,
    ensures
        ({
            let now = job.run(answers).stage;
            let r = job.run(answers).rank();
            let forward = now == ApplyStage::Persist || now == ApplyStage::Refresh || now
                == ApplyStage::Updated;
            let back = now == ApplyStage::Recreate || now == ApplyStage::CheckReverted || now
                == ApplyStage::PersistFailed || now == ApplyStage::Reverted;
            &&& now == ApplyStage::Start || now == ApplyStage::Check || forward ==> job.did(
                answers,
                ApplyStage::Pull,
            ) && job.did(answers, ApplyStage::Verify)
            &&& now == ApplyStage::Verify || now == ApplyStage::CaptureTarget ==> job.did(
                answers,
                ApplyStage::Pull,
            )
            &&& now == ApplyStage::CaptureTarget ==> job.did(answers, ApplyStage::Verify)
            &&& now == ApplyStage::Check || forward ==> job.did(answers, ApplyStage::Start)
            &&& forward ==> job.did(answers, ApplyStage::Check)
            &&& now == ApplyStage::Refresh || now == ApplyStage::Updated ==> job.did(
                answers,
                ApplyStage::Persist,
            )
            &&& now == ApplyStage::Revert || back ==> job.run(answers).previous.available()
            &&& back ==> job.did(answers, ApplyStage::Revert)
            &&& back && now != ApplyStage::Recreate ==> job.did(answers, ApplyStage::Recreate)
            &&& now == ApplyStage::PersistFailed || now == ApplyStage::Reverted ==> job.did(
                answers,
                ApplyStage::CheckReverted,
            )
        }),
    decreases answers.len(),
{
    if answers.len() > 0 {
        lemma_history(job, answers.drop_last());
        lemma_did_extends(job, answers, ApplyStage::Pull);
        lemma_did_extends(job, answers, ApplyStage::Verify);
        lemma_did_extends(job, answers, ApplyStage::Start);
        lemma_did_extends(job, answers, ApplyStage::Check);
        lemma_did_extends(job, answers, ApplyStage::Persist);
        lemma_did_extends(job, answers, ApplyStage::Revert);
        lemma_did_extends(job, answers, ApplyStage::Recreate);
        lemma_did_extends(job, answers, ApplyStage::CheckReverted);
    }
}

/// An update ends as done only after the new image was pulled, had the digest
/// that was asked for, was started and was found well, and the image before it
/// was written down.
pub proof fn law_updated_only_when_well(job: Apply, answers: Seq<Answer>)
    requires
        job.stage == ApplyStage::Capture,
        job.run(answers).stage == ApplyStage::Updated,
    ensures
        job.did(answers, ApplyStage::Pull),
        job.did(answers, ApplyStage::Verify),
        job.did(answers, ApplyStage::Start),
        job.did(answers, ApplyStage::Check),
        job.did(answers, ApplyStage::Persist),
{
    lemma_history(job, answers);
}

/// An update is reported as set back only after the image before it was
/// activated, started anew without a pull, and found well; a failure of either
/// ends the job with an error.
pub proof fn law_reverted_only_when_well(job: Apply, answers: Seq<Answer>)
    requires
        job.stage == ApplyStage::Capture,
        job.run(answers).stage == ApplyStage::Reverted,
    ensures
        job.run(answers).previous.available(),
        job.did(answers, ApplyStage::Revert),
        job.did(answers, ApplyStage::Recreate),
        job.did(answers, ApplyStage::CheckReverted),
{
    lemma_history(job, answers);
}

/// What has been asked for once a job has come to a stage.
proof fn lemma_before_start(job: Apply, answers: Seq<Answer>)
    requires
        job.stage == ApplyStage::Capture,
    ensures
        ({
            let now = job.run(answers).stage;
            &&& now == ApplyStage::RestoreEnv ==> job.asked(answers, ApplyStage::RestoreEnv)
            &&& job.run(answers).rank() >= 6 && now != ApplyStage::Failed && now
                != ApplyStage::Current ==> job.asked(answers, ApplyStage::Start)
            &&& now == ApplyStage::Failed ==> job.asked(answers, ApplyStage::Start) || job.asked(
                answers,
                ApplyStage::RestoreEnv,
            ) || !job.did(answers, ApplyStage::WriteTarget)
            &&& now == ApplyStage::Capture || now == ApplyStage::WriteTarget ==> !job.did(
                answers,
                ApplyStage::WriteTarget,
            )
        }),
    decreases answers.len(),
{
    reveal(Apply::did);
    lemma_asked_extends(job, answers, ApplyStage::Start);
    lemma_asked_extends(job, answers, ApplyStage::RestoreEnv);
    if answers.len() > 0 {
        let front = answers.drop_last();
        lemma_before_start(job, front);
        if job.did(answers, ApplyStage::WriteTarget) && !job.did(front, ApplyStage::WriteTarget) {
            let i = choose|i: int|
                0 <= i < answers.len() && job.run(answers.take(i)).stage == ApplyStage::WriteTarget
                    && !(#[trigger] answers[i] is Failed);
            if i < front.len() {
                assert(front.take(i) =~= answers.take(i));
                assert(front[i] == answers[i]);
            } else {
                assert(answers.take(i) =~= front);
            }
        }
    }
}

/// An update that fails before the new image was asked to be started, but after
/// the compose file was made to start it, makes the compose file start the
/// running image again.
pub proof fn law_early_failure_restores_env(job: Apply, answers: Seq<Answer>)
    requires
        job.stage == ApplyStage::Capture,
        job.run(answers).stage == ApplyStage::Failed,
        job.did(answers, ApplyStage::WriteTarget),
        !job.asked(answers, ApplyStage::Start),
    ensures
        job.asked(answers, ApplyStage::RestoreEnv),
{
    lemma_before_start(job, answers);
}

/// Each answer takes an update nearer to its end, so that it ends after at most
/// fourteen of them.
pub proof fn law_update_ends(job: Apply, answer: Answer)
    requires
        !job.over(),
    ensures
        job.rank() < job.next(answer).rank() <= 14,
        job.next(answer).rank() == 14 <==> job.next(answer).over(),
{
}

/// An update that ends without an error leaves no active job behind: from its
/// last announcement on, the service is idle or has a way back.
pub proof fn law_update_frees_the_service(job: Apply, r: Runtime)
    requires
        job.stage == ApplyStage::Refresh || job.stage == ApplyStage::Current || job.stage
            == ApplyStage::Reverted,
    ensures
        job.announced(r).job is None,
        job.announced(r).status == "idle"@ || job.announced(r).status == "rollback_available"@,
{
}

// ── What an update does, from its request to its end ─────────────────────────

/// What a capture answered with; nothing where it was answered with something else.
pub open spec fn root_in(answer: Answer) -> Root {
    match answer {
        Answer::Root(root) => root,
        _ => no_root(),
    }
}

/// The stage of an update that goes well, after `k` answers.
spec fn way(k: int) -> ApplyStage {
    if k == 0 {
        ApplyStage::Capture
    } else if k == 1 {
        ApplyStage::WriteTarget
    } else if k == 2 {
        ApplyStage::Pull
    } else if k == 3 {
        ApplyStage::Verify
    } else if k == 4 {
        ApplyStage::CaptureTarget
    } else if k == 5 {
        ApplyStage::Start
    } else if k == 6 {
        ApplyStage::Check
    } else if k == 7 {
        ApplyStage::Persist
    } else if k == 8 {
        ApplyStage::Refresh
    } else {
        ApplyStage::Updated
    }
}

/// Whether an update has left the way to the new version for good.
spec fn astray(stage: ApplyStage) -> bool {
    ||| stage == ApplyStage::RestoreEnv
    ||| stage == ApplyStage::Revert
    ||| stage == ApplyStage::Recreate
    ||| stage == ApplyStage::CheckReverted
    ||| stage == ApplyStage::PersistFailed
    ||| stage == ApplyStage::Current
    ||| stage == ApplyStage::Reverted
    ||| stage == ApplyStage::Failed
}

/// An update after one answer more.
proof fn lemma_one_more(job: Apply, answers: Seq<Answer>, k: int)
    requires
        0 <= k < answers.len(),
    ensures
        job.run(answers.take(k + 1)) == job.run(answers.take(k)).next(answers[k]),
{
    assert(answers.take(k + 1).drop_last() =~= answers.take(k));
    assert(answers.take(k + 1).last() == answers[k]);
}

/// An update that left the way to the new version does not come back to it.
proof fn lemma_stays_astray(job: Apply, answers: Seq<Answer>, k: int, m: int)
    requires
        0 <= k <= m <= answers.len(),
        astray(job.run(answers.take(k)).stage),
    ensures
        astray(job.run(answers.take(m)).stage),
    decreases m,
{
    if k < m {
        lemma_stays_astray(job, answers, k, m - 1);
        lemma_one_more(job, answers, m - 1);
    }
}

/// Whether an update is on its way back to the image that ran before.
spec fn going_back(stage: ApplyStage) -> bool {
    ||| stage == ApplyStage::RestoreEnv
    ||| stage == ApplyStage::Revert
    ||| stage == ApplyStage::Recreate
    ||| stage == ApplyStage::CheckReverted
    ||| stage == ApplyStage::PersistFailed
    ||| stage == ApplyStage::Reverted
}

/// Where an update stands after `k` answers, and what it knows then.
proof fn lemma_way(job: Apply, answers: Seq<Answer>, k: int)
    requires
        job.stage == ApplyStage::Capture,
        0 <= k <= answers.len(),
    ensures
        ({
            let now = job.run(answers.take(k));
            &&& now.job_id == job.job_id && now.channel == job.channel && now.target == job.target
            &&& k >= 1 && !(answers[0] is Failed) ==> now.previous == root_in(answers[0])
            &&& k >= 1 && answers[0] is Failed ==> now.stage == ApplyStage::Failed
            &&& k == 0 ==> now == job
            &&& going_back(now.stage) ==> k >= 3 && job.run(answers.take(2)).stage
                == ApplyStage::Pull
            &&& going_back(now.stage) && now.stage != ApplyStage::RestoreEnv ==> k >= 6
                && now.target_root == root_in(answers[4])
            &&& astray(now.stage) || {
                &&& now.stage == way(k)
                &&& forall|j: int| 0 <= j < k && j < 8 ==> !(#[trigger] answers[j] is Failed)
                &&& k >= 5 ==> now.target_root == root_in(answers[4])
            }
        }),
    decreases k,
{
    if k == 0 {
        assert(answers.take(0) =~= Seq::<Answer>::empty());
    } else {
        lemma_way(job, answers, k - 1);
        lemma_one_more(job, answers, k - 1);
        if k >= 3 && !astray(job.run(answers.take(k - 1)).stage) {
            lemma_way(job, answers, 2);
            if astray(job.run(answers.take(2)).stage) {
                lemma_stays_astray(job, answers, 2, k - 1);
            }
        }
    }
}

/// What a job asks for after `k` answers.
pub open spec fn asks_at(job: Apply, answers: Seq<Answer>, k: int, config: UpdaterConfig) -> Deed {
    job.run(answers.take(k)).deed(config)
}

/// Whether something that is asked for is a pull by the compose file.
pub open spec fn is_pull(deed: Deed) -> bool {
    deed matches Deed::Compose(args) && args.len() > 0 && args[0] == "pull"@
}

/// An image is written into the compose file either before anything was pulled, and then it
/// is the one that the request names, by its tag and the canonical form of its digest; or
/// behind that, and then it is the one that was captured as running, by the tag that it can
/// be started under.
pub proof fn law_update_writes_the_right_image(
    request: ApplyRequest,
    first: ApplyJob,
    answers: Seq<Answer>,
    job: ApplyJob,
    config: UpdaterConfig,
    action: Action,
)
    requires
        call_ensures(ApplyJob::start, (&request,), Ok(first)),
        job@ == first@.run(answers),
        call_ensures(ApplyJob::action, (&job, &config), action),
        action is WriteImageEnv,
    ensures
        ({
            let tag = action->WriteImageEnv_tag@;
            let digest = action->WriteImageEnv_digest@;
            let version = action->WriteImageEnv_version@;
            let build = action->WriteImageEnv_build@;
            let pulled = exists|k: int|
                0 <= k < answers.len() && is_pull(#[trigger] asks_at(first@, answers, k, config));
            if !pulled {
                &&& tag == request.target_tag@
                &&& Some(digest) == canonical(request.target_digest@)
                &&& version == request.target_version@
                &&& build == request.target_build@
            } else {
                answers[0] matches Answer::Root(running) ==> {
                    &&& tag == if running.compose_tag.len() > 0 {
                        running.compose_tag
                    } else {
                        running.display_tag
                    }
                    &&& digest == running.digest
                    &&& version == running.version
                    &&& build == running.build
                }
            }
        }),
{
    reveal_strlit("pull");
    reveal_strlit("up");
    assert("pull"@.len() != "up"@.len());
    let n = answers.len() as int;
    assert(answers.take(n) =~= answers);
    lemma_way(first@, answers, n);
    if job@.stage == ApplyStage::WriteTarget {
        assert forall|k: int| 0 <= k < n implies !is_pull(
            #[trigger] asks_at(first@, answers, k, config),
        ) by {
            lemma_way(first@, answers, k);
            if astray(first@.run(answers.take(k)).stage) {
                lemma_stays_astray(first@, answers, k, n);
            }
        }
    } else {
        assert(going_back(job@.stage));
        assert(is_pull(asks_at(first@, answers, 2, config)));
    }
}

/// An update ends as done only along this way, each step of which went well: the running
/// image was captured; the image of the request was written into the compose file, which no
/// later write changed; the compose file pulled it; it was seen to have the digest of the
/// request; it was captured too; it was started and found well; and the image that was
/// captured first was written down as the one to go back to. Then the updater follows to
/// the channel of the request.
pub proof fn law_updated_is_what_was_asked(
    request: ApplyRequest,
    first: ApplyJob,
    answers: Seq<Answer>,
    config: UpdaterConfig,
    k: int,
)
    requires
        call_ensures(ApplyJob::start, (&request,), Ok(first)),
        first@.run(answers).stage == ApplyStage::Updated,
        0 <= k <= answers.len(),
    ensures
        answers.len() >= 9,
        asks_at(first@, answers, 0, config) is CaptureRunning,
        ({
            let deed = asks_at(first@, answers, 1, config);
            &&& deed is WriteImageEnv
            &&& deed->WriteImageEnv_tag == request.target_tag@
            &&& Some(deed->WriteImageEnv_digest) == canonical(request.target_digest@)
            &&& deed->WriteImageEnv_version == request.target_version@
            &&& deed->WriteImageEnv_build == request.target_build@
        }),
        asks_at(first@, answers, 2, config) == Deed::Compose(
            seq!["pull"@, config.compose_service@],
        ),
        ({
            let deed = asks_at(first@, answers, 3, config);
            &&& deed is VerifyDigest
            &&& deed->VerifyDigest_image_ref == config.image_repo@ + ":"@ + request.target_tag@
            &&& Some(deed->VerifyDigest_digest) == canonical(request.target_digest@)
        }),
        ({
            let deed = asks_at(first@, answers, 4, config);
            &&& deed is CaptureTarget
            &&& deed->CaptureTarget_tag == request.target_tag@
            &&& Some(deed->CaptureTarget_digest) == canonical(request.target_digest@)
            &&& deed->CaptureTarget_version == request.target_version@
            &&& deed->CaptureTarget_build == request.target_build@
        }),
        asks_at(first@, answers, 5, config) == Deed::Compose(
            seq!["up"@, "-d"@, config.compose_service@],
        ),
        asks_at(first@, answers, 6, config) is WaitForHealth,
        answers[0] matches Answer::Root(running) ==> asks_at(first@, answers, 7, config)
            == Deed::PersistRollback(running),
        asks_at(first@, answers, 8, config) == Deed::RefreshUpdater(request.channel@),
        forall|j: int| 0 <= j < 8 ==> !(#[trigger] answers[j] is Failed),
        k != 1 ==> !(asks_at(first@, answers, k, config) is WriteImageEnv),
        k >= 9 ==> asks_at(first@, answers, k, config) == Deed::Finish(Ok(())),
{
    let n = answers.len() as int;
    assert(answers.take(n) =~= answers);
    lemma_way(first@, answers, n);
    assert forall|j: int| 0 <= j <= n implies #[trigger] first@.run(answers.take(j)).stage == way(
        j,
    ) by {
        lemma_way(first@, answers, j);
        if astray(first@.run(answers.take(j)).stage) {
            lemma_stays_astray(first@, answers, j, n);
        }
    }
    lemma_way(first@, answers, 0);
    lemma_way(first@, answers, 1);
    lemma_way(first@, answers, 2);
    lemma_way(first@, answers, 3);
    lemma_way(first@, answers, 4);
    lemma_way(first@, answers, 5);
    lemma_way(first@, answers, 6);
    lemma_way(first@, answers, 7);
    lemma_way(first@, answers, 8);
    assert(first@.run(answers.take(k)).stage == way(k));
}

/// An update that meets no trouble comes to its end: where what runs is another image than
/// the one of the request and everything goes well, the new version is installed.
pub proof fn law_update_comes_through(
    request: ApplyRequest,
    first: ApplyJob,
    running: Root,
    answers: Seq<Answer>,
)
    requires
        call_ensures(ApplyJob::start, (&request,), Ok(first)),
        answers.len() == 9,
        answers[0] == Answer::Root(running),
        Some(running.digest) != canonical(request.target_digest@) || running.digest.len() == 0,
        forall|j: int| 0 <= j < 8 ==> !(#[trigger] answers[j] is Failed),
    ensures
        first@.run(answers).stage == ApplyStage::Updated,
{
    assert(answers.take(0) =~= Seq::<Answer>::empty());
    lemma_one_more(first@, answers, 0);
    lemma_one_more(first@, answers, 1);
    lemma_one_more(first@, answers, 2);
    lemma_one_more(first@, answers, 3);
    lemma_one_more(first@, answers, 4);
    lemma_one_more(first@, answers, 5);
    lemma_one_more(first@, answers, 6);
    lemma_one_more(first@, answers, 7);
    lemma_one_more(first@, answers, 8);
    assert(answers.take(9) =~= answers);
}

/// An update stops at once, and without touching anything, exactly where what runs has the
/// digest of the request already.
pub proof fn law_installed_version_is_left_alone(
    request: ApplyRequest,
    first: ApplyJob,
    running: Root,
    config: UpdaterConfig,
)
    requires
        call_ensures(ApplyJob::start, (&request,), Ok(first)),
    ensures
        first@.next(Answer::Root(running)).deed(config) == Deed::Finish(Ok(())) <==>
            running.digest.len() > 0 && Some(running.digest) == canonical(request.target_digest@),
        first@.next(Answer::Root(running)).over() <==> running.digest.len() > 0 && Some(
            running.digest,
        ) == canonical(request.target_digest@),
{
}

/// An update is started exactly where its request names a digest that has a canonical form.
pub proof fn law_update_needs_a_digest(
    request: ApplyRequest,
    r: Result<ApplyJob, String>,
    config: UpdaterConfig,
)
    requires
        call_ensures(ApplyJob::start, (&request,), r),
    ensures
        r is Ok <==> canonical(request.target_digest@) is Some,
        r matches Ok(job) ==> job@.deed(config) is CaptureRunning,
{
}

/// An image that does not come up is taken back: where starting it or waiting for it to be
/// well fails, and the image that was captured first can be started, then that one is
/// written into the compose file, started without a pull and waited for; and once it is
/// well, the image that failed is written down and the update ends without an error.
pub proof fn law_failed_image_is_taken_back(
    first: Apply,
    answers: Seq<Answer>,
    f: int,
    running: Root,
    failed: Root,
    config: UpdaterConfig,
)
    requires
        first.stage == ApplyStage::Capture,
        5 <= f <= 6,
        answers.len() == f + 5,
        answers[0] == Answer::Root(running),
        running.digest.len() == 0 || running.digest != first.target.digest,
        running.image_id.len() > 0 && running.compose_tag.len() > 0,
        answers[4] == Answer::Root(failed),
        forall|j: int| 0 <= j < answers.len() ==> (#[trigger] answers[j] is Failed <==> j == f),
    ensures
        asks_at(first, answers, f + 1, config) == (Deed::WriteImageEnv {
            tag: running.compose_tag,
            digest: running.digest,
            version: running.version,
            build: running.build,
        }),
        asks_at(first, answers, f + 2, config) == Deed::Compose(
            seq![
                "up"@,
                "-d"@,
                "--no-deps"@,
                "--force-recreate"@,
                "--pull"@,
                "never"@,
                config.compose_service@,
            ],
        ),
        asks_at(first, answers, f + 3, config) is WaitForHealth,
        asks_at(first, answers, f + 4, config) == Deed::PersistRollback(failed),
        asks_at(first, answers, f + 5, config) == Deed::Finish(Ok(())),
        first.run(answers).stage == ApplyStage::Reverted,
{
    assert(answers.take(0) =~= Seq::<Answer>::empty());
    lemma_one_more(first, answers, 0);
    lemma_one_more(first, answers, 1);
    lemma_one_more(first, answers, 2);
    lemma_one_more(first, answers, 3);
    lemma_one_more(first, answers, 4);
    lemma_one_more(first, answers, 5);
    lemma_one_more(first, answers, 6);
    lemma_one_more(first, answers, 7);
    lemma_one_more(first, answers, 8);
    lemma_one_more(first, answers, 9);
    if f == 6 {
        lemma_one_more(first, answers, 10);
    }
    assert(answers.take(f + 5) =~= answers);
}

/// An update that fails before the new image was started says why, and asks for the image
/// that was captured to be written into the compose file again before it ends.
pub proof fn law_early_failure_is_told(
    first: Apply,
    answers: Seq<Answer>,
    f: int,
    running: Root,
    e: Seq<char>,
    config: UpdaterConfig,
)
    requires
        first.stage == ApplyStage::Capture,
        2 <= f <= 4,
        answers.len() == f + 2,
        answers[0] == Answer::Root(running),
        running.digest.len() == 0 || running.digest != first.target.digest,
        answers[f] == Answer::Failed(e),
        forall|j: int| 0 <= j < answers.len() ==> (#[trigger] answers[j] is Failed <==> j == f),
    ensures
        asks_at(first, answers, f + 1, config) == (Deed::WriteImageEnv {
            tag: if running.compose_tag.len() > 0 {
                running.compose_tag
            } else {
                running.display_tag
            },
            digest: running.digest,
            version: running.version,
            build: running.build,
        }),
        asks_at(first, answers, f + 2, config) == Deed::Finish(Err(e)),
{
    assert(answers.take(0) =~= Seq::<Answer>::empty());
    lemma_one_more(first, answers, 0);
    lemma_one_more(first, answers, 1);
    lemma_one_more(first, answers, 2);
    lemma_one_more(first, answers, 3);
    if f >= 3 {
        lemma_one_more(first, answers, 4);
    }
    if f == 4 {
        lemma_one_more(first, answers, 5);
    }
    assert(answers.take(f + 2) =~= answers);
}

/// The service reports the version of a request as installed only once the update was found
/// well and the way back was written down, or where that version ran already; it then names
/// the image that was captured as the one before. After a way back it names the captured
/// image as installed and the one that failed as the one before. At no other time does an
/// update change the versions that the service reports.
pub proof fn law_update_reports_what_runs(
    request: ApplyRequest,
    first: ApplyJob,
    answers: Seq<Answer>,
    r: Runtime,
)
    requires
        call_ensures(ApplyJob::start, (&request,), Ok(first)),
        answers.len() > 0,
    ensures
        ({
            let job = first@.run(answers);
            let said = job.announced(r);
            let captured = root_in(answers[0]);
            if job.stage == ApplyStage::Refresh || job.stage == ApplyStage::Current {
                &&& said.installed.tag == request.target_tag@
                &&& Some(said.installed.digest) == canonical(request.target_digest@)
                &&& said.installed.version == request.target_version@
                &&& said.installed.build == request.target_build@
                &&& said.previous.tag == captured.display_tag
                &&& said.previous.digest == captured.digest
                &&& said.previous.version == captured.version
                &&& said.previous.build == captured.build
                &&& said.job is None
            } else if job.stage == ApplyStage::Reverted {
                &&& said.installed.tag == captured.display_tag
                &&& said.installed.digest == captured.digest
                &&& said.installed.version == captured.version
                &&& said.installed.build == captured.build
                &&& said.previous.tag == root_in(answers[4]).display_tag
                &&& said.previous.digest == root_in(answers[4]).digest
                &&& said.previous.version == root_in(answers[4]).version
                &&& said.previous.build == root_in(answers[4]).build
                &&& said.job is None
            } else {
                &&& said.installed == r.installed
                &&& said.previous == r.previous
                &&& said.job == r.job || said.job == Some(request.request_id@)
            }
        }),
{
    let n = answers.len() as int;
    assert(answers.take(n) =~= answers);
    lemma_way(first@, answers, n);
}

} // verus!
