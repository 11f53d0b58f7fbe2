//! The job that starts the message bridge anew.
use vstd::prelude::*;
use vstd::string::*;
use crate::clock::{stamp, Moment};
use crate::text;
use crate::text::{blank, opt_text, texts, trimmed};
use crate::updater::bridge;
use crate::updater::bridge::{bridge_run_line, from_registry, BridgePlan};
use crate::updater::compose::strings;
use crate::updater::storage::WHATSAPP_RETENTION_DAYS;
use crate::updater::types::{ImageIdentity, UpdaterConfig};

verus! {

/// Where the start of the bridge stands.
#[derive(Debug, Clone, Copy, PartialEq, Eq, Structural)]
pub enum BridgeStage {
    /// Read which image is kept beside the one that runs.
    ReadNotes,
    /// Find out which image runs.
    InspectRunning,
    /// Write it down.
    NoteRunning,
    /// Remove the container.
    Remove,
    /// Pull the new image.
    Pull,
    /// Find the network of the updater.
    FindNetwork,
    /// Start the new image.
    Run,
    /// Find out which image runs now.
    InspectNew,
    /// Write it down.
    NoteNew,
    /// Over: the bridge runs.
    Running,
    /// Over, with an error.
    Failed,
}

/// How something that the job asked for went.
#[derive(Debug)]
pub enum BridgeReply {
    Done,
    Notes { previous_ref: String, retain_until: String },
    Identity(Option<ImageIdentity>),
    Network(Option<String>),
    Failed(String),
}

/// How something that the job asked for went, as a value.
pub enum BridgeAnswer {
    Done,
    Notes { previous_ref: Seq<char>, retain_until: Seq<char> },
    Identity(Option<Seq<char>>),
    Network(Option<Seq<char>>),
    Failed(Seq<char>),
}

impl BridgeReply {
    pub open spec fn view(&self) -> BridgeAnswer {
        match *self {
            BridgeReply::Done => BridgeAnswer::Done,
            BridgeReply::Notes { previous_ref, retain_until } => BridgeAnswer::Notes {
                previous_ref: previous_ref@,
                retain_until: retain_until@,
            },
            BridgeReply::Identity(None) => BridgeAnswer::Identity(None),
            BridgeReply::Identity(Some(i)) => BridgeAnswer::Identity(Some(i.immutable_ref@)),
            BridgeReply::Network(n) => BridgeAnswer::Network(opt_text(n)),
            BridgeReply::Failed(e) => BridgeAnswer::Failed(e@),
        }
    }
}

/// What the job asks to be done next.
#[derive(Debug)]
pub enum BridgeAction {
    ReadNotes,
    InspectContainer { container: String, repository: String },
    Persist { current_ref: String, previous_ref: String, retain_until: String },
    Docker(Vec<String>),
    FindNetwork,
    Finish(Result<(), String>),
}

/// What the job asks to be done next, as a value.
pub enum BridgeDeed {
    ReadNotes,
    InspectContainer { container: Seq<char>, repository: Seq<char> },
    Persist { current_ref: Seq<char>, previous_ref: Seq<char>, retain_until: Seq<char> },
    Docker(Seq<Seq<char>>),
    FindNetwork,
    Finish(Result<(), Seq<char>>),
}

impl BridgeAction {
    pub open spec fn view(&self) -> BridgeDeed {
        match *self {
            BridgeAction::ReadNotes => BridgeDeed::ReadNotes,
            BridgeAction::InspectContainer { container, repository } =>
            BridgeDeed::InspectContainer { container: container@, repository: repository@ },
            BridgeAction::Persist { current_ref, previous_ref, retain_until } =>
            BridgeDeed::Persist {
                current_ref: current_ref@,
                previous_ref: previous_ref@,
                retain_until: retain_until@,
            },
            BridgeAction::Docker(args) => BridgeDeed::Docker(texts(args@)),
            BridgeAction::FindNetwork => BridgeDeed::FindNetwork,
            BridgeAction::Finish(Ok(_)) => BridgeDeed::Finish(Ok(())),
            BridgeAction::Finish(Err(e)) => BridgeDeed::Finish(Err(e@)),
        }
    }
}

/// The start of the bridge, as a value.
pub struct Bridge {
    pub image: Seq<char>,
    pub container: Seq<char>,
    pub volume: Seq<char>,
    pub repository: Seq<char>,
    pub inbound_url: Seq<char>,
    pub inbound_token: Seq<char>,
    pub outbound_auth: Seq<char>,
    pub configured_network: Seq<char>,
    pub port: u16,
    pub noted_ref: Seq<char>,
    pub noted_deadline: Seq<char>,
    pub running: Option<Seq<char>>,
    pub network: Seq<char>,
    pub current: Seq<char>,
    pub kept_ref: Seq<char>,
    pub kept_until: Seq<char>,
    pub error: Seq<char>,
    pub stage: BridgeStage,
}

impl Bridge {
    /// Whether the job is over.
    pub open spec fn over(self) -> bool {
        self.stage == BridgeStage::Running || self.stage == BridgeStage::Failed
    }

    /// The job at another stage.
    pub open spec fn at(self, stage: BridgeStage) -> Bridge {
        Bridge { stage, ..self }
    }

    /// The job over with an error.
    pub open spec fn failed(self, error: Seq<char>) -> Bridge {
        Bridge { stage: BridgeStage::Failed, error, ..self }
    }

    /// The job once the image is there: the network is the configured one, or has to
    /// be found.
    pub open spec fn pulled(self) -> Bridge {
        if blank(self.configured_network) {
            self.at(BridgeStage::FindNetwork)
        } else {
            Bridge { network: trimmed(self.configured_network), ..self }.at(BridgeStage::Run)
        }
    }

    /// The job once it is known that the image `current` runs: another one that ran
    /// before is kept for a while.
    pub open spec fn inspected(self, current: Seq<char>, now: Moment) -> Bridge {
        let kept = match self.running {
            Some(previous) if previous != current => (
                previous,
                stamp(now, WHATSAPP_RETENTION_DAYS as int),
            ),
            _ => (self.noted_ref, self.noted_deadline),
        };
        Bridge { current, kept_ref: kept.0, kept_until: kept.1, ..self }.at(BridgeStage::NoteNew)
    }

    /// Whether a reply is one to what the job asked for.
    pub open spec fn expects(self, answer: BridgeAnswer) -> bool {
        answer is Failed || match self.stage {
            BridgeStage::ReadNotes => answer is Notes,
            BridgeStage::InspectRunning | BridgeStage::InspectNew => answer is Identity,
            BridgeStage::FindNetwork => answer is Network,
            _ => answer is Done,
        }
    }

    /// The job after it was told how what it asked for went.
    pub open spec fn next(self, answer: BridgeAnswer, now: Moment) -> Bridge {
        match (self.stage, answer) {
            (BridgeStage::Running, _) => self,
            (BridgeStage::Failed, _) => self,
            (BridgeStage::Remove, _) => if !blank(self.image) && from_registry(self.image) {
                self.at(BridgeStage::Pull)
            } else {
                self.pulled()
            },
            (BridgeStage::FindNetwork, BridgeAnswer::Failed(_)) => Bridge {
                network: Seq::empty(),
                ..self
            }.at(BridgeStage::Run),
            (_, BridgeAnswer::Failed(e)) => self.failed(e),
            (BridgeStage::ReadNotes, BridgeAnswer::Notes { previous_ref, retain_until }) =>
            Bridge { noted_ref: previous_ref, noted_deadline: retain_until, ..self }.at(
                BridgeStage::InspectRunning,
            ),
            (BridgeStage::InspectRunning, BridgeAnswer::Identity(Some(r))) => Bridge {
                running: Some(r),
                ..self
            }.at(BridgeStage::NoteRunning),
            (BridgeStage::InspectRunning, BridgeAnswer::Identity(None)) => self.at(
                BridgeStage::Remove,
            ),
            (BridgeStage::NoteRunning, _) => self.at(BridgeStage::Remove),
            (BridgeStage::Pull, _) => self.pulled(),
            (BridgeStage::FindNetwork, BridgeAnswer::Network(n)) => Bridge {
                network: match n {
                    Some(n) => n,
                    None => Seq::empty(),
                },
                ..self
            }.at(BridgeStage::Run),
            (BridgeStage::Run, _) => self.at(BridgeStage::InspectNew),
            (BridgeStage::InspectNew, BridgeAnswer::Identity(Some(r))) => self.inspected(r, now),
            (BridgeStage::InspectNew, BridgeAnswer::Identity(None)) => self.failed(
                "Could not inspect the running WhatsApp bridge image"@,
            ),
            (BridgeStage::NoteNew, _) => self.at(BridgeStage::Running),
            (_, _) => self,
        }
    }

    /// What the job asks for at its stage.
    pub open spec fn deed(self) -> BridgeDeed {
        match self.stage {
            BridgeStage::ReadNotes => BridgeDeed::ReadNotes,
            BridgeStage::InspectRunning | BridgeStage::InspectNew => BridgeDeed::InspectContainer {
                container: self.container,
                repository: self.repository,
            },
            BridgeStage::NoteRunning => BridgeDeed::Persist {
                current_ref: match self.running {
                    Some(r) => r,
                    None => Seq::empty(),
                },
                previous_ref: self.noted_ref,
                retain_until: self.noted_deadline,
            },
            BridgeStage::Remove => BridgeDeed::Docker(seq!["rm"@, "-f"@, self.container]),
            BridgeStage::Pull => BridgeDeed::Docker(seq!["pull"@, self.image]),
            BridgeStage::FindNetwork => BridgeDeed::FindNetwork,
            BridgeStage::Run => BridgeDeed::Docker(
                bridge_run_line(
                    self.image,
                    self.container,
                    self.volume,
                    self.inbound_url,
                    self.inbound_token,
                    self.outbound_auth,
                    self.network,
                    self.port as nat,
                ),
            ),
            BridgeStage::NoteNew => BridgeDeed::Persist {
                current_ref: self.current,
                previous_ref: self.kept_ref,
                retain_until: self.kept_until,
            },
            BridgeStage::Running => BridgeDeed::Finish(Ok(())),
            BridgeStage::Failed => BridgeDeed::Finish(Err(self.error)),
        }
    }
}

/// The start of the bridge.
pub struct BridgeJob {
    pub plan: BridgePlan,
    pub inbound_url: String,
    pub inbound_token: String,
    pub outbound_auth: String,
    pub configured_network: String,
    pub port: u16,
    pub noted_ref: String,
    pub noted_deadline: String,
    pub running: Option<ImageIdentity>,
    pub network: String,
    pub current: String,
    pub kept_ref: String,
    pub kept_until: String,
    pub error: String,
    pub stage: BridgeStage,
}

/// The reference of an image, where there is one.
pub open spec fn ref_of(identity: Option<ImageIdentity>) -> Option<Seq<char>> {
    match identity {
        Some(i) => Some(i.immutable_ref@),
        None => None,
    }
}

impl BridgeJob {
    pub open spec fn view(&self) -> Bridge {
        Bridge {
            image: self.plan.image@,
            container: self.plan.container@,
            volume: self.plan.volume@,
            repository: self.plan.repository@,
            inbound_url: self.inbound_url@,
            inbound_token: self.inbound_token@,
            outbound_auth: self.outbound_auth@,
            configured_network: self.configured_network@,
            port: self.port,
            noted_ref: self.noted_ref@,
            noted_deadline: self.noted_deadline@,
            running: ref_of(self.running),
            network: self.network@,
            current: self.current@,
            kept_ref: self.kept_ref@,
            kept_until: self.kept_until@,
            error: self.error@,
            stage: self.stage,
        }
    }

    /// The start of the bridge by a plan.
    pub fn start(
        plan: BridgePlan,
        config: &UpdaterConfig,
        inbound_url: &str,
        inbound_token: &str,
        outbound_auth: &str,
    ) -> (r: BridgeJob)
        ensures
            r@ == (Bridge {
                image: plan.image@,
                container: plan.container@,
                volume: plan.volume@,
                repository: plan.repository@,
                inbound_url: inbound_url@,
                inbound_token: inbound_token@,
                outbound_auth: outbound_auth@,
                configured_network: config.whatsapp_bridge_network@,
                port: config.whatsapp_bridge_port,
                noted_ref: Seq::empty(),
                noted_deadline: Seq::empty(),
                running: None,
                network: Seq::empty(),
                current: Seq::empty(),
                kept_ref: Seq::empty(),
                kept_until: Seq::empty(),
                error: Seq::empty(),
                stage: BridgeStage::ReadNotes,
            }),
    {
        BridgeJob {
            plan,
            inbound_url: inbound_url.to_string(),
            inbound_token: inbound_token.to_string(),
            outbound_auth: outbound_auth.to_string(),
            configured_network: config.whatsapp_bridge_network.clone(),
            port: config.whatsapp_bridge_port,
            noted_ref: String::new(),
            noted_deadline: String::new(),
            running: None,
            network: String::new(),
            current: String::new(),
            kept_ref: String::new(),
            kept_until: String::new(),
            error: String::new(),
            stage: BridgeStage::ReadNotes,
        }
    }

    /// What the job asks for.
    pub fn action(&self) -> (r: BridgeAction)
        ensures
            r@ == self@.deed(),
    {
        match self.stage {
            BridgeStage::ReadNotes => BridgeAction::ReadNotes,
            BridgeStage::InspectRunning | BridgeStage::InspectNew => BridgeAction::InspectContainer {
                container: self.plan.container.clone(),
                repository: self.plan.repository.clone(),
            },
            BridgeStage::NoteRunning => BridgeAction::Persist {
                current_ref: match &self.running {
                    Some(i) => i.immutable_ref.clone(),
                    None => String::new(),
                },
                previous_ref: self.noted_ref.clone(),
                retain_until: self.noted_deadline.clone(),
            },
            BridgeStage::Remove => {
                let args = strings(&["rm", "-f", self.plan.container.as_str()]);
                proof {
                    assert(texts(args@) =~= seq!["rm"@, "-f"@, self.plan.container@]);
                }
                BridgeAction::Docker(args)
            },
            BridgeStage::Pull => {
                let args = strings(&["pull", self.plan.image.as_str()]);
                proof {
                    assert(texts(args@) =~= seq!["pull"@, self.plan.image@]);
                }
                BridgeAction::Docker(args)
            },
            BridgeStage::FindNetwork => BridgeAction::FindNetwork,
            BridgeStage::Run => BridgeAction::Docker(
                bridge::bridge_run_args(
                    &self.plan,
                    self.inbound_url.as_str(),
                    self.inbound_token.as_str(),
                    self.outbound_auth.as_str(),
                    self.network.as_str(),
                    self.port,
                ),
            ),
            BridgeStage::NoteNew => BridgeAction::Persist {
                current_ref: self.current.clone(),
                previous_ref: self.kept_ref.clone(),
                retain_until: self.kept_until.clone(),
            },
            BridgeStage::Running => BridgeAction::Finish(Ok(())),
            BridgeStage::Failed => BridgeAction::Finish(Err(self.error.clone())),
        }
    }

    /// Takes the job on once the image is there.
    fn pulled(&mut self)
        ensures
            final(self)@ == old(self)@.pulled(),
    {
        if text::is_blank(self.configured_network.as_str()) {
            self.stage = BridgeStage::FindNetwork;
        } else {
            self.network = text::trim(self.configured_network.as_str()).to_string();
            self.stage = BridgeStage::Run;
        }
    }

    /// Takes the job on once it is known which image runs, before or after the start.
    fn inspected(&mut self, identity: Option<ImageIdentity>, now: &Moment)
        requires
            old(self).stage == BridgeStage::InspectRunning || old(self).stage
                == BridgeStage::InspectNew,
            now.dated(0),
            now.dated(WHATSAPP_RETENTION_DAYS as int),
        ensures
            final(self)@ == old(self)@.next(BridgeAnswer::Identity(ref_of(identity)), *now),
    {
        match (self.stage, identity) {
            (BridgeStage::InspectRunning, Some(i)) => {
                self.running = Some(i);
                self.stage = BridgeStage::NoteRunning;
            },
            (BridgeStage::InspectRunning, None) => {
                self.stage = BridgeStage::Remove;
            },
            (_, Some(i)) => {
                let (kept_ref, kept_until) = bridge::retained_bridge_image(
                    &self.running,
                    &i,
                    self.noted_ref.as_str(),
                    self.noted_deadline.as_str(),
                    now,
                );
                self.kept_ref = kept_ref;
                self.kept_until = kept_until;
                self.current = i.immutable_ref;
                self.stage = BridgeStage::NoteNew;
            },
            (_, None) => {
                self.error = "Could not inspect the running WhatsApp bridge image".to_string();
                self.stage = BridgeStage::Failed;
            },
        }
    }

    /// Takes the job on after it was told how what it asked for went.
    pub fn step(&mut self, reply: BridgeReply, now: &Moment)
        requires
            !old(self)@.over(),
            old(self)@.expects(reply@),
            now.dated(0),
            now.dated(WHATSAPP_RETENTION_DAYS as int),
        ensures
            final(self)@ == old(self)@.next(reply@, *now),
    {
        if self.stage == BridgeStage::Remove {
            if bridge::should_pull_whatsapp_bridge_image(self.plan.image.as_str()) {
                self.stage = BridgeStage::Pull;
            } else {
                self.pulled();
            }
            return;
        }
        match reply {
            BridgeReply::Failed(e) => {
                if self.stage == BridgeStage::FindNetwork {
                    self.network = String::new();
                    self.stage = BridgeStage::Run;
                } else {
                    self.error = e;
                    self.stage = BridgeStage::Failed;
                }
            },
            BridgeReply::Notes { previous_ref, retain_until } => {
                self.noted_ref = previous_ref;
                self.noted_deadline = retain_until;
                self.stage = BridgeStage::InspectRunning;
            },
            BridgeReply::Identity(identity) => {
                self.inspected(identity, now);
            },
            BridgeReply::Network(found) => {
                self.network = match found {
                    Some(n) => n,
                    None => String::new(),
                };
                self.stage = BridgeStage::Run;
            },
            BridgeReply::Done => {
                match self.stage {
                    BridgeStage::NoteRunning => {
                        self.stage = BridgeStage::Remove;
                    },
                    BridgeStage::Pull => {
                        self.pulled();
                    },
                    BridgeStage::Run => {
                        self.stage = BridgeStage::InspectNew;
                    },
                    _ => {
                        self.stage = BridgeStage::Running;
                    },
                }
            },
        }
    }
}

// ── Laws ─────────────────────────────────────────────────────────────────────

/// The container of the bridge is removed only once the image that it runs is written
/// down, or is known not to be there: the job comes to the removal from no other stage.
pub proof fn law_running_bridge_is_noted_first(job: Bridge, answer: BridgeAnswer, now: Moment)
    requires
        job.stage != BridgeStage::Remove,
        job.next(answer, now).stage == BridgeStage::Remove,
    ensures
        job.stage == BridgeStage::NoteRunning || (job.stage == BridgeStage::InspectRunning
            && answer == BridgeAnswer::Identity(None)),
        job.stage == BridgeStage::NoteRunning ==> answer !is Failed,
{
}

/// An image that the bridge ran from is kept when another one takes its place, with a
/// deadline of its own.
pub proof fn law_replaced_bridge_is_kept(job: Bridge, current: Seq<char>, now: Moment)
    requires
        job.stage == BridgeStage::InspectNew,
        job.running is Some,
        job.running != Some(current),
    ensures
        job.next(BridgeAnswer::Identity(Some(current)), now).deed() == (BridgeDeed::Persist {
            current_ref: current,
            previous_ref: job.running->Some_0,
            retain_until: stamp(now, WHATSAPP_RETENTION_DAYS as int),
        }),
{
}

/// The rank of a stage: each step of the job leads to a later one.
pub open spec fn rank(stage: BridgeStage) -> int {
    match stage {
        BridgeStage::ReadNotes => 0,
        BridgeStage::InspectRunning => 1,
        BridgeStage::NoteRunning => 2,
        BridgeStage::Remove => 3,
        BridgeStage::Pull => 4,
        BridgeStage::FindNetwork => 5,
        BridgeStage::Run => 6,
        BridgeStage::InspectNew => 7,
        BridgeStage::NoteNew => 8,
        BridgeStage::Running => 9,
        BridgeStage::Failed => 9,
    }
}

/// The start of the bridge ends: each reply takes it to a later stage.
pub proof fn law_bridge_start_ends(job: Bridge, answer: BridgeAnswer, now: Moment)
    requires
        !job.over(),
        job.expects(answer),
    ensures
        rank(job.next(answer, now).stage) > rank(job.stage),
{
}

/// The start of the bridge after the first `k` answers, each with the moment at which it came.
pub open spec fn after(job: Bridge, answers: Seq<(BridgeAnswer, Moment)>, k: int) -> Bridge
    decreases k,
{
    if k <= 0 {
        job
    } else {
        after(job, answers, k - 1).next(answers[k - 1].0, answers[k - 1].1)
    }
}

/// What a job was started with stays as it was.
proof fn lemma_plan_stays(job: Bridge, answers: Seq<(BridgeAnswer, Moment)>, k: int)
    ensures
        ({
            let j = after(job, answers, k);
            &&& j.image == job.image
            &&& j.container == job.container
            &&& j.volume == job.volume
            &&& j.repository == job.repository
            &&& j.inbound_url == job.inbound_url
            &&& j.inbound_token == job.inbound_token
            &&& j.outbound_auth == job.outbound_auth
            &&& j.configured_network == job.configured_network
            &&& j.port == job.port
        }),
    decreases k,
{
    if k > 0 {
        lemma_plan_stays(job, answers, k - 1);
    }
}

/// Whatever the start of the bridge is told on its way, it looks at the container of its plan and
/// no other, removes that container alone, pulls the image of its plan, and runs it as it was
/// asked to: with the address, the token and the authorization of the request, and in the
/// configured network where there is one.
pub proof fn law_bridge_start_keeps_to_its_plan(
    plan: BridgePlan,
    config: UpdaterConfig,
    inbound_url: &str,
    inbound_token: &str,
    outbound_auth: &str,
    job: BridgeJob,
    answers: Seq<(BridgeAnswer, Moment)>,
    k: int,
)
    requires
        call_ensures(
            BridgeJob::start,
            (plan, &config, inbound_url, inbound_token, outbound_auth),
            job,
        ),
        0 <= k <= answers.len(),
    ensures
        ({
            let j = after(job@, answers, k);
            let deed = j.deed();
            &&& deed is InspectContainer ==> deed->InspectContainer_container == plan.container@
                && deed->InspectContainer_repository == plan.repository@
            &&& j.stage == BridgeStage::Remove ==> deed == BridgeDeed::Docker(
                seq!["rm"@, "-f"@, plan.container@],
            )
            &&& j.stage == BridgeStage::Pull ==> deed == BridgeDeed::Docker(
                seq!["pull"@, plan.image@],
            )
            &&& j.stage == BridgeStage::Run ==> deed is Docker && {
                let line = deed->Docker_0;
                &&& line[0] == "run"@
                &&& line.last() == plan.image@
                &&& line[4] == "--name"@ && line[5] == plan.container@
                &&& line[6] == "-v"@ && line[7] == plan.volume@ + ":/data"@
                &&& line[8] == "-e"@ && line[9] == "SELU_INBOUND_URL="@ + trimmed(inbound_url@)
                &&& line[10] == "-e"@ && line[11] == "SELU_INBOUND_TOKEN="@ + trimmed(
                    inbound_token@,
                )
                &&& !blank(outbound_auth@) ==> line[12] == "-e"@ && line[13]
                    == "BRIDGE_EXPECT_AUTH="@ + trimmed(outbound_auth@)
                &&& blank(outbound_auth@) && j.network.len() > 0 ==> line[12] == "--network"@
                    && line[13] == j.network
                &&& !blank(outbound_auth@) && j.network.len() > 0 ==> line[14] == "--network"@
                    && line[15] == j.network
            }
        }),
{
    lemma_plan_stays(job@, answers, k);
}

/// The network that the bridge runs in is the configured one; only without one is it the one
/// that was found.
pub proof fn law_bridge_runs_in_its_network(
    plan: BridgePlan,
    config: UpdaterConfig,
    inbound_url: &str,
    inbound_token: &str,
    outbound_auth: &str,
    job: BridgeJob,
    answers: Seq<(BridgeAnswer, Moment)>,
    k: int,
)
    requires
        call_ensures(
            BridgeJob::start,
            (plan, &config, inbound_url, inbound_token, outbound_auth),
            job,
        ),
        0 < k <= answers.len(),
        after(job@, answers, k).stage == BridgeStage::Run,
        after(job@, answers, k - 1).expects(answers[k - 1].0),
    ensures
        ({
            let network = after(job@, answers, k).network;
            let answer = answers[k - 1].0;
            &&& !blank(config.whatsapp_bridge_network@) ==> network == trimmed(
                config.whatsapp_bridge_network@,
            )
            &&& blank(config.whatsapp_bridge_network@) && answer is Network ==> network == (
            match answer->Network_0 {
                Some(n) => n,
                None => Seq::empty(),
            })
            &&& blank(config.whatsapp_bridge_network@) && answer is Failed ==> network.len() == 0
        }),
{
    lemma_plan_stays(job@, answers, k - 1);
    lemma_network_is_sought_only_without_one(job@, answers, k - 1);
}

/// A network is looked for only where none is configured.
proof fn lemma_network_is_sought_only_without_one(
    job: Bridge,
    answers: Seq<(BridgeAnswer, Moment)>,
    k: int,
)
    requires
        job.stage == BridgeStage::ReadNotes,
    ensures
        after(job, answers, k).stage == BridgeStage::FindNetwork ==> blank(job.configured_network),
        after(job, answers, k).stage == BridgeStage::Run && !blank(job.configured_network)
            ==> after(job, answers, k).network == trimmed(job.configured_network),
    decreases k,
{
    if k > 0 {
        lemma_network_is_sought_only_without_one(job, answers, k - 1);
        lemma_plan_stays(job, answers, k - 1);
    }
}

/// What the start of the bridge remembers of the notes and of what ran after `k` answers.
spec fn remembers(answers: Seq<(BridgeAnswer, Moment)>, k: int, j: Bridge) -> bool {
    &&& k == 0 ==> j.stage == BridgeStage::ReadNotes
    &&& k == 1 ==> j.stage == BridgeStage::InspectRunning || j.stage == BridgeStage::Failed
    &&& k > 0 ==> j.stage != BridgeStage::ReadNotes
    &&& k > 1 ==> j.stage != BridgeStage::InspectRunning
    &&& k <= 1 ==> j.running is None
    &&& k > 0 && j.stage != BridgeStage::Failed ==> answers[0].0 is Notes && j.noted_ref
        == answers[0].0->Notes_previous_ref && j.noted_deadline
        == answers[0].0->Notes_retain_until
    &&& k > 1 && j.stage != BridgeStage::Failed ==> answers[1].0 is Identity && j.running
        == answers[1].0->Identity_0
}

/// What the start of the bridge remembers after an answer more.
proof fn lemma_remembers_on(
    answers: Seq<(BridgeAnswer, Moment)>,
    k: int,
    before: Bridge,
    answer: BridgeAnswer,
    now: Moment,
)
    requires
        k >= 0,
        remembers(answers, k, before),
        before.expects(answer),
        answers[k] == (answer, now),
    ensures
        remembers(answers, k + 1, before.next(answer, now)),
{
}

/// What the start of the bridge remembers of the notes and of what ran.
proof fn lemma_bridge_memory(job: Bridge, answers: Seq<(BridgeAnswer, Moment)>, k: int)
    requires
        job.stage == BridgeStage::ReadNotes,
        job.running is None,
        forall|i: int|
            0 <= i < k ==> after(job, answers, i).expects((#[trigger] answers[i]).0),
        k >= 0,
    ensures
        remembers(answers, k, after(job, answers, k)),
    decreases k,
{
    if k > 0 {
        lemma_bridge_memory(job, answers, k - 1);
        let a = answers[k - 1];
        lemma_remembers_on(answers, k - 1, after(job, answers, k - 1), a.0, a.1);
    }
}

/// What is written down once the bridge runs anew.
spec fn notes_rightly(
    answers: Seq<(BridgeAnswer, Moment)>,
    answer: (BridgeAnswer, Moment),
    deed: BridgeDeed,
) -> bool {
    let ran = answers[1].0->Identity_0;
    let runs = answer.0->Identity_0;
    let now = answer.1;
    &&& deed is Persist
    &&& Some(deed->Persist_current_ref) == runs
    &&& ran is Some && ran != runs ==> Some(deed->Persist_previous_ref) == ran
        && deed->Persist_retain_until == crate::clock::rfc3339_of(
        (now.secs + 14 * 86_400) as i64,
        now.nanos,
    )
    &&& ran is None || ran == runs ==> deed->Persist_previous_ref
        == answers[0].0->Notes_previous_ref && deed->Persist_retain_until
        == answers[0].0->Notes_retain_until
}

/// What is written down once the bridge runs anew.
proof fn lemma_new_note(
    answers: Seq<(BridgeAnswer, Moment)>,
    k: int,
    before: Bridge,
    answer: BridgeAnswer,
    now: Moment,
)
    requires
        k >= 0,
        remembers(answers, k, before),
        before.expects(answer),
        before.next(answer, now).stage == BridgeStage::NoteNew,
    ensures
        notes_rightly(answers, (answer, now), before.next(answer, now).deed()),
{
    assert(before.stage == BridgeStage::InspectNew);
    assert(k > 1);
    let runs = answer->Identity_0->0;
    let after = before.inspected(runs, now);
    assert(before.next(answer, now) == after);
    match before.running {
        Some(previous) if previous != runs => {},
        _ => {},
    }
}

/// Once the bridge runs anew, what runs is written down as current; and as previous what ran
/// before, for fourteen days, where that is another image, else what was noted as previous.
pub proof fn law_bridge_notes_what_ran(
    plan: BridgePlan,
    config: UpdaterConfig,
    inbound_url: &str,
    inbound_token: &str,
    outbound_auth: &str,
    job: BridgeJob,
    answers: Seq<(BridgeAnswer, Moment)>,
    k: int,
)
    requires
        call_ensures(
            BridgeJob::start,
            (plan, &config, inbound_url, inbound_token, outbound_auth),
            job,
        ),
        0 < k <= answers.len(),
        forall|i: int|
            0 <= i < k ==> after(job@, answers, i).expects((#[trigger] answers[i]).0),
        after(job@, answers, k).stage == BridgeStage::NoteNew,
    ensures
        ({
            let deed = after(job@, answers, k).deed();
            let ran = answers[1].0->Identity_0;
            let runs = answers[k - 1].0->Identity_0;
            let now = answers[k - 1].1;
            &&& deed is Persist
            &&& Some(deed->Persist_current_ref) == runs
            &&& ran is Some && ran != runs ==> Some(deed->Persist_previous_ref) == ran
                && deed->Persist_retain_until == crate::clock::rfc3339_of(
                (now.secs + 14 * 86_400) as i64,
                now.nanos,
            )
            &&& ran is None || ran == runs ==> deed->Persist_previous_ref
                == answers[0].0->Notes_previous_ref && deed->Persist_retain_until
                == answers[0].0->Notes_retain_until
        }),
{
    let before = after(job@, answers, k - 1);
    let a = answers[k - 1];
    lemma_bridge_memory(job@, answers, k - 1);
    lemma_new_note(answers, k - 1, before, a.0, a.1);
}

/// Before its container is removed, what the bridge runs is written down as current, with what was
/// noted as previous beside it.
pub proof fn law_bridge_notes_what_runs_first(
    plan: BridgePlan,
    config: UpdaterConfig,
    inbound_url: &str,
    inbound_token: &str,
    outbound_auth: &str,
    job: BridgeJob,
    previous_ref: Seq<char>,
    retain_until: Seq<char>,
    running: Seq<char>,
    now: Moment,
    later: Moment,
)
    requires
        call_ensures(
            BridgeJob::start,
            (plan, &config, inbound_url, inbound_token, outbound_auth),
            job,
        ),
    ensures
        ({
            let noted = job@.next(BridgeAnswer::Notes { previous_ref, retain_until }, now);
            let found = noted.next(BridgeAnswer::Identity(Some(running)), later);
            let none = noted.next(BridgeAnswer::Identity(None), later);
            &&& job@.deed() is ReadNotes
            &&& noted.deed() is InspectContainer
            &&& found.deed() == (BridgeDeed::Persist {
                current_ref: running,
                previous_ref,
                retain_until,
            })
            &&& found.next(BridgeAnswer::Done, later).deed() == BridgeDeed::Docker(
                seq!["rm"@, "-f"@, plan.container@],
            )
            &&& none.deed() == BridgeDeed::Docker(seq!["rm"@, "-f"@, plan.container@])
        }),
{
}

/// An error ends the start of the bridge with that error, but for two: a container that could not
/// be removed, and a network that was not found, do not keep the bridge from starting.
pub proof fn law_bridge_errors_end_it(job: Bridge, e: Seq<char>, now: Moment)
    requires
        !job.over(),
    ensures
        job.stage != BridgeStage::Remove && job.stage != BridgeStage::FindNetwork ==> job.next(
            BridgeAnswer::Failed(e),
            now,
        ).deed() == BridgeDeed::Finish(Err(e)),
        job.stage == BridgeStage::Remove || job.stage == BridgeStage::FindNetwork ==> job.next(
            BridgeAnswer::Failed(e),
            now,
        ).deed() !is Finish,
{
}

} // verus!
