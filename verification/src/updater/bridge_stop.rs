//! The job that stops the message bridge and clears what it knows of a phone.
use vstd::prelude::*;
use vstd::string::*;
use crate::text;
use crate::text::{blank, occurs_in, texts, trimmed};
use crate::updater::bridge;
use crate::updater::bridge::clear_line;
use crate::updater::compose::strings;
use crate::updater::types::UpdaterConfig;

verus! {

/// Where stopping the bridge stands.
#[derive(Debug, Clone, Copy, PartialEq, Eq, Structural)]
pub enum StopStage {
    /// Remove the container of the bridge.
    RemoveContainer,
    /// Remove a helper that may be left over.
    SweepBefore,
    /// Clear the directory of this machine that holds the data.
    ClearMount,
    /// Remove the helper.
    SweepAfter,
    /// Remove the volume that holds the data.
    RemoveVolume,
    /// Create it anew.
    CreateVolume,
    /// Over: the bridge is stopped and its data cleared.
    Stopped,
    /// Over, with an error.
    Failed,
}

/// Stopping the bridge, as a value.
pub struct Stopping {
    pub container: Seq<char>,
    pub volume: Seq<char>,
    pub helper: Seq<char>,
    /// The command line that clears a directory of this machine, or why there is none.
    pub clear: Result<Seq<Seq<char>>, Seq<char>>,
    /// Why the directory could not be cleared.
    pub trouble: Option<Seq<char>>,
    pub error: Seq<char>,
    pub stage: StopStage,
}

/// What is said of an error that came up while something was done.
pub open spec fn while_doing(what: Seq<char>, e: Seq<char>) -> Seq<char> {
    what + ": "@ + e
}

impl Stopping {
    /// Whether the job is over.
    pub open spec fn over(self) -> bool {
        self.stage == StopStage::Stopped || self.stage == StopStage::Failed
    }

    /// The job at another stage.
    pub open spec fn at(self, stage: StopStage) -> Stopping {
        Stopping { stage, ..self }
    }

    /// The job over with an error.
    pub open spec fn failed(self, error: Seq<char>) -> Stopping {
        Stopping { stage: StopStage::Failed, error, ..self }
    }

    /// The job once the container is gone: a directory is cleared by a helper, a volume is
    /// removed and created anew.
    pub open spec fn removed(self) -> Stopping {
        if occurs_in(trimmed(self.volume), "/"@) {
            match self.clear {
                Ok(_) => self.at(StopStage::SweepBefore),
                Err(e) => self.failed(e),
            }
        } else {
            self.at(StopStage::RemoveVolume)
        }
    }

    /// The command line that the job asks for at its stage.
    pub open spec fn line(self) -> Seq<Seq<char>> {
        match self.stage {
            StopStage::RemoveContainer => seq!["rm"@, "-f"@, self.container],
            StopStage::SweepBefore | StopStage::SweepAfter => seq!["rm"@, "-f"@, self.helper],
            StopStage::ClearMount => match self.clear {
                Ok(line) => line,
                Err(_) => Seq::empty(),
            },
            StopStage::RemoveVolume => seq!["volume"@, "rm"@, "-f"@, self.volume],
            StopStage::CreateVolume => seq!["volume"@, "create"@, self.volume],
            _ => Seq::empty(),
        }
    }

    /// The job after docker was asked: `outcome` is its error, if any. Something that was
    /// not there is as good as removed.
    pub open spec fn next(self, outcome: Option<Seq<char>>) -> Stopping {
        match (self.stage, outcome) {
            (StopStage::RemoveContainer, Some(e)) => if occurs_in(e, "No such container"@) {
                self.removed()
            } else {
                self.failed(e)
            },
            (StopStage::RemoveContainer, None) => self.removed(),
            (StopStage::SweepBefore, _) => self.at(StopStage::ClearMount),
            (StopStage::ClearMount, _) => Stopping { trouble: outcome, ..self }.at(
                StopStage::SweepAfter,
            ),
            (StopStage::SweepAfter, _) => match self.trouble {
                Some(e) => self.failed(
                    while_doing("clear WhatsApp bridge auth bind mount"@, e),
                ),
                None => self.at(StopStage::Stopped),
            },
            (StopStage::RemoveVolume, Some(e)) => if occurs_in(e, "No such volume"@) {
                self.at(StopStage::CreateVolume)
            } else {
                self.failed(while_doing("remove WhatsApp bridge data volume"@, e))
            },
            (StopStage::RemoveVolume, None) => self.at(StopStage::CreateVolume),
            (StopStage::CreateVolume, Some(e)) => self.failed(
                while_doing("recreate WhatsApp bridge data volume"@, e),
            ),
            (StopStage::CreateVolume, None) => self.at(StopStage::Stopped),
            (_, _) => self,
        }
    }
}

/// What the job asks for: a command line of docker, or nothing more.
#[derive(Debug)]
pub enum StopAction {
    Docker(Vec<String>),
    Finish(Result<(), String>),
}

/// Stopping the bridge.
#[derive(Debug)]
pub struct BridgeStop {
    pub container: String,
    pub volume: String,
    pub helper: String,
    pub clear: Result<Vec<String>, String>,
    pub trouble: Option<String>,
    pub error: String,
    pub stage: StopStage,
}

/// What is said of an error that came up while something was done.
fn say_while_doing(what: &str, e: &str) -> (r: String)
    ensures
        r@ == while_doing(what@, e@),
{
    let mut out = what.to_string();
    out.append(": ");
    out.append(e);
    out
}

impl BridgeStop {
    pub open spec fn view(&self) -> Stopping {
        Stopping {
            container: self.container@,
            volume: self.volume@,
            helper: self.helper@,
            clear: match self.clear {
                Ok(line) => Ok(texts(line@)),
                Err(e) => Err(e@),
            },
            trouble: text::opt_text(self.trouble),
            error: self.error@,
            stage: self.stage,
        }
    }

    /// Stops the bridge, where there is one; `token` makes the name of the helper.
    pub fn start(config: &UpdaterConfig, channel: &str, token: &str) -> (r: BridgeStop)
        ensures
            if !config.whatsapp_bridge_enabled {
                r@.stage == StopStage::Stopped
            } else if blank(config.whatsapp_bridge_container_name@) {
                r@.stage == StopStage::Failed && r@.error
                    == "WhatsApp bridge container name must be configured"@
            } else if blank(config.whatsapp_bridge_data_volume@) {
                r@.stage == StopStage::Failed && r@.error
                    == "WhatsApp bridge data volume must be configured"@
            } else {
                &&& r@.stage == StopStage::RemoveContainer
                &&& r@.container == trimmed(config.whatsapp_bridge_container_name@)
                &&& r@.volume == trimmed(config.whatsapp_bridge_data_volume@)
                &&& r@.helper == "selu-whatsapp-auth-cleanup-"@ + token@
                &&& r@.clear == clear_line(*config, r@.helper, r@.volume, channel@)
                &&& r@.trouble is None
            },
    {
        let (container, volume) = match bridge::stop_plan(config) {
            Ok(Some(plan)) => plan,
            Ok(None) => {
                return BridgeStop {
                    container: String::new(),
                    volume: String::new(),
                    helper: String::new(),
                    clear: Err(String::new()),
                    trouble: None,
                    error: String::new(),
                    stage: StopStage::Stopped,
                };
            },
            Err(e) => {
                return BridgeStop {
                    container: String::new(),
                    volume: String::new(),
                    helper: String::new(),
                    clear: Err(String::new()),
                    trouble: None,
                    error: e,
                    stage: StopStage::Failed,
                };
            },
        };
        let mut helper = "selu-whatsapp-auth-cleanup-".to_string();
        helper.append(token);
        let clear = bridge::clear_bind_mount_command(
            config,
            helper.as_str(),
            volume.as_str(),
            channel,
        );
        BridgeStop {
            container,
            volume,
            helper,
            clear,
            trouble: None,
            error: String::new(),
            stage: StopStage::RemoveContainer,
        }
    }

    /// What the job asks for.
    pub fn action(&self) -> (r: StopAction)
        ensures
            match r {
                StopAction::Docker(line) => !self@.over() && texts(line@) == self@.line(),
                StopAction::Finish(Ok(_)) => self@.stage == StopStage::Stopped,
                StopAction::Finish(Err(e)) => self@.stage == StopStage::Failed && e@ == self@.error,
            },
    {
        let line = match self.stage {
            StopStage::RemoveContainer => strings(&["rm", "-f", self.container.as_str()]),
            StopStage::SweepBefore | StopStage::SweepAfter => strings(
                &["rm", "-f", self.helper.as_str()],
            ),
            StopStage::ClearMount => match &self.clear {
                Ok(line) => text::copy_all(line),
                Err(_) => Vec::new(),
            },
            StopStage::RemoveVolume => strings(&["volume", "rm", "-f", self.volume.as_str()]),
            StopStage::CreateVolume => strings(&["volume", "create", self.volume.as_str()]),
            StopStage::Stopped => {
                return StopAction::Finish(Ok(()));
            },
            StopStage::Failed => {
                return StopAction::Finish(Err(self.error.clone()));
            },
        };
        proof {
            assert(texts(line@) =~= self@.line());
        }
        StopAction::Docker(line)
    }

    /// Takes the job on once the container is gone.
    fn go_on(&mut self)
        ensures
            final(self)@ == old(self)@.removed(),
    {
        if bridge::is_bind_mount_source(self.volume.as_str()) {
            match &self.clear {
                Ok(_) => {
                    self.stage = StopStage::SweepBefore;
                },
                Err(e) => {
                    self.error = e.clone();
                    self.stage = StopStage::Failed;
                },
            }
        } else {
            self.stage = StopStage::RemoveVolume;
        }
    }

    /// Takes the job on after docker was asked; `outcome` is its error, if any.
    pub fn step(&mut self, outcome: Result<(), String>)
        ensures
            final(self)@ == old(self)@.next(
                match outcome {
                    Ok(_) => None,
                    Err(e) => Some(e@),
                },
            ),
    {
        match self.stage {
            StopStage::RemoveContainer => {
                if bridge::may_clear_after_removal(&outcome) {
                    self.go_on();
                } else if let Err(e) = outcome {
                    self.error = e;
                    self.stage = StopStage::Failed;
                }
            },
            StopStage::SweepBefore => {
                self.stage = StopStage::ClearMount;
            },
            StopStage::ClearMount => {
                self.trouble = match outcome {
                    Ok(_) => None,
                    Err(e) => Some(e),
                };
                self.stage = StopStage::SweepAfter;
            },
            StopStage::SweepAfter => match &self.trouble {
                Some(e) => {
                    self.error = say_while_doing(
                        "clear WhatsApp bridge auth bind mount",
                        e.as_str(),
                    );
                    self.stage = StopStage::Failed;
                },
                None => {
                    self.stage = StopStage::Stopped;
                },
            },
            StopStage::RemoveVolume => {
                if bridge::volume_is_gone(&outcome) {
                    self.stage = StopStage::CreateVolume;
                } else if let Err(e) = outcome {
                    self.error = say_while_doing(
                        "remove WhatsApp bridge data volume",
                        e.as_str(),
                    );
                    self.stage = StopStage::Failed;
                }
            },
            StopStage::CreateVolume => match outcome {
                Ok(_) => {
                    self.stage = StopStage::Stopped;
                },
                Err(e) => {
                    self.error = say_while_doing(
                        "recreate WhatsApp bridge data volume",
                        e.as_str(),
                    );
                    self.stage = StopStage::Failed;
                },
            },
            StopStage::Stopped | StopStage::Failed => {},
        }
    }
}

// ── Laws ─────────────────────────────────────────────────────────────────────

/// How far a stage is from the end.
pub open spec fn stop_way(stage: StopStage) -> int {
    match stage {
        StopStage::RemoveContainer => 4,
        StopStage::SweepBefore => 3,
        StopStage::ClearMount => 2,
        StopStage::SweepAfter => 1,
        StopStage::RemoveVolume => 2,
        StopStage::CreateVolume => 1,
        StopStage::Stopped => 0,
        StopStage::Failed => 0,
    }
}

/// Stopping the bridge comes to its end: each answer of docker takes it nearer.
pub proof fn law_stop_ends(job: Stopping, outcome: Option<Seq<char>>)
    requires
        !job.over(),
    ensures
        0 <= stop_way(job.next(outcome).stage) < stop_way(job.stage),
{
}

/// What the bridge knows of a phone is not touched while its container may still be there:
/// it is only cleared once docker removed the container or had none.
pub proof fn law_data_outlives_the_container(job: Stopping, outcome: Option<Seq<char>>)
    requires
        job.stage == StopStage::RemoveContainer,
        outcome matches Some(e) && !occurs_in(e, "No such container"@),
    ensures
        job.next(outcome) == job.failed(outcome->0),
{
}

/// The bridge counts as stopped only once its data was cleared: the helper went through a
/// directory, or the volume was created anew.
pub proof fn law_stopped_is_cleared(job: Stopping, outcome: Option<Seq<char>>)
    requires
        !job.over(),
        job.next(outcome).stage == StopStage::Stopped,
    ensures
        job.stage == StopStage::SweepAfter && job.trouble is None || job.stage
            == StopStage::CreateVolume && outcome is None,
{
}

/// Stopping the bridge after docker answered `k` times.
pub open spec fn after(job: Stopping, outcomes: Seq<Option<Seq<char>>>, k: int) -> Stopping
    decreases k,
{
    if k <= 0 {
        job
    } else {
        after(job, outcomes, k - 1).next(outcomes[k - 1])
    }
}

/// What stopping the bridge was started with stays as it was.
proof fn lemma_names_stay(job: Stopping, outcomes: Seq<Option<Seq<char>>>, k: int)
    ensures
        after(job, outcomes, k).container == job.container,
        after(job, outcomes, k).volume == job.volume,
        after(job, outcomes, k).helper == job.helper,
        after(job, outcomes, k).clear == job.clear,
    decreases k,
{
    if k > 0 {
        lemma_names_stay(job, outcomes, k - 1);
    }
}

/// Whatever docker answers, stopping the bridge touches only what is the bridge's: its configured
/// container, its configured volume, and a helper named by the token.
pub proof fn law_stop_touches_only_the_bridge(
    config: UpdaterConfig,
    channel: &str,
    token: &str,
    job: BridgeStop,
    outcomes: Seq<Option<Seq<char>>>,
    k: int,
)
    requires
        call_ensures(BridgeStop::start, (&config, channel, token), job),
        0 <= k <= outcomes.len(),
        !after(job@, outcomes, k).over(),
    ensures
        ({
            let line = after(job@, outcomes, k).line();
            let container = trimmed(config.whatsapp_bridge_container_name@);
            let volume = trimmed(config.whatsapp_bridge_data_volume@);
            let helper = "selu-whatsapp-auth-cleanup-"@ + token@;
            ||| k == 0 && line == seq!["rm"@, "-f"@, container]
            ||| line == seq!["rm"@, "-f"@, helper]
            ||| line == seq!["volume"@, "rm"@, "-f"@, volume] && !occurs_in(trimmed(volume), "/"@)
            ||| line == seq!["volume"@, "create"@, volume] && !occurs_in(trimmed(volume), "/"@)
            ||| line.len() == 11 && line[0] == "run"@ && line[3] == helper && line[7] == volume
                + ":/data"@ && line[10] == "rm -rf /data/auth && mkdir -p /data/auth"@
        }),
{
    lemma_names_stay(job@, outcomes, k);
    lemma_stop_way(config, channel, token, job, outcomes, k);
}

/// Where stopping the bridge can be.
proof fn lemma_stop_way(
    config: UpdaterConfig,
    channel: &str,
    token: &str,
    job: BridgeStop,
    outcomes: Seq<Option<Seq<char>>>,
    k: int,
)
    requires
        call_ensures(BridgeStop::start, (&config, channel, token), job),
        0 <= k <= outcomes.len(),
    ensures
        ({
            let j = after(job@, outcomes, k);
            let mount = occurs_in(trimmed(job@.volume), "/"@);
            &&& job@.over() ==> j.over()
            &&& j.stage == StopStage::RemoveContainer ==> k == 0
            &&& j.stage == StopStage::SweepBefore || j.stage == StopStage::ClearMount || j.stage
                == StopStage::SweepAfter ==> mount && job@.clear is Ok
            &&& j.stage == StopStage::RemoveVolume || j.stage == StopStage::CreateVolume ==> !mount
        }),
    decreases k,
{
    if k > 0 {
        lemma_stop_way(config, channel, token, job, outcomes, k - 1);
        lemma_names_stay(job@, outcomes, k - 1);
    }
}

/// A volume of data is removed and made anew, and the bridge is then stopped; what was not there
/// counts as removed, and any other error ends it with that error.
pub proof fn law_volume_is_made_anew(
    config: UpdaterConfig,
    channel: &str,
    token: &str,
    job: BridgeStop,
    removal: Option<Seq<char>>,
    creation: Option<Seq<char>>,
)
    requires
        call_ensures(BridgeStop::start, (&config, channel, token), job),
        config.whatsapp_bridge_enabled,
        !blank(config.whatsapp_bridge_container_name@),
        !blank(config.whatsapp_bridge_data_volume@),
        !occurs_in(trimmed(trimmed(config.whatsapp_bridge_data_volume@)), "/"@),
    ensures
        ({
            let volume = trimmed(config.whatsapp_bridge_data_volume@);
            let gone = job@.next(None);
            let removed = gone.next(removal);
            &&& job@.line() == seq!["rm"@, "-f"@, trimmed(config.whatsapp_bridge_container_name@)]
            &&& gone.line() == seq!["volume"@, "rm"@, "-f"@, volume]
            &&& removal is None || occurs_in(removal->0, "No such volume"@) ==> removed.line()
                == seq!["volume"@, "create"@, volume] && removed.next(None).stage
                == StopStage::Stopped
            &&& removal is Some && !occurs_in(removal->0, "No such volume"@) ==> removed.stage
                == StopStage::Failed && removed.error == "remove WhatsApp bridge data volume: "@
                + removal->0
        }),
{
    reveal_strlit("remove WhatsApp bridge data volume: ");
    reveal_strlit("remove WhatsApp bridge data volume");
    reveal_strlit(": ");
    if removal is Some {
        assert(while_doing("remove WhatsApp bridge data volume"@, removal->0)
            =~= "remove WhatsApp bridge data volume: "@ + removal->0);
    }
}

/// A directory of data is cleared by a helper, which is removed before and after; the bridge is
/// stopped exactly where the clearing went well, whatever the removals said.
pub proof fn law_mount_is_cleared_by_a_helper(
    config: UpdaterConfig,
    channel: &str,
    token: &str,
    job: BridgeStop,
    before: Option<Seq<char>>,
    clearing: Option<Seq<char>>,
    behind: Option<Seq<char>>,
)
    requires
        call_ensures(BridgeStop::start, (&config, channel, token), job),
        config.whatsapp_bridge_enabled,
        !blank(config.whatsapp_bridge_container_name@),
        !blank(config.whatsapp_bridge_data_volume@),
        occurs_in(trimmed(trimmed(config.whatsapp_bridge_data_volume@)), "/"@),
        job.clear is Ok,
    ensures
        ({
            let helper = "selu-whatsapp-auth-cleanup-"@ + token@;
            let gone = job@.next(None);
            let swept = gone.next(before);
            let cleared = swept.next(clearing);
            &&& gone.line() == seq!["rm"@, "-f"@, helper]
            &&& swept.line() == texts(job.clear->Ok_0@)
            &&& cleared.line() == seq!["rm"@, "-f"@, helper]
            &&& clearing is None ==> cleared.next(behind).stage == StopStage::Stopped
            &&& clearing is Some ==> cleared.next(behind).stage == StopStage::Failed
        }),
{
}

/// A container that could not be removed, though it is there, keeps its data as it is.
pub proof fn law_stubborn_container_ends_it(
    config: UpdaterConfig,
    channel: &str,
    token: &str,
    job: BridgeStop,
    e: Seq<char>,
)
    requires
        call_ensures(BridgeStop::start, (&config, channel, token), job),
        !job@.over(),
    ensures
        !occurs_in(e, "No such container"@) ==> job@.next(Some(e)).stage == StopStage::Failed
            && job@.next(Some(e)).error == e,
        occurs_in(e, "No such container"@) ==> job@.next(Some(e)) == job@.next(None),
{
}

} // verus!
