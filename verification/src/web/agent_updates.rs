//! Updates of agents while they run.
use vstd::prelude::*;
use vstd::string::*;
use crate::text;
use crate::text::opt_text;
use crate::web::agents::InstallForm;
use crate::web::response;
use crate::web::response::{Sent, Verdict, WebAnswer};

verus! {

/// The update of an agent, as it stands.
#[derive(Debug)]
pub struct AgentUpdateJob {
    pub owner_user_id: String,
    pub agent_id: String,
    pub agent_name: String,
    pub target_version: String,
    pub progress: u8,
    pub message_key: String,
    pub done: bool,
    pub success: bool,
    pub redirect_to: Option<String>,
    pub error_key: Option<String>,
}

#[derive(Debug)]
pub struct StartAgentUpdateResponse {
    pub job_id: String,
}

#[derive(Debug)]
pub struct AgentUpdateStatusResponse {
    pub job_id: String,
    pub agent_id: String,
    pub agent_name: String,
    pub target_version: String,
    pub progress: u8,
    pub message_key: String,
    pub done: bool,
    pub success: bool,
    pub redirect_to: Option<String>,
    pub error_key: Option<String>,
}

/// An entry of the marketplace, with its name in the user's language.
#[derive(Debug)]
pub struct ChosenEntry {
    pub id: String,
    pub name: String,
    pub version: String,
}

/// What becomes of a request to update an agent.
#[derive(Debug)]
pub enum UpdateStart {
    /// The entry of the marketplace could not be read.
    BadEntry { status: u16, error_key: &'static str },
    /// The update is on its way.
    Started { response: StartAgentUpdateResponse, is_new: bool },
}

/// The page that asks for the update of an agent.
#[derive(Debug)]
pub struct AgentUpdatePage {
    pub agent_name: String,
    pub installed_version: String,
    pub target_version: String,
    pub entry_json: String,
}

/// The page that asks for the update of an agent. `entry` is what the form holds, where it
/// can be read, and `installed` the version that is installed.
pub fn update_wizard(
    is_admin: bool,
    base_path: &str,
    form: InstallForm,
    entry: Option<ChosenEntry>,
    installed: Option<String>,
) -> (r: Verdict<AgentUpdatePage>)
    ensures
        if !is_admin {
            r.answers(Sent::Status(403))
        } else {
            match entry {
                None => r.answers(
                    Sent::Redirect(
                        base_path@ + "/agents?error=Invalid+agent+data.+Please+try+again."@,
                    ),
                ),
                Some(e) => r matches Verdict::Proceed(page) && page.agent_name == e.name
                    && page.target_version == e.version && page.entry_json == form.entry_json
                    && page.installed_version@ == match opt_text(installed) {
                    Some(v) => v,
                    None => Seq::<char>::empty(),
                },
            }
        },
{
    if !is_admin {
        return Verdict::Answer(WebAnswer::Status(response::FORBIDDEN));
    }
    match entry {
        Some(e) => Verdict::Proceed(
            AgentUpdatePage {
                agent_name: e.name,
                installed_version: match installed {
                    Some(v) => v,
                    None => String::new(),
                },
                target_version: e.version,
                entry_json: form.entry_json,
            },
        ),
        None => Verdict::Answer(
            response::redirect(base_path, "/agents?error=Invalid+agent+data.+Please+try+again."),
        ),
    }
}

/// The update of an agent, as a value.
pub struct Job {
    pub owner: Seq<char>,
    pub agent_id: Seq<char>,
    pub agent_name: Seq<char>,
    pub target_version: Seq<char>,
    pub progress: u8,
    pub message_key: Seq<char>,
    pub done: bool,
    pub success: bool,
    pub redirect_to: Option<Seq<char>>,
    pub error_key: Option<Seq<char>>,
}

impl AgentUpdateJob {
    pub open spec fn view(&self) -> Job {
        Job {
            owner: self.owner_user_id@,
            agent_id: self.agent_id@,
            agent_name: self.agent_name@,
            target_version: self.target_version@,
            progress: self.progress,
            message_key: self.message_key@,
            done: self.done,
            success: self.success,
            redirect_to: opt_text(self.redirect_to),
            error_key: opt_text(self.error_key),
        }
    }
}

/// An update that has just begun.
pub open spec fn begun(
    owner: Seq<char>,
    agent_id: Seq<char>,
    agent_name: Seq<char>,
    version: Seq<char>,
) -> Job {
    Job {
        owner,
        agent_id,
        agent_name,
        target_version: version,
        progress: 5,
        message_key: "agents.update.phase.preparing"@,
        done: false,
        success: false,
        redirect_to: None,
        error_key: None,
    }
}

/// An update that has come to a phase; one that is over stays as it is.
pub open spec fn reported(job: Job, progress: u8, message_key: Seq<char>) -> Job {
    if job.done {
        job
    } else {
        Job { progress, message_key, ..job }
    }
}

/// An update of which some percent are done while it is downloaded: that counts up,
/// to ninety at the most.
pub open spec fn downloaded(job: Job, percent: u8) -> Job {
    if job.done {
        job
    } else {
        Job {
            progress: if percent <= job.progress {
                job.progress
            } else if percent > 90 {
                90
            } else {
                percent
            },
            message_key: "agents.update.phase.downloading"@,
            ..job
        }
    }
}

/// How an update ended.
#[derive(Debug, Clone, Copy, PartialEq, Eq, Structural)]
pub enum UpdateEnd {
    /// Docker cannot be reached.
    NoDocker,
    /// The agent is updated, and may have to be set up again.
    Updated { setup_required: bool },
    /// It failed.
    Failed,
}

/// An update that has ended.
pub open spec fn ended(job: Job, end: UpdateEnd, base_path: Seq<char>) -> Job {
    match end {
        UpdateEnd::NoDocker => Job {
            progress: 100,
            message_key: "agents.update.error.docker"@,
            done: true,
            success: false,
            error_key: Some("agents.update.error.docker"@),
            ..job
        },
        UpdateEnd::Updated { setup_required } => Job {
            progress: 100,
            message_key: if setup_required {
                "agents.update.success.setup_required"@
            } else {
                "agents.update.success.updated"@
            },
            done: true,
            success: true,
            redirect_to: if setup_required {
                Some(base_path + "/agents/"@ + job.agent_id + "/setup?flow=update"@)
            } else {
                None
            },
            ..job
        },
        UpdateEnd::Failed => Job {
            progress: 100,
            message_key: "agents.update.error.failed"@,
            done: true,
            success: false,
            error_key: Some("agents.update.error.failed"@),
            ..job
        },
    }
}

/// An update and its ID.
#[derive(Debug)]
pub struct JobEntry {
    pub id: String,
    pub job: AgentUpdateJob,
}

/// The updates of agents.
#[derive(Debug)]
pub struct UpdateJobs {
    pub entries: Vec<JobEntry>,
}

/// The update with an ID.
pub open spec fn job_in(entries: Seq<JobEntry>, id: Seq<char>) -> Option<Job>
    decreases entries.len(),
{
    if entries.len() == 0 {
        None
    } else if entries.last().id@ == id {
        Some(entries.last().job@)
    } else {
        job_in(entries.drop_last(), id)
    }
}

/// Whether an update of an agent by a user is not over.
pub open spec fn runs(e: JobEntry, owner: Seq<char>, agent_id: Seq<char>) -> bool {
    e.job.owner_user_id@ == owner && e.job.agent_id@ == agent_id && !e.job.done
}

/// The update that stands at a place is the one with its ID, where no other has it.
proof fn lemma_job_at(entries: Seq<JobEntry>, i: int)
    requires
        0 <= i < entries.len(),
        forall|a: int, b: int|
            0 <= a < b < entries.len() ==> (#[trigger] entries[a]).id@ != (
            #[trigger] entries[b]).id@,
    ensures
        job_in(entries, entries[i].id@) == Some(entries[i].job@),
    decreases entries.len(),
{
    if i < entries.len() - 1 {
        assert(entries[i].id@ != entries[entries.len() - 1].id@);
        lemma_job_at(entries.drop_last(), i);
    }
}

/// An update with an ID stands somewhere.
proof fn lemma_job_in(entries: Seq<JobEntry>, id: Seq<char>)
    ensures
        job_in(entries, id) is Some <==> exists|i: int|
            0 <= i < entries.len() && (#[trigger] entries[i]).id@ == id,
    decreases entries.len(),
{
    if entries.len() > 0 {
        let ahead = entries.drop_last();
        lemma_job_in(ahead, id);
        if job_in(ahead, id) is Some {
            let i = choose|i: int| 0 <= i < ahead.len() && (#[trigger] ahead[i]).id@ == id;
            assert(entries[i].id@ == id);
        }
        if exists|i: int| 0 <= i < entries.len() && (#[trigger] entries[i]).id@ == id {
            let i = choose|i: int| 0 <= i < entries.len() && (#[trigger] entries[i]).id@ == id;
            if i < ahead.len() {
                assert(ahead[i].id@ == id);
            }
        }
    }
}

/// What becomes of one update changes no other.
proof fn lemma_job_set(before: Seq<JobEntry>, after: Seq<JobEntry>, i: int, id: Seq<char>)
    requires
        0 <= i < before.len(),
        after.len() == before.len(),
        after[i].id@ == before[i].id@,
        forall|k: int| 0 <= k < before.len() && k != i ==> #[trigger] after[k] == before[k],
        id != before[i].id@,
    ensures
        job_in(after, id) == job_in(before, id),
    decreases before.len(),
{
    let n = before.len() - 1;
    if i == n {
        assert(after.drop_last() =~= before.drop_last());
    } else {
        assert(after[n] == before[n]);
        lemma_job_set(before.drop_last(), after.drop_last(), i, id);
    }
}

impl UpdateJobs {
    /// The update with an ID.
    pub open spec fn at(&self, id: Seq<char>) -> Option<Job> {
        job_in(self.entries@, id)
    }

    /// Whether every update has its own ID, and a user updates an agent at most once
    /// at a time.
    pub open spec fn wf(&self) -> bool {
        &&& forall|a: int, b: int|
            0 <= a < b < self.entries@.len() ==> (#[trigger] self.entries@[a]).id@ != (
            #[trigger] self.entries@[b]).id@
        &&& forall|a: int, b: int|
            0 <= a < b < self.entries@.len() && !(#[trigger] self.entries@[a]).job.done && !(
            #[trigger] self.entries@[b]).job.done ==> self.entries@[a].job.owner_user_id@
                != self.entries@[b].job.owner_user_id@ || self.entries@[a].job.agent_id@
                != self.entries@[b].job.agent_id@
    }

    /// Whether an update of an agent by a user is on its way.
    pub open spec fn busy(&self, owner: Seq<char>, agent_id: Seq<char>) -> bool {
        exists|i: int| 0 <= i < self.entries@.len() && runs(#[trigger] self.entries@[i], owner, agent_id)
    }

    /// No updates.
    pub fn new() -> (r: UpdateJobs)
        ensures
            r.wf(),
            forall|id: Seq<char>| #[trigger] r.at(id) is None,
    {
        UpdateJobs { entries: Vec::new() }
    }

    /// Where the update with an ID stands.
    fn place_of(&self, id: &str) -> (r: Option<usize>)
        requires
            self.wf(),
        ensures
            match r {
                Some(i) => i < self.entries@.len() && self.entries@[i as int].id@ == id@ && self.at(
                    id@,
                ) == Some(self.entries@[i as int].job@),
                None => self.at(id@) is None,
            },
    {
        let mut i: usize = 0;
        while i < self.entries.len()
            invariant
                i <= self.entries@.len(),
                self.wf(),
                forall|k: int| 0 <= k < i ==> (#[trigger] self.entries@[k]).id@ != id@,
            decreases self.entries@.len() - i,
        {
            if text::same(self.entries[i].id.as_str(), id) {
                proof {
                    lemma_job_at(self.entries@, i as int);
                }
                return Some(i);
            }
            i += 1;
        }
        proof {
            lemma_job_in(self.entries@, id@);
        }
        None
    }

    /// Where the update of an agent by a user stands that is on its way.
    fn running(&self, owner: &str, agent_id: &str) -> (r: Option<usize>)
        ensures
            match r {
                Some(i) => i < self.entries@.len() && runs(
                    self.entries@[i as int],
                    owner@,
                    agent_id@,
                ),
                None => !self.busy(owner@, agent_id@),
            },
    {
        let mut i: usize = 0;
        while i < self.entries.len()
            invariant
                i <= self.entries@.len(),
                forall|k: int|
                    0 <= k < i ==> !runs(#[trigger] self.entries@[k], owner@, agent_id@),
            decreases self.entries@.len() - i,
        {
            let job = &self.entries[i].job;
            if text::same(job.owner_user_id.as_str(), owner) && text::same(
                job.agent_id.as_str(),
                agent_id,
            ) && !job.done {
                return Some(i);
            }
            i += 1;
        }
        None
    }

    /// Begins the update of an agent for an administrator under a new ID, unless one of
    /// theirs is on its way: then that one goes on. `entry` is the entry of the
    /// marketplace, where it could be read.
    pub fn start_agent_update(
        &mut self,
        is_admin: bool,
        owner: &str,
        entry: Option<&ChosenEntry>,
        new_id: &str,
    ) -> (r: Verdict<UpdateStart>)
        requires
            old(self).wf(),
        ensures
            final(self).wf(),
            match r {
                Verdict::Answer(a) => !is_admin && a@ == Sent::Status(403) && *final(self) == *old(
                    self,
                ),
                Verdict::Proceed(UpdateStart::BadEntry { status, error_key }) => is_admin
                    && entry is None && status == 400 && error_key@
                    == "agents.update.error.invalid_payload"@ && *final(self) == *old(self),
                Verdict::Proceed(UpdateStart::Started { response, is_new }) => {
                    &&& is_admin
                    &&& entry is Some
                    &&& is_new == !old(self).busy(owner@, entry->0.id@)
                    &&& if is_new {
                        &&& response.job_id@ == new_id@
                        &&& final(self).at(new_id@) == Some(
                            begun(owner@, entry->0.id@, entry->0.name@, entry->0.version@),
                        )
                        &&& forall|id: Seq<char>|
                            id != new_id@ ==> #[trigger] final(self).at(id) == old(self).at(id)
                    } else {
                        &&& *final(self) == *old(self)
                        &&& final(self).at(response.job_id@) matches Some(j) && j.owner == owner@
                            && j.agent_id == entry->0.id@ && !j.done
                    }
                },
            },
    {
        if !is_admin {
            return Verdict::Answer(WebAnswer::Status(response::FORBIDDEN));
        }
        match entry {
            Some(e) => {
                let (response, is_new) = self.start(
                    owner,
                    e.id.as_str(),
                    e.name.as_str(),
                    e.version.as_str(),
                    new_id,
                );
                Verdict::Proceed(UpdateStart::Started { response, is_new })
            },
            None => Verdict::Proceed(
                UpdateStart::BadEntry {
                    status: response::BAD_REQUEST,
                    error_key: "agents.update.error.invalid_payload",
                },
            ),
        }
    }

    /// Begins the update of an agent by a user under a new ID, unless one is on its
    /// way: then that one goes on. Gives the ID, and whether the update is a new one.
    fn start(
        &mut self,
        owner: &str,
        agent_id: &str,
        agent_name: &str,
        version: &str,
        new_id: &str,
    ) -> (r: (StartAgentUpdateResponse, bool))
        requires
            old(self).wf(),
        ensures
            final(self).wf(),
            r.1 == !old(self).busy(owner@, agent_id@),
            if r.1 {
                &&& r.0.job_id@ == new_id@
                &&& final(self).at(new_id@) == Some(
                    begun(owner@, agent_id@, agent_name@, version@),
                )
                &&& forall|id: Seq<char>|
                    id != new_id@ ==> #[trigger] final(self).at(id) == old(self).at(id)
            } else {
                &&& *final(self) == *old(self)
                &&& final(self).at(r.0.job_id@) matches Some(j) && j.owner == owner@ && j.agent_id
                    == agent_id@ && !j.done
            },
    {
        if let Some(i) = self.running(owner, agent_id) {
            proof {
                lemma_job_at(self.entries@, i as int);
            }
            return (StartAgentUpdateResponse { job_id: self.entries[i].id.clone() }, false);
        }
        let ghost before = self.entries@;
        let entry = JobEntry {
            id: new_id.to_string(),
            job: AgentUpdateJob {
                owner_user_id: owner.to_string(),
                agent_id: agent_id.to_string(),
                agent_name: agent_name.to_string(),
                target_version: version.to_string(),
                progress: 5,
                message_key: "agents.update.phase.preparing".to_string(),
                done: false,
                success: false,
                redirect_to: None,
                error_key: None,
            },
        };
        if let Some(i) = self.place_of(new_id) {
            self.entries.set(i, entry);
            proof {
                assert forall|k: int| 0 <= k < before.len() && k != i implies !runs(
                    #[trigger] before[k],
                    owner@,
                    agent_id@,
                ) by {}
                lemma_job_at(self.entries@, i as int);
                assert forall|k: Seq<char>| k != new_id@ implies #[trigger] self.at(k) == job_in(
                    before,
                    k,
                ) by {
                    lemma_job_set(before, self.entries@, i as int, k);
                }
            }
        } else {
            self.entries.push(entry);
            proof {
                lemma_job_in(before, new_id@);
                assert(self.entries@.drop_last() =~= before);
                assert forall|k: int| 0 <= k < before.len() implies !runs(
                    #[trigger] before[k],
                    owner@,
                    agent_id@,
                ) by {}
            }
        }
        (StartAgentUpdateResponse { job_id: new_id.to_string() }, true)
    }

    /// Notes the phase that an update has come to.
    pub fn set_update_job_progress(&mut self, id: &str, progress: u8, message_key: &str)
        requires
            old(self).wf(),
        ensures
            final(self).wf(),
            final(self).at(id@) == match old(self).at(id@) {
                Some(j) => Some(reported(j, progress, message_key@)),
                None => None,
            },
            forall|k: Seq<char>| k != id@ ==> #[trigger] final(self).at(k) == old(self).at(k),
    {
        let ghost before = self.entries@;
        if let Some(i) = self.place_of(id) {
            if !self.entries[i].job.done {
                self.entries[i].job.progress = progress;
                self.entries[i].job.message_key = message_key.to_string();
                proof {
                    lemma_job_at(self.entries@, i as int);
                    assert forall|k: Seq<char>| k != id@ implies #[trigger] self.at(k)
                        == job_in(before, k) by {
                        lemma_job_set(before, self.entries@, i as int, k);
                    }
                }
            }
        }
    }

    /// Notes how much of an update is downloaded. Gives whether it still is.
    pub fn note_download(&mut self, id: &str, percent: u8) -> (r: bool)
        requires
            old(self).wf(),
        ensures
            final(self).wf(),
            r == (old(self).at(id@) matches Some(j) && !j.done),
            final(self).at(id@) == match old(self).at(id@) {
                Some(j) => Some(downloaded(j, percent)),
                None => None,
            },
            forall|k: Seq<char>| k != id@ ==> #[trigger] final(self).at(k) == old(self).at(k),
    {
        let ghost before = self.entries@;
        if let Some(i) = self.place_of(id) {
            if self.entries[i].job.done {
                return false;
            }
            if percent > self.entries[i].job.progress {
                self.entries[i].job.progress = if percent > 90 {
                    90
                } else {
                    percent
                };
            }
            self.entries[i].job.message_key = "agents.update.phase.downloading".to_string();
            proof {
                lemma_job_at(self.entries@, i as int);
                assert forall|k: Seq<char>| k != id@ implies #[trigger] self.at(k) == job_in(
                    before,
                    k,
                ) by {
                    lemma_job_set(before, self.entries@, i as int, k);
                }
            }
            true
        } else {
            false
        }
    }

    /// Notes that an update has ended.
    pub fn finish(&mut self, id: &str, end: UpdateEnd, base_path: &str)
        requires
            old(self).wf(),
        ensures
            final(self).wf(),
            final(self).at(id@) == match old(self).at(id@) {
                Some(j) => Some(ended(j, end, base_path@)),
                None => None,
            },
            forall|k: Seq<char>| k != id@ ==> #[trigger] final(self).at(k) == old(self).at(k),
    {
        let ghost before = self.entries@;
        if let Some(i) = self.place_of(id) {
            match end {
                UpdateEnd::NoDocker => {
                    self.entries[i].job.message_key = "agents.update.error.docker".to_string();
                    self.entries[i].job.success = false;
                    self.entries[i].job.error_key = Some("agents.update.error.docker".to_string());
                },
                UpdateEnd::Updated { setup_required } => {
                    if setup_required {
                        let mut to = base_path.to_string();
                        to.append("/agents/");
                        to.append(self.entries[i].job.agent_id.as_str());
                        to.append("/setup?flow=update");
                        self.entries[i].job.message_key =
                        "agents.update.success.setup_required".to_string();
                        self.entries[i].job.redirect_to = Some(to);
                    } else {
                        self.entries[i].job.message_key =
                        "agents.update.success.updated".to_string();
                        self.entries[i].job.redirect_to = None;
                    }
                    self.entries[i].job.success = true;
                },
                UpdateEnd::Failed => {
                    self.entries[i].job.message_key = "agents.update.error.failed".to_string();
                    self.entries[i].job.success = false;
                    self.entries[i].job.error_key = Some("agents.update.error.failed".to_string());
                },
            }
            self.entries[i].job.progress = 100;
            self.entries[i].job.done = true;
            proof {
                lemma_job_at(self.entries@, i as int);
                assert forall|k: Seq<char>| k != id@ implies #[trigger] self.at(k) == job_in(
                    before,
                    k,
                ) by {
                    lemma_job_set(before, self.entries@, i as int, k);
                }
            }
        }
    }

    /// How an update stands. Only an administrator may ask, and only for updates of
    /// their own.
    pub fn agent_update_status(&self, is_admin: bool, user_id: &str, job_id: &str) -> (r: Verdict<
        AgentUpdateStatusResponse,
    >)
        requires
            self.wf(),
        ensures
            if !is_admin {
                r.answers(Sent::Status(403))
            } else {
                match self.at(job_id@) {
                    None => r.answers(Sent::Status(404)),
                    Some(j) => if j.owner != user_id@ {
                        r.answers(Sent::Status(403))
                    } else {
                        r matches Verdict::Proceed(s) && s.job_id@ == job_id@ && shows_job(s, j)
                    },
                }
            },
    {
        if !is_admin {
            return Verdict::Answer(WebAnswer::Status(response::FORBIDDEN));
        }
        match self.place_of(job_id) {
            None => Verdict::Answer(WebAnswer::Status(response::NOT_FOUND)),
            Some(i) => {
                let job = &self.entries[i].job;
                if !text::same(job.owner_user_id.as_str(), user_id) {
                    return Verdict::Answer(WebAnswer::Status(response::FORBIDDEN));
                }
                Verdict::Proceed(
                    AgentUpdateStatusResponse {
                        job_id: job_id.to_string(),
                        agent_id: job.agent_id.clone(),
                        agent_name: job.agent_name.clone(),
                        target_version: job.target_version.clone(),
                        progress: job.progress,
                        message_key: job.message_key.clone(),
                        done: job.done,
                        success: job.success,
                        redirect_to: copied(&job.redirect_to),
                        error_key: copied(&job.error_key),
                    },
                )
            },
        }
    }
}

/// Whether `s` shows an update.
pub open spec fn shows_job(s: AgentUpdateStatusResponse, j: Job) -> bool {
    &&& s.agent_id@ == j.agent_id
    &&& s.agent_name@ == j.agent_name
    &&& s.target_version@ == j.target_version
    &&& s.progress == j.progress
    &&& s.message_key@ == j.message_key
    &&& s.done == j.done
    &&& s.success == j.success
    &&& opt_text(s.redirect_to) == j.redirect_to
    &&& opt_text(s.error_key) == j.error_key
}

/// A text that may be absent, once more.
fn copied(o: &Option<String>) -> (r: Option<String>)
    ensures
        opt_text(r) == opt_text(*o),
{
    match o {
        Some(s) => Some(s.clone()),
        None => None,
    }
}

/// A user updates an agent at most once at a time: two updates that are on their way
/// are of different users or of different agents.
pub proof fn law_one_update_at_a_time(jobs: UpdateJobs, a: Seq<char>, b: Seq<char>)
    requires
        jobs.wf(),
        a != b,
        jobs.at(a) matches Some(j) && !j.done,
        jobs.at(b) matches Some(j) && !j.done,
    ensures
        jobs.at(a)->Some_0.owner != jobs.at(b)->Some_0.owner || jobs.at(a)->Some_0.agent_id
            != jobs.at(b)->Some_0.agent_id,
{
    lemma_job_in(jobs.entries@, a);
    lemma_job_in(jobs.entries@, b);
    let i = choose|i: int| 0 <= i < jobs.entries@.len() && (#[trigger] jobs.entries@[i]).id@ == a;
    let k = choose|k: int| 0 <= k < jobs.entries@.len() && (#[trigger] jobs.entries@[k]).id@ == b;
    lemma_job_at(jobs.entries@, i);
    lemma_job_at(jobs.entries@, k);
}

/// What is shown of an update never falls while it is downloaded, stays under what it
/// ends with, and does not change any more when it is over.
pub proof fn law_progress_never_falls(job: Job, percent: u8, end: UpdateEnd, base_path: Seq<char>)
    requires
        job.progress <= 100,
        !job.done ==> job.progress <= 90,
    ensures
        job.progress <= downloaded(job, percent).progress <= ended(job, end, base_path).progress,
        !job.done ==> downloaded(job, percent).progress <= 90,
        job.done ==> downloaded(job, percent) == job,
{
}

/// An update that ended is over: it says whether it went well, and an error where it
/// did not.
pub proof fn law_ended_update_is_settled(job: Job, end: UpdateEnd, base_path: Seq<char>)
    ensures
        ended(job, end, base_path).done,
        ended(job, end, base_path).progress == 100,
        ended(job, end, base_path).success <==> end is Updated,
        end !is Updated ==> ended(job, end, base_path).error_key == Some(
            ended(job, end, base_path).message_key,
        ),
        forall|progress: u8, key: Seq<char>|
            reported(ended(job, end, base_path), progress, key) == ended(job, end, base_path),
{
}

// ── Laws ─────────────────────────────────────────────────────────────────────

/// An update that is started is that of the chosen entry for its owner: it has the entry's agent,
/// name and version, is not done, and no other job is touched. While one of the same owner and agent
/// runs, that one is given instead.
pub proof fn law_started_update_is_the_chosen_one(
    jobs: &mut UpdateJobs,
    is_admin: bool,
    owner: &str,
    entry: ChosenEntry,
    new_id: &str,
    other: Seq<char>,
    response: StartAgentUpdateResponse,
    is_new: bool,
)
    requires
        jobs.wf(),
        call_ensures(
            UpdateJobs::start_agent_update,
            (jobs, is_admin, owner, Some(&entry), new_id),
            Verdict::Proceed(UpdateStart::Started { response, is_new }),
        ),
    ensures
        is_admin,
        is_new ==> response.job_id@ == new_id@ && (final(jobs).at(new_id@) matches Some(j)
            && j.owner == owner@ && j.agent_id == entry.id@ && j.agent_name == entry.name@
            && j.target_version == entry.version@ && !j.done && !j.success && j.progress == 5),
        !is_new ==> *final(jobs) == *old(jobs) && (final(jobs).at(response.job_id@) matches Some(j)
            && j.owner == owner@ && j.agent_id == entry.id@ && !j.done),
        other != new_id@ ==> final(jobs).at(other) == old(jobs).at(other),
{
}

/// How an update ended is noted of that update alone: it is done, with success exactly where the
/// agent was updated, and leads to its setup exactly where that is needed.
pub proof fn law_end_is_noted_of_its_update(
    jobs: &mut UpdateJobs,
    id: &str,
    end: UpdateEnd,
    base_path: &str,
    other: Seq<char>,
)
    requires
        jobs.wf(),
        call_ensures(UpdateJobs::finish, (jobs, id, end, base_path), ()),
    ensures
        final(jobs).at(id@) is Some <==> old(jobs).at(id@) is Some,
        final(jobs).at(id@) matches Some(j) ==> {
            let before = old(jobs).at(id@)->0;
            &&& j.done && j.progress == 100
            &&& j.success <==> end is Updated
            &&& j.owner == before.owner && j.agent_id == before.agent_id && j.agent_name
                == before.agent_name && j.target_version == before.target_version
            &&& end is Failed ==> j.error_key == Some("agents.update.error.failed"@)
            &&& end is NoDocker ==> j.error_key == Some("agents.update.error.docker"@)
            &&& end == (UpdateEnd::Updated { setup_required: true }) ==> j.redirect_to == Some(
                base_path@ + "/agents/"@ + before.agent_id + "/setup?flow=update"@,
            )
            &&& end == (UpdateEnd::Updated { setup_required: false }) ==> j.redirect_to is None
        },
        other != id@ ==> final(jobs).at(other) == old(jobs).at(other),
{
}

/// The progress of an update is told only to the administrator who started it, and as it is.
pub proof fn law_update_is_told_to_its_owner(
    jobs: UpdateJobs,
    is_admin: bool,
    user_id: &str,
    job_id: &str,
    r: Verdict<AgentUpdateStatusResponse>,
)
    requires
        jobs.wf(),
        call_ensures(UpdateJobs::agent_update_status, (&jobs, is_admin, user_id, job_id), r),
    ensures
        r is Proceed <==> is_admin && (jobs.at(job_id@) matches Some(j) && j.owner == user_id@),
        r matches Verdict::Proceed(s) ==> {
            let j = jobs.at(job_id@)->0;
            &&& s.job_id@ == job_id@
            &&& s.agent_id@ == j.agent_id
            &&& s.agent_name@ == j.agent_name
            &&& s.target_version@ == j.target_version
            &&& s.progress == j.progress
            &&& s.message_key@ == j.message_key
            &&& s.done == j.done
            &&& s.success == j.success
            &&& opt_text(s.redirect_to) == j.redirect_to
            &&& opt_text(s.error_key) == j.error_key
        },
{
}

/// A download is noted only forwards and never past ninety; one that is done is not touched.
pub proof fn law_download_is_noted_forwards(
    jobs: &mut UpdateJobs,
    id: &str,
    percent: u8,
    r: bool,
)
    requires
        jobs.wf(),
        call_ensures(UpdateJobs::note_download, (jobs, id, percent), r),
    ensures
        final(jobs).at(id@) matches Some(j) ==> {
            let before = old(jobs).at(id@)->0;
            &&& before.done ==> j == before && !r
            &&& !before.done ==> r && !j.done
            &&& !before.done && percent > before.progress && percent <= 90 ==> j.progress == percent
            &&& !before.done && percent <= before.progress ==> j.progress == before.progress
            &&& !before.done && percent > 90 && percent > before.progress ==> j.progress == 90
            &&& j.owner == before.owner && j.agent_id == before.agent_id
        },
{
}

} // verus!
