//! What is done around the turn of an agent: waiting for the browser, telling the
//! user's phones, finding the agent that answers, and cleaning up.
use vstd::prelude::*;
use vstd::string::*;
use crate::web::chat;
use crate::web::chat::{title_of, InboundAttachmentInput, LoopEvent};

verus! {

/// How many seconds the browser has to listen.
pub const CLIENT_SECONDS: u64 = 5;

/// Where phones are told that an agent is at work.
pub const START_ADDRESS: &'static str = "https://selu.bot/api/relay/start-activity";

/// Where phones are told that an agent is done.
pub const END_ADDRESS: &'static str = "https://selu.bot/api/relay/push";

/// Where a message stands.
#[derive(Debug, Clone, Copy, PartialEq, Eq, Structural)]
pub enum TurnStage {
    /// Wait until the browser listens, or a while.
    AwaitClient,
    /// Read which phones the user has, where phones are told at all.
    ReadPhones,
    /// Read the ID of this instance, for the start.
    ReadInstance,
    /// Tell the phone at this place that an agent is at work.
    TellStart(usize),
    /// Find the agent that the message is for.
    Route,
    /// Let the agent take its turn.
    Run,
    /// Put the failure of the turn into the user's language.
    WordFailure,
    /// Stream that the turn failed.
    StreamFailure,
    /// Forget the stream.
    CleanUp,
    /// Read the ID of this instance, for the end.
    ReadInstanceAgain,
    /// Read the user's language, for the end.
    ReadLanguage,
    /// Tell the phones that the agent is done.
    TellEnd,
    /// Over.
    Over,
}

/// How something that a message asked for went.
#[derive(Debug)]
pub enum TurnReply {
    Done,
    Phones(Vec<String>),
    Instance(Option<String>),
    /// The agent that the message is for, and what is left of its words.
    Routed { agent_id: String, message: String },
    /// The turn failed.
    Failed,
    /// Words in the user's language.
    Words(String),
    /// The user's language.
    Language(String),
}

/// What an agent takes its turn with, besides the images of the message.
#[derive(Debug)]
pub struct TurnParams {
    pub pipe_id: String,
    pub user_id: String,
    pub agent_id: String,
    pub message: String,
    pub thread_id: String,
    /// How many agents handed the message on.
    pub chain_depth: u32,
    /// Whether the user waits for the answer.
    pub interactive: bool,
    /// Whether the user's message is left out of what is stored.
    pub skip_user_persist: bool,
    pub enable_streaming: bool,
    /// The agents that handed the message on.
    pub delegation_trace: Vec<String>,
    /// Where the user is.
    pub location_context: Option<String>,
}

/// What a message asks to be done next.
#[derive(Debug)]
pub enum TurnAction {
    AwaitClient { seconds: u64 },
    ReadPhones { user_id: String },
    ReadInstance,
    TellStart {
        address: &'static str,
        instance_id: String,
        pipe_id: String,
        thread_id: String,
        title: String,
        phone: String,
    },
    Route { pipe_id: String, user_id: String, words: String },
    Run(TurnParams),
    /// Put the text of a key into the user's language.
    Word { user_id: String, key: &'static str },
    Stream(Vec<LoopEvent>),
    CleanUp { stream_id: String, thread_id: String },
    ReadLanguage { user_id: String },
    TellEnd {
        address: &'static str,
        instance_id: String,
        pipe_id: String,
        thread_id: String,
        event: &'static str,
        title: &'static str,
        body: &'static str,
    },
    Over,
}

/// A message as it came in.
#[derive(Debug)]
pub struct Incoming {
    pub pipe_id: String,
    pub thread_id: String,
    pub user_id: String,
    pub stream_id: String,
    pub words: String,
    pub images: Vec<InboundAttachmentInput>,
}

/// A message on its way.
#[derive(Debug)]
pub struct Turn {
    pub incoming: Incoming,
    pub phones: Vec<String>,
    pub instance_id: String,
    pub agent_id: String,
    pub message: String,
    pub failure: String,
    pub language: String,
    pub stage: TurnStage,
}

/// Whether a reply is one to what a message asked for.
pub open spec fn fits(stage: TurnStage, reply: TurnReply) -> bool {
    match stage {
        TurnStage::ReadPhones => reply is Phones,
        TurnStage::ReadInstance | TurnStage::ReadInstanceAgain => reply is Instance,
        TurnStage::Route => reply is Routed,
        TurnStage::Run => reply is Done || reply is Failed,
        TurnStage::WordFailure => reply is Words,
        TurnStage::ReadLanguage => reply is Language,
        _ => reply is Done,
    }
}

/// The stage that follows when a message was told how what it asked for went, with the
/// number of phones that it knows then.
pub open spec fn stage_after(stage: TurnStage, reply: TurnReply, phones: int) -> TurnStage {
    match (stage, reply) {
        (TurnStage::AwaitClient, _) => TurnStage::ReadPhones,
        (TurnStage::ReadPhones, _) => if phones > 0 {
            TurnStage::ReadInstance
        } else {
            TurnStage::Route
        },
        (TurnStage::ReadInstance, TurnReply::Instance(Some(_))) => TurnStage::TellStart(0),
        (TurnStage::ReadInstance, _) => TurnStage::Route,
        (TurnStage::TellStart(i), _) => if i + 1 < phones {
            TurnStage::TellStart((i + 1) as usize)
        } else {
            TurnStage::Route
        },
        (TurnStage::Route, _) => TurnStage::Run,
        (TurnStage::Run, TurnReply::Failed) => TurnStage::WordFailure,
        (TurnStage::Run, _) => TurnStage::CleanUp,
        (TurnStage::WordFailure, _) => TurnStage::StreamFailure,
        (TurnStage::StreamFailure, _) => TurnStage::CleanUp,
        (TurnStage::CleanUp, _) => if phones > 0 {
            TurnStage::ReadInstanceAgain
        } else {
            TurnStage::Over
        },
        (TurnStage::ReadInstanceAgain, TurnReply::Instance(Some(_))) => TurnStage::ReadLanguage,
        (TurnStage::ReadInstanceAgain, _) => TurnStage::Over,
        (TurnStage::ReadLanguage, _) => TurnStage::TellEnd,
        (TurnStage::TellEnd, _) => TurnStage::Over,
        (TurnStage::Over, _) => TurnStage::Over,
    }
}

impl Turn {
    /// Whether the phones that are to be told are known.
    pub open spec fn wf(self) -> bool {
        match self.stage {
            TurnStage::ReadInstance => self.phones@.len() > 0,
            TurnStage::TellStart(i) => i < self.phones@.len(),
            _ => true,
        }
    }

    /// Starts a message.
    pub fn start(incoming: Incoming) -> (r: Turn)
        ensures
            r.wf(),
            r.incoming == incoming,
            r.phones@.len() == 0,
            r.stage == TurnStage::AwaitClient,
    {
        Turn {
            incoming,
            phones: Vec::new(),
            instance_id: String::new(),
            agent_id: String::new(),
            message: String::new(),
            failure: String::new(),
            language: String::new(),
            stage: TurnStage::AwaitClient,
        }
    }

    /// Whether an agent takes its turn with `p`: the first one that the message comes to,
    /// while its user waits, with the message stored and the answer streamed.
    pub open spec fn runs_with(&self, p: TurnParams) -> bool {
        &&& p.pipe_id@ == self.incoming.pipe_id@
        &&& p.user_id@ == self.incoming.user_id@
        &&& p.agent_id@ == self.agent_id@
        &&& p.message@ == self.message@
        &&& p.thread_id@ == self.incoming.thread_id@
        &&& p.chain_depth == 0
        &&& p.interactive
        &&& !p.skip_user_persist
        &&& p.enable_streaming
        &&& p.delegation_trace@.len() == 0
        &&& p.location_context is None
    }

    /// Whether `r` is what the message asks for at its stage.
    pub open spec fn asks(&self, r: TurnAction) -> bool {
        match self.stage {
            TurnStage::AwaitClient => r matches TurnAction::AwaitClient { seconds } && seconds
                == CLIENT_SECONDS,
            TurnStage::ReadPhones => r matches TurnAction::ReadPhones { user_id } && user_id@
                == self.incoming.user_id@,
            TurnStage::ReadInstance | TurnStage::ReadInstanceAgain => r is ReadInstance,
            TurnStage::TellStart(i) => r matches TurnAction::TellStart {
                address,
                instance_id,
                pipe_id,
                thread_id,
                title,
                phone,
            } && address@ == START_ADDRESS@ && instance_id@ == self.instance_id@ && pipe_id@
                == self.incoming.pipe_id@ && thread_id@ == self.incoming.thread_id@ && title@
                == title_of(self.incoming.words@) && phone@ == self.phones@[i as int]@,
            TurnStage::Route => r matches TurnAction::Route { pipe_id, user_id, words } && pipe_id@
                == self.incoming.pipe_id@ && user_id@ == self.incoming.user_id@ && words@
                == self.incoming.words@,
            TurnStage::Run => r matches TurnAction::Run(p) && self.runs_with(p),
            TurnStage::WordFailure => r matches TurnAction::Word { user_id, key } && user_id@
                == self.incoming.user_id@ && key@ == "error.agent_turn_failed"@,
            TurnStage::StreamFailure => r matches TurnAction::Stream(events) && events@.len() == 2
                && (events@[0] matches LoopEvent::Error(e) && e@ == self.failure@)
                && events@[1] is Done,
            TurnStage::CleanUp => r matches TurnAction::CleanUp { stream_id, thread_id }
                && stream_id@ == self.incoming.stream_id@ && thread_id@ == self.incoming.thread_id@,
            TurnStage::ReadLanguage => r matches TurnAction::ReadLanguage { user_id } && user_id@
                == self.incoming.user_id@,
            TurnStage::TellEnd => r matches TurnAction::TellEnd {
                address,
                instance_id,
                pipe_id,
                thread_id,
                event,
                title,
                body,
            } && address@ == END_ADDRESS@ && instance_id@ == self.instance_id@ && pipe_id@
                == self.incoming.pipe_id@ && thread_id@ == self.incoming.thread_id@ && event@
                == "end"@ && title@ == "selu"@ && body@ == if "de"@.is_prefix_of(self.language@) {
                "Agent ist fertig"@
            } else {
                "Agent completed"@
            },
            TurnStage::Over => r is Over,
        }
    }

    /// What the message asks for.
    pub fn action(&self) -> (r: TurnAction)
        requires
            self.wf(),
        ensures
            self.asks(r),
    {
        match self.stage {
            TurnStage::AwaitClient => TurnAction::AwaitClient { seconds: CLIENT_SECONDS },
            TurnStage::ReadPhones => TurnAction::ReadPhones {
                user_id: self.incoming.user_id.clone(),
            },
            TurnStage::ReadInstance | TurnStage::ReadInstanceAgain => TurnAction::ReadInstance,
            TurnStage::TellStart(i) => TurnAction::TellStart {
                address: START_ADDRESS,
                instance_id: self.instance_id.clone(),
                pipe_id: self.incoming.pipe_id.clone(),
                thread_id: self.incoming.thread_id.clone(),
                title: chat::activity_title(self.incoming.words.as_str()),
                phone: self.phones[i].clone(),
            },
            TurnStage::Route => TurnAction::Route {
                pipe_id: self.incoming.pipe_id.clone(),
                user_id: self.incoming.user_id.clone(),
                words: self.incoming.words.clone(),
            },
            TurnStage::Run => TurnAction::Run(
                TurnParams {
                    pipe_id: self.incoming.pipe_id.clone(),
                    user_id: self.incoming.user_id.clone(),
                    agent_id: self.agent_id.clone(),
                    message: self.message.clone(),
                    thread_id: self.incoming.thread_id.clone(),
                    chain_depth: 0,
                    interactive: true,
                    skip_user_persist: false,
                    enable_streaming: true,
                    delegation_trace: Vec::new(),
                    location_context: None,
                },
            ),
            TurnStage::WordFailure => TurnAction::Word {
                user_id: self.incoming.user_id.clone(),
                key: "error.agent_turn_failed",
            },
            TurnStage::StreamFailure => TurnAction::Stream(
                chat::events_after_turn(Some(self.failure.as_str())),
            ),
            TurnStage::CleanUp => TurnAction::CleanUp {
                stream_id: self.incoming.stream_id.clone(),
                thread_id: self.incoming.thread_id.clone(),
            },
            TurnStage::ReadLanguage => TurnAction::ReadLanguage {
                user_id: self.incoming.user_id.clone(),
            },
            TurnStage::TellEnd => TurnAction::TellEnd {
                address: END_ADDRESS,
                instance_id: self.instance_id.clone(),
                pipe_id: self.incoming.pipe_id.clone(),
                thread_id: self.incoming.thread_id.clone(),
                event: "end",
                title: "selu",
                body: chat::completion_note(self.language.as_str()),
            },
            TurnStage::Over => TurnAction::Over,
        }
    }

    /// Takes the message on after it was told how what it asked for went.
    pub fn step(&mut self, reply: TurnReply)
        requires
            old(self).wf(),
            old(self).stage != TurnStage::Over,
            fits(old(self).stage, reply),
        ensures
            final(self).wf(),
            final(self).incoming == old(self).incoming,
            final(self).phones == match reply {
                TurnReply::Phones(p) => p,
                _ => old(self).phones,
            },
            final(self).instance_id@ == match reply {
                TurnReply::Instance(Some(id)) => id@,
                _ => old(self).instance_id@,
            },
            final(self).agent_id@ == match reply {
                TurnReply::Routed { agent_id, message } => agent_id@,
                _ => old(self).agent_id@,
            },
            final(self).message@ == match reply {
                TurnReply::Routed { agent_id, message } => message@,
                _ => old(self).message@,
            },
            final(self).failure@ == match reply {
                TurnReply::Words(w) => w@,
                _ => old(self).failure@,
            },
            final(self).language@ == match reply {
                TurnReply::Language(l) => l@,
                _ => old(self).language@,
            },
            final(self).stage == stage_after(
                old(self).stage,
                reply,
                final(self).phones@.len() as int,
            ),
    {
        let known: usize = self.phones.len();
        match reply {
            TurnReply::Phones(phones) => {
                self.stage = if phones.len() > 0 {
                    TurnStage::ReadInstance
                } else {
                    TurnStage::Route
                };
                self.phones = phones;
            },
            TurnReply::Instance(Some(id)) => {
                self.instance_id = id;
                if self.stage == TurnStage::ReadInstance {
                    self.stage = TurnStage::TellStart(0);
                } else {
                    self.stage = TurnStage::ReadLanguage;
                }
            },
            TurnReply::Instance(None) => {
                self.stage = if self.stage == TurnStage::ReadInstance {
                    TurnStage::Route
                } else {
                    TurnStage::Over
                };
            },
            TurnReply::Routed { agent_id, message } => {
                self.agent_id = agent_id;
                self.message = message;
                self.stage = TurnStage::Run;
            },
            TurnReply::Failed => {
                self.stage = TurnStage::WordFailure;
            },
            TurnReply::Words(words) => {
                self.failure = words;
                self.stage = TurnStage::StreamFailure;
            },
            TurnReply::Language(language) => {
                self.language = language;
                self.stage = TurnStage::TellEnd;
            },
            TurnReply::Done => {
                self.stage = match self.stage {
                    TurnStage::AwaitClient => TurnStage::ReadPhones,
                    TurnStage::TellStart(i) => if i + 1 < known {
                        TurnStage::TellStart(i + 1)
                    } else {
                        TurnStage::Route
                    },
                    TurnStage::Run | TurnStage::StreamFailure => TurnStage::CleanUp,
                    TurnStage::CleanUp => if known > 0 {
                        TurnStage::ReadInstanceAgain
                    } else {
                        TurnStage::Over
                    },
                    _ => TurnStage::Over,
                };
            },
        }
    }
}

// ── Laws ─────────────────────────────────────────────────────────────────────

/// The stages behind the cleaning up.
pub open spec fn is_cleaned_up(stage: TurnStage) -> bool {
    stage == TurnStage::ReadInstanceAgain || stage == TurnStage::ReadLanguage || stage
        == TurnStage::TellEnd || stage == TurnStage::Over
}

/// A message is not over before its stream is forgotten, and its stream is not forgotten
/// before the agent took its turn, whether that went well or not.
pub proof fn law_stream_is_forgotten(stage: TurnStage, reply: TurnReply, phones: int)
    ensures
        !is_cleaned_up(stage) && is_cleaned_up(stage_after(stage, reply, phones)) ==> stage
            == TurnStage::CleanUp,
        stage_after(stage, reply, phones) == TurnStage::CleanUp ==> stage == TurnStage::Run || stage
            == TurnStage::StreamFailure,
        stage_after(stage, reply, phones) == TurnStage::StreamFailure ==> stage
            == TurnStage::WordFailure,
        stage_after(stage, reply, phones) == TurnStage::WordFailure ==> stage == TurnStage::Run,
{
}

/// How far a stage is from the end.
pub open spec fn way_to_go(stage: TurnStage, phones: int) -> int {
    match stage {
        TurnStage::AwaitClient => phones + 11,
        TurnStage::ReadPhones => phones + 10,
        TurnStage::ReadInstance => phones + 9,
        TurnStage::TellStart(i) => phones - i + 8,
        TurnStage::Route => 8,
        TurnStage::Run => 7,
        TurnStage::WordFailure => 6,
        TurnStage::StreamFailure => 5,
        TurnStage::CleanUp => 4,
        TurnStage::ReadInstanceAgain => 3,
        TurnStage::ReadLanguage => 2,
        TurnStage::TellEnd => 1,
        TurnStage::Over => 0,
    }
}

/// A message whose phones are known comes to its end: each reply takes it nearer.
pub proof fn law_message_ends(turn: Turn, reply: TurnReply)
    requires
        turn.wf(),
        turn.phones@.len() <= usize::MAX,
        turn.stage != TurnStage::Over,
        fits(turn.stage, reply),
    ensures
        ({
            let phones = turn.phones@.len() as int;
            0 <= way_to_go(stage_after(turn.stage, reply, phones), phones) < way_to_go(
                turn.stage,
                phones,
            )
        }),
{
}

/// Whether a message that was told how what it asked for went is taken on from `before` to
/// `after`.
pub open spec fn follows(before: Turn, reply: TurnReply, after: Turn) -> bool {
    &&& before.wf()
    &&& before.stage != TurnStage::Over
    &&& fits(before.stage, reply)
    &&& after.wf()
    &&& after.incoming == before.incoming
    &&& after.phones == match reply {
        TurnReply::Phones(p) => p,
        _ => before.phones,
    }
    &&& after.instance_id@ == match reply {
        TurnReply::Instance(Some(id)) => id@,
        _ => before.instance_id@,
    }
    &&& after.agent_id@ == match reply {
        TurnReply::Routed { agent_id, message } => agent_id@,
        _ => before.agent_id@,
    }
    &&& after.message@ == match reply {
        TurnReply::Routed { agent_id, message } => message@,
        _ => before.message@,
    }
    &&& after.failure@ == match reply {
        TurnReply::Words(w) => w@,
        _ => before.failure@,
    }
    &&& after.language@ == match reply {
        TurnReply::Language(l) => l@,
        _ => before.language@,
    }
    &&& after.stage == stage_after(before.stage, reply, after.phones@.len() as int)
}

/// Taking a message on is a step from what it was to what it is.
pub proof fn law_step_is_followed(turn: &mut Turn, reply: TurnReply)
    requires
        turn.wf(),
        turn.stage != TurnStage::Over,
        fits(turn.stage, reply),
        call_ensures(Turn::step, (turn, reply), ()),
    ensures
        follows(*old(turn), reply, *final(turn)),
{
}

/// Whether `turns` is the course of a message, with the reply that led from each of its
/// states to the next.
pub open spec fn is_course(incoming: Incoming, turns: Seq<Turn>, replies: Seq<TurnReply>) -> bool {
    &&& turns.len() == replies.len() + 1
    &&& call_ensures(Turn::start, (incoming,), turns[0])
    &&& forall|i: int|
        0 <= i < replies.len() ==> follows(#[trigger] turns[i], replies[i], turns[i + 1])
}

/// What is known of a message after `k` replies.
spec fn known(incoming: Incoming, replies: Seq<TurnReply>, k: int, turn: Turn) -> bool {
    &&& turn.wf()
    &&& turn.incoming == incoming
    &&& turn.stage == TurnStage::AwaitClient <==> k == 0
    &&& turn.stage == TurnStage::ReadPhones <==> k == 1
    &&& k >= 2 ==> replies[1] is Phones && turn.phones == replies[1]->Phones_0
    &&& match turn.stage {
        TurnStage::ReadInstance => k == 2,
        TurnStage::TellStart(i) => k == i + 3 && (replies[2] matches TurnReply::Instance(Some(id))
            && turn.instance_id@ == id@),
        TurnStage::Run => k >= 1 && (replies[k - 1] matches TurnReply::Routed {
            agent_id,
            message,
        } && turn.agent_id@ == agent_id@ && turn.message@ == message@),
        TurnStage::StreamFailure => k >= 1 && (replies[k - 1] matches TurnReply::Words(w)
            && turn.failure@ == w@),
        TurnStage::ReadLanguage => k >= 1 && (replies[k - 1] matches TurnReply::Instance(Some(id))
            && turn.instance_id@ == id@),
        TurnStage::TellEnd => k >= 2 && (replies[k - 1] matches TurnReply::Language(l)
            && turn.language@ == l@) && (replies[k - 2] matches TurnReply::Instance(Some(id))
            && turn.instance_id@ == id@),
        _ => true,
    }
}

/// What is known of a message after a reply more.
proof fn lemma_known_on(
    incoming: Incoming,
    replies: Seq<TurnReply>,
    k: int,
    before: Turn,
    after: Turn,
)
    requires
        k >= 0,
        known(incoming, replies, k, before),
        follows(before, replies[k], after),
    ensures
        known(incoming, replies, k + 1, after),
{
    match before.stage {
        TurnStage::AwaitClient => {},
        TurnStage::ReadPhones => {},
        TurnStage::ReadInstance => {},
        TurnStage::TellStart(i) => {
            assert(after.phones@.len() == after.phones.len());
        },
        _ => {},
    }
}

/// What is known of a message at each point of its course.
proof fn lemma_course(incoming: Incoming, turns: Seq<Turn>, replies: Seq<TurnReply>, k: int)
    requires
        is_course(incoming, turns, replies),
        0 <= k < turns.len(),
    ensures
        known(incoming, replies, k, turns[k]),
    decreases k,
{
    if k > 0 {
        lemma_course(incoming, turns, replies, k - 1);
        assert(follows(turns[k - 1], replies[k - 1], turns[k - 1 + 1]));
        lemma_known_on(incoming, replies, k - 1, turns[k - 1], turns[k]);
    }
}

/// Whatever a message asks for on its way, it asks for it in its own name: the thread and the
/// pipe of the turn, of what is cleaned up and of what phones are told are those that the
/// message was sent to, and the user is the one who sent it. An agent takes its turn as the
/// agent that the message was found to be for, with the words that were left of it.
pub proof fn law_turn_is_that_of_its_message(
    incoming: Incoming,
    turns: Seq<Turn>,
    replies: Seq<TurnReply>,
    k: int,
    deed: TurnAction,
)
    requires
        is_course(incoming, turns, replies),
        0 <= k < turns.len(),
        call_ensures(Turn::action, (&turns[k],), deed),
    ensures
        deed matches TurnAction::Run(p) ==> {
            &&& p.thread_id@ == incoming.thread_id@
            &&& p.pipe_id@ == incoming.pipe_id@
            &&& p.user_id@ == incoming.user_id@
            &&& k > 0
            &&& replies[k - 1] matches TurnReply::Routed { agent_id, message } && p.agent_id@
                == agent_id@ && p.message@ == message@
            &&& p.interactive && p.enable_streaming && !p.skip_user_persist && p.chain_depth == 0
            &&& p.delegation_trace@.len() == 0 && p.location_context is None
        },
        deed matches TurnAction::CleanUp { stream_id, thread_id } ==> stream_id@
            == incoming.stream_id@ && thread_id@ == incoming.thread_id@,
        deed matches TurnAction::Route { pipe_id, user_id, words } ==> pipe_id@ == incoming.pipe_id@
            && user_id@ == incoming.user_id@ && words@ == incoming.words@,
        deed matches TurnAction::ReadPhones { user_id } ==> user_id@ == incoming.user_id@,
        deed matches TurnAction::ReadLanguage { user_id } ==> user_id@ == incoming.user_id@,
        deed matches TurnAction::Word { user_id, key } ==> user_id@ == incoming.user_id@ && key@
            == "error.agent_turn_failed"@,
        deed matches TurnAction::AwaitClient { seconds } ==> k == 0 && seconds == 5,
        deed matches TurnAction::Stream(events) ==> {
            &&& k > 0
            &&& replies[k - 1] matches TurnReply::Words(w) && (
            events@[0] matches LoopEvent::Error(e) && e@ == w@)
            &&& events@.len() == 2 && events@[1] is Done
        },
        deed matches TurnAction::TellStart {
            address,
            instance_id,
            pipe_id,
            thread_id,
            title,
            phone,
        } ==> {
            &&& address@ == "https://selu.bot/api/relay/start-activity"@
            &&& pipe_id@ == incoming.pipe_id@ && thread_id@ == incoming.thread_id@
            &&& title@ == title_of(incoming.words@)
            &&& k >= 3
            &&& replies[1] matches TurnReply::Phones(phones) && k - 3 < phones@.len() && phone@
                == phones@[k - 3]@
            &&& replies[2] matches TurnReply::Instance(Some(id)) && instance_id@ == id@
        },
        deed matches TurnAction::TellEnd {
            address,
            instance_id,
            pipe_id,
            thread_id,
            event,
            title,
            body,
        } ==> {
            &&& address@ == "https://selu.bot/api/relay/push"@
            &&& pipe_id@ == incoming.pipe_id@ && thread_id@ == incoming.thread_id@
            &&& event@ == "end"@
            &&& k >= 2
            &&& replies[k - 2] matches TurnReply::Instance(Some(id)) && instance_id@ == id@
            &&& replies[k - 1] matches TurnReply::Language(l) && ("de"@.is_prefix_of(l@)
                ==> body@ == "Agent ist fertig"@) && (!"de"@.is_prefix_of(l@) ==> body@
                == "Agent completed"@)
        },
{
    lemma_course(incoming, turns, replies, k);
}

/// Where in its course a message lets its agent take its turn: as soon as every phone of its
/// user was told, or at once where there is none, or none that can be told.
pub open spec fn place_of_turn(replies: Seq<TurnReply>) -> int {
    match replies[1] {
        TurnReply::Phones(phones) => if phones@.len() == 0 {
            3
        } else if replies[2] matches TurnReply::Instance(Some(_)) {
            phones@.len() as int + 4
        } else {
            4
        },
        _ => 0,
    }
}

/// The phones are told one after the other.
proof fn lemma_phones_are_told(
    incoming: Incoming,
    turns: Seq<Turn>,
    replies: Seq<TurnReply>,
    phones: Seq<String>,
    id: String,
    i: int,
)
    requires
        is_course(incoming, turns, replies),
        turns.len() > i + 3,
        replies[1] matches TurnReply::Phones(p) && p@ == phones,
        phones.len() <= usize::MAX,
        replies[2] == TurnReply::Instance(Some(id)),
        0 <= i < phones.len(),
    ensures
        turns[i + 3].stage == TurnStage::TellStart(i as usize),
    decreases i,
{
    lemma_course(incoming, turns, replies, 1);
    lemma_course(incoming, turns, replies, 2);
    lemma_course(incoming, turns, replies, i + 3);
    if i == 0 {
        assert(follows(turns[1], replies[1], turns[2]));
        assert(follows(turns[2], replies[2], turns[3]));
    } else {
        lemma_phones_are_told(incoming, turns, replies, phones, id, i - 1);
        assert(follows(turns[i + 2], replies[i + 2], turns[i + 3]));
        lemma_course(incoming, turns, replies, i + 2);
    }
}

/// Every message that goes on gets its turn, whatever is said of phones: each phone of the
/// user is told first where this instance is known, and then the agent takes its turn.
pub proof fn law_every_message_gets_its_turn(
    incoming: Incoming,
    turns: Seq<Turn>,
    replies: Seq<TurnReply>,
    k: int,
    deed: TurnAction,
)
    requires
        is_course(incoming, turns, replies),
        1 < k < turns.len(),
        call_ensures(Turn::action, (&turns[k],), deed),
    ensures
        k == place_of_turn(replies) ==> deed is Run,
        k == place_of_turn(replies) - 1 ==> deed is Route,
        2 < k < place_of_turn(replies) - 1 ==> deed is TellStart,
{
    lemma_course(incoming, turns, replies, 1);
    lemma_course(incoming, turns, replies, 2);
    lemma_course(incoming, turns, replies, k);
    assert(follows(turns[1], replies[1], turns[2]));
    let n = replies[1]->Phones_0@.len() as int;
    assert(n == replies[1]->Phones_0.len());
    if k > 2 {
        assert(follows(turns[2], replies[2], turns[3]));
    }
    if n > 0 && k > 2 && replies[2] is Instance && replies[2]->Instance_0 is Some {
        let id = replies[2]->Instance_0->0;
        if k < n + 3 {
            lemma_phones_are_told(incoming, turns, replies, replies[1]->Phones_0@, id, k - 3);
        } else if k < n + 5 {
            lemma_phones_are_told(incoming, turns, replies, replies[1]->Phones_0@, id, n - 1);
            lemma_course(incoming, turns, replies, n + 2);
            assert(follows(turns[n + 2], replies[n + 2], turns[n + 3]));
            if k == n + 4 {
                assert(follows(turns[n + 3], replies[n + 3], turns[n + 4]));
            }
        }
    } else if k == 4 {
        assert(follows(turns[3], replies[3], turns[4]));
    }
}

/// After the turn of an agent its stream is forgotten, and never before: at once where the
/// turn went well; and where it failed, once the user was streamed the failure in their words.
pub proof fn law_stream_ends_after_the_turn(
    incoming: Incoming,
    turns: Seq<Turn>,
    replies: Seq<TurnReply>,
    k: int,
    j: int,
    turn: TurnAction,
    deed: TurnAction,
)
    requires
        is_course(incoming, turns, replies),
        0 <= k < j < turns.len(),
        call_ensures(Turn::action, (&turns[k],), turn),
        call_ensures(Turn::action, (&turns[j],), deed),
        turn is Run,
    ensures
        replies[k] is Done && j == k + 1 ==> deed is CleanUp,
        replies[k] is Failed && j == k + 1 ==> deed is Word,
        replies[k] is Failed && j == k + 2 ==> deed is Stream,
        replies[k] is Failed && j == k + 3 ==> deed is CleanUp,
        replies[k] is Done || replies[k] is Failed,
{
    lemma_course(incoming, turns, replies, k);
    lemma_course(incoming, turns, replies, j);
    assert(follows(turns[k], replies[k], turns[k + 1]));
    if j > k + 1 {
        assert(follows(turns[k + 1], replies[k + 1], turns[k + 2]));
    }
    if j > k + 2 {
        assert(follows(turns[k + 2], replies[k + 2], turns[k + 3]));
    }
}

/// After its stream is forgotten a message is over where its user has no phone; else this
/// instance is looked up, and where it is known the user's phones are told the end in the
/// user's language before the message is over.
pub proof fn law_phones_are_told_the_end(
    incoming: Incoming,
    turns: Seq<Turn>,
    replies: Seq<TurnReply>,
    k: int,
    j: int,
    cleaning: TurnAction,
    deed: TurnAction,
)
    requires
        is_course(incoming, turns, replies),
        1 < k < j < turns.len(),
        call_ensures(Turn::action, (&turns[k],), cleaning),
        call_ensures(Turn::action, (&turns[j],), deed),
        cleaning is CleanUp,
    ensures
        replies[1]->Phones_0@.len() == 0 ==> j == k + 1 && deed is Over,
        replies[1]->Phones_0@.len() > 0 && j == k + 1 ==> deed is ReadInstance,
        replies[1]->Phones_0@.len() > 0 && j > k + 1 && replies[k + 1] == TurnReply::Instance(None)
            ==> j == k + 2 && deed is Over,
        replies[1]->Phones_0@.len() > 0 && j > k + 1 && replies[k + 1] != TurnReply::Instance(None)
            ==> (j == k + 2 ==> deed is ReadLanguage) && (j == k + 3 ==> deed is TellEnd) && (j == k
            + 4 ==> deed is Over),
{
    lemma_course(incoming, turns, replies, k);
    lemma_course(incoming, turns, replies, j);
    assert(follows(turns[k], replies[k], turns[k + 1]));
    lemma_course(incoming, turns, replies, k + 1);
    if j > k + 1 {
        assert(follows(turns[k + 1], replies[k + 1], turns[k + 2]));
        lemma_course(incoming, turns, replies, k + 2);
    }
    if j > k + 2 {
        assert(follows(turns[k + 2], replies[k + 2], turns[k + 3]));
        lemma_course(incoming, turns, replies, k + 3);
    }
    if j > k + 3 {
        assert(follows(turns[k + 3], replies[k + 3], turns[k + 4]));
    }
}

} // verus!
