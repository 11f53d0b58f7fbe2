//! What update jobs ask to be done, and what they are told of it.
use vstd::prelude::*;
use vstd::string::*;
use crate::text::texts;
use crate::updater::runtime::Root;
use crate::updater::types::{ImageIdentity, RollbackRoot};

verus! {

/// What a job asks to be done next.
pub enum Action {
    /// Find out which image runs, and make it one to set back to.
    CaptureRunning,
    /// Make the compose file start an image.
    WriteImageEnv { tag: String, digest: String, version: String, build: String },
    /// Run a compose command.
    Compose(Vec<String>),
    /// Run a command of the container engine.
    Docker(Vec<String>),
    /// See that an image has a digest.
    VerifyDigest { image_ref: String, digest: String },
    /// Make the image that was pulled one to set back to.
    CaptureTarget { tag: String, digest: String, version: String, build: String },
    /// Find out the identity of an image.
    InspectImage { image_ref: String, repository: String },
    /// Wait until the assistant answers that it is well.
    WaitForHealth,
    /// Write down an image to set back to.
    PersistRollback(RollbackRoot),
    /// Bring the updater itself to a release channel.
    RefreshUpdater(String),
    /// Nothing: the job is over.
    Finish(Result<(), String>),
}

/// What a job asks to be done next, as a value.
pub enum Deed {
    CaptureRunning,
    WriteImageEnv { tag: Seq<char>, digest: Seq<char>, version: Seq<char>, build: Seq<char> },
    Compose(Seq<Seq<char>>),
    Docker(Seq<Seq<char>>),
    VerifyDigest { image_ref: Seq<char>, digest: Seq<char> },
    CaptureTarget { tag: Seq<char>, digest: Seq<char>, version: Seq<char>, build: Seq<char> },
    InspectImage { image_ref: Seq<char>, repository: Seq<char> },
    WaitForHealth,
    PersistRollback(Root),
    RefreshUpdater(Seq<char>),
    Finish(Result<(), Seq<char>>),
}

impl Action {
    pub open spec fn view(&self) -> Deed {
        match *self {
            Action::CaptureRunning => Deed::CaptureRunning,
            Action::WriteImageEnv { tag, digest, version, build } => Deed::WriteImageEnv {
                tag: tag@,
                digest: digest@,
                version: version@,
                build: build@,
            },
            Action::Compose(args) => Deed::Compose(texts(args@)),
            Action::Docker(args) => Deed::Docker(texts(args@)),
            Action::VerifyDigest { image_ref, digest } => Deed::VerifyDigest {
                image_ref: image_ref@,
                digest: digest@,
            },
            Action::CaptureTarget { tag, digest, version, build } => Deed::CaptureTarget {
                tag: tag@,
                digest: digest@,
                version: version@,
                build: build@,
            },
            Action::InspectImage { image_ref, repository } => Deed::InspectImage {
                image_ref: image_ref@,
                repository: repository@,
            },
            Action::WaitForHealth => Deed::WaitForHealth,
            Action::PersistRollback(root) => Deed::PersistRollback(root@),
            Action::RefreshUpdater(channel) => Deed::RefreshUpdater(channel@),
            Action::Finish(Ok(_)) => Deed::Finish(Ok(())),
            Action::Finish(Err(e)) => Deed::Finish(Err(e@)),
        }
    }
}

/// How something that a job asked for went.
pub enum Reply {
    Done,
    Root(RollbackRoot),
    Identity(ImageIdentity),
    Failed(String),
}

/// How something that a job asked for went, as a value.
pub enum Answer {
    Done,
    Root(Root),
    Identity { image_id: Seq<char>, immutable_ref: Seq<char> },
    Failed(Seq<char>),
}

impl Reply {
    pub open spec fn view(&self) -> Answer {
        match *self {
            Reply::Done => Answer::Done,
            Reply::Root(root) => Answer::Root(root@),
            Reply::Identity(i) => Answer::Identity {
                image_id: i.image_id@,
                immutable_ref: i.immutable_ref@,
            },
            Reply::Failed(e) => Answer::Failed(e@),
        }
    }
}

/// A root with nothing in it.
pub open spec fn no_root() -> Root {
    Root {
        display_tag: Seq::empty(),
        compose_tag: Seq::empty(),
        digest: Seq::empty(),
        version: Seq::empty(),
        build: Seq::empty(),
        image_id: Seq::empty(),
        immutable_ref: Seq::empty(),
    }
}

/// A root with nothing in it.
pub fn empty_root() -> (r: RollbackRoot)
    ensures
        r@ == no_root(),
{
    RollbackRoot {
        display_tag: String::new(),
        compose_tag: String::new(),
        digest: String::new(),
        version: String::new(),
        build: String::new(),
        image_id: String::new(),
        immutable_ref: String::new(),
    }
}

/// An error with another one behind it.
pub fn two_errors(before: &str, first: &str, between: &str, second: &str) -> (r: String)
    ensures
        r@ == before@ + first@ + between@ + second@,
{
    let mut out = before.to_string();
    out.append(first);
    out.append(between);
    out.append(second);
    out
}

} // verus!
