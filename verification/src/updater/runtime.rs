//! What the service is doing now, and the versions it knows of.
use vstd::prelude::*;
use vstd::string::*;
use crate::text::opt_text;
use crate::updater::types::{RollbackRoot, RuntimeState};

verus! {

/// The versions of an image, as values.
pub struct Version {
    pub tag: Seq<char>,
    pub digest: Seq<char>,
    pub version: Seq<char>,
    pub build: Seq<char>,
}

/// The state of the service, as a value.
pub struct Runtime {
    pub job: Option<Seq<char>>,
    pub status: Seq<char>,
    pub progress_key: Seq<char>,
    pub message: Seq<char>,
    pub installed: Version,
    pub previous: Version,
}

impl Runtime {
    /// The state with another activity.
    pub open spec fn doing(
        self,
        job: Option<Seq<char>>,
        status: Seq<char>,
        progress_key: Seq<char>,
        message: Seq<char>,
    ) -> Runtime {
        Runtime { job, status, progress_key, message, ..self }
    }

    /// The state with other versions.
    pub open spec fn knowing(self, installed: Version, previous: Version) -> Runtime {
        Runtime { installed, previous, ..self }
    }
}

impl RuntimeState {
    pub open spec fn view(&self) -> Runtime {
        Runtime {
            job: opt_text(self.active_job_id),
            status: self.status@,
            progress_key: self.progress_key@,
            message: self.message@,
            installed: Version {
                tag: self.installed_tag@,
                digest: self.installed_digest@,
                version: self.installed_version@,
                build: self.installed_build@,
            },
            previous: Version {
                tag: self.previous_tag@,
                digest: self.previous_digest@,
                version: self.previous_version@,
                build: self.previous_build@,
            },
        }
    }

    /// The state of a service that has just started: idle, with nothing known.
    pub fn new() -> (r: Self)
        ensures
            ({
                let none = Version {
                    tag: Seq::empty(),
                    digest: Seq::empty(),
                    version: Seq::empty(),
                    build: Seq::empty(),
                };
                r@ == (Runtime {
                    job: None,
                    status: "idle"@,
                    progress_key: "updates.progress.idle"@,
                    message: Seq::empty(),
                    installed: none,
                    previous: none,
                })
            }),
    {
        RuntimeState {
            active_job_id: None,
            status: "idle".to_string(),
            progress_key: "updates.progress.idle".to_string(),
            message: String::new(),
            installed_tag: String::new(),
            installed_digest: String::new(),
            installed_version: String::new(),
            installed_build: String::new(),
            previous_tag: String::new(),
            previous_digest: String::new(),
            previous_version: String::new(),
            previous_build: String::new(),
        }
    }

    /// Notes what the service is doing.
    pub fn set_runtime(
        &mut self,
        active_job_id: Option<String>,
        status: &str,
        progress_key: &str,
        message: &str,
    )
        ensures
            final(self)@ == old(self)@.doing(
                opt_text(active_job_id),
                status@,
                progress_key@,
                message@,
            ),
    {
        self.active_job_id = active_job_id;
        self.status = status.to_string();
        self.progress_key = progress_key.to_string();
        self.message = message.to_string();
    }

    /// Notes the installed and the previous version.
    pub fn set_runtime_versions(
        &mut self,
        installed_tag: &str,
        installed_digest: &str,
        installed_version: &str,
        installed_build: &str,
        previous_tag: &str,
        previous_digest: &str,
        previous_version: &str,
        previous_build: &str,
    )
        ensures
            final(self)@ == old(self)@.knowing(
                (Version {
                    tag: installed_tag@,
                    digest: installed_digest@,
                    version: installed_version@,
                    build: installed_build@,
                }),
                (Version {
                    tag: previous_tag@,
                    digest: previous_digest@,
                    version: previous_version@,
                    build: previous_build@,
                }),
            ),
    {
        self.installed_tag = installed_tag.to_string();
        self.installed_digest = installed_digest.to_string();
        self.installed_version = installed_version.to_string();
        self.installed_build = installed_build.to_string();
        self.previous_tag = previous_tag.to_string();
        self.previous_digest = previous_digest.to_string();
        self.previous_version = previous_version.to_string();
        self.previous_build = previous_build.to_string();
    }
}

/// An image to set back to, as a value.
pub struct Root {
    pub display_tag: Seq<char>,
    pub compose_tag: Seq<char>,
    pub digest: Seq<char>,
    pub version: Seq<char>,
    pub build: Seq<char>,
    pub image_id: Seq<char>,
    pub immutable_ref: Seq<char>,
}

impl Root {
    /// Whether the image can be started without a pull.
    pub open spec fn available(self) -> bool {
        self.image_id.len() > 0 && self.compose_tag.len() > 0
    }

    /// The tag that the compose file is to use for the image.
    pub open spec fn start_tag(self) -> Seq<char> {
        if self.compose_tag.len() == 0 {
            self.display_tag
        } else {
            self.compose_tag
        }
    }

    /// The version that is shown for the image.
    pub open spec fn shown(self) -> Version {
        Version {
            tag: self.display_tag,
            digest: self.digest,
            version: self.version,
            build: self.build,
        }
    }
}

impl RollbackRoot {
    pub open spec fn view(&self) -> Root {
        Root {
            display_tag: self.display_tag@,
            compose_tag: self.compose_tag@,
            digest: self.digest@,
            version: self.version@,
            build: self.build@,
            image_id: self.image_id@,
            immutable_ref: self.immutable_ref@,
        }
    }

    /// Whether the image can be started without a pull.
    pub fn is_available(&self) -> (r: bool)
        ensures
            r == self@.available(),
    {
        !self.image_id.as_str().is_empty() && !self.compose_tag.as_str().is_empty()
    }

    /// The same root once more.
    pub fn copied(&self) -> (r: RollbackRoot)
        ensures
            r@ == self@,
    {
        RollbackRoot {
            display_tag: self.display_tag.clone(),
            compose_tag: self.compose_tag.clone(),
            digest: self.digest.clone(),
            version: self.version.clone(),
            build: self.build.clone(),
            image_id: self.image_id.clone(),
            immutable_ref: self.immutable_ref.clone(),
        }
    }
}

// ── Laws ─────────────────────────────────────────────────────────────────────

/// Noting what the service does leaves what it knows of versions, and each part of what is noted
/// is found where it belongs.
pub proof fn law_doing_keeps_versions(
    state: &mut RuntimeState,
    job: Option<String>,
    status: &str,
    progress_key: &str,
    message: &str,
)
    requires
        call_ensures(RuntimeState::set_runtime, (state, job, status, progress_key, message), ()),
    ensures
        opt_text(final(state).active_job_id) == opt_text(job),
        final(state).status@ == status@,
        final(state).progress_key@ == progress_key@,
        final(state).message@ == message@,
        final(state)@.installed == old(state)@.installed,
        final(state)@.previous == old(state)@.previous,
        final(state).installed_tag@ == old(state).installed_tag@,
        final(state).previous_tag@ == old(state).previous_tag@,
        final(state).installed_digest@ == old(state).installed_digest@,
        final(state).previous_digest@ == old(state).previous_digest@,
{
    assert(final(state)@.installed.tag == old(state)@.installed.tag);
    assert(final(state)@.previous.tag == old(state)@.previous.tag);
    assert(final(state)@.installed.digest == old(state)@.installed.digest);
    assert(final(state)@.previous.digest == old(state)@.previous.digest);
}

/// Noting versions leaves the job and what the service does, and each version is found where it
/// belongs: what is installed as installed, and what was before as before.
pub proof fn law_versions_are_noted_apart(
    state: &mut RuntimeState,
    installed_tag: &str,
    installed_digest: &str,
    installed_version: &str,
    installed_build: &str,
    previous_tag: &str,
    previous_digest: &str,
    previous_version: &str,
    previous_build: &str,
)
    requires
        call_ensures(
            RuntimeState::set_runtime_versions,
            (
                state,
                installed_tag,
                installed_digest,
                installed_version,
                installed_build,
                previous_tag,
                previous_digest,
                previous_version,
                previous_build,
            ),
            (),
        ),
    ensures
        final(state)@.job == old(state)@.job,
        final(state)@.status == old(state)@.status,
        final(state)@.progress_key == old(state)@.progress_key,
        final(state)@.message == old(state)@.message,
        final(state)@.installed.tag == installed_tag@,
        final(state)@.installed.digest == installed_digest@,
        final(state)@.installed.version == installed_version@,
        final(state)@.installed.build == installed_build@,
        final(state)@.previous.tag == previous_tag@,
        final(state)@.previous.digest == previous_digest@,
        final(state)@.previous.version == previous_version@,
        final(state)@.previous.build == previous_build@,
{
}

/// The value of a state is made of its fields, each in its place.
pub proof fn law_state_is_its_fields(state: RuntimeState)
    ensures
        state@.job == opt_text(state.active_job_id),
        state@.status == state.status@,
        state@.progress_key == state.progress_key@,
        state@.message == state.message@,
        state@.installed.tag == state.installed_tag@,
        state@.installed.digest == state.installed_digest@,
        state@.installed.version == state.installed_version@,
        state@.installed.build == state.installed_build@,
        state@.previous.tag == state.previous_tag@,
        state@.previous.digest == state.previous_digest@,
        state@.previous.version == state.previous_version@,
        state@.previous.build == state.previous_build@,
{
}

/// A root can be started without a pull exactly where its image is known by its ID and by a tag
/// on this machine.
pub proof fn law_root_is_available(root: RollbackRoot, r: bool)
    requires
        call_ensures(RollbackRoot::is_available, (&root,), r),
    ensures
        r <==> root.image_id@.len() > 0 && root.compose_tag@.len() > 0,
{
}

/// A copy of a root is that root in every part.
pub proof fn law_copy_is_the_same_root(root: RollbackRoot, r: RollbackRoot)
    requires
        call_ensures(RollbackRoot::copied, (&root,), r),
    ensures
        r.display_tag@ == root.display_tag@,
        r.compose_tag@ == root.compose_tag@,
        r.digest@ == root.digest@,
        r.version@ == root.version@,
        r.build@ == root.build@,
        r.image_id@ == root.image_id@,
        r.immutable_ref@ == root.immutable_ref@,
{
    assert(r@.display_tag == root@.display_tag && r@.compose_tag == root@.compose_tag && r@.digest
        == root@.digest && r@.version == root@.version && r@.build == root@.build && r@.image_id
        == root@.image_id && r@.immutable_ref == root@.immutable_ref);
}

} // verus!
