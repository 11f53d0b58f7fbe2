//! Images on this machine: what the container engine says of them, and what is
//! written down so that the assistant can be set back.
use vstd::prelude::*;
use vstd::string::*;
use crate::clock;
use crate::clock::{is_rfc3339, stamp, Moment};
use crate::text;
use crate::text::{lines_of, lowered, occurs_in, opt_text, texts, trimmed};
use crate::updater::env_document::{
    assigned_all, disturbs, law_group_then_value, lookup, readable_key, EnvDocument,
};
use crate::updater::image_ref;
use crate::updater::image_ref::{
    canonical, digest_error, glued, repo_digest, repository_of, tag_of, ImmutableImagePlan,
};
use crate::updater::runtime::Root;
use crate::updater::storage::{
    ROLLBACK_IMAGE_DIGEST_ENV, ROLLBACK_IMAGE_ID_ENV, ROLLBACK_IMAGE_REF_ENV,
    ROLLBACK_IMAGE_RETAIN_UNTIL_ENV, ROLLBACK_IMAGE_TAG_ENV, SYSTEM_IMAGE_RETENTION_DAYS,
    UPDATER_CURRENT_IMAGE_REF_ENV, UPDATER_HELPER_ACTIVE_ENV, UPDATER_PREVIOUS_IMAGE_REF_ENV,
    UPDATER_PREVIOUS_RETAIN_UNTIL_ENV, WHATSAPP_CURRENT_IMAGE_REF_ENV,
    WHATSAPP_PREVIOUS_IMAGE_REF_ENV, WHATSAPP_PREVIOUS_RETAIN_UNTIL_ENV,
};
use crate::updater::types::{ImageIdentity, InstalledImageState, RollbackRoot};

verus! {

// ── What the container engine says ───────────────────────────────────────────

/// The container that a list of container IDs starts with.
pub open spec fn first_container(output: Seq<char>) -> Seq<char> {
    if lines_of(output).len() == 0 {
        Seq::empty()
    } else {
        trimmed(lines_of(output)[0])
    }
}

/// The container that a list of container IDs starts with.
pub fn container_id(output: &str) -> (r: String)
    ensures
        r@ == first_container(output@),
{
    let lines = text::lines(output);
    proof {
        assert(texts(lines@).len() == lines@.len());
    }
    if lines.len() == 0 {
        proof {
            assert(trimmed(Seq::<char>::empty()) =~= Seq::<char>::empty());
        }
        String::new()
    } else {
        proof {
            assert(texts(lines@)[0] == lines@[0]@);
        }
        text::trim(lines[0].as_str()).to_string()
    }
}

/// What the container engine says of a running container.
pub struct RunningContainer {
    pub configured_image: String,
    pub image_id: String,
    pub repo_digests: String,
}

/// The installed image: what the environment file says, and, where a container
/// runs, what the container engine says of it.
pub fn installed_image_state(
    env_tag: &str,
    env_digest: &str,
    running: &Option<RunningContainer>,
    image_repo: &str,
) -> (r: InstalledImageState)
    ensures
        match running {
            None => r.tag@ == env_tag@ && r.digest@ == env_digest@ && r.image_id@.len() == 0,
            Some(c) => {
                &&& r.tag@ == match tag_of(trimmed(c.configured_image@), image_repo@) {
                    Some(tag) => tag,
                    None => env_tag@,
                }
                &&& r.image_id@ == trimmed(c.image_id@)
                &&& r.digest@ == if trimmed(c.image_id@).len() == 0 {
                    env_digest@
                } else {
                    match repo_digest(c.repo_digests@, image_repo@) {
                        Some(d) => d,
                        None => Seq::<char>::empty(),
                    }
                }
            },
        },
{
    match running {
        None => InstalledImageState {
            tag: env_tag.to_string(),
            digest: env_digest.to_string(),
            image_id: String::new(),
        },
        Some(c) => {
            let tag = match image_ref::extract_tag_from_image_ref(
                text::trim(c.configured_image.as_str()),
                image_repo,
            ) {
                Some(tag) => tag,
                None => env_tag.to_string(),
            };
            let image_id = text::trim(c.image_id.as_str()).to_string();
            let digest = if image_id.as_str().is_empty() {
                env_digest.to_string()
            } else {
                match image_ref::repo_digest_for_repository(c.repo_digests.as_str(), image_repo) {
                    Some(d) => d,
                    None => String::new(),
                }
            };
            InstalledImageState { tag, digest, image_id }
        },
    }
}

/// The identity of an image: its ID as the container engine gave it, and the
/// repository with its digest, where the image has one for exactly that
/// repository.
pub fn image_identity(
    image_ref: &str,
    id_output: &str,
    repo_digests: &str,
    expected_repo: &str,
) -> (r: Result<ImageIdentity, String>)
    ensures
        if trimmed(id_output@).len() == 0 {
            r is Err && r->Err_0@ == "Docker image '"@ + image_ref@ + "' did not have an image ID"@
        } else {
            &&& r is Ok
            &&& r->Ok_0.image_id@ == trimmed(id_output@)
            &&& r->Ok_0.immutable_ref@ == match (
                repository_of(expected_repo@),
                repo_digest(repo_digests@, expected_repo@),
            ) {
                (Some(repository), Some(d)) => repository + "@"@ + d,
                _ => trimmed(id_output@),
            }
        },
{
    let image_id = text::trim(id_output).to_string();
    if image_id.as_str().is_empty() {
        return Err(glued("Docker image '", image_ref, "' did not have an image ID"));
    }
    let digest = image_ref::repo_digest_for_repository(repo_digests, expected_repo);
    let immutable_ref = match (image_ref::repository_from_image_ref(expected_repo), digest) {
        (Some(repository), Some(d)) => glued(repository.as_str(), "@", d.as_str()),
        _ => image_id.clone(),
    };
    Ok(ImageIdentity { image_id, immutable_ref })
}

/// Whether an error of the container engine says that there is no such thing.
pub open spec fn names_nothing(error: Seq<char>) -> bool {
    occurs_in(error, "No such object"@) || occurs_in(error, "No such container"@)
}

/// Whether an error of the container engine says that there is no such thing.
pub fn is_missing(error: &str) -> (r: bool)
    ensures
        r == names_nothing(error@),
{
    text::contains(error, "No such object") || text::contains(error, "No such container")
}

/// Accepts an image whose digest for exactly the given repository is the
/// expected one.
pub fn verify_local_digest(repo_digests: &str, expected_digest: &str, image_repo: &str) -> (r:
    Result<(), String>)
    ensures
        match canonical(expected_digest@) {
            None => r is Err && r->Err_0@ == digest_error(),
            Some(d) => if repo_digest(repo_digests@, image_repo@) == Some(d) {
                r is Ok
            } else {
                r is Err && r->Err_0@ == "Pulled image did not expose expected digest "@ + d
                    + " for exact repository "@ + image_repo@
            },
        },
{
    let expected = match image_ref::canonical_sha256_digest(expected_digest) {
        Ok(d) => d,
        Err(e) => {
            return Err(e);
        },
    };
    match image_ref::repo_digest_for_repository(repo_digests, image_repo) {
        Some(d) => {
            if text::same(d.as_str(), expected.as_str()) {
                return Ok(());
            }
        },
        None => {},
    }
    let mut e = "Pulled image did not expose expected digest ".to_string();
    e.append(expected.as_str());
    e.append(" for exact repository ");
    e.append(image_repo);
    Err(e)
}

// ── Roots to set back to ─────────────────────────────────────────────────────

/// `s` without any number of `p` at its start; `p` is not empty.
pub open spec fn shed(s: Seq<char>, p: Seq<char>) -> Seq<char>
    decreases s.len(),
{
    if p.len() > 0 && p.is_prefix_of(s) {
        shed(s.subrange(p.len() as int, s.len() as int), p)
    } else {
        s
    }
}

/// `s` without any number of `p` at its start.
pub fn shed_prefix<'a>(s: &'a str, p: &str) -> (r: &'a str)
    requires
        p@.len() > 0,
    ensures
        r@ == shed(s@, p@),
{
    let mut rest: &'a str = s;
    while text::starts_with(rest, p)
        invariant
            p@.len() > 0,
            shed(rest@, p@) == shed(s@, p@),
        decreases rest@.len(),
    {
        let n: usize = rest.unicode_len();
        rest = rest.substring_char(p.unicode_len(), n);
    }
    rest
}

/// What a running image is told apart by: its digest, or its ID without one.
pub open spec fn identity_key(installed: InstalledImageState) -> Seq<char> {
    if installed.digest@.len() == 0 {
        installed.image_id@
    } else {
        installed.digest@
    }
}

/// The hexadecimal part of what a running image is told apart by.
pub open spec fn identity_suffix(installed: InstalledImageState) -> Seq<char> {
    lowered(shed(identity_key(installed), "sha256:"@))
}

/// The tag that is shown for an installed image.
pub open spec fn shown_tag(env_tag: Seq<char>, installed: InstalledImageState) -> Seq<char> {
    if installed.tag@.len() == 0 {
        env_tag
    } else {
        installed.tag@
    }
}

/// Whether each character is a hexadecimal digit.
pub open spec fn hexadecimal(s: Seq<char>) -> bool {
    forall|i: int| 0 <= i < s.len() ==> text::is_hex(#[trigger] s[i])
}

/// The running image as one to set back to. Where a container runs, the image is
/// to be tagged on this machine by its digest or ID, and `tag_ref` says how.
pub fn captured_root(
    env_tag: &str,
    version: &str,
    build: &str,
    installed: &InstalledImageState,
    image_repo: &str,
) -> (r: Result<(RollbackRoot, Option<String>), String>)
    ensures
        ({
            let suffix = identity_suffix(*installed);
            let bare = Root {
                display_tag: shown_tag(env_tag@, *installed),
                compose_tag: Seq::empty(),
                digest: installed.digest@,
                version: version@,
                build: build@,
                image_id: installed.image_id@,
                immutable_ref: Seq::empty(),
            };
            if installed.image_id@.len() == 0 {
                r is Ok && r->Ok_0.0@ == bare && r->Ok_0.1 is None
            } else {
                match repository_of(image_repo@) {
                    None => r is Err && r->Err_0@ == "Image repository must not be empty"@,
                    Some(repository) => if suffix.len() == 0 || !hexadecimal(suffix) {
                        r is Err && r->Err_0@ == "Running Selu image had an invalid immutable ID"@
                    } else {
                        &&& r is Ok
                        &&& r->Ok_0.0@ == (Root {
                            compose_tag: "selu-rollback-"@ + suffix,
                            immutable_ref: if installed.digest@.len() == 0 {
                                installed.image_id@
                            } else {
                                repository + "@"@ + installed.digest@
                            },
                            ..bare
                        })
                        &&& opt_text(r->Ok_0.1) == Some(
                            repository + ":"@ + ("selu-rollback-"@ + suffix),
                        )
                    },
                }
            }
        }),
{
    let display_tag = if installed.tag.as_str().is_empty() {
        env_tag.to_string()
    } else {
        installed.tag.clone()
    };
    if installed.image_id.as_str().is_empty() {
        return Ok(
            (
                RollbackRoot {
                    display_tag,
                    compose_tag: String::new(),
                    digest: installed.digest.clone(),
                    version: version.to_string(),
                    build: build.to_string(),
                    image_id: installed.image_id.clone(),
                    immutable_ref: String::new(),
                },
                None,
            ),
        );
    }
    let key = if installed.digest.as_str().is_empty() {
        installed.image_id.as_str()
    } else {
        installed.digest.as_str()
    };
    let repository = match image_ref::repository_from_image_ref(image_repo) {
        Some(repository) => repository,
        None => {
            return Err("Image repository must not be empty".to_string());
        },
    };
    proof {
        reveal_strlit("sha256:");
    }
    let suffix = text::to_lower(shed_prefix(key, "sha256:"));
    let v = text::chars_of(suffix.as_str());
    if suffix.as_str().is_empty() || !text::all_hex(&v, 0) {
        return Err("Running Selu image had an invalid immutable ID".to_string());
    }
    let mut compose_tag = "selu-rollback-".to_string();
    compose_tag.append(suffix.as_str());
    let local_ref = glued(repository.as_str(), ":", compose_tag.as_str());
    let immutable_ref = if installed.digest.as_str().is_empty() {
        installed.image_id.clone()
    } else {
        glued(repository.as_str(), "@", installed.digest.as_str())
    };
    Ok(
        (
            RollbackRoot {
                display_tag,
                compose_tag,
                digest: installed.digest.clone(),
                version: version.to_string(),
                build: build.to_string(),
                image_id: installed.image_id.clone(),
                immutable_ref,
            },
            Some(local_ref),
        ),
    )
}

/// The plan for an image that was just pulled by its tag, its repository, and
/// the reference it was pulled by.
pub fn target_refs(image_repo: &str, tag: &str, digest: &str) -> (r: Result<
    (ImmutableImagePlan, String, String),
    String,
>)
    ensures
        match (repository_of(image_repo@), canonical(digest@)) {
            (None, _) => r is Err && r->Err_0@ == "Image repository must not be empty"@,
            (Some(_), None) => r is Err && r->Err_0@ == digest_error(),
            (Some(repository), Some(d)) => {
                &&& r is Ok
                &&& r->Ok_0.0.is_for(repository, d)
                &&& r->Ok_0.1@ == repository
                &&& r->Ok_0.2@ == repository + ":"@ + tag@
            },
        },
{
    let plan = match image_ref::immutable_image_plan(image_repo, digest) {
        Ok(plan) => plan,
        Err(e) => {
            return Err(e);
        },
    };
    match image_ref::repository_from_image_ref(image_repo) {
        Some(repository) => {
            let mutable_ref = glued(repository.as_str(), ":", tag);
            Ok((plan, repository, mutable_ref))
        },
        None => Err("Image repository must not be empty".to_string()),
    }
}

/// An image that was just pulled, as one to set back to.
pub fn target_root(
    plan: ImmutableImagePlan,
    identity: ImageIdentity,
    tag: &str,
    digest: &str,
    version: &str,
    build: &str,
) -> (r: Result<RollbackRoot, String>)
    ensures
        match canonical(digest@) {
            None => r is Err && r->Err_0@ == digest_error(),
            Some(d) => r is Ok && r->Ok_0@ == (Root {
                display_tag: tag@,
                compose_tag: plan.compose_tag@,
                digest: d,
                version: version@,
                build: build@,
                image_id: identity.image_id@,
                immutable_ref: identity.immutable_ref@,
            }),
        },
{
    match image_ref::canonical_sha256_digest(digest) {
        Err(e) => Err(e),
        Ok(d) => Ok(
            RollbackRoot {
                display_tag: tag.to_string(),
                compose_tag: plan.compose_tag,
                digest: d,
                version: version.to_string(),
                build: build.to_string(),
                image_id: identity.image_id,
                immutable_ref: identity.immutable_ref,
            },
        ),
    }
}

// ── What is written down ─────────────────────────────────────────────────────

/// The assignments that make the compose file start an image.
pub open spec fn image_values(
    tag: Seq<char>,
    digest: Seq<char>,
    version: Seq<char>,
    build: Seq<char>,
) -> Seq<(Seq<char>, Seq<char>)> {
    seq![
        ("SELU_IMAGE_TAG"@, tag),
        ("SELU_IMAGE_DIGEST"@, digest),
        ("SELU_IMAGE_VERSION"@, version),
        ("SELU_IMAGE_BUILD"@, build),
    ]
}

/// Makes the compose file start an image.
pub fn activate_image_env(
    document: &mut EnvDocument,
    tag: &str,
    digest: &str,
    version: &str,
    build: &str,
)
    ensures
        final(document)@ == assigned_all(
            old(document)@,
            image_values(tag@, digest@, version@, build@),
        ),
        final(document).dirty == (old(document).dirty || disturbs(
            old(document)@,
            image_values(tag@, digest@, version@, build@),
        )),
{
    let values = [
        ("SELU_IMAGE_TAG", tag),
        ("SELU_IMAGE_DIGEST", digest),
        ("SELU_IMAGE_VERSION", version),
        ("SELU_IMAGE_BUILD", build),
    ];
    proof {
        assert(crate::updater::env_document::pair_texts(values@) =~= image_values(
            tag@,
            digest@,
            version@,
            build@,
        ));
    }
    document.upsert_env_vars(&values);
}

/// The assignments that make the compose file start the image of a root.
pub open spec fn root_values(root: Root) -> Seq<(Seq<char>, Seq<char>)> {
    image_values(root.start_tag(), root.digest, root.version, root.build)
}

/// Makes the compose file start the image of a root.
pub fn activate_rollback_root_env(document: &mut EnvDocument, root: &RollbackRoot)
    ensures
        final(document)@ == assigned_all(old(document)@, root_values(root@)),
        final(document).dirty == (old(document).dirty || disturbs(
            old(document)@,
            root_values(root@),
        )),
{
    let tag = if root.compose_tag.as_str().is_empty() {
        root.display_tag.as_str()
    } else {
        root.compose_tag.as_str()
    };
    activate_image_env(
        document,
        tag,
        root.digest.as_str(),
        root.version.as_str(),
        root.build.as_str(),
    )
}

/// The deadline of an image that is written down: the one in the file where it
/// is a date and belongs to the same image, none without an image, and else a
/// new one.
pub open spec fn renewed_deadline(
    lines: Seq<Seq<char>>,
    ref_key: Seq<char>,
    deadline_key: Seq<char>,
    image_ref: Seq<char>,
    now: Moment,
) -> Seq<char> {
    if image_ref.len() == 0 {
        Seq::empty()
    } else if image_ref == lookup(lines, ref_key) && is_rfc3339(lookup(lines, deadline_key)) {
        lookup(lines, deadline_key)
    } else {
        stamp(now, SYSTEM_IMAGE_RETENTION_DAYS as int)
    }
}

/// The deadline of an image that is written down.
fn renew_deadline(
    document: &EnvDocument,
    ref_key: &str,
    deadline_key: &str,
    image_ref: &str,
    now: &Moment,
) -> (r: String)
    requires
        now.dated(0),
        now.dated(SYSTEM_IMAGE_RETENTION_DAYS as int),
    ensures
        r@ == renewed_deadline(document@, ref_key@, deadline_key@, image_ref@, *now),
{
    let prior_ref = document.value(ref_key);
    let prior_deadline = document.value(deadline_key);
    if image_ref.is_empty() {
        String::new()
    } else if text::same(image_ref, prior_ref.as_str()) && clock::parses_rfc3339(
        prior_deadline.as_str(),
    ) {
        prior_deadline
    } else {
        clock::stamp_after(now, SYSTEM_IMAGE_RETENTION_DAYS)
    }
}

/// The group of assignments that writes down a root.
pub open spec fn rollback_values(lines: Seq<Seq<char>>, root: Root, now: Moment) -> Seq<
    (Seq<char>, Seq<char>),
> {
    seq![
        (ROLLBACK_IMAGE_REF_ENV@, root.immutable_ref),
        (ROLLBACK_IMAGE_ID_ENV@, root.image_id),
        (ROLLBACK_IMAGE_TAG_ENV@, root.compose_tag),
        (ROLLBACK_IMAGE_DIGEST_ENV@, root.digest),
        (
            ROLLBACK_IMAGE_RETAIN_UNTIL_ENV@,
            renewed_deadline(
                lines,
                ROLLBACK_IMAGE_REF_ENV@,
                ROLLBACK_IMAGE_RETAIN_UNTIL_ENV@,
                root.immutable_ref,
                now,
            ),
        ),
    ]
}

/// Writes down a root as one group.
pub fn persist_rollback_root(document: &mut EnvDocument, root: &RollbackRoot, now: &Moment)
    requires
        now.dated(0),
        now.dated(SYSTEM_IMAGE_RETENTION_DAYS as int),
    ensures
        final(document)@ == assigned_all(
            old(document)@,
            rollback_values(old(document)@, root@, *now),
        ),
        final(document).dirty == (old(document).dirty || disturbs(
            old(document)@,
            rollback_values(old(document)@, root@, *now),
        )),
{
    let retain_until = renew_deadline(
        document,
        ROLLBACK_IMAGE_REF_ENV,
        ROLLBACK_IMAGE_RETAIN_UNTIL_ENV,
        root.immutable_ref.as_str(),
        now,
    );
    let values = [
        (ROLLBACK_IMAGE_REF_ENV, root.immutable_ref.as_str()),
        (ROLLBACK_IMAGE_ID_ENV, root.image_id.as_str()),
        (ROLLBACK_IMAGE_TAG_ENV, root.compose_tag.as_str()),
        (ROLLBACK_IMAGE_DIGEST_ENV, root.digest.as_str()),
        (ROLLBACK_IMAGE_RETAIN_UNTIL_ENV, retain_until.as_str()),
    ];
    proof {
        assert(crate::updater::env_document::pair_texts(values@) =~= rollback_values(
            old(document)@,
            root@,
            *now,
        ));
    }
    document.upsert_env_vars(&values);
}

/// The group of assignments that writes down a restart of the updater.
pub open spec fn restart_values(
    lines: Seq<Seq<char>>,
    tag_key: Seq<char>,
    tag: Seq<char>,
    current_ref: Seq<char>,
    previous_ref: Seq<char>,
    retain_until: Option<Seq<char>>,
    helper_active: bool,
    now: Moment,
) -> Seq<(Seq<char>, Seq<char>)> {
    seq![
        (tag_key, tag),
        (UPDATER_CURRENT_IMAGE_REF_ENV@, current_ref),
        (UPDATER_PREVIOUS_IMAGE_REF_ENV@, previous_ref),
        (
            UPDATER_PREVIOUS_RETAIN_UNTIL_ENV@,
            match retain_until {
                Some(v) => v,
                None => renewed_deadline(
                    lines,
                    UPDATER_PREVIOUS_IMAGE_REF_ENV@,
                    UPDATER_PREVIOUS_RETAIN_UNTIL_ENV@,
                    previous_ref,
                    now,
                ),
            },
        ),
        (
            UPDATER_HELPER_ACTIVE_ENV@,
            if helper_active {
                "true"@
            } else {
                "false"@
            },
        ),
    ]
}

/// Writes down a restart of the updater as one group.
pub fn persist_updater_restart_state(
    document: &mut EnvDocument,
    tag_key: &str,
    tag: &str,
    current_ref: &str,
    previous_ref: &str,
    retain_until_override: Option<&str>,
    helper_active: bool,
    now: &Moment,
)
    requires
        now.dated(0),
        now.dated(SYSTEM_IMAGE_RETENTION_DAYS as int),
    ensures
        final(document)@ == assigned_all(
            old(document)@,
            restart_values(
                old(document)@,
                tag_key@,
                tag@,
                current_ref@,
                previous_ref@,
                text::opt_str(retain_until_override),
                helper_active,
                *now,
            ),
        ),
        final(document).dirty == (old(document).dirty || disturbs(
            old(document)@,
            restart_values(
                old(document)@,
                tag_key@,
                tag@,
                current_ref@,
                previous_ref@,
                text::opt_str(retain_until_override),
                helper_active,
                *now,
            ),
        )),
{
    let retain_until = match retain_until_override {
        Some(v) => v.to_string(),
        None => renew_deadline(
            document,
            UPDATER_PREVIOUS_IMAGE_REF_ENV,
            UPDATER_PREVIOUS_RETAIN_UNTIL_ENV,
            previous_ref,
            now,
        ),
    };
    let values = [
        (tag_key, tag),
        (UPDATER_CURRENT_IMAGE_REF_ENV, current_ref),
        (UPDATER_PREVIOUS_IMAGE_REF_ENV, previous_ref),
        (UPDATER_PREVIOUS_RETAIN_UNTIL_ENV, retain_until.as_str()),
        (
            UPDATER_HELPER_ACTIVE_ENV,
            if helper_active {
                "true"
            } else {
                "false"
            },
        ),
    ];
    proof {
        assert(crate::updater::env_document::pair_texts(values@) =~= restart_values(
            old(document)@,
            tag_key@,
            tag@,
            current_ref@,
            previous_ref@,
            text::opt_str(retain_until_override),
            helper_active,
            *now,
        ));
    }
    document.upsert_env_vars(&values);
}

/// The group of assignments that writes down the images of the message bridge.
pub open spec fn bridge_values(
    current_ref: Seq<char>,
    previous_ref: Seq<char>,
    retain_until: Seq<char>,
) -> Seq<(Seq<char>, Seq<char>)> {
    seq![
        (WHATSAPP_CURRENT_IMAGE_REF_ENV@, current_ref),
        (WHATSAPP_PREVIOUS_IMAGE_REF_ENV@, previous_ref),
        (WHATSAPP_PREVIOUS_RETAIN_UNTIL_ENV@, retain_until),
    ]
}

/// Writes down the images of the message bridge as one group.
pub fn persist_whatsapp_image_refs(
    document: &mut EnvDocument,
    current_ref: &str,
    previous_ref: &str,
    retain_until: &str,
)
    ensures
        final(document)@ == assigned_all(
            old(document)@,
            bridge_values(current_ref@, previous_ref@, retain_until@),
        ),
        final(document).dirty == (old(document).dirty || disturbs(
            old(document)@,
            bridge_values(current_ref@, previous_ref@, retain_until@),
        )),
{
    let values = [
        (WHATSAPP_CURRENT_IMAGE_REF_ENV, current_ref),
        (WHATSAPP_PREVIOUS_IMAGE_REF_ENV, previous_ref),
        (WHATSAPP_PREVIOUS_RETAIN_UNTIL_ENV, retain_until),
    ];
    proof {
        assert(crate::updater::env_document::pair_texts(values@) =~= bridge_values(
            current_ref@,
            previous_ref@,
            retain_until@,
        ));
    }
    document.upsert_env_vars(&values);
}

// ── Laws ─────────────────────────────────────────────────────────────────────

/// Whether a text can be a key: it starts with no white space and holds no
/// equals sign.
pub open spec fn plain_key(key: Seq<char>) -> bool {
    readable_key(key) && !key.contains('=')
}

proof fn lemma_rollback_keys()
    ensures
        plain_key(ROLLBACK_IMAGE_REF_ENV@),
        plain_key(ROLLBACK_IMAGE_ID_ENV@),
        plain_key(ROLLBACK_IMAGE_TAG_ENV@),
        plain_key(ROLLBACK_IMAGE_DIGEST_ENV@),
        plain_key(ROLLBACK_IMAGE_RETAIN_UNTIL_ENV@),
        ROLLBACK_IMAGE_REF_ENV@ != ROLLBACK_IMAGE_TAG_ENV@,
        ROLLBACK_IMAGE_REF_ENV@.len() == 23,
        ROLLBACK_IMAGE_ID_ENV@.len() == 22,
        ROLLBACK_IMAGE_TAG_ENV@.len() == 23,
        ROLLBACK_IMAGE_DIGEST_ENV@.len() == 26,
        ROLLBACK_IMAGE_RETAIN_UNTIL_ENV@.len() == 32,
{
    reveal_strlit("SELU_ROLLBACK_IMAGE_REF");
    reveal_strlit("SELU_ROLLBACK_IMAGE_ID");
    reveal_strlit("SELU_ROLLBACK_IMAGE_TAG");
    reveal_strlit("SELU_ROLLBACK_IMAGE_DIGEST");
    reveal_strlit("SELU_ROLLBACK_IMAGE_RETAIN_UNTIL");
    assert(ROLLBACK_IMAGE_REF_ENV@[20] != ROLLBACK_IMAGE_TAG_ENV@[20]);
}

/// A root is written down as one exact group: whatever the file held before, all
/// five values are read back as they were written.
pub proof fn law_rollback_group_is_read_back(lines: Seq<Seq<char>>, root: Root, now: Moment, i: int)
    requires
        0 <= i < 5,
    ensures
        ({
            let values = rollback_values(lines, root, now);
            lookup(assigned_all(lines, values), values[i].0) == trimmed(values[i].1)
        }),
{
    lemma_rollback_keys();
    law_group_then_value(lines, rollback_values(lines, root, now), i);
}

/// The image that the compose file is made to start is the one that is read back:
/// its tag, its digest, its version and its build.
pub proof fn law_started_image_is_read_back(
    lines: Seq<Seq<char>>,
    tag: Seq<char>,
    digest: Seq<char>,
    version: Seq<char>,
    build: Seq<char>,
    i: int,
)
    requires
        0 <= i < 4,
    ensures
        ({
            let values = image_values(tag, digest, version, build);
            lookup(assigned_all(lines, values), values[i].0) == trimmed(values[i].1)
        }),
{
    reveal_strlit("SELU_IMAGE_TAG");
    reveal_strlit("SELU_IMAGE_DIGEST");
    reveal_strlit("SELU_IMAGE_VERSION");
    reveal_strlit("SELU_IMAGE_BUILD");
    assert("SELU_IMAGE_TAG"@.len() == 14 && "SELU_IMAGE_DIGEST"@.len() == 17
        && "SELU_IMAGE_VERSION"@.len() == 18 && "SELU_IMAGE_BUILD"@.len() == 16);
    law_group_then_value(lines, image_values(tag, digest, version, build), i);
}

/// A started image is told by name: whatever the file held before, its tag, its digest, its
/// version and its build are read back under the names by which the compose file knows them.
pub proof fn law_started_image_is_named(
    document: &mut EnvDocument,
    tag: &str,
    digest: &str,
    version: &str,
    build: &str,
)
    requires
        call_ensures(activate_image_env, (document, tag, digest, version, build), ()),
    ensures
        lookup(final(document)@, "SELU_IMAGE_TAG"@) == trimmed(tag@),
        lookup(final(document)@, "SELU_IMAGE_DIGEST"@) == trimmed(digest@),
        lookup(final(document)@, "SELU_IMAGE_VERSION"@) == trimmed(version@),
        lookup(final(document)@, "SELU_IMAGE_BUILD"@) == trimmed(build@),
{
    let lines = old(document)@;
    law_started_image_is_read_back(lines, tag@, digest@, version@, build@, 0);
    law_started_image_is_read_back(lines, tag@, digest@, version@, build@, 1);
    law_started_image_is_read_back(lines, tag@, digest@, version@, build@, 2);
    law_started_image_is_read_back(lines, tag@, digest@, version@, build@, 3);
}

/// Starting the image of a root starts exactly that image: by the tag that it was given on
/// this machine, or without one by the tag that is shown for it.
pub proof fn law_started_root_is_named(document: &mut EnvDocument, root: RollbackRoot)
    requires
        call_ensures(activate_rollback_root_env, (document, &root), ()),
    ensures
        lookup(final(document)@, "SELU_IMAGE_TAG"@) == trimmed(
            if root.compose_tag@.len() > 0 {
                root.compose_tag@
            } else {
                root.display_tag@
            },
        ),
        lookup(final(document)@, "SELU_IMAGE_DIGEST"@) == trimmed(root.digest@),
        lookup(final(document)@, "SELU_IMAGE_VERSION"@) == trimmed(root.version@),
        lookup(final(document)@, "SELU_IMAGE_BUILD"@) == trimmed(root.build@),
{
    let lines = old(document)@;
    let tag = root@.start_tag();
    law_started_image_is_read_back(lines, tag, root.digest@, root.version@, root.build@, 0);
    law_started_image_is_read_back(lines, tag, root.digest@, root.version@, root.build@, 1);
    law_started_image_is_read_back(lines, tag, root.digest@, root.version@, root.build@, 2);
    law_started_image_is_read_back(lines, tag, root.digest@, root.version@, root.build@, 3);
}

/// A root that is written down is read back by name, and is kept for another thirty days
/// unless the file holds a date for the very same image.
pub proof fn law_written_root_is_named(document: &mut EnvDocument, root: RollbackRoot, now: Moment)
    requires
        call_ensures(persist_rollback_root, (document, &root, &now), ()),
    ensures
        lookup(final(document)@, "SELU_ROLLBACK_IMAGE_REF"@) == trimmed(root.immutable_ref@),
        lookup(final(document)@, "SELU_ROLLBACK_IMAGE_ID"@) == trimmed(root.image_id@),
        lookup(final(document)@, "SELU_ROLLBACK_IMAGE_TAG"@) == trimmed(root.compose_tag@),
        lookup(final(document)@, "SELU_ROLLBACK_IMAGE_DIGEST"@) == trimmed(root.digest@),
        ({
            let prior = lookup(old(document)@, "SELU_ROLLBACK_IMAGE_RETAIN_UNTIL"@);
            let same = lookup(old(document)@, "SELU_ROLLBACK_IMAGE_REF"@) == root.immutable_ref@;
            lookup(final(document)@, "SELU_ROLLBACK_IMAGE_RETAIN_UNTIL"@) == trimmed(
                if root.immutable_ref@.len() == 0 {
                    Seq::empty()
                } else if same && is_rfc3339(prior) {
                    prior
                } else {
                    clock::rfc3339_of((now.secs + 30 * 86_400) as i64, now.nanos)
                },
            )
        }),
{
    let lines = old(document)@;
    law_rollback_group_is_read_back(lines, root@, now, 0);
    law_rollback_group_is_read_back(lines, root@, now, 1);
    law_rollback_group_is_read_back(lines, root@, now, 2);
    law_rollback_group_is_read_back(lines, root@, now, 3);
    law_rollback_group_is_read_back(lines, root@, now, 4);
}

/// Whether a key is none of those that a restart of the updater is written down under.
pub open spec fn apart_from_restart(key: Seq<char>) -> bool {
    &&& key != "SELU_UPDATER_CURRENT_IMAGE_REF"@
    &&& key != "SELU_UPDATER_PREVIOUS_IMAGE_REF"@
    &&& key != "SELU_UPDATER_PREVIOUS_RETAIN_UNTIL"@
    &&& key != "SELU_UPDATER_RESTART_HELPER_ACTIVE"@
}

/// A restart of the updater that is written down is read back by name: the tag that was
/// asked for under the key that was asked for, the image that runs, the one before it, how
/// long that is kept, and whether the helper is at work.
pub proof fn law_written_restart_is_named(
    document: &mut EnvDocument,
    tag_key: &str,
    tag: &str,
    current_ref: &str,
    previous_ref: &str,
    retain_until: Option<&str>,
    helper_active: bool,
    now: Moment,
)
    requires
        call_ensures(
            persist_updater_restart_state,
            (
                document,
                tag_key,
                tag,
                current_ref,
                previous_ref,
                retain_until,
                helper_active,
                &now,
            ),
            (),
        ),
        plain_key(tag_key@),
        apart_from_restart(tag_key@),
    ensures
        lookup(final(document)@, tag_key@) == trimmed(tag@),
        lookup(final(document)@, "SELU_UPDATER_CURRENT_IMAGE_REF"@) == trimmed(current_ref@),
        lookup(final(document)@, "SELU_UPDATER_PREVIOUS_IMAGE_REF"@) == trimmed(previous_ref@),
        retain_until matches Some(until) ==> lookup(
            final(document)@,
            "SELU_UPDATER_PREVIOUS_RETAIN_UNTIL"@,
        ) == trimmed(until@),
        retain_until is None && previous_ref@.len() > 0 && previous_ref@ != lookup(
            old(document)@,
            "SELU_UPDATER_PREVIOUS_IMAGE_REF"@,
        ) ==> lookup(final(document)@, "SELU_UPDATER_PREVIOUS_RETAIN_UNTIL"@) == trimmed(
            clock::rfc3339_of((now.secs + 30 * 86_400) as i64, now.nanos),
        ),
        lookup(final(document)@, "SELU_UPDATER_RESTART_HELPER_ACTIVE"@) == trimmed(
            if helper_active {
                "true"@
            } else {
                "false"@
            },
        ),
{
    reveal_strlit("SELU_UPDATER_CURRENT_IMAGE_REF");
    reveal_strlit("SELU_UPDATER_PREVIOUS_IMAGE_REF");
    reveal_strlit("SELU_UPDATER_PREVIOUS_RETAIN_UNTIL");
    reveal_strlit("SELU_UPDATER_RESTART_HELPER_ACTIVE");
    assert(UPDATER_PREVIOUS_RETAIN_UNTIL_ENV@[13] != UPDATER_HELPER_ACTIVE_ENV@[13]);
    let values = restart_values(
        old(document)@,
        tag_key@,
        tag@,
        current_ref@,
        previous_ref@,
        text::opt_str(retain_until),
        helper_active,
        now,
    );
    assert(values[1].0.len() == 30 && values[2].0.len() == 31 && values[3].0.len() == 34
        && values[4].0.len() == 34);
    law_group_then_value(old(document)@, values, 0);
    law_group_then_value(old(document)@, values, 1);
    law_group_then_value(old(document)@, values, 2);
    law_group_then_value(old(document)@, values, 3);
    law_group_then_value(old(document)@, values, 4);
}

/// The images of the message bridge that are written down are read back by name.
pub proof fn law_written_bridge_is_named(
    document: &mut EnvDocument,
    current_ref: &str,
    previous_ref: &str,
    retain_until: &str,
)
    requires
        call_ensures(
            persist_whatsapp_image_refs,
            (document, current_ref, previous_ref, retain_until),
            (),
        ),
    ensures
        lookup(final(document)@, "SELU_WHATSAPP_CURRENT_IMAGE_REF"@) == trimmed(current_ref@),
        lookup(final(document)@, "SELU_WHATSAPP_PREVIOUS_IMAGE_REF"@) == trimmed(previous_ref@),
        lookup(final(document)@, "SELU_WHATSAPP_PREVIOUS_RETAIN_UNTIL"@) == trimmed(retain_until@),
{
    reveal_strlit("SELU_WHATSAPP_CURRENT_IMAGE_REF");
    reveal_strlit("SELU_WHATSAPP_PREVIOUS_IMAGE_REF");
    reveal_strlit("SELU_WHATSAPP_PREVIOUS_RETAIN_UNTIL");
    let values = bridge_values(current_ref@, previous_ref@, retain_until@);
    assert(values[0].0.len() == 31 && values[1].0.len() == 32 && values[2].0.len() == 35);
    law_group_then_value(old(document)@, values, 0);
    law_group_then_value(old(document)@, values, 1);
    law_group_then_value(old(document)@, values, 2);
}

/// A root that was captured and that was pulled by its digest is told apart by that digest
/// alone: its tag on this machine and its reference both end in it, and its version and build
/// are those that were given.
pub proof fn law_captured_root_is_the_running_image(
    env_tag: &str,
    version: &str,
    build: &str,
    installed: InstalledImageState,
    image_repo: &str,
    root: RollbackRoot,
    tag_ref: Option<String>,
)
    requires
        call_ensures(
            captured_root,
            (env_tag, version, build, &installed, image_repo),
            Ok((root, tag_ref)),
        ),
    ensures
        root.digest@ == installed.digest@,
        root.image_id@ == installed.image_id@,
        root.version@ == version@,
        root.build@ == build@,
        installed.tag@.len() > 0 ==> root.display_tag@ == installed.tag@,
        installed.tag@.len() == 0 ==> root.display_tag@ == env_tag@,
        tag_ref is Some <==> installed.image_id@.len() > 0,
        tag_ref matches Some(t) ==> t@ == repository_of(image_repo@)->0 + ":"@ + root.compose_tag@,
        tag_ref is Some ==> "selu-rollback-"@.is_prefix_of(root.compose_tag@),
        tag_ref is Some && installed.digest@.len() == 0 ==> root.immutable_ref@
            == installed.image_id@,
        tag_ref is Some && installed.digest@.len() > 0 ==> root.immutable_ref@ == repository_of(
            image_repo@,
        )->0 + "@"@ + installed.digest@,
        tag_ref is None ==> root.compose_tag@.len() == 0 && root.immutable_ref@.len() == 0,
{
}

/// A pulled image is accepted exactly where the container engine gives the digest that was
/// expected for the very repository; case and white space of what was expected do not count,
/// for the digest that is compared is its canonical form.
pub proof fn law_only_the_expected_digest_passes(
    repo_digests: &str,
    expected_digest: &str,
    image_repo: &str,
    r: Result<(), String>,
)
    requires
        call_ensures(verify_local_digest, (repo_digests, expected_digest, image_repo), r),
    ensures
        r is Ok ==> canonical(expected_digest@) is Some && repo_digest(repo_digests@, image_repo@)
            == canonical(expected_digest@),
        r is Err ==> canonical(expected_digest@) is None || repo_digest(repo_digests@, image_repo@)
            != canonical(expected_digest@),
{
}

/// An image that was pulled is set back to as what was asked for: its tag, version and build
/// are those of the request, its digest the canonical form of the request's, and its ID and
/// reference those that the container engine gave.
pub proof fn law_target_root_is_the_pulled_image(
    plan: ImmutableImagePlan,
    identity: ImageIdentity,
    tag: &str,
    digest: &str,
    version: &str,
    build: &str,
    r: Result<RollbackRoot, String>,
)
    requires
        call_ensures(target_root, (plan, identity, tag, digest, version, build), r),
    ensures
        r is Ok <==> canonical(digest@) is Some,
        r matches Ok(root) ==> {
            &&& root.display_tag@ == tag@
            &&& root.compose_tag@ == plan.compose_tag@
            &&& Some(root.digest@) == canonical(digest@)
            &&& root.version@ == version@
            &&& root.build@ == build@
            &&& root.image_id@ == identity.image_id@
            &&& root.immutable_ref@ == identity.immutable_ref@
        },
{
}

/// Where a container runs, what the container engine says of it counts, and not the
/// environment file: two files that differ only in the digest lead to the same image.
pub proof fn law_running_container_counts(
    env_tag: &str,
    env_digest: &str,
    other_digest: &str,
    container: RunningContainer,
    image_repo: &str,
    r: InstalledImageState,
    s: InstalledImageState,
)
    requires
        call_ensures(
            installed_image_state,
            (env_tag, env_digest, &Some(container), image_repo),
            r,
        ),
        call_ensures(
            installed_image_state,
            (env_tag, other_digest, &Some(container), image_repo),
            s,
        ),
        trimmed(container.image_id@).len() > 0,
    ensures
        r.digest@ == s.digest@,
        r.tag@ == s.tag@,
        r.image_id@ == trimmed(container.image_id@),
        repo_digest(container.repo_digests@, image_repo@) is Some ==> Some(r.digest@)
            == repo_digest(container.repo_digests@, image_repo@),
        repo_digest(container.repo_digests@, image_repo@) is None ==> r.digest@.len() == 0,
        tag_of(trimmed(container.configured_image@), image_repo@) is Some ==> Some(r.tag@)
            == tag_of(trimmed(container.configured_image@), image_repo@),
        tag_of(trimmed(container.configured_image@), image_repo@) is None ==> r.tag@ == env_tag@,
{
}

/// Without a running container what is installed is what the environment file says.
pub proof fn law_stopped_image_is_that_of_the_file(
    env_tag: &str,
    env_digest: &str,
    image_repo: &str,
    r: InstalledImageState,
)
    requires
        call_ensures(installed_image_state, (env_tag, env_digest, &None, image_repo), r),
    ensures
        r.tag@ == env_tag@,
        r.digest@ == env_digest@,
        r.image_id@.len() == 0,
{
}

/// The prefixes of a text are all taken away, and nothing else.
pub proof fn law_prefixes_are_shed(s: &str, p: &str, rest: &str, r: &str, again: &str)
    requires
        p@.len() > 0,
        call_ensures(shed_prefix, (s, p), r),
        call_ensures(shed_prefix, (rest, p), again),
    ensures
        !p@.is_prefix_of(r@),
        !p@.is_prefix_of(s@) ==> r@ == s@,
        s@ == p@ + rest@ ==> r@ == again@,
{
    lemma_shed(s@, p@);
    if s@ == p@ + rest@ {
        assert(s@.subrange(0, p@.len() as int) =~= p@);
        assert(s@.subrange(p@.len() as int, s@.len() as int) =~= rest@);
    }
}

proof fn lemma_shed(s: Seq<char>, p: Seq<char>)
    requires
        p.len() > 0,
    ensures
        !p.is_prefix_of(shed(s, p)),
    decreases s.len(),
{
    if p.is_prefix_of(s) {
        lemma_shed(s.subrange(p.len() as int, s.len() as int), p);
    }
}

/// The first container that is listed is taken, and none where none is listed.
pub proof fn law_first_container_is_taken(output: &str, r: String)
    requires
        call_ensures(container_id, (output,), r),
    ensures
        lines_of(output@).len() > 0 ==> r@ == trimmed(lines_of(output@)[0]),
        lines_of(output@).len() == 0 ==> r@.len() == 0,
{
}

/// An image is pulled by its repository and digest, and tagged in the same repository: with the tag that
/// was asked for, and with one of its digest's own to go back to.
pub proof fn law_target_is_named_by_its_digest(
    image_repo: &str,
    tag: &str,
    digest: &str,
    r: Result<(ImmutableImagePlan, String, String), String>,
)
    requires
        call_ensures(target_refs, (image_repo, tag, digest), r),
    ensures
        r is Ok <==> repository_of(image_repo@) is Some && canonical(digest@) is Some,
        r matches Ok(t) ==> {
            let repository = repository_of(image_repo@)->0;
            &&& t.0.pull_ref@ == repository + "@"@ + canonical(digest@)->0
            &&& t.0.local_ref@ == repository + ":"@ + t.0.compose_tag@
            &&& t.1@ == repository
            &&& t.2@ == repository + ":"@ + tag@
        },
{
}

} // verus!
