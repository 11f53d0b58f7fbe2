//! Which images a clean-up must keep: the contract that the assistant reads
//! before it deletes anything.
use vstd::prelude::*;
use vstd::string::*;
use crate::clock;
use crate::clock::{is_rfc3339, stamp, Moment};
use crate::text;
use crate::text::{lowered, opt_text, texts, trimmed};
use crate::updater::env_document::{
    assigned, law_set_keeps_other_keys, law_set_then_value, lookup, readable_key, EnvDocument,
};
use crate::updater::image_ref;
use crate::updater::image_ref::{canonical, immutable_ref, managed, protection_fault};
use crate::updater::types::{
    ImageIdentity, InstalledImageState, ProtectedImageRef, StorageMetadata, UpdaterConfig,
};

verus! {

pub const ROLLBACK_IMAGE_REF_ENV: &'static str = "SELU_ROLLBACK_IMAGE_REF";

pub const ROLLBACK_IMAGE_ID_ENV: &'static str = "SELU_ROLLBACK_IMAGE_ID";

pub const ROLLBACK_IMAGE_TAG_ENV: &'static str = "SELU_ROLLBACK_IMAGE_TAG";

pub const ROLLBACK_IMAGE_DIGEST_ENV: &'static str = "SELU_ROLLBACK_IMAGE_DIGEST";

pub const ROLLBACK_IMAGE_RETAIN_UNTIL_ENV: &'static str = "SELU_ROLLBACK_IMAGE_RETAIN_UNTIL";

pub const UPDATER_CURRENT_IMAGE_REF_ENV: &'static str = "SELU_UPDATER_CURRENT_IMAGE_REF";

pub const UPDATER_PREVIOUS_IMAGE_REF_ENV: &'static str = "SELU_UPDATER_PREVIOUS_IMAGE_REF";

pub const UPDATER_PREVIOUS_RETAIN_UNTIL_ENV: &'static str = "SELU_UPDATER_PREVIOUS_RETAIN_UNTIL";

pub const UPDATER_HELPER_ACTIVE_ENV: &'static str = "SELU_UPDATER_RESTART_HELPER_ACTIVE";

pub const WHATSAPP_CURRENT_IMAGE_REF_ENV: &'static str = "SELU_WHATSAPP_CURRENT_IMAGE_REF";

pub const WHATSAPP_PREVIOUS_IMAGE_REF_ENV: &'static str = "SELU_WHATSAPP_PREVIOUS_IMAGE_REF";

pub const WHATSAPP_PREVIOUS_RETAIN_UNTIL_ENV: &'static str = "SELU_WHATSAPP_PREVIOUS_RETAIN_UNTIL";

pub const SYSTEM_IMAGE_RETENTION_DAYS: i64 = 30;

pub const WHATSAPP_RETENTION_DAYS: i64 = 14;

// ── Retention deadlines ──────────────────────────────────────────────────────

/// The deadline of an image: none without an image, the one in the file where
/// that is a date, and else a new one.
pub open spec fn retention(
    lines: Seq<Seq<char>>,
    key: Seq<char>,
    image_ref: Seq<char>,
    days: int,
    now: Moment,
) -> Seq<char> {
    if image_ref.len() == 0 {
        Seq::empty()
    } else if is_rfc3339(lookup(lines, key)) {
        lookup(lines, key)
    } else {
        stamp(now, days)
    }
}

/// The file with the deadline of an image.
pub open spec fn retained(
    lines: Seq<Seq<char>>,
    key: Seq<char>,
    image_ref: Seq<char>,
    days: int,
    now: Moment,
) -> Seq<Seq<char>> {
    if image_ref.len() == 0 || is_rfc3339(lookup(lines, key)) {
        lines
    } else {
        assigned(lines, key, stamp(now, days))
    }
}

/// The deadline until which an image is kept; a new one is put into the
/// document where it has none.
pub fn ensure_retention_deadline(
    document: &mut EnvDocument,
    key: &str,
    image_ref: &str,
    days: i64,
    now: &Moment,
) -> (r: String)
    requires
        0 <= days <= 36_500,
        now.dated(0),
        now.dated(days as int),
    ensures
        r@ == retention(old(document)@, key@, image_ref@, days as int, *now),
        final(document)@ == retained(old(document)@, key@, image_ref@, days as int, *now),
        final(document).dirty == (old(document).dirty || final(document)@ != old(document)@),
        image_ref@.len() > 0 && readable_key(key@) ==> lookup(final(document)@, key@) == r@,
        image_ref@.len() > 0 && clock::FOUR_DIGITS_FIRST <= now.secs && now.secs + days * 86_400
            <= clock::FOUR_DIGITS_LAST ==> is_rfc3339(r@),
{
    if image_ref.is_empty() {
        return String::new();
    }
    let existing = document.value(key);
    if clock::parses_rfc3339(existing.as_str()) {
        return existing;
    }
    let deadline = clock::stamp_after(now, days);
    document.set(key, deadline.as_str());
    proof {
        if readable_key(key@) {
            let d = deadline@;
            law_set_then_value(old(document)@, key@, d);
            assert(clock::is_stamp_char(d[0]) && clock::is_stamp_char(d[d.len() - 1]));
            text::lemma_trimmed_same(d);
        }
    }
    deadline
}

// ── What the environment file says of images ────────────────────────────────

/// What the environment file says of the images to keep.
#[derive(Debug)]
pub struct StorageEnvMetadata {
    pub rollback_ref: String,
    pub rollback_retain_until: String,
    pub updater_previous: String,
    pub updater_previous_retain_until: String,
    pub whatsapp_current: String,
    pub whatsapp_previous: String,
    pub whatsapp_previous_retain_until: String,
    pub helper_active: bool,
}

/// The file after the running updater was noted in it, where none was.
pub open spec fn noted(lines: Seq<Seq<char>>, running: Seq<char>) -> Seq<Seq<char>> {
    if lookup(lines, UPDATER_CURRENT_IMAGE_REF_ENV@).len() == 0 {
        assigned(lines, UPDATER_CURRENT_IMAGE_REF_ENV@, running)
    } else {
        lines
    }
}

/// Whether the file names another updater than the running one.
pub open spec fn other_updater(lines: Seq<Seq<char>>, running: Seq<char>) -> bool {
    let current = lookup(lines, UPDATER_CURRENT_IMAGE_REF_ENV@);
    current.len() > 0 && current != running
}

/// The image to set back to that a file names: by its reference, else by its ID.
pub open spec fn rollback_ref_in(lines: Seq<Seq<char>>) -> Seq<char> {
    if lookup(lines, ROLLBACK_IMAGE_REF_ENV@).len() == 0 {
        lookup(lines, ROLLBACK_IMAGE_ID_ENV@)
    } else {
        lookup(lines, ROLLBACK_IMAGE_REF_ENV@)
    }
}

/// The file after the deadline of the image to set back to was seen to.
pub open spec fn rollback_kept(lines: Seq<Seq<char>>, now: Moment) -> Seq<Seq<char>> {
    retained(
        lines,
        ROLLBACK_IMAGE_RETAIN_UNTIL_ENV@,
        rollback_ref_in(lines),
        SYSTEM_IMAGE_RETENTION_DAYS as int,
        now,
    )
}

/// The file after the deadline of the updater's previous image was seen to, too.
pub open spec fn updater_kept(lines: Seq<Seq<char>>, now: Moment) -> Seq<Seq<char>> {
    retained(
        rollback_kept(lines, now),
        UPDATER_PREVIOUS_RETAIN_UNTIL_ENV@,
        lookup(lines, UPDATER_PREVIOUS_IMAGE_REF_ENV@),
        SYSTEM_IMAGE_RETENTION_DAYS as int,
        now,
    )
}

/// The file after all three deadlines were seen to.
pub open spec fn all_kept(lines: Seq<Seq<char>>, now: Moment) -> Seq<Seq<char>> {
    retained(
        updater_kept(lines, now),
        WHATSAPP_PREVIOUS_RETAIN_UNTIL_ENV@,
        lookup(lines, WHATSAPP_PREVIOUS_IMAGE_REF_ENV@),
        WHATSAPP_RETENTION_DAYS as int,
        now,
    )
}

/// Whether reading the file changes it at some step.
pub open spec fn changes(lines: Seq<Seq<char>>, running: Seq<char>, now: Moment) -> bool {
    let n = noted(lines, running);
    ||| n != lines
    ||| rollback_kept(n, now) != n
    ||| updater_kept(n, now) != rollback_kept(n, now)
    ||| all_kept(n, now) != updater_kept(n, now)
}

impl StorageEnvMetadata {
    /// Whether this is what the file with the given lines says.
    pub open spec fn is_of(&self, lines: Seq<Seq<char>>, now: Moment) -> bool {
        &&& self.rollback_ref@ == rollback_ref_in(lines)
        &&& self.rollback_retain_until@ == retention(
            lines,
            ROLLBACK_IMAGE_RETAIN_UNTIL_ENV@,
            rollback_ref_in(lines),
            SYSTEM_IMAGE_RETENTION_DAYS as int,
            now,
        )
        &&& self.updater_previous@ == lookup(lines, UPDATER_PREVIOUS_IMAGE_REF_ENV@)
        &&& self.updater_previous_retain_until@ == retention(
            rollback_kept(lines, now),
            UPDATER_PREVIOUS_RETAIN_UNTIL_ENV@,
            lookup(lines, UPDATER_PREVIOUS_IMAGE_REF_ENV@),
            SYSTEM_IMAGE_RETENTION_DAYS as int,
            now,
        )
        &&& self.whatsapp_current@ == lookup(all_kept(lines, now), WHATSAPP_CURRENT_IMAGE_REF_ENV@)
        &&& self.whatsapp_previous@ == lookup(lines, WHATSAPP_PREVIOUS_IMAGE_REF_ENV@)
        &&& self.whatsapp_previous_retain_until@ == retention(
            updater_kept(lines, now),
            WHATSAPP_PREVIOUS_RETAIN_UNTIL_ENV@,
            lookup(lines, WHATSAPP_PREVIOUS_IMAGE_REF_ENV@),
            WHATSAPP_RETENTION_DAYS as int,
            now,
        )
        &&& self.helper_active == (lowered(
            lookup(all_kept(lines, now), UPDATER_HELPER_ACTIVE_ENV@),
        ) == "true"@)
    }
}

/// What is said where the file names another updater than the running one.
pub open spec fn other_updater_error() -> Seq<char> {
    "Persisted updater image does not match the running updater"@
}

/// Reads what the file says of the images to keep, and notes in it the running
/// updater and the deadlines that it lacks.
pub fn load_storage_env_metadata(
    document: &mut EnvDocument,
    running_updater_ref: &str,
    now: &Moment,
) -> (r: Result<StorageEnvMetadata, String>)
    requires
        now.dated(0),
        now.dated(SYSTEM_IMAGE_RETENTION_DAYS as int),
    ensures
        if other_updater(old(document)@, running_updater_ref@) {
            r is Err && r->Err_0@ == other_updater_error() && *final(document) == *old(document)
        } else {
            let lines = noted(old(document)@, running_updater_ref@);
            &&& r is Ok
            &&& r->Ok_0.is_of(lines, *now)
            &&& final(document)@ == all_kept(lines, *now)
            &&& final(document).dirty == (old(document).dirty || changes(
                old(document)@,
                running_updater_ref@,
                *now,
            ))
        },
{
    let current = document.value(UPDATER_CURRENT_IMAGE_REF_ENV);
    if current.as_str().is_empty() {
        document.set(UPDATER_CURRENT_IMAGE_REF_ENV, running_updater_ref);
    } else if !text::same(current.as_str(), running_updater_ref) {
        return Err("Persisted updater image does not match the running updater".to_string());
    }
    let image_ref = document.value(ROLLBACK_IMAGE_REF_ENV);
    let rollback_ref = if image_ref.as_str().is_empty() {
        document.value(ROLLBACK_IMAGE_ID_ENV)
    } else {
        image_ref
    };
    let updater_previous = document.value(UPDATER_PREVIOUS_IMAGE_REF_ENV);
    let whatsapp_previous = document.value(WHATSAPP_PREVIOUS_IMAGE_REF_ENV);
    let rollback_retain_until = ensure_retention_deadline(
        document,
        ROLLBACK_IMAGE_RETAIN_UNTIL_ENV,
        rollback_ref.as_str(),
        SYSTEM_IMAGE_RETENTION_DAYS,
        now,
    );
    let updater_previous_retain_until = ensure_retention_deadline(
        document,
        UPDATER_PREVIOUS_RETAIN_UNTIL_ENV,
        updater_previous.as_str(),
        SYSTEM_IMAGE_RETENTION_DAYS,
        now,
    );
    let whatsapp_previous_retain_until = ensure_retention_deadline(
        document,
        WHATSAPP_PREVIOUS_RETAIN_UNTIL_ENV,
        whatsapp_previous.as_str(),
        WHATSAPP_RETENTION_DAYS,
        now,
    );
    let helper = text::to_lower(document.value(UPDATER_HELPER_ACTIVE_ENV).as_str());
    Ok(
        StorageEnvMetadata {
            rollback_ref,
            rollback_retain_until,
            updater_previous,
            updater_previous_retain_until,
            whatsapp_current: document.value(WHATSAPP_CURRENT_IMAGE_REF_ENV),
            whatsapp_previous,
            whatsapp_previous_retain_until,
            helper_active: text::same(helper.as_str(), "true"),
        },
    )
}

// ── The contract ─────────────────────────────────────────────────────────────

/// The texts of `s` without those that stand in it before.
pub open spec fn distinct(s: Seq<Seq<char>>) -> Seq<Seq<char>>
    decreases s.len(),
{
    if s.len() == 0 {
        s
    } else if s.drop_last().contains(s.last()) {
        distinct(s.drop_last())
    } else {
        distinct(s.drop_last()).push(s.last())
    }
}

/// A protected image, as a value.
pub struct Entry {
    pub image_ref: Seq<char>,
    pub owner: Seq<char>,
    pub state: Seq<char>,
    pub retain_until: Option<Seq<char>>,
}

impl ProtectedImageRef {
    pub open spec fn view(&self) -> Entry {
        Entry {
            image_ref: self.image_ref@,
            owner: self.owner@,
            state: self.state@,
            retain_until: opt_text(self.retain_until),
        }
    }
}

/// The entry of an image in use.
pub open spec fn current_entry(image_ref: Seq<char>, owner: Seq<char>) -> Entry {
    Entry { image_ref, owner, state: "current"@, retain_until: None }
}

/// The entry of an image to go back to.
pub open spec fn previous_entry(
    image_ref: Seq<char>,
    owner: Seq<char>,
    retain_until: Seq<char>,
) -> Entry {
    Entry { image_ref, owner, state: "previous"@, retain_until: Some(retain_until) }
}

/// Whether there is a previous image beside the current one.
pub open spec fn stands_apart(previous: Seq<char>, current: Seq<char>) -> bool {
    previous.len() > 0 && previous != current
}

/// The sequence of `x` where `b` holds, else the empty one.
pub open spec fn given<A>(b: bool, x: A) -> Seq<A> {
    if b {
        seq![x]
    } else {
        Seq::empty()
    }
}

/// The protected images, in the order of their owners and states.
pub open spec fn entries(
    installed_ref: Seq<char>,
    updater_ref: Seq<char>,
    whatsapp: bool,
    env: StorageEnvMetadata,
) -> Seq<Entry> {
    seq![current_entry(installed_ref, "selu"@)] + given(
        stands_apart(env.rollback_ref@, installed_ref),
        previous_entry(env.rollback_ref@, "selu"@, env.rollback_retain_until@),
    ) + seq![current_entry(updater_ref, "updater"@)] + given(
        stands_apart(env.updater_previous@, updater_ref),
        previous_entry(env.updater_previous@, "updater"@, env.updater_previous_retain_until@),
    ) + given(
        whatsapp && env.whatsapp_current@.len() > 0,
        current_entry(env.whatsapp_current@, "whatsapp"@),
    ) + given(
        whatsapp && stands_apart(env.whatsapp_previous@, env.whatsapp_current@),
        previous_entry(env.whatsapp_previous@, "whatsapp"@, env.whatsapp_previous_retain_until@),
    )
}

/// What is wrong with the references in the file, in the order in which they
/// are looked at.
pub open spec fn env_fault(
    installed_ref: Seq<char>,
    selu_repository: Seq<char>,
    updater_ref: Seq<char>,
    updater_repository: Seq<char>,
    whatsapp_repository: Option<Seq<char>>,
    env: StorageEnvMetadata,
) -> Option<Seq<char>> {
    if stands_apart(env.rollback_ref@, installed_ref) && protection_fault(
        env.rollback_ref@,
        selu_repository,
    ) is Some {
        protection_fault(env.rollback_ref@, selu_repository)
    } else if stands_apart(env.updater_previous@, updater_ref) && protection_fault(
        env.updater_previous@,
        updater_repository,
    ) is Some {
        protection_fault(env.updater_previous@, updater_repository)
    } else {
        match whatsapp_repository {
            None => None,
            Some(repository) => if env.whatsapp_current@.len() > 0 && protection_fault(
                env.whatsapp_current@,
                repository,
            ) is Some {
                protection_fault(env.whatsapp_current@, repository)
            } else if stands_apart(env.whatsapp_previous@, env.whatsapp_current@)
                && protection_fault(env.whatsapp_previous@, repository) is Some {
                protection_fault(env.whatsapp_previous@, repository)
            } else {
                None
            },
        }
    }
}

/// Why a clean-up must wait.
pub open spec fn block_reason(
    active_job: bool,
    runtime_status: Seq<char>,
    helper_active: bool,
) -> Option<Seq<char>> {
    if active_job || runtime_status == "updating"@ {
        Some("update_active"@)
    } else if helper_active {
        Some("updater_restart_helper_active"@)
    } else {
        None
    }
}

/// The entries that a list of protected images holds.
pub open spec fn entry_views(v: Seq<ProtectedImageRef>) -> Seq<Entry> {
    v.map_values(|p: ProtectedImageRef| p@)
}

/// Whether `r` can only ever mean one image: an image ID, or a digest behind an
/// at sign.
pub open spec fn is_exact(r: Seq<char>) -> bool {
    let t = trimmed(r);
    ||| canonical(r) is Some
    ||| text::last_place(t, '@') matches Some(i) && canonical(t.subrange(i + 1, t.len() as int)) is Some
}

/// The texts of `v` without those that stand in it before.
fn keep_first(v: &Vec<String>) -> (r: Vec<String>)
    ensures
        texts(r@) == distinct(texts(v@)),
{
    let mut out: Vec<String> = Vec::new();
    let ghost all = texts(v@);
    let mut i: usize = 0;
    proof {
        assert(all.take(0) =~= Seq::<Seq<char>>::empty());
        assert(texts(out@) =~= distinct(all.take(0)));
    }
    while i < v.len()
        invariant
            i <= v@.len(),
            all == texts(v@),
            texts(out@) == distinct(all.take(i as int)),
        decreases v@.len() - i,
    {
        let mut seen = false;
        let mut j: usize = 0;
        while j < i
            invariant
                j <= i < v@.len(),
                all == texts(v@),
                seen == exists|k: int| 0 <= k < j && #[trigger] all[k] == all[i as int],
            decreases i - j,
        {
            if text::same(v[j].as_str(), v[i].as_str()) {
                proof {
                    assert(all[j as int] == all[i as int]);
                }
                seen = true;
            }
            j += 1;
        }
        let ghost front = all.take(i as int);
        proof {
            assert(all.take(i + 1).drop_last() =~= front);
            assert(all.take(i + 1).last() == all[i as int]);
            if seen {
                let k = choose|k: int| 0 <= k < i && #[trigger] all[k] == all[i as int];
                assert(front[k] == all[k]);
            } else if front.contains(all[i as int]) {
                let k = choose|k: int| 0 <= k < front.len() && front[k] == all[i as int];
                assert(all[k] == all[i as int]);
            }
        }
        if !seen {
            let ghost out0 = texts(out@);
            out.push(v[i].clone());
            proof {
                assert(texts(out@) =~= out0.push(all[i as int]));
            }
        }
        i += 1;
    }
    proof {
        assert(all.take(i as int) =~= all);
    }
    out
}

/// The entry of an image in use.
fn current_ref(image_ref: &str, owner: &str) -> (r: ProtectedImageRef)
    ensures
        r@ == current_entry(image_ref@, owner@),
{
    ProtectedImageRef {
        image_ref: image_ref.to_string(),
        owner: owner.to_string(),
        state: "current".to_string(),
        retain_until: None,
    }
}

/// The entry of an image to go back to.
fn previous_ref(image_ref: &str, owner: &str, retain_until: &str) -> (r: ProtectedImageRef)
    ensures
        r@ == previous_entry(image_ref@, owner@, retain_until@),
{
    ProtectedImageRef {
        image_ref: image_ref.to_string(),
        owner: owner.to_string(),
        state: "previous".to_string(),
        retain_until: Some(retain_until.to_string()),
    }
}

/// Whether there is a previous image beside the current one.
fn is_apart(previous: &str, current: &str) -> (r: bool)
    ensures
        r == stands_apart(previous@, current@),
{
    !previous.is_empty() && !text::same(previous, current)
}

/// Looks at the references in the file, in their order.
fn check_env_refs(
    installed_ref: &str,
    selu_repository: &str,
    updater_ref: &str,
    updater_repository: &str,
    whatsapp_repository: &Option<String>,
    env: &StorageEnvMetadata,
) -> (r: Result<(), String>)
    ensures
        match env_fault(
            installed_ref@,
            selu_repository@,
            updater_ref@,
            updater_repository@,
            opt_text(*whatsapp_repository),
            *env,
        ) {
            None => r is Ok,
            Some(e) => r is Err && r->Err_0@ == e,
        },
{
    if is_apart(env.rollback_ref.as_str(), installed_ref) {
        let v = image_ref::validate_exact_protected_ref(
            env.rollback_ref.as_str(),
            selu_repository,
        );
        if v.is_err() {
            return v;
        }
    }
    if is_apart(env.updater_previous.as_str(), updater_ref) {
        let v = image_ref::validate_exact_protected_ref(
            env.updater_previous.as_str(),
            updater_repository,
        );
        if v.is_err() {
            return v;
        }
    }
    match whatsapp_repository {
        None => Ok(()),
        Some(repository) => {
            if !env.whatsapp_current.as_str().is_empty() {
                let v = image_ref::validate_exact_protected_ref(
                    env.whatsapp_current.as_str(),
                    repository.as_str(),
                );
                if v.is_err() {
                    return v;
                }
            }
            if is_apart(env.whatsapp_previous.as_str(), env.whatsapp_current.as_str()) {
                return image_ref::validate_exact_protected_ref(
                    env.whatsapp_previous.as_str(),
                    repository.as_str(),
                );
            }
            Ok(())
        },
    }
}

/// The protected images, in the order of their owners and states.
fn list_entries(
    installed_ref: &str,
    updater_ref: &str,
    whatsapp: bool,
    env: &StorageEnvMetadata,
) -> (r: Vec<ProtectedImageRef>)
    ensures
        entry_views(r@) == entries(installed_ref@, updater_ref@, whatsapp, *env),
{
    let mut out: Vec<ProtectedImageRef> = Vec::new();
    out.push(current_ref(installed_ref, "selu"));
    let ghost e1 = seq![current_entry(installed_ref@, "selu"@)];
    proof {
        assert(entry_views(out@) =~= e1);
    }
    if is_apart(env.rollback_ref.as_str(), installed_ref) {
        out.push(
            previous_ref(
                env.rollback_ref.as_str(),
                "selu",
                env.rollback_retain_until.as_str(),
            ),
        );
    }
    let ghost e2 = e1 + given(
        stands_apart(env.rollback_ref@, installed_ref@),
        previous_entry(env.rollback_ref@, "selu"@, env.rollback_retain_until@),
    );
    proof {
        assert(entry_views(out@) =~= e2);
    }
    out.push(current_ref(updater_ref, "updater"));
    let ghost e3 = e2 + seq![current_entry(updater_ref@, "updater"@)];
    proof {
        assert(entry_views(out@) =~= e3);
    }
    if is_apart(env.updater_previous.as_str(), updater_ref) {
        out.push(
            previous_ref(
                env.updater_previous.as_str(),
                "updater",
                env.updater_previous_retain_until.as_str(),
            ),
        );
    }
    let ghost e4 = e3 + given(
        stands_apart(env.updater_previous@, updater_ref@),
        previous_entry(env.updater_previous@, "updater"@, env.updater_previous_retain_until@),
    );
    proof {
        assert(entry_views(out@) =~= e4);
    }
    if whatsapp && !env.whatsapp_current.as_str().is_empty() {
        out.push(current_ref(env.whatsapp_current.as_str(), "whatsapp"));
    }
    let ghost e5 = e4 + given(
        whatsapp && env.whatsapp_current@.len() > 0,
        current_entry(env.whatsapp_current@, "whatsapp"@),
    );
    proof {
        assert(entry_views(out@) =~= e5);
    }
    if whatsapp && is_apart(env.whatsapp_previous.as_str(), env.whatsapp_current.as_str()) {
        out.push(
            previous_ref(
                env.whatsapp_previous.as_str(),
                "whatsapp",
                env.whatsapp_previous_retain_until.as_str(),
            ),
        );
    }
    proof {
        assert(entry_views(out@) =~= entries(installed_ref@, updater_ref@, whatsapp, *env));
    }
    out
}

/// What was found out about the running images.
pub struct RunningImages {
    pub installed: InstalledImageState,
    pub updater_service_image: String,
    pub updater_identity: Option<ImageIdentity>,
}

/// The references of the running images, or what is wrong with them.
pub struct RunningRefs {
    pub selu_repository: Seq<char>,
    pub installed_ref: Seq<char>,
    pub updater_repository: Seq<char>,
    pub updater_ref: Seq<char>,
}

/// The references of the running images; an error where the assistant's image
/// has no immutable reference, or the updater's cannot be told exactly.
pub open spec fn running_refs(config: UpdaterConfig, images: RunningImages) -> Result<
    RunningRefs,
    Seq<char>,
> {
    match managed(config.image_repo@) {
        Err(e) => Err(e),
        Ok(selu_repository) => match immutable_ref(
            selu_repository,
            images.installed.digest@,
            images.installed.image_id@,
        ) {
            None => Err(image_ref::digest_error()),
            Some(installed_ref) => match managed(images.updater_service_image@) {
                Err(e) => Err(e),
                Ok(updater_repository) => match images.updater_identity {
                    None => Err("Could not inspect the running updater image"@),
                    Some(identity) => match protection_fault(
                        identity.immutable_ref@,
                        updater_repository,
                    ) {
                        Some(e) => Err(e),
                        None => Ok(
                            RunningRefs {
                                selu_repository,
                                installed_ref,
                                updater_repository,
                                updater_ref: identity.immutable_ref@,
                            },
                        ),
                    },
                },
            },
        },
    }
}

/// The repository of the message bridge, where it is enabled.
pub open spec fn bridge_repository(config: UpdaterConfig) -> Result<Option<Seq<char>>, Seq<char>> {
    if config.whatsapp_bridge_enabled {
        match managed(config.whatsapp_bridge_image_repo@) {
            Ok(r) => Ok(Some(r)),
            Err(e) => Err(e),
        }
    } else {
        Ok(None)
    }
}

/// The repositories that the service manages, each once.
pub open spec fn repositories(refs: RunningRefs, bridge: Option<Seq<char>>) -> Seq<Seq<char>> {
    distinct(
        match bridge {
            Some(b) => seq![refs.selu_repository, refs.updater_repository, b],
            None => seq![refs.selu_repository, refs.updater_repository],
        },
    )
}

impl StorageMetadata {
    /// Whether this is the contract for the given references and file.
    pub open spec fn is_for(
        &self,
        refs: RunningRefs,
        bridge: Option<Seq<char>>,
        env: StorageEnvMetadata,
        runtime_status: Seq<char>,
        active_job: bool,
    ) -> bool {
        &&& self.ready
        &&& self.generated_at is None
        &&& opt_text(self.cleanup_block_reason) == block_reason(
            active_job,
            runtime_status,
            env.helper_active,
        )
        &&& texts(self.managed_repositories@) == repositories(refs, bridge)
        &&& entry_views(self.protected_image_refs@) == entries(
            refs.installed_ref,
            refs.updater_ref,
            bridge is Some,
            env,
        )
    }
}

/// The contract for the running images and the file. The file is brought up to
/// date as soon as the running images are known, also where a reference in it
/// turns out to be wrong.
pub fn build_storage_metadata(
    config: &UpdaterConfig,
    runtime_status: &str,
    active_job: bool,
    images: &RunningImages,
    document: &mut EnvDocument,
    now: &Moment,
) -> (r: Result<StorageMetadata, String>)
    requires
        now.dated(0),
        now.dated(SYSTEM_IMAGE_RETENTION_DAYS as int),
    ensures
        match running_refs(*config, *images) {
            Err(e) => r is Err && r->Err_0@ == e && *final(document) == *old(document),
            Ok(refs) => {
                let lines = noted(old(document)@, refs.updater_ref);
                if other_updater(old(document)@, refs.updater_ref) {
                    r is Err && r->Err_0@ == other_updater_error() && *final(document) == *old(
                        document,
                    )
                } else {
                    &&& final(document)@ == all_kept(lines, *now)
                    &&& final(document).dirty == (old(document).dirty || changes(
                        old(document)@,
                        refs.updater_ref,
                        *now,
                    ))
                    &&& exists|env: StorageEnvMetadata| #[trigger]
                        env.is_of(lines, *now) && match bridge_repository(*config) {
                            Err(e) => r is Err && r->Err_0@ == e,
                            Ok(bridge) => match env_fault(
                                refs.installed_ref,
                                refs.selu_repository,
                                refs.updater_ref,
                                refs.updater_repository,
                                bridge,
                                env,
                            ) {
                                Some(e) => r is Err && r->Err_0@ == e,
                                None => r is Ok && r->Ok_0.is_for(
                                    refs,
                                    bridge,
                                    env,
                                    runtime_status@,
                                    active_job,
                                ),
                            },
                        }
                }
            },
        },
        r matches Ok(m) ==> forall|i: int|
            0 <= i < m.protected_image_refs@.len() ==> is_exact(
                (#[trigger] m.protected_image_refs@[i]).image_ref@,
            ),
{
    let selu_repository = match image_ref::managed_repository(config.image_repo.as_str()) {
        Ok(v) => v,
        Err(e) => {
            return Err(e);
        },
    };
    let installed_ref = match image_ref::immutable_image_ref(
        selu_repository.as_str(),
        images.installed.digest.as_str(),
        images.installed.image_id.as_str(),
    ) {
        Ok(v) => v,
        Err(e) => {
            return Err(e);
        },
    };
    let updater_repository = match image_ref::managed_repository(
        images.updater_service_image.as_str(),
    ) {
        Ok(v) => v,
        Err(e) => {
            return Err(e);
        },
    };
    let updater_ref = match &images.updater_identity {
        Some(identity) => identity.immutable_ref.as_str(),
        None => {
            return Err("Could not inspect the running updater image".to_string());
        },
    };
    match image_ref::validate_exact_protected_ref(updater_ref, updater_repository.as_str()) {
        Ok(_) => {},
        Err(e) => {
            return Err(e);
        },
    }
    let ghost refs = running_refs(*config, *images)->Ok_0;
    let ghost lines = noted(old(document)@, updater_ref@);
    let env = match load_storage_env_metadata(document, updater_ref, now) {
        Ok(env) => env,
        Err(e) => {
            return Err(e);
        },
    };
    assert(env.is_of(lines, *now));
    let mut repositories: Vec<String> = Vec::new();
    repositories.push(selu_repository.clone());
    repositories.push(updater_repository.clone());
    let whatsapp_repository = if config.whatsapp_bridge_enabled {
        match image_ref::managed_repository(config.whatsapp_bridge_image_repo.as_str()) {
            Ok(v) => {
                repositories.push(v.clone());
                Some(v)
            },
            Err(e) => {
                return Err(e);
            },
        }
    } else {
        None
    };
    let ghost bridge = opt_text(whatsapp_repository);
    proof {
        assert(texts(repositories@) =~= match bridge {
            Some(b) => seq![refs.selu_repository, refs.updater_repository, b],
            None => seq![refs.selu_repository, refs.updater_repository],
        });
    }
    match check_env_refs(
        installed_ref.as_str(),
        selu_repository.as_str(),
        updater_ref,
        updater_repository.as_str(),
        &whatsapp_repository,
        &env,
    ) {
        Ok(_) => {},
        Err(e) => {
            return Err(e);
        },
    }
    let cleanup_block_reason = if active_job || text::same(runtime_status, "updating") {
        Some("update_active".to_string())
    } else if env.helper_active {
        Some("updater_restart_helper_active".to_string())
    } else {
        None
    };
    let protected_image_refs = list_entries(
        installed_ref.as_str(),
        updater_ref,
        whatsapp_repository.is_some(),
        &env,
    );
    proof {
        let es = entries(refs.installed_ref, refs.updater_ref, bridge is Some, env);
        lemma_entries_exact(refs, bridge, env, images.installed.digest@, images.installed.image_id@);
        assert forall|i: int| 0 <= i < protected_image_refs@.len() implies is_exact(
            (#[trigger] protected_image_refs@[i]).image_ref@,
        ) by {
            assert(es[i] == protected_image_refs@[i]@);
        }
    }
    Ok(
        StorageMetadata {
            ready: true,
            generated_at: None,
            cleanup_block_reason,
            managed_repositories: keep_first(&repositories),
            protected_image_refs,
        },
    )
}

/// What is answered while the contract cannot be given: nothing may be cleaned
/// up.
pub open spec fn is_closed(m: StorageMetadata) -> bool {
    &&& !m.ready
    &&& opt_text(m.cleanup_block_reason) == Some("storage_metadata_unavailable"@)
    &&& m.managed_repositories@.len() == 0
    &&& m.protected_image_refs@.len() == 0
}

/// The contract with the moment it was made at, or the refusal where it could
/// not be made.
pub fn storage_metadata(built: Result<StorageMetadata, String>, generated_at: String) -> (r:
    StorageMetadata)
    ensures
        opt_text(r.generated_at) == Some(generated_at@),
        match built {
            Ok(m) => r == (StorageMetadata { generated_at: r.generated_at, ..m }),
            Err(_) => is_closed(r),
        },
{
    match built {
        Ok(m) => StorageMetadata {
            ready: m.ready,
            generated_at: Some(generated_at),
            cleanup_block_reason: m.cleanup_block_reason,
            managed_repositories: m.managed_repositories,
            protected_image_refs: m.protected_image_refs,
        },
        Err(_) => StorageMetadata {
            ready: false,
            generated_at: Some(generated_at),
            cleanup_block_reason: Some("storage_metadata_unavailable".to_string()),
            managed_repositories: Vec::new(),
            protected_image_refs: Vec::new(),
        },
    }
}

// ── Laws ─────────────────────────────────────────────────────────────────────

/// A reference without a protection fault is exact.
proof fn lemma_protected_exact(r: Seq<char>, repository: Seq<char>)
    requires
        protection_fault(r, repository) is None,
    ensures
        is_exact(r),
{
}

/// The immutable reference of an image is exact.
proof fn lemma_immutable_exact(
    image_ref: Seq<char>,
    repository: Seq<char>,
    digest: Seq<char>,
    image_id: Seq<char>,
)
    requires
        managed(image_ref) == Ok::<Seq<char>, Seq<char>>(repository),
        immutable_ref(repository, digest, image_id) is Some,
    ensures
        is_exact(immutable_ref(repository, digest, image_id)->0),
{
    image_ref::lemma_immutable_ref_shape(image_ref, repository, digest, image_id);
}

/// Every protected image is named by an exact reference.
proof fn lemma_entries_exact(
    refs: RunningRefs,
    bridge: Option<Seq<char>>,
    env: StorageEnvMetadata,
    digest: Seq<char>,
    image_id: Seq<char>,
)
    requires
        exists|r: Seq<char>| managed(r) == Ok::<Seq<char>, Seq<char>>(refs.selu_repository),
        immutable_ref(refs.selu_repository, digest, image_id) == Some(refs.installed_ref),
        protection_fault(refs.updater_ref, refs.updater_repository) is None,
        env_fault(
            refs.installed_ref,
            refs.selu_repository,
            refs.updater_ref,
            refs.updater_repository,
            bridge,
            env,
        ) is None,
    ensures
        forall|i: int|
            0 <= i < entries(refs.installed_ref, refs.updater_ref, bridge is Some, env).len()
                ==> is_exact(
                (#[trigger] entries(
                    refs.installed_ref,
                    refs.updater_ref,
                    bridge is Some,
                    env,
                )[i]).image_ref,
            ),
{
    let r = choose|r: Seq<char>| managed(r) == Ok::<Seq<char>, Seq<char>>(refs.selu_repository);
    lemma_immutable_exact(r, refs.selu_repository, digest, image_id);
    lemma_protected_exact(refs.updater_ref, refs.updater_repository);
    if stands_apart(env.rollback_ref@, refs.installed_ref) {
        lemma_protected_exact(env.rollback_ref@, refs.selu_repository);
    }
    if stands_apart(env.updater_previous@, refs.updater_ref) {
        lemma_protected_exact(env.updater_previous@, refs.updater_repository);
    }
    if let Some(b) = bridge {
        if env.whatsapp_current@.len() > 0 {
            lemma_protected_exact(env.whatsapp_current@, b);
        }
        if stands_apart(env.whatsapp_previous@, env.whatsapp_current@) {
            lemma_protected_exact(env.whatsapp_previous@, b);
        }
    }
}

/// A deadline that was noted stays: while the file holds a date for an image, no
/// later reading changes the date or the file.
pub proof fn law_deadline_stays(
    lines: Seq<Seq<char>>,
    key: Seq<char>,
    image_ref: Seq<char>,
    days: int,
    now: Moment,
)
    requires
        image_ref.len() > 0,
        is_rfc3339(lookup(lines, key)),
    ensures
        retention(lines, key, image_ref, days, now) == lookup(lines, key),
        retained(lines, key, image_ref, days, now) == lines,
{
}

/// Whether an entry comes before another by owner, then state, then reference.
pub open spec fn entry_before(a: Entry, b: Entry) -> bool {
    ||| text::before(a.owner, b.owner)
    ||| a.owner == b.owner && text::before(a.state, b.state)
    ||| a.owner == b.owner && a.state == b.state && text::before(a.image_ref, b.image_ref)
}

/// The place of an entry among the owners and states.
spec fn rank(e: Entry) -> int {
    let o: int = if e.owner == "selu"@ {
        0
    } else if e.owner == "updater"@ {
        2
    } else {
        4
    };
    if e.state == "current"@ {
        o
    } else {
        o + 1
    }
}

/// The entries that the list can hold.
spec fn ranked(e: Entry) -> bool {
    &&& e.owner == "selu"@ || e.owner == "updater"@ || e.owner == "whatsapp"@
    &&& e.state == "current"@ || e.state == "previous"@
}

proof fn lemma_rank(a: Entry, b: Entry)
    requires
        ranked(a),
        ranked(b),
        rank(a) < rank(b),
    ensures
        entry_before(a, b),
{
    reveal_strlit("selu");
    reveal_strlit("updater");
    reveal_strlit("whatsapp");
    reveal_strlit("current");
    reveal_strlit("previous");
    assert(text::before("selu"@, "updater"@));
    assert(text::before("selu"@, "whatsapp"@));
    assert(text::before("updater"@, "whatsapp"@));
    assert(text::before("current"@, "previous"@));
    assert("selu"@[0] != "updater"@[0]);
    assert("selu"@[0] != "whatsapp"@[0]);
    assert("updater"@[0] != "whatsapp"@[0]);
    assert("current"@[0] != "previous"@[0]);
}

/// The protected images are listed by owner, state and reference.
pub proof fn law_entries_are_sorted(
    installed_ref: Seq<char>,
    updater_ref: Seq<char>,
    whatsapp: bool,
    env: StorageEnvMetadata,
    i: int,
    j: int,
)
    requires
        0 <= i < j < entries(installed_ref, updater_ref, whatsapp, env).len(),
    ensures
        entry_before(
            entries(installed_ref, updater_ref, whatsapp, env)[i],
            entries(installed_ref, updater_ref, whatsapp, env)[j],
        ),
{
    reveal_strlit("selu");
    reveal_strlit("updater");
    reveal_strlit("whatsapp");
    reveal_strlit("current");
    reveal_strlit("previous");
    assert("selu"@[0] != "updater"@[0]);
    assert("selu"@[0] != "whatsapp"@[0]);
    assert("updater"@[0] != "whatsapp"@[0]);
    assert("current"@[0] != "previous"@[0]);
    let es = entries(installed_ref, updater_ref, whatsapp, env);
    lemma_rank(es[i], es[j]);
}

/// Each managed repository is listed once, and all of them are.
pub proof fn law_repositories_once(s: Seq<Seq<char>>)
    ensures
        distinct(s).no_duplicates(),
        forall|x: Seq<char>| s.contains(x) <==> #[trigger] distinct(s).contains(x),
    decreases s.len(),
{
    if s.len() > 0 {
        let front = s.drop_last();
        let d = distinct(front);
        law_repositories_once(front);
        assert forall|x: Seq<char>| s.contains(x) <==> #[trigger] distinct(s).contains(x) by {
            if s.contains(x) {
                let k = choose|k: int| 0 <= k < s.len() && s[k] == x;
                if k < front.len() {
                    assert(front[k] == x);
                    assert(front.contains(x));
                    assert(d.contains(x));
                    let m = choose|m: int| 0 <= m < d.len() && d[m] == x;
                    assert(distinct(s)[m] == x);
                } else if front.contains(s.last()) {
                    assert(d.contains(x));
                } else {
                    assert(distinct(s).last() == x);
                }
            }
            if distinct(s).contains(x) {
                let k = choose|k: int| 0 <= k < distinct(s).len() && distinct(s)[k] == x;
                if k < d.len() {
                    assert(d[k] == x);
                    assert(d.contains(x));
                    assert(front.contains(x));
                    let m = choose|m: int| 0 <= m < front.len() && front[m] == x;
                    assert(s[m] == x);
                } else {
                    assert(x == s.last());
                    assert(s[s.len() - 1] == x);
                }
            }
        }
        if !front.contains(s.last()) {
            assert(!d.contains(s.last()));
        }
    }
}

// ── What the contract protects, from the environment file on ─────────────────

/// The keys of the environment file that say which images to keep can be read back, hold no
/// equals sign, and differ from the keys that are written while they are read.
proof fn lemma_storage_keys()
    ensures
        forall|key: Seq<char>| #[trigger]
            is_storage_key(key) ==> readable_key(key) && !key.contains('='),
        UPDATER_CURRENT_IMAGE_REF_ENV@.len() == 30,
        ROLLBACK_IMAGE_REF_ENV@.len() == 23,
        ROLLBACK_IMAGE_ID_ENV@.len() == 22,
        ROLLBACK_IMAGE_RETAIN_UNTIL_ENV@.len() == 32,
        UPDATER_PREVIOUS_IMAGE_REF_ENV@.len() == 31,
        UPDATER_PREVIOUS_RETAIN_UNTIL_ENV@.len() == 34,
        UPDATER_HELPER_ACTIVE_ENV@.len() == 34,
        WHATSAPP_CURRENT_IMAGE_REF_ENV@.len() == 31,
        WHATSAPP_PREVIOUS_IMAGE_REF_ENV@.len() == 32,
        WHATSAPP_PREVIOUS_RETAIN_UNTIL_ENV@.len() == 35,
        UPDATER_PREVIOUS_RETAIN_UNTIL_ENV@ != UPDATER_HELPER_ACTIVE_ENV@,
        ROLLBACK_IMAGE_RETAIN_UNTIL_ENV@ != WHATSAPP_PREVIOUS_IMAGE_REF_ENV@,
{
    reveal_strlit("SELU_ROLLBACK_IMAGE_REF");
    reveal_strlit("SELU_ROLLBACK_IMAGE_ID");
    reveal_strlit("SELU_ROLLBACK_IMAGE_RETAIN_UNTIL");
    reveal_strlit("SELU_UPDATER_CURRENT_IMAGE_REF");
    reveal_strlit("SELU_UPDATER_PREVIOUS_IMAGE_REF");
    reveal_strlit("SELU_UPDATER_PREVIOUS_RETAIN_UNTIL");
    reveal_strlit("SELU_UPDATER_RESTART_HELPER_ACTIVE");
    reveal_strlit("SELU_WHATSAPP_CURRENT_IMAGE_REF");
    reveal_strlit("SELU_WHATSAPP_PREVIOUS_IMAGE_REF");
    reveal_strlit("SELU_WHATSAPP_PREVIOUS_RETAIN_UNTIL");
    assert(UPDATER_PREVIOUS_RETAIN_UNTIL_ENV@[13] != UPDATER_HELPER_ACTIVE_ENV@[13]);
    assert(ROLLBACK_IMAGE_RETAIN_UNTIL_ENV@[5] != WHATSAPP_PREVIOUS_IMAGE_REF_ENV@[5]);
}

/// Whether a text is one of the keys that say which images to keep.
spec fn is_storage_key(key: Seq<char>) -> bool {
    ||| key == UPDATER_CURRENT_IMAGE_REF_ENV@
    ||| key == ROLLBACK_IMAGE_REF_ENV@
    ||| key == ROLLBACK_IMAGE_ID_ENV@
    ||| key == ROLLBACK_IMAGE_RETAIN_UNTIL_ENV@
    ||| key == UPDATER_PREVIOUS_IMAGE_REF_ENV@
    ||| key == UPDATER_PREVIOUS_RETAIN_UNTIL_ENV@
    ||| key == UPDATER_HELPER_ACTIVE_ENV@
    ||| key == WHATSAPP_CURRENT_IMAGE_REF_ENV@
    ||| key == WHATSAPP_PREVIOUS_IMAGE_REF_ENV@
    ||| key == WHATSAPP_PREVIOUS_RETAIN_UNTIL_ENV@
}

/// Seeing to a deadline leaves every other key.
proof fn lemma_retained_keeps(
    lines: Seq<Seq<char>>,
    key: Seq<char>,
    image_ref: Seq<char>,
    days: int,
    now: Moment,
    other: Seq<char>,
)
    requires
        is_storage_key(key),
        is_storage_key(other),
        key != other,
    ensures
        lookup(retained(lines, key, image_ref, days, now), other) == lookup(lines, other),
{
    lemma_storage_keys();
    law_set_keeps_other_keys(lines, key, stamp(now, days), other);
}

/// What the file says of images does not change while it is read, but for the running
/// updater and the deadlines.
proof fn lemma_env_read(
    lines: Seq<Seq<char>>,
    running: Seq<char>,
    env: StorageEnvMetadata,
    now: Moment,
)
    requires
        env.is_of(noted(lines, running), now),
    ensures
        env.rollback_ref@ == if lookup(lines, ROLLBACK_IMAGE_REF_ENV@).len() > 0 {
            lookup(lines, ROLLBACK_IMAGE_REF_ENV@)
        } else {
            lookup(lines, ROLLBACK_IMAGE_ID_ENV@)
        },
        env.updater_previous@ == lookup(lines, UPDATER_PREVIOUS_IMAGE_REF_ENV@),
        env.whatsapp_previous@ == lookup(lines, WHATSAPP_PREVIOUS_IMAGE_REF_ENV@),
        env.whatsapp_current@ == lookup(lines, WHATSAPP_CURRENT_IMAGE_REF_ENV@),
        env.helper_active == (lowered(lookup(lines, UPDATER_HELPER_ACTIVE_ENV@)) == "true"@),
        env.rollback_ref@.len() > 0 ==> env.rollback_retain_until@ == deadline(
            lookup(lines, ROLLBACK_IMAGE_RETAIN_UNTIL_ENV@),
            now,
            30,
        ),
        env.updater_previous@.len() > 0 ==> env.updater_previous_retain_until@ == deadline(
            lookup(lines, UPDATER_PREVIOUS_RETAIN_UNTIL_ENV@),
            now,
            30,
        ),
        env.whatsapp_previous@.len() > 0 ==> env.whatsapp_previous_retain_until@ == deadline(
            lookup(lines, WHATSAPP_PREVIOUS_RETAIN_UNTIL_ENV@),
            now,
            14,
        ),
{
    lemma_storage_keys();
    let n = noted(lines, running);
    assert(is_storage_key(UPDATER_CURRENT_IMAGE_REF_ENV@));
    assert forall|key: Seq<char>| #[trigger]
        is_storage_key(key) && key != UPDATER_CURRENT_IMAGE_REF_ENV@ implies lookup(n, key)
        == lookup(lines, key) by {
        law_set_keeps_other_keys(lines, UPDATER_CURRENT_IMAGE_REF_ENV@, running, key);
    }
    assert(is_storage_key(ROLLBACK_IMAGE_REF_ENV@));
    assert(is_storage_key(ROLLBACK_IMAGE_ID_ENV@));
    assert(is_storage_key(ROLLBACK_IMAGE_RETAIN_UNTIL_ENV@));
    assert(is_storage_key(UPDATER_PREVIOUS_IMAGE_REF_ENV@));
    assert(is_storage_key(UPDATER_PREVIOUS_RETAIN_UNTIL_ENV@));
    assert(is_storage_key(UPDATER_HELPER_ACTIVE_ENV@));
    assert(is_storage_key(WHATSAPP_CURRENT_IMAGE_REF_ENV@));
    assert(is_storage_key(WHATSAPP_PREVIOUS_IMAGE_REF_ENV@));
    assert(is_storage_key(WHATSAPP_PREVIOUS_RETAIN_UNTIL_ENV@));
    let a = rollback_kept(n, now);
    let b = updater_kept(n, now);
    let r = rollback_ref_in(n);
    let u = lookup(n, UPDATER_PREVIOUS_IMAGE_REF_ENV@);
    let w = lookup(n, WHATSAPP_PREVIOUS_IMAGE_REF_ENV@);
    let d1 = SYSTEM_IMAGE_RETENTION_DAYS as int;
    let d2 = WHATSAPP_RETENTION_DAYS as int;
    let k1 = ROLLBACK_IMAGE_RETAIN_UNTIL_ENV@;
    let k2 = UPDATER_PREVIOUS_RETAIN_UNTIL_ENV@;
    let k3 = WHATSAPP_PREVIOUS_RETAIN_UNTIL_ENV@;
    lemma_retained_keeps(n, k1, r, d1, now, k2);
    lemma_retained_keeps(n, k1, r, d1, now, k3);
    lemma_retained_keeps(n, k1, r, d1, now, WHATSAPP_CURRENT_IMAGE_REF_ENV@);
    lemma_retained_keeps(n, k1, r, d1, now, UPDATER_HELPER_ACTIVE_ENV@);
    lemma_retained_keeps(a, k2, u, d1, now, k3);
    lemma_retained_keeps(a, k2, u, d1, now, WHATSAPP_CURRENT_IMAGE_REF_ENV@);
    lemma_retained_keeps(a, k2, u, d1, now, UPDATER_HELPER_ACTIVE_ENV@);
    lemma_retained_keeps(b, k3, w, d2, now, WHATSAPP_CURRENT_IMAGE_REF_ENV@);
    lemma_retained_keeps(b, k3, w, d2, now, UPDATER_HELPER_ACTIVE_ENV@);
}

/// The deadline that an image is kept until: the one that is noted where it is a date, else
/// a number of days from now.
pub open spec fn deadline(noted: Seq<char>, now: Moment, days: int) -> Seq<char> {
    if is_rfc3339(noted) {
        noted
    } else {
        clock::rfc3339_of((now.secs + days * 86_400) as i64, now.nanos)
    }
}

/// Whether a list protects an image that is in use.
pub open spec fn keeps_current(
    v: Seq<ProtectedImageRef>,
    image_ref: Seq<char>,
    owner: Seq<char>,
) -> bool {
    exists|i: int|
        0 <= i < v.len() && (#[trigger] v[i]).image_ref@ == image_ref && v[i].owner@ == owner
            && v[i].state@ == "current"@ && v[i].retain_until is None
}

/// Whether a list protects an image to go back to, until a deadline.
pub open spec fn keeps_previous(
    v: Seq<ProtectedImageRef>,
    image_ref: Seq<char>,
    owner: Seq<char>,
    until: Seq<char>,
) -> bool {
    exists|i: int|
        0 <= i < v.len() && (#[trigger] v[i]).image_ref@ == image_ref && v[i].owner@ == owner
            && v[i].state@ == "previous"@ && opt_text(v[i].retain_until) == Some(until)
}

/// A contract that is given protects every image that may still be needed: the assistant and
/// the updater that run; and each image that the environment file names to go back to, unless
/// it is the running one, until the deadline that the file names or one that is set now. With
/// the message bridge enabled, this holds of its images too.
pub proof fn law_needed_images_are_protected(
    config: UpdaterConfig,
    runtime_status: &str,
    active_job: bool,
    images: RunningImages,
    document: &mut EnvDocument,
    now: Moment,
    m: StorageMetadata,
)
    requires
        call_ensures(
            build_storage_metadata,
            (&config, runtime_status, active_job, &images, document, &now),
            Ok(m),
        ),
    ensures
        ({
            let v = m.protected_image_refs@;
            let file = old(document)@;
            let repository = managed(config.image_repo@)->Ok_0;
            let assistant = if trimmed(images.installed.digest@).len() > 0 {
                repository + "@"@ + canonical(images.installed.digest@)->0
            } else {
                canonical(images.installed.image_id@)->0
            };
            let updater = images.updater_identity->0.immutable_ref@;
            let named = if lookup(file, "SELU_ROLLBACK_IMAGE_REF"@).len() > 0 {
                lookup(file, "SELU_ROLLBACK_IMAGE_REF"@)
            } else {
                lookup(file, "SELU_ROLLBACK_IMAGE_ID"@)
            };
            let updater_before = lookup(file, "SELU_UPDATER_PREVIOUS_IMAGE_REF"@);
            let bridge = lookup(file, "SELU_WHATSAPP_CURRENT_IMAGE_REF"@);
            let bridge_before = lookup(file, "SELU_WHATSAPP_PREVIOUS_IMAGE_REF"@);
            &&& m.ready
            &&& keeps_current(v, assistant, "selu"@)
            &&& images.updater_identity is Some
            &&& keeps_current(v, updater, "updater"@)
            &&& named.len() > 0 && named != assistant ==> keeps_previous(
                v,
                named,
                "selu"@,
                deadline(lookup(file, "SELU_ROLLBACK_IMAGE_RETAIN_UNTIL"@), now, 30),
            )
            &&& updater_before.len() > 0 && updater_before != updater ==> keeps_previous(
                v,
                updater_before,
                "updater"@,
                deadline(lookup(file, "SELU_UPDATER_PREVIOUS_RETAIN_UNTIL"@), now, 30),
            )
            &&& config.whatsapp_bridge_enabled && bridge.len() > 0 ==> keeps_current(
                v,
                bridge,
                "whatsapp"@,
            )
            &&& config.whatsapp_bridge_enabled && bridge_before.len() > 0 && bridge_before
                != bridge ==> keeps_previous(
                v,
                bridge_before,
                "whatsapp"@,
                deadline(lookup(file, "SELU_WHATSAPP_PREVIOUS_RETAIN_UNTIL"@), now, 14),
            )
        }),
{
    let refs = running_refs(config, images)->Ok_0;
    let lines = noted(old(document)@, refs.updater_ref);
    let v = m.protected_image_refs@;
    let bridge = bridge_repository(config)->Ok_0;
    let env = choose|env: StorageEnvMetadata| #[trigger]
        env.is_of(lines, now) && env_fault(
            refs.installed_ref,
            refs.selu_repository,
            refs.updater_ref,
            refs.updater_repository,
            bridge,
            env,
        ) is None && m.is_for(refs, bridge, env, runtime_status@, active_job);
    lemma_env_read(old(document)@, refs.updater_ref, env, now);
    text::lemma_blank(images.installed.digest@);
    let es = entries(refs.installed_ref, refs.updater_ref, bridge is Some, env);
    assert forall|i: int| 0 <= i < v.len() implies #[trigger] v[i]@ == es[i] by {
        assert(entry_views(v)[i] == v[i]@);
    }
    assert(v.len() == es.len()) by {
        assert(entry_views(v).len() == v.len());
    }
    let a = stands_apart(env.rollback_ref@, refs.installed_ref);
    let b = stands_apart(env.updater_previous@, refs.updater_ref);
    let c = bridge is Some && env.whatsapp_current@.len() > 0;
    let d = bridge is Some && stands_apart(env.whatsapp_previous@, env.whatsapp_current@);
    let i1: int = 1;
    let i2: int = if a {
        2
    } else {
        1
    };
    let i3 = i2 + 1;
    let i4 = if b {
        i3 + 1
    } else {
        i3
    };
    let i5 = if c {
        i4 + 1
    } else {
        i4
    };
    assert(es[0] == current_entry(refs.installed_ref, "selu"@));
    assert(v[0]@ == es[0]);
    assert(es[i2] == current_entry(refs.updater_ref, "updater"@));
    assert(v[i2]@ == es[i2]);
    if a {
        assert(es[i1] == previous_entry(env.rollback_ref@, "selu"@, env.rollback_retain_until@));
        assert(v[i1]@ == es[i1]);
    }
    if b {
        assert(es[i3] == previous_entry(
            env.updater_previous@,
            "updater"@,
            env.updater_previous_retain_until@,
        ));
        assert(v[i3]@ == es[i3]);
    }
    if c {
        assert(es[i4] == current_entry(env.whatsapp_current@, "whatsapp"@));
        assert(v[i4]@ == es[i4]);
    }
    if d {
        assert(es[i5] == previous_entry(
            env.whatsapp_previous@,
            "whatsapp"@,
            env.whatsapp_previous_retain_until@,
        ));
        assert(v[i5]@ == es[i5]);
    }
}

/// What an entry of the list can be.
proof fn lemma_entry_kinds(
    installed: Seq<char>,
    updater: Seq<char>,
    bridged: bool,
    env: StorageEnvMetadata,
    i: int,
)
    requires
        0 <= i < entries(installed, updater, bridged, env).len(),
    ensures
        ({
            let e = entries(installed, updater, bridged, env)[i];
            ||| e == current_entry(installed, "selu"@)
            ||| e == current_entry(updater, "updater"@)
            ||| e == previous_entry(env.rollback_ref@, "selu"@, env.rollback_retain_until@)
            ||| e == previous_entry(
                env.updater_previous@,
                "updater"@,
                env.updater_previous_retain_until@,
            )
            ||| bridged && e == current_entry(env.whatsapp_current@, "whatsapp"@)
            ||| bridged && e == previous_entry(
                env.whatsapp_previous@,
                "whatsapp"@,
                env.whatsapp_previous_retain_until@,
            )
        }),
{
}

/// A contract protects nothing else: each of its entries is an image that runs, or one that
/// the environment file names.
pub proof fn law_nothing_else_is_protected(
    config: UpdaterConfig,
    runtime_status: &str,
    active_job: bool,
    images: RunningImages,
    document: &mut EnvDocument,
    now: Moment,
    m: StorageMetadata,
    i: int,
)
    requires
        call_ensures(
            build_storage_metadata,
            (&config, runtime_status, active_job, &images, document, &now),
            Ok(m),
        ),
        0 <= i < m.protected_image_refs@.len(),
    ensures
        ({
            let e = m.protected_image_refs@[i];
            let file = old(document)@;
            ||| e.state@ == "current"@ && e.owner@ == "selu"@ && e.image_ref@ == running_refs(
                config,
                images,
            )->Ok_0.installed_ref
            ||| e.state@ == "current"@ && e.owner@ == "updater"@ && e.image_ref@
                == images.updater_identity->0.immutable_ref@
            ||| e.state@ == "previous"@ && e.owner@ == "selu"@ && (e.image_ref@ == lookup(
                file,
                "SELU_ROLLBACK_IMAGE_REF"@,
            ) || e.image_ref@ == lookup(file, "SELU_ROLLBACK_IMAGE_ID"@))
            ||| e.state@ == "previous"@ && e.owner@ == "updater"@ && e.image_ref@ == lookup(
                file,
                "SELU_UPDATER_PREVIOUS_IMAGE_REF"@,
            )
            ||| config.whatsapp_bridge_enabled && e.state@ == "current"@ && e.owner@ == "whatsapp"@
                && e.image_ref@ == lookup(file, "SELU_WHATSAPP_CURRENT_IMAGE_REF"@)
            ||| config.whatsapp_bridge_enabled && e.state@ == "previous"@ && e.owner@
                == "whatsapp"@ && e.image_ref@ == lookup(file, "SELU_WHATSAPP_PREVIOUS_IMAGE_REF"@)
        }),
{
    let refs = running_refs(config, images)->Ok_0;
    let lines = noted(old(document)@, refs.updater_ref);
    let v = m.protected_image_refs@;
    let bridge = bridge_repository(config)->Ok_0;
    let env = choose|env: StorageEnvMetadata| #[trigger]
        env.is_of(lines, now) && env_fault(
            refs.installed_ref,
            refs.selu_repository,
            refs.updater_ref,
            refs.updater_repository,
            bridge,
            env,
        ) is None && m.is_for(refs, bridge, env, runtime_status@, active_job);
    lemma_env_read(old(document)@, refs.updater_ref, env, now);
    assert(entry_views(v)[i] == v[i]@);
    assert(entry_views(v).len() == v.len());
    lemma_entry_kinds(refs.installed_ref, refs.updater_ref, bridge is Some, env, i);
}

/// A clean-up is put off exactly while an update is active, or while the helper that
/// restarts the updater is noted as active; the former is what is said where both hold.
pub proof fn law_clean_up_waits_for_updates(
    config: UpdaterConfig,
    runtime_status: &str,
    active_job: bool,
    images: RunningImages,
    document: &mut EnvDocument,
    now: Moment,
    m: StorageMetadata,
)
    requires
        call_ensures(
            build_storage_metadata,
            (&config, runtime_status, active_job, &images, document, &now),
            Ok(m),
        ),
    ensures
        ({
            let busy = active_job || runtime_status@ == "updating"@;
            let helper = lowered(lookup(old(document)@, "SELU_UPDATER_RESTART_HELPER_ACTIVE"@))
                == "true"@;
            &&& m.cleanup_block_reason is None <==> !busy && !helper
            &&& busy ==> opt_text(m.cleanup_block_reason) == Some("update_active"@)
            &&& !busy && helper ==> opt_text(m.cleanup_block_reason) == Some(
                "updater_restart_helper_active"@,
            )
        }),
{
    let refs = running_refs(config, images)->Ok_0;
    let lines = noted(old(document)@, refs.updater_ref);
    let bridge = bridge_repository(config)->Ok_0;
    let env = choose|env: StorageEnvMetadata| #[trigger]
        env.is_of(lines, now) && env_fault(
            refs.installed_ref,
            refs.selu_repository,
            refs.updater_ref,
            refs.updater_repository,
            bridge,
            env,
        ) is None && m.is_for(refs, bridge, env, runtime_status@, active_job);
    lemma_env_read(old(document)@, refs.updater_ref, env, now);
}

/// A contract names the repository of the assistant, that of the updater, and with the
/// message bridge enabled that of the bridge; and no other, and none twice.
pub proof fn law_managed_repositories_are_named(
    config: UpdaterConfig,
    runtime_status: &str,
    active_job: bool,
    images: RunningImages,
    document: &mut EnvDocument,
    now: Moment,
    m: StorageMetadata,
    repository: Seq<char>,
)
    requires
        call_ensures(
            build_storage_metadata,
            (&config, runtime_status, active_job, &images, document, &now),
            Ok(m),
        ),
    ensures
        texts(m.managed_repositories@).contains(repository) <==> {
            ||| Ok::<Seq<char>, Seq<char>>(repository) == managed(config.image_repo@)
            ||| Ok::<Seq<char>, Seq<char>>(repository) == managed(images.updater_service_image@)
            ||| config.whatsapp_bridge_enabled && Ok::<Seq<char>, Seq<char>>(repository) == managed(
                config.whatsapp_bridge_image_repo@,
            )
        },
        texts(m.managed_repositories@).no_duplicates(),
{
    let refs = running_refs(config, images)->Ok_0;
    let bridge = bridge_repository(config)->Ok_0;
    let all = match bridge {
        Some(b) => seq![refs.selu_repository, refs.updater_repository, b],
        None => seq![refs.selu_repository, refs.updater_repository],
    };
    law_repositories_once(all);
    assert(texts(m.managed_repositories@) == distinct(all));
    assert(all.contains(repository) <==> {
        ||| repository == refs.selu_repository
        ||| repository == refs.updater_repository
        ||| bridge is Some && repository == bridge->0
    }) by {
        assert(all[0] == refs.selu_repository);
        assert(all[1] == refs.updater_repository);
        if bridge is Some {
            assert(all[2] == bridge->0);
        }
    }
}

/// A contract is given whenever the running images can be told exactly and the environment
/// file names nothing wrong: no other updater, and no image to go back to that is not exact.
pub proof fn law_contract_is_given(
    config: UpdaterConfig,
    runtime_status: &str,
    active_job: bool,
    images: RunningImages,
    document: &mut EnvDocument,
    now: Moment,
    r: Result<StorageMetadata, String>,
)
    requires
        call_ensures(
            build_storage_metadata,
            (&config, runtime_status, active_job, &images, document, &now),
            r,
        ),
        managed(config.image_repo@) is Ok,
        managed(images.updater_service_image@) is Ok,
        !config.whatsapp_bridge_enabled,
        canonical(images.installed.digest@) is Some,
        trimmed(images.installed.digest@).len() > 0,
        images.updater_identity is Some,
        canonical(images.updater_identity->0.immutable_ref@) is Some,
        ({
            let noted = lookup(old(document)@, "SELU_UPDATER_CURRENT_IMAGE_REF"@);
            noted.len() == 0 || noted == images.updater_identity->0.immutable_ref@
        }),
        forall|key: Seq<char>|
            key == "SELU_ROLLBACK_IMAGE_REF"@ || key == "SELU_ROLLBACK_IMAGE_ID"@ || key
                == "SELU_UPDATER_PREVIOUS_IMAGE_REF"@ ==> (#[trigger] lookup(
                old(document)@,
                key,
            )).len() == 0 || canonical(lookup(old(document)@, key)) is Some,
    ensures
        r is Ok,
{
    text::lemma_blank(images.installed.digest@);
    let refs = running_refs(config, images)->Ok_0;
    let lines = noted(old(document)@, refs.updater_ref);
    if r is Err {
        let env = choose|env: StorageEnvMetadata| #[trigger]
            env.is_of(lines, now) && env_fault(
                refs.installed_ref,
                refs.selu_repository,
                refs.updater_ref,
                refs.updater_repository,
                None,
                env,
            ) is Some;
        lemma_env_read(old(document)@, refs.updater_ref, env, now);
    }
}

/// While the contract cannot be made, nothing may be cleaned up; one that was made is handed
/// on as it is.
pub proof fn law_no_contract_no_clean_up(
    built: Result<StorageMetadata, String>,
    generated_at: String,
    r: StorageMetadata,
)
    requires
        call_ensures(storage_metadata, (built, generated_at), r),
    ensures
        built is Err ==> !r.ready && r.cleanup_block_reason is Some && r.protected_image_refs@.len()
            == 0,
        built matches Ok(m) ==> r.ready == m.ready && r.protected_image_refs
            == m.protected_image_refs && r.cleanup_block_reason == m.cleanup_block_reason
            && r.managed_repositories == m.managed_repositories,
        opt_text(r.generated_at) == Some(generated_at@),
{
}

/// The environment file is refused exactly where it names another updater than the one that runs. Else
/// the images to go back to are read from it as it was, each under its own key and with its own
/// deadline, and the file names the updater that runs.
pub proof fn law_environment_is_read_as_it_is(
    document: &mut EnvDocument,
    running: &str,
    now: Moment,
    r: Result<StorageEnvMetadata, String>,
)
    requires
        call_ensures(load_storage_env_metadata, (document, running, &now), r),
    ensures
        ({
            let file = old(document)@;
            let updater = lookup(file, "SELU_UPDATER_CURRENT_IMAGE_REF"@);
            &&& r is Err <==> updater.len() > 0 && updater != running@
            &&& r is Err ==> *final(document) == *old(document) && r->Err_0@
                == "Persisted updater image does not match the running updater"@
            &&& r matches Ok(env) ==> {
                &&& env.rollback_ref@ == if lookup(file, "SELU_ROLLBACK_IMAGE_REF"@).len() > 0 {
                    lookup(file, "SELU_ROLLBACK_IMAGE_REF"@)
                } else {
                    lookup(file, "SELU_ROLLBACK_IMAGE_ID"@)
                }
                &&& env.updater_previous@ == lookup(file, "SELU_UPDATER_PREVIOUS_IMAGE_REF"@)
                &&& env.whatsapp_previous@ == lookup(file, "SELU_WHATSAPP_PREVIOUS_IMAGE_REF"@)
                &&& env.whatsapp_current@ == lookup(file, "SELU_WHATSAPP_CURRENT_IMAGE_REF"@)
                &&& env.helper_active <==> lowered(
                    lookup(file, "SELU_UPDATER_RESTART_HELPER_ACTIVE"@),
                ) == "true"@
                &&& env.rollback_ref@.len() > 0 ==> env.rollback_retain_until@ == deadline(
                    lookup(file, "SELU_ROLLBACK_IMAGE_RETAIN_UNTIL"@),
                    now,
                    30,
                )
                &&& env.updater_previous@.len() > 0 ==> env.updater_previous_retain_until@
                    == deadline(lookup(file, "SELU_UPDATER_PREVIOUS_RETAIN_UNTIL"@), now, 30)
                &&& env.whatsapp_previous@.len() > 0 ==> env.whatsapp_previous_retain_until@
                    == deadline(lookup(file, "SELU_WHATSAPP_PREVIOUS_RETAIN_UNTIL"@), now, 14)
            }
        }),
{
    if let Ok(env) = r {
        lemma_env_read(old(document)@, running@, env, now);
    }
}

/// An image has no deadline where there is none; else the noted one, or a new one, which is then noted
/// in the file under the same key.
pub proof fn law_deadline_is_noted(
    document: &mut EnvDocument,
    key: &str,
    image_ref: &str,
    days: i64,
    now: Moment,
    r: String,
)
    requires
        call_ensures(ensure_retention_deadline, (document, key, image_ref, days, &now), r),
        readable_key(key@),
    ensures
        image_ref@.len() == 0 ==> r@.len() == 0 && final(document)@ == old(document)@,
        image_ref@.len() > 0 ==> r@ == deadline(lookup(old(document)@, key@), now, days as int),
        image_ref@.len() > 0 ==> lookup(final(document)@, key@) == r@ || lookup(
            final(document)@,
            key@,
        ) == trimmed(r@),
{
    law_set_then_value(old(document)@, key@, stamp(now, days as int));
}

} // verus!
