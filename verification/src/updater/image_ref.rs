//! Image references: repositories, tags and digests.
use vstd::prelude::*;
use vstd::string::*;
use crate::text;
use crate::text::{
    ahead_of, any_char, blank, is_alnum, is_hex, is_white, last_place, lines_of, lowered,
    occurs_in, opt_text, texts, trimmed,
};

verus! {

// ── Models ───────────────────────────────────────────────────────────────────

/// An image reference without its digest.
pub open spec fn undigested(image_ref: Seq<char>) -> Seq<char> {
    trimmed(ahead_of(trimmed(image_ref), "@"@))
}

/// The place of the colon that stands before the tag of `name`: the last colon,
/// where it follows the last slash.
pub open spec fn tag_colon(name: Seq<char>) -> Option<int> {
    match (last_place(name, '/'), last_place(name, ':')) {
        (Some(slash), Some(colon)) if colon > slash => Some(colon),
        (None, Some(colon)) => Some(colon),
        _ => None,
    }
}

/// The repository that an image reference names.
pub open spec fn repository_of(image_ref: Seq<char>) -> Option<Seq<char>> {
    let name = undigested(image_ref);
    let repository = trimmed(
        match tag_colon(name) {
            Some(colon) => name.subrange(0, colon),
            None => name,
        },
    );
    if repository.len() == 0 {
        None
    } else {
        Some(repository)
    }
}

/// Whether `d` is a digest in its canonical form.
pub open spec fn is_canonical(d: Seq<char>) -> bool {
    &&& "sha256:"@.is_prefix_of(d)
    &&& d.len() == 71
    &&& forall|i: int| 7 <= i < 71 ==> is_hex(#[trigger] d[i])
}

/// The canonical form of a digest, where it has one.
pub open spec fn canonical(digest: Seq<char>) -> Option<Seq<char>> {
    let d = lowered(trimmed(digest));
    if is_canonical(d) {
        Some(d)
    } else {
        None
    }
}

/// What is said of a digest without a canonical form.
pub open spec fn digest_error() -> Seq<char> {
    "Image digest must use sha256:<64 hex characters>"@
}

/// The digest that a line of repository digests gives for `repository`.
pub open spec fn line_digest(line: Seq<char>, repository: Seq<char>) -> Option<Seq<char>> {
    let l = trimmed(line);
    match last_place(l, '@') {
        Some(i) if trimmed(l.subrange(0, i)) == repository => canonical(
            l.subrange(i + 1, l.len() as int),
        ),
        _ => None,
    }
}

/// The first digest that the lines give for `repository`.
pub open spec fn listed_digest(lines: Seq<Seq<char>>, repository: Seq<char>) -> Option<Seq<char>>
    decreases lines.len(),
{
    if lines.len() == 0 {
        None
    } else {
        match line_digest(lines[0], repository) {
            Some(d) => Some(d),
            None => listed_digest(lines.drop_first(), repository),
        }
    }
}

/// The digest that `output` lists for the repository of `expected`.
pub open spec fn repo_digest(output: Seq<char>, expected: Seq<char>) -> Option<Seq<char>> {
    match repository_of(expected) {
        Some(repository) => listed_digest(lines_of(output), repository),
        None => None,
    }
}

/// The tag of an image reference, where it names the repository of `image_repo`.
pub open spec fn tag_of(image_ref: Seq<char>, image_repo: Seq<char>) -> Option<Seq<char>> {
    let name = undigested(image_ref);
    match (repository_of(name), repository_of(image_repo), tag_colon(name)) {
        (Some(a), Some(b), Some(colon)) if a == b && !blank(
            name.subrange(colon + 1, name.len() as int),
        ) => Some(trimmed(name.subrange(colon + 1, name.len() as int))),
        _ => None,
    }
}

/// Whether `repository` can be the repository of a managed image that was
/// configured as `image_ref`.
pub open spec fn manageable(image_ref: Seq<char>, repository: Seq<char>) -> bool {
    &&& repository != "sha256"@
    &&& !"sha256:"@.is_prefix_of(trimmed(image_ref))
    &&& !any_char(repository, text::white())
    &&& !occurs_in(repository, "@"@)
}

/// The managed repository that an image reference names, or what is wrong with
/// it.
pub open spec fn managed(image_ref: Seq<char>) -> Result<Seq<char>, Seq<char>> {
    match repository_of(image_ref) {
        None => Err("Managed image repository must not be empty"@),
        Some(repository) => if manageable(image_ref, repository) {
            Ok(repository)
        } else {
            Err("Managed image repository is invalid"@)
        },
    }
}

/// What is wrong with a reference that should protect an image of `expected`:
/// nothing where it is an image ID, or `expected` with a digest.
pub open spec fn protection_fault(image_ref: Seq<char>, expected: Seq<char>) -> Option<Seq<char>> {
    let r = trimmed(image_ref);
    if canonical(image_ref) is Some {
        None
    } else {
        match last_place(r, '@') {
            None => Some("Protected image reference is not immutable"@),
            Some(i) => match managed(r.subrange(0, i)) {
                Err(e) => Some(e),
                Ok(repository) => if repository != expected {
                    Some("Protected image reference does not match its managed repository"@)
                } else if canonical(r.subrange(i + 1, r.len() as int)) is None {
                    Some(digest_error())
                } else {
                    None
                },
            },
        }
    }
}

/// The characters of a canonical digest after its prefix.
pub open spec fn digest_hex(d: Seq<char>) -> Seq<char> {
    d.subrange(7, d.len() as int)
}

/// The view of a result that holds a string, or an error text.
pub open spec fn result_text(r: Result<String, String>) -> Result<Seq<char>, Seq<char>> {
    match r {
        Ok(s) => Ok(s@),
        Err(e) => Err(e@),
    }
}

// ── Functions ────────────────────────────────────────────────────────────────

/// The reference without its digest, cut out of `image_ref`.
fn without_digest(image_ref: &str) -> (r: &str)
    ensures
        r@ == undigested(image_ref@),
{
    text::trim(text::before_text(text::trim(image_ref), "@"))
}

/// The place of the colon before the tag of `name`.
fn find_tag_colon(name: &str) -> (r: Option<usize>)
    ensures
        match r {
            Some(i) => tag_colon(name@) == Some(i as int) && i < name@.len(),
            None => tag_colon(name@) == None::<int>,
        },
{
    match (text::find_last(name, '/'), text::find_last(name, ':')) {
        (Some(slash), Some(colon)) => if colon > slash {
            Some(colon)
        } else {
            None
        },
        (None, Some(colon)) => Some(colon),
        _ => None,
    }
}

/// The repository that an image reference names.
pub fn repository_from_image_ref(image_ref: &str) -> (r: Option<String>)
    ensures
        opt_text(r) == repository_of(image_ref@),
{
    let name = without_digest(image_ref);
    let repository = match find_tag_colon(name) {
        Some(colon) => text::trim(name.substring_char(0, colon)),
        None => text::trim(name),
    };
    if repository.is_empty() {
        None
    } else {
        Some(repository.to_string())
    }
}

/// The canonical form of a digest: `sha256:` and 64 small hexadecimal digits.
pub fn canonical_sha256_digest(digest: &str) -> (r: Result<String, String>)
    ensures
        result_text(r) == match canonical(digest@) {
            Some(d) => Ok(d),
            None => Err(digest_error()),
        },
{
    let d = text::to_lower(text::trim(digest));
    let v = text::chars_of(d.as_str());
    proof {
        reveal_strlit("sha256:");
    }
    if !text::starts_with(d.as_str(), "sha256:") || v.len() != 71 || !text::all_hex(&v, 7) {
        return Err("Image digest must use sha256:<64 hex characters>".to_string());
    }
    Ok(d)
}

/// The digest that a line of repository digests gives for `repository`.
fn digest_in_line(line: &str, repository: &str) -> (r: Option<String>)
    ensures
        opt_text(r) == line_digest(line@, repository@),
{
    let l = text::trim(line);
    match text::find_last(l, '@') {
        Some(i) => {
            let n: usize = l.unicode_len();
            if text::same(text::trim(l.substring_char(0, i)), repository) {
                match canonical_sha256_digest(l.substring_char(i + 1, n)) {
                    Ok(d) => Some(d),
                    Err(_) => None,
                }
            } else {
                None
            }
        },
        None => None,
    }
}

/// The digest that `output` lists for exactly the repository of `expected_repo`.
pub fn repo_digest_for_repository(output: &str, expected_repo: &str) -> (r: Option<String>)
    ensures
        opt_text(r) == repo_digest(output@, expected_repo@),
{
    let repository = match repository_from_image_ref(expected_repo) {
        Some(repository) => repository,
        None => {
            return None;
        },
    };
    let lines = text::lines(output);
    let ghost all = texts(lines@);
    let mut i: usize = 0;
    proof {
        assert(all.subrange(0, all.len() as int) =~= all);
    }
    while i < lines.len()
        invariant
            i <= lines@.len(),
            all == texts(lines@),
            repo_digest(output@, expected_repo@) == listed_digest(all, repository@),
            listed_digest(all, repository@) == listed_digest(
                all.subrange(i as int, all.len() as int),
                repository@,
            ),
        decreases lines@.len() - i,
    {
        let ghost rest = all.subrange(i as int, all.len() as int);
        proof {
            assert(rest[0] == lines@[i as int]@);
            assert(rest.drop_first() =~= all.subrange(i + 1, all.len() as int));
        }
        match digest_in_line(lines[i].as_str(), repository.as_str()) {
            Some(d) => {
                return Some(d);
            },
            None => {},
        }
        i += 1;
    }
    None
}

/// The tag of an image reference, where it names exactly the repository of
/// `image_repo`.
pub fn extract_tag_from_image_ref(image_ref: &str, image_repo: &str) -> (r: Option<String>)
    ensures
        opt_text(r) == tag_of(image_ref@, image_repo@),
{
    let name = without_digest(image_ref);
    let a = match repository_from_image_ref(name) {
        Some(a) => a,
        None => {
            return None;
        },
    };
    let b = match repository_from_image_ref(image_repo) {
        Some(b) => b,
        None => {
            return None;
        },
    };
    if !text::same(a.as_str(), b.as_str()) {
        return None;
    }
    match find_tag_colon(name) {
        Some(colon) => {
            let n: usize = name.unicode_len();
            let rest = name.substring_char(colon + 1, n);
            if text::is_blank(rest) {
                None
            } else {
                Some(text::trim(rest).to_string())
            }
        },
        None => None,
    }
}

/// `a` followed by `sep` and `b`.
pub(crate) fn glued(a: &str, sep: &str, b: &str) -> (r: String)
    ensures
        r@ == a@ + sep@ + b@,
{
    let mut out = a.to_string();
    out.append(sep);
    out.append(b);
    out
}

/// What an image is pulled as, named as on this machine, and tagged as in the
/// compose file, each by its digest.
#[derive(Debug, Clone, PartialEq, Eq)]
pub struct ImmutableImagePlan {
    pub pull_ref: String,
    pub local_ref: String,
    pub compose_tag: String,
}

/// The compose tag of the image with a canonical digest.
pub open spec fn rollback_tag(d: Seq<char>) -> Seq<char> {
    "selu-rollback-"@ + digest_hex(d)
}

impl ImmutableImagePlan {
    /// Whether this is the plan for a repository and a canonical digest.
    pub open spec fn is_for(&self, repository: Seq<char>, d: Seq<char>) -> bool {
        &&& self.pull_ref@ == repository + "@"@ + d
        &&& self.compose_tag@ == rollback_tag(d)
        &&& self.local_ref@ == repository + ":"@ + rollback_tag(d)
    }
}

/// The plan for the image of `repo` with the given digest.
pub fn immutable_image_plan(repo: &str, digest: &str) -> (r: Result<ImmutableImagePlan, String>)
    ensures
        match (repository_of(repo@), canonical(digest@)) {
            (None, _) => r is Err && r->Err_0@ == "Image repository must not be empty"@,
            (Some(_), None) => r is Err && r->Err_0@ == digest_error(),
            (Some(repository), Some(d)) => r is Ok && r->Ok_0.is_for(repository, d),
        },
{
    let repository = match repository_from_image_ref(repo) {
        Some(repository) => repository,
        None => {
            return Err("Image repository must not be empty".to_string());
        },
    };
    let d = match canonical_sha256_digest(digest) {
        Ok(d) => d,
        Err(e) => {
            return Err(e);
        },
    };
    let n: usize = d.as_str().unicode_len();
    let mut compose_tag = "selu-rollback-".to_string();
    compose_tag.append(d.as_str().substring_char(7, n));
    Ok(
        ImmutableImagePlan {
            pull_ref: glued(repository.as_str(), "@", d.as_str()),
            local_ref: glued(repository.as_str(), ":", compose_tag.as_str()),
            compose_tag,
        },
    )
}

/// A reference that can only ever mean one image: the repository with the
/// digest, or the image ID where there is no digest.
pub open spec fn immutable_ref(
    repository: Seq<char>,
    digest: Seq<char>,
    image_id: Seq<char>,
) -> Option<Seq<char>> {
    if !blank(digest) {
        match canonical(digest) {
            Some(d) => Some(repository + "@"@ + d),
            None => None,
        }
    } else {
        canonical(image_id)
    }
}

/// The immutable reference of an image.
pub fn immutable_image_ref(repository: &str, digest: &str, image_id: &str) -> (r: Result<
    String,
    String,
>)
    ensures
        result_text(r) == match immutable_ref(repository@, digest@, image_id@) {
            Some(i) => Ok(i),
            None => Err(digest_error()),
        },
{
    if !text::is_blank(digest) {
        match canonical_sha256_digest(digest) {
            Ok(d) => Ok(glued(repository, "@", d.as_str())),
            Err(e) => Err(e),
        }
    } else {
        canonical_sha256_digest(image_id)
    }
}

/// The managed repository that an image reference names.
pub fn managed_repository(image_ref: &str) -> (r: Result<String, String>)
    ensures
        result_text(r) == managed(image_ref@),
{
    let repository = match repository_from_image_ref(image_ref) {
        Some(repository) => repository,
        None => {
            return Err("Managed image repository must not be empty".to_string());
        },
    };
    if text::same(repository.as_str(), "sha256") || text::starts_with(
        text::trim(image_ref),
        "sha256:",
    ) || has_white(repository.as_str()) || text::contains(repository.as_str(), "@") {
        return Err("Managed image repository is invalid".to_string());
    }
    Ok(repository)
}

/// Whether `s` holds white space.
fn has_white(s: &str) -> (r: bool)
    ensures
        r == any_char(s@, text::white()),
{
    let v = text::chars_of(s);
    let mut i: usize = 0;
    while i < v.len()
        invariant
            i <= v@.len(),
            v@ == s@,
            forall|j: int| 0 <= j < i ==> !is_white(#[trigger] v@[j]),
        decreases v@.len() - i,
    {
        if text::char_is_white(v[i]) {
            proof {
                assert(text::white()(s@[i as int]));
            }
            return true;
        }
        i += 1;
    }
    proof {
        assert(forall|j: int| 0 <= j < s@.len() ==> !text::white()(#[trigger] s@[j]));
    }
    false
}

/// Accepts a reference that protects exactly one image of `expected_repository`.
pub fn validate_exact_protected_ref(image_ref: &str, expected_repository: &str) -> (r: Result<
    (),
    String,
>)
    ensures
        match protection_fault(image_ref@, expected_repository@) {
            None => r is Ok,
            Some(e) => r is Err && r->Err_0@ == e,
        },
{
    if canonical_sha256_digest(image_ref).is_ok() {
        return Ok(());
    }
    let l = text::trim(image_ref);
    let n: usize = l.unicode_len();
    match text::find_last(l, '@') {
        None => Err("Protected image reference is not immutable".to_string()),
        Some(i) => match managed_repository(l.substring_char(0, i)) {
            Err(e) => Err(e),
            Ok(repository) => {
                if !text::same(repository.as_str(), expected_repository) {
                    return Err(
                        "Protected image reference does not match its managed repository".to_string(),
                    );
                }
                match canonical_sha256_digest(l.substring_char(i + 1, n)) {
                    Err(e) => Err(e),
                    Ok(_) => Ok(()),
                }
            },
        },
    }
}

// ── Laws ─────────────────────────────────────────────────────────────────────

/// The canonical form of a digest is its own canonical form.
pub proof fn law_canonical_twice(digest: Seq<char>)
    ensures
        canonical(digest) matches Some(d) ==> is_canonical(d) && canonical(d) == Some(d),
{
    if let Some(d) = canonical(digest) {
        lemma_canonical_shape(d);
        let t = trimmed(digest);
        assert(lowered(d) =~= d) by {
            assert forall|i: int| 0 <= i < d.len() implies lowered(d)[i] == d[i] by {
                assert(d[i] == text::lower_char(t[i]));
            }
        }
        text::lemma_trimmed_same(d);
    }
}

/// A digest in canonical form starts with `s`, holds neither white space nor an
/// at sign, a slash or a second colon.
proof fn lemma_canonical_shape(d: Seq<char>)
    requires
        is_canonical(d),
    ensures
        d[0] == 's',
        forall|i: int|
            0 <= i < d.len() ==> !is_white(#[trigger] d[i]) && d[i] != '@' && d[i] != '/',
{
    reveal_strlit("sha256:");
    let p = "sha256:"@;
    assert forall|i: int| 0 <= i < 7 implies #[trigger] d[i] == p[i] by {
        assert(d.subrange(0, p.len() as int)[i] == p[i]);
    }
}

/// The immutable reference of an image of a managed repository is one that
/// protects exactly that image.
pub proof fn law_immutable_ref_protects(
    repository: Seq<char>,
    digest: Seq<char>,
    image_id: Seq<char>,
)
    requires
        managed(repository) == Ok::<Seq<char>, Seq<char>>(repository),
    ensures
        immutable_ref(repository, digest, image_id) matches Some(r) ==> protection_fault(
            r,
            repository,
        ) == None::<Seq<char>>,
{
    reveal_strlit("@");
    if blank(digest) {
        law_canonical_twice(image_id);
    } else if let Some(d) = canonical(digest) {
        law_canonical_twice(digest);
        lemma_canonical_shape(d);
        let r = repository + "@"@ + d;
        let n = repository.len() as int;
        assert(!is_white(repository[0])) by {
            if text::white()(repository[0]) {
                assert(any_char(repository, text::white()));
            }
        }
        assert(r[0] == repository[0]);
        assert(r.last() == d.last());
        assert(d.last() == d[70]);
        text::lemma_trimmed_same(r);
        assert(r[n] == '@');
        assert forall|j: int| n < j < r.len() implies r[j] != '@' by {
            assert(r[j] == d[j - n - 1]);
        }
        text::lemma_last_place(r, '@', n);
        assert(r.subrange(0, n) =~= repository);
        assert(r.subrange(n + 1, r.len() as int) =~= d);
    }
}

/// An immutable reference is an image ID, or holds a canonical digest behind its
/// last at sign.
pub proof fn lemma_immutable_ref_shape(
    image_ref: Seq<char>,
    repository: Seq<char>,
    digest: Seq<char>,
    image_id: Seq<char>,
)
    requires
        managed(image_ref) == Ok::<Seq<char>, Seq<char>>(repository),
        immutable_ref(repository, digest, image_id) is Some,
    ensures
        ({
            let r = immutable_ref(repository, digest, image_id)->0;
            let t = trimmed(r);
            ||| canonical(r) is Some
            ||| last_place(t, '@') matches Some(i) && canonical(
                t.subrange(i + 1, t.len() as int),
            ) is Some
        }),
{
    reveal_strlit("@");
    if blank(digest) {
        law_canonical_twice(image_id);
    } else {
        let d = canonical(digest)->0;
        law_canonical_twice(digest);
        lemma_canonical_shape(d);
        let r = repository + "@"@ + d;
        let n = repository.len() as int;
        assert(!is_white(repository[0])) by {
            if text::white()(repository[0]) {
                assert(any_char(repository, text::white()));
            }
        }
        assert(r[0] == repository[0]);
        assert(r.last() == d.last());
        assert(d.last() == d[70]);
        text::lemma_trimmed_same(r);
        assert(r[n] == '@');
        assert forall|j: int| n < j < r.len() implies r[j] != '@' by {
            assert(r[j] == d[j - n - 1]);
        }
        text::lemma_last_place(r, '@', n);
        assert(r.subrange(n + 1, r.len() as int) =~= d);
    }
}

/// The characters of a tag or of a release channel.
pub open spec fn is_tag_char(c: char) -> bool {
    is_alnum(c) || c == '_' || c == '-' || c == '.'
}

/// The parts of a repository with a tag.
proof fn lemma_tagged(repo: Seq<char>, tag: Seq<char>)
    requires
        repository_of(repo) == Some(repo),
        forall|i: int| 0 <= i < tag.len() ==> is_tag_char(#[trigger] tag[i]),
    ensures
        undigested(repo + ":"@ + tag) == repo + ":"@ + tag,
        tag_colon(repo + ":"@ + tag) == Some(repo.len() as int),
        trimmed(repo) == repo,
{
    reveal_strlit(":");
    reveal_strlit("@");
    let r = repo + ":"@ + tag;
    let n = repo.len() as int;
    let t = trimmed(repo);
    // The repository is what trimming leaves, and holds no at sign.
    let cut = ahead_of(t, "@"@);
    let name = trimmed(cut);
    text::lemma_find_from(t, "@"@, 0);
    let inner = match tag_colon(name) {
        Some(colon) => name.subrange(0, colon),
        None => name,
    };
    text::lemma_trimmed_twice(inner);
    assert(trimmed(inner) == repo);
    assert(t == repo);
    assert(repo.len() <= inner.len()) by {
        text::lemma_trimmed_len(inner);
    }
    text::lemma_trimmed_len(cut);
    text::lemma_trimmed_len(repo);
    text::lemma_last_place_shape(name, ':');
    assert(cut.len() == repo.len());
    assert(cut =~= repo);
    assert forall|i: int| 0 <= i < n implies #[trigger] repo[i] != '@' by {
        if repo[i] == '@' {
            assert(repo.subrange(i, i + 1) =~= "@"@);
            assert(text::occurs(t, "@"@, i));
        }
    }
    text::lemma_trimmed_ends(repo);
    assert(r[0] == repo[0]);
    if tag.len() > 0 {
        assert(r.last() == tag.last());
        assert(is_tag_char(tag[tag.len() - 1]));
    } else {
        assert(r.last() == ':');
    }
    text::lemma_trimmed_same(r);
    assert forall|i: int| 0 <= i implies !text::occurs(r, "@"@, i) by {
        if text::occurs(r, "@"@, i) {
            assert(r.subrange(i, i + 1)[0] == '@');
            if i < n {
                assert(r[i] == repo[i]);
            } else if i > n {
                assert(r[i] == tag[i - n - 1]);
                assert(is_tag_char(tag[i - n - 1]));
            }
        }
    }
    text::lemma_find_none(r, "@"@, 0);
    assert forall|j: int| n < j < r.len() implies #[trigger] r[j] != ':' && r[j] != '/' by {
        assert(r[j] == tag[j - n - 1]);
        assert(is_tag_char(tag[j - n - 1]));
    }
    assert(r[n] == ':');
    text::lemma_last_place(r, ':', n);
    text::lemma_last_place_shape(r, '/');
}

/// A tag plays no part in the repository of a reference, so that the plan for an
/// image with a given digest is the same whatever channel tag its repository was
/// configured with.
pub proof fn law_plan_ignores_tag(repo: Seq<char>, tag: Seq<char>)
    requires
        repository_of(repo) == Some(repo),
        forall|i: int| 0 <= i < tag.len() ==> is_tag_char(#[trigger] tag[i]),
    ensures
        repository_of(repo + ":"@ + tag) == repository_of(repo),
{
    lemma_tagged(repo, tag);
    assert((repo + ":"@ + tag).subrange(0, repo.len() as int) =~= repo);
}

/// The tag of a repository with a tag is that tag.
pub proof fn law_tag_is_read_back(repo: Seq<char>, tag: Seq<char>)
    requires
        repository_of(repo) == Some(repo),
        tag.len() > 0,
        forall|i: int| 0 <= i < tag.len() ==> is_tag_char(#[trigger] tag[i]),
    ensures
        tag_of(repo + ":"@ + tag, repo) == Some(tag),
{
    reveal_strlit(":");
    let r = repo + ":"@ + tag;
    lemma_tagged(repo, tag);
    law_plan_ignores_tag(repo, tag);
    assert(r.subrange(repo.len() as int + 1, r.len() as int) =~= tag);
    assert(is_tag_char(tag[0]));
    assert(is_tag_char(tag[tag.len() - 1]));
    assert(!blank(tag)) by {
        assert(!is_white(tag[0]));
    }
    text::lemma_trimmed_same(tag);
}

/// A digest is only ever taken from a line of exactly the expected repository.
pub proof fn law_digest_of_exact_repository(lines: Seq<Seq<char>>, repository: Seq<char>)
    ensures
        match listed_digest(lines, repository) {
            Some(d) => exists|i: int|
                0 <= i < lines.len() && line_digest(#[trigger] lines[i], repository) == Some(d),
            None => forall|i: int|
                0 <= i < lines.len() ==> line_digest(#[trigger] lines[i], repository) is None,
        },
    decreases lines.len(),
{
    if lines.len() > 0 {
        let rest = lines.drop_first();
        law_digest_of_exact_repository(rest, repository);
        if line_digest(lines[0], repository) is None {
            match listed_digest(rest, repository) {
                Some(d) => {
                    let i = choose|i: int|
                        0 <= i < rest.len() && line_digest(#[trigger] rest[i], repository) == Some(
                            d,
                        );
                    assert(rest[i] == lines[i + 1]);
                },
                None => {
                    assert forall|i: int| 0 <= i < lines.len() implies line_digest(
                        #[trigger] lines[i],
                        repository,
                    ) is None by {
                        if i > 0 {
                            assert(rest[i - 1] == lines[i]);
                        }
                    }
                },
            }
        }
    }
}

/// A digest is taken exactly where, without white space around it and in small letters, it is
/// `sha256:` and sixty-four hexadecimal digits; and it is then given in just that form.
pub proof fn law_digest_keeps_its_digits(digest: &str, r: Result<String, String>)
    requires
        call_ensures(canonical_sha256_digest, (digest,), r),
    ensures
        r matches Ok(d) ==> d@ == lowered(trimmed(digest@)) && d@.len() == 71
            && "sha256:"@.is_prefix_of(d@) && (forall|i: int|
            7 <= i < 71 ==> is_hex(#[trigger] d@[i])),
        r is Err ==> {
            let d = lowered(trimmed(digest@));
            d.len() != 71 || !"sha256:"@.is_prefix_of(d) || (exists|i: int|
                7 <= i < 71 && !is_hex(#[trigger] d[i]))
        },
{
}

/// The plan for an image names it by its digest in all three of its parts: it is pulled by the
/// repository at that digest, and tagged on this machine and in the compose file by its digits.
pub proof fn law_plan_is_for_its_digest(
    repo: &str,
    digest: &str,
    r: Result<ImmutableImagePlan, String>,
)
    requires
        call_ensures(immutable_image_plan, (repo, digest), r),
    ensures
        r is Ok <==> repository_of(repo@) is Some && canonical(digest@) is Some,
        r matches Ok(plan) ==> {
            let repository = repository_of(repo@)->0;
            let d = canonical(digest@)->0;
            &&& plan.pull_ref@ == repository + "@"@ + d
            &&& plan.compose_tag@ == "selu-rollback-"@ + d.subrange(7, 71)
            &&& plan.local_ref@ == repository + ":"@ + plan.compose_tag@
        },
{
    law_canonical_twice(digest@);
}

/// Plans for two digests of one repository differ in every part.
pub proof fn law_plans_tell_digests_apart(
    repo: &str,
    one: &str,
    other: &str,
    p: ImmutableImagePlan,
    q: ImmutableImagePlan,
)
    requires
        call_ensures(immutable_image_plan, (repo, one), Ok(p)),
        call_ensures(immutable_image_plan, (repo, other), Ok(q)),
        canonical(one@) != canonical(other@),
    ensures
        p.pull_ref@ != q.pull_ref@,
        p.compose_tag@ != q.compose_tag@,
        p.local_ref@ != q.local_ref@,
{
    let a = canonical(one@)->0;
    let b = canonical(other@)->0;
    law_canonical_twice(one@);
    law_canonical_twice(other@);
    let i = choose|i: int| 0 <= i < 71 && a[i] != b[i];
    if !(exists|i: int| 0 <= i < 71 && a[i] != b[i]) {
        assert(a =~= b);
    }
    reveal_strlit("sha256:");
    if i < 7 {
        assert(a.subrange(0, 7)[i] == "sha256:"@[i]);
        assert(b.subrange(0, 7)[i] == "sha256:"@[i]);
    }
    let repository = repository_of(repo@)->0;
    let n = repository.len() as int;
    reveal_strlit("@");
    reveal_strlit(":");
    reveal_strlit("selu-rollback-");
    assert("selu-rollback-"@.len() == 14 && "@"@.len() == 1 && ":"@.len() == 1);
    assert(p.pull_ref@[n + 1 + i] == a[i] && q.pull_ref@[n + 1 + i] == b[i]);
    assert(digest_hex(a)[i - 7] == a[i] && digest_hex(b)[i - 7] == b[i]);
    assert(p.compose_tag@[14 + i - 7] == a[i] && q.compose_tag@[14 + i - 7] == b[i]);
    assert(p.local_ref@[n + 1 + 14 + i - 7] == a[i] && q.local_ref@[n + 1 + 14 + i - 7] == b[i]);
}

/// An image is referred to by its digest where it has one, whatever its ID; only without one is
/// its ID the reference.
pub proof fn law_reference_prefers_the_digest(
    repository: &str,
    digest: &str,
    image_id: &str,
    r: Result<String, String>,
)
    requires
        call_ensures(immutable_image_ref, (repository, digest, image_id), r),
    ensures
        trimmed(digest@).len() > 0 ==> (r is Ok <==> canonical(digest@) is Some) && (r is Ok
            ==> r->Ok_0@ == repository@ + "@"@ + canonical(digest@)->0),
        trimmed(digest@).len() == 0 ==> (r is Ok <==> canonical(image_id@) is Some) && (r is Ok
            ==> Some(r->Ok_0@) == canonical(image_id@)),
{
    text::lemma_blank(digest@);
}

/// A reference protects an image only where it can mean no other: it is an image's ID, or the
/// expected repository at a digest.
pub proof fn law_only_exact_references_protect(
    image_ref: &str,
    expected: &str,
    r: Result<(), String>,
)
    requires
        call_ensures(validate_exact_protected_ref, (image_ref, expected), r),
    ensures
        r is Ok ==> canonical(image_ref@) is Some || {
            let s = trimmed(image_ref@);
            &&& last_place(s, '@') is Some
            &&& repository_of(s.subrange(0, last_place(s, '@')->0)) == Some(expected@)
            &&& canonical(s.subrange(last_place(s, '@')->0 + 1, s.len() as int)) is Some
        },
        canonical(image_ref@) is Some ==> r is Ok,
        canonical(image_ref@) is None && last_place(trimmed(image_ref@), '@') is None ==> r is Err,
{
}

/// A repository is managed under the name that its reference gives it, which is that of no image
/// ID and holds neither white space nor a digest.
pub proof fn law_managed_repository_is_the_named_one(image_ref: &str, r: Result<String, String>)
    requires
        call_ensures(managed_repository, (image_ref,), r),
    ensures
        r matches Ok(repository) ==> {
            &&& Some(repository@) == repository_of(image_ref@)
            &&& repository@ != "sha256"@
            &&& !"sha256:"@.is_prefix_of(trimmed(image_ref@))
            &&& forall|i: int| 0 <= i < repository@.len() ==> !is_white(#[trigger] repository@[i])
        },
        repository_of(image_ref@) is None ==> r is Err,
{
    if r is Ok {
        let s = r->Ok_0@;
        assert forall|i: int| 0 <= i < s.len() implies !is_white(#[trigger] s[i]) by {
            if is_white(s[i]) {
                assert(text::white()(s[i]));
            }
        }
    }
}

} // verus!
