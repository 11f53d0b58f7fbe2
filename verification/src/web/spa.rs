//! The shell of the single-page application, and how long browsers may keep its
//! assets.
use vstd::prelude::*;
use vstd::string::*;
use crate::text;
use crate::text::{is_alnum, is_digit, last_place, opt_str, replaced_text};
use crate::web::base_path::{is_path_char, law_prefix_is_harmless, normalized};
use crate::web::html;
use crate::web::html::attribute;

verus! {

/// The headers of the shell.
pub const CONTENT_TYPE: &'static str = "text/html; charset=utf-8";

pub const CACHE_CONTROL: &'static str = "no-store";

pub const CONTENT_SECURITY_POLICY: &'static str = "default-src 'self'; connect-src 'self'; img-src 'self' data:; script-src 'self'; script-src-attr 'none'; style-src 'self' 'unsafe-inline'; style-src-elem 'self' 'unsafe-inline'; style-src-attr 'unsafe-inline'; object-src 'none'; base-uri 'self'; frame-ancestors 'none'; form-action 'self'";

pub const REFERRER_POLICY: &'static str = "same-origin";

pub const CONTENT_TYPE_OPTIONS: &'static str = "nosniff";

pub const FRAME_OPTIONS: &'static str = "DENY";

/// The part of `s` behind the last `c`, or all of it where there is none.
pub open spec fn behind_last(s: Seq<char>, c: char) -> Seq<char> {
    match last_place(s, c) {
        Some(i) => s.subrange(i + 1, s.len() as int),
        None => s,
    }
}

/// The part of `s` ahead of the last `c`, or all of it where there is none.
pub open spec fn ahead_of_last(s: Seq<char>, c: char) -> Seq<char> {
    match last_place(s, c) {
        Some(i) => s.subrange(0, i),
        None => s,
    }
}

/// The name of a file without its directories and its extension.
pub open spec fn file_stem(path: Seq<char>) -> Seq<char> {
    ahead_of_last(behind_last(path, '/'), '.')
}

/// Whether `h` looks like a hash of contents: at least eight letters and digits,
/// with a digit or a capital letter among them.
pub open spec fn looks_hashed(h: Seq<char>) -> bool {
    &&& h.len() >= 8
    &&& forall|i: int| 0 <= i < h.len() ==> is_alnum(#[trigger] h[i])
    &&& exists|i: int| 0 <= i < h.len() && (is_digit(#[trigger] h[i]) || 'A' <= h[i] <= 'Z')
}

/// Whether a path names an asset by a hash of its contents.
pub open spec fn names_hash(path: Seq<char>) -> bool {
    let stem = file_stem(path);
    last_place(stem, '-') is Some && looks_hashed(behind_last(stem, '-'))
}

/// The part of `s` behind the last `c`, or all of it.
fn after_last(s: &str, c: char) -> (r: &str)
    ensures
        r@ == behind_last(s@, c),
{
    match text::find_last(s, c) {
        Some(i) => {
            let n: usize = s.unicode_len();
            s.substring_char(i + 1, n)
        },
        None => s,
    }
}

/// The part of `s` ahead of the last `c`, or all of it.
fn before_last(s: &str, c: char) -> (r: &str)
    ensures
        r@ == ahead_of_last(s@, c),
{
    match text::find_last(s, c) {
        Some(i) => s.substring_char(0, i),
        None => s,
    }
}

/// Whether a path names an asset by a hash of its contents.
pub fn is_hashed_asset(path: &str) -> (r: bool)
    ensures
        r == names_hash(path@),
{
    let stem = before_last(after_last(path, '/'), '.');
    if text::find_last(stem, '-').is_none() {
        return false;
    }
    let hash = after_last(stem, '-');
    let v = text::chars_of(hash);
    if v.len() < 8 {
        return false;
    }
    let mut marked = false;
    let mut i: usize = 0;
    while i < v.len()
        invariant
            i <= v@.len(),
            v@ == hash@,
            hash@ == behind_last(file_stem(path@), '-'),
            forall|j: int| 0 <= j < i ==> is_alnum(#[trigger] v@[j]),
            marked == exists|j: int|
                0 <= j < i && (is_digit(#[trigger] v@[j]) || 'A' <= v@[j] <= 'Z'),
        decreases v@.len() - i,
    {
        let c = v[i];
        if !text::char_is_alnum(c) {
            return false;
        }
        if text::char_is_digit(c) || ('A' <= c && c <= 'Z') {
            proof {
                assert(is_digit(v@[i as int]) || 'A' <= v@[i as int] <= 'Z');
            }
            marked = true;
        }
        i += 1;
    }
    marked
}

/// How long a browser may keep an asset that was served: for good, where it is
/// named by its contents.
pub fn asset_cache_control(path: &str, success: bool) -> (r: Option<&'static str>)
    ensures
        opt_str(r) == if success && names_hash(path@) {
            Some("public, max-age=31536000, immutable"@)
        } else {
            None
        },
{
    if success && is_hashed_asset(path) {
        Some("public, max-age=31536000, immutable")
    } else {
        None
    }
}

/// The shell with the prefix that it is served under.
pub fn app_index(template: &str, base_path: &str) -> (r: String)
    ensures
        r@ == replaced_text(template@, "__SELU_BASE_PATH__"@, attribute(base_path@)),
{
    proof {
        reveal_strlit("__SELU_BASE_PATH__");
    }
    let value = html::escape_html_attribute(base_path);
    text::replace_text(template, "__SELU_BASE_PATH__", value.as_str())
}

// ── Laws ─────────────────────────────────────────────────────────────────────

/// A text without characters that have a meaning in HTML needs no escape.
proof fn lemma_harmless_attribute(s: Seq<char>)
    requires
        forall|i: int| 0 <= i < s.len() ==> is_path_char(#[trigger] s[i]),
    ensures
        attribute(s) == s,
    decreases s.len(),
{
    let f = |c: char| html::attribute_char(c);
    if s.len() == 0 {
        assert(s.map_values(f) =~= Seq::<Seq<char>>::empty());
        assert(attribute(s) =~= s);
    } else {
        let t = s.drop_first();
        assert forall|i: int| 0 <= i < t.len() implies is_path_char(#[trigger] t[i]) by {
            assert(t[i] == s[i + 1]);
        }
        lemma_harmless_attribute(t);
        assert(is_path_char(s[0]));
        assert(s.map_values(f).drop_first() =~= t.map_values(f));
        assert(s.map_values(f).first() == html::attribute_char(s[0]));
        assert(attribute(s) == html::attribute_char(s[0]) + attribute(t));
        assert(seq![s[0]] + t =~= s);
    }
}

/// A prefix in canonical form stands in the shell as it is: escaping it changes
/// nothing.
pub proof fn law_prefix_is_shown_as_it_is(raw: Seq<char>)
    ensures
        normalized(raw) matches Some(n) ==> attribute(n) == n,
{
    if let Some(n) = normalized(raw) {
        assert forall|i: int| 0 <= i < n.len() implies is_path_char(#[trigger] n[i]) by {
            law_prefix_is_harmless(raw, i);
        }
        lemma_harmless_attribute(n);
    }
}

/// An asset is kept for good exactly where the last part of its name, behind a hyphen and ahead of the
/// extension, is a hash: at least eight letters and digits, not all of them small letters. In which
/// directory it lies does not matter.
pub proof fn law_assets_with_a_hash_are_kept(
    path: &str,
    directory: Seq<char>,
    name: Seq<char>,
    hash: Seq<char>,
    extension: Seq<char>,
    r: bool,
)
    requires
        call_ensures(is_hashed_asset, (path,), r),
        path@ == directory + name + seq!['-'] + hash + seq!['.'] + extension,
        directory.len() == 0 || directory.last() == '/',
        forall|i: int| 0 <= i < name.len() ==> #[trigger] name[i] != '/',
        forall|i: int|
            0 <= i < hash.len() ==> #[trigger] hash[i] != '/' && hash[i] != '-' && hash[i] != '.',
        forall|i: int|
            0 <= i < extension.len() ==> #[trigger] extension[i] != '/' && extension[i] != '.',
    ensures
        r <==> hash.len() >= 8 && (forall|i: int|
            0 <= i < hash.len() ==> ('0' <= #[trigger] hash[i] <= '9' || 'a' <= hash[i] <= 'z'
                || 'A' <= hash[i] <= 'Z')) && (exists|i: int|
            0 <= i < hash.len() && ('0' <= #[trigger] hash[i] <= '9' || 'A' <= hash[i] <= 'Z')),
{
    let file = name + seq!['-'] + hash + seq!['.'] + extension;
    assert(path@ =~= directory + file);
    assert(behind_last(path@, '/') == file) by {
        if directory.len() > 0 {
            let d = directory.len() - 1;
            assert(path@[d] == '/');
            assert forall|j: int| d < j < path@.len() implies #[trigger] path@[j] != '/' by {
                assert(path@[j] == file[j - d - 1]);
            }
            text::lemma_last_place(path@, '/', d);
            assert(path@.subrange(d + 1, path@.len() as int) =~= file);
        } else {
            text::lemma_last_place_shape(path@, '/');
            assert(path@ =~= file);
        }
    }
    let stem = name + seq!['-'] + hash;
    assert(file_stem(path@) == stem) by {
        let d = stem.len() as int;
        assert(file[d] == '.');
        assert forall|j: int| d < j < file.len() implies #[trigger] file[j] != '.' by {
            assert(file[j] == extension[j - d - 1]);
        }
        text::lemma_last_place(file, '.', d);
        assert(file.subrange(0, d) =~= stem);
    }
    let h = name.len() as int;
    assert(stem[h] == '-');
    assert forall|j: int| h < j < stem.len() implies #[trigger] stem[j] != '-' by {
        assert(stem[j] == hash[j - h - 1]);
    }
    text::lemma_last_place(stem, '-', h);
    assert(stem.subrange(h + 1, stem.len() as int) =~= hash);
}

/// An asset whose name has no hyphen in it is never kept for good.
pub proof fn law_assets_without_a_hash_are_not_kept(path: &str, r: bool)
    requires
        call_ensures(is_hashed_asset, (path,), r),
        forall|i: int| 0 <= i < path@.len() ==> #[trigger] path@[i] != '-',
    ensures
        !r,
{
    let file = behind_last(path@, '/');
    text::lemma_last_place_shape(path@, '/');
    assert forall|j: int| 0 <= j < file.len() implies #[trigger] file[j] != '-' by {
        let d = match last_place(path@, '/') {
            Some(i) => i + 1,
            None => 0,
        };
        assert(file[j] == path@[d + j]);
    }
    let stem = file_stem(path@);
    text::lemma_last_place_shape(file, '.');
    assert forall|j: int| 0 <= j < stem.len() implies #[trigger] stem[j] != '-' by {
        assert(stem[j] == file[j]);
    }
    text::lemma_last_place_shape(stem, '-');
}

/// How long an asset is kept is told only of one that was served.
pub proof fn law_failures_are_not_kept(
    path: &str,
    success: bool,
    hashed: bool,
    r: Option<&'static str>,
)
    requires
        call_ensures(is_hashed_asset, (path,), hashed),
        call_ensures(asset_cache_control, (path, success), r),
    ensures
        r is Some <==> success && hashed,
        r matches Some(s) ==> s@ == "public, max-age=31536000, immutable"@,
{
}

} // verus!
