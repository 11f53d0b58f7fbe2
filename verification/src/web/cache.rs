//! The cache volumes of capabilities, and sizes as people read them.
use vstd::prelude::*;
use vstd::string::*;
use crate::text;
use crate::text::{decimal, decimal_int, digit, opt_text};
use crate::web::response;
use crate::web::response::{Sent, WebAnswer};

verus! {

#[derive(Debug, Clone)]
pub struct CacheVolumeRow {
    pub id: String,
    pub username: String,
    pub capability_id: String,
    pub created_at: String,
    pub last_active_at: String,
    /// The size as people read it, or a dash where it is not known.
    pub size: String,
}

// ── Sizes ────────────────────────────────────────────────────────────────────

/// `n` divided by `d`, to the nearest integer, and to the even one of two that are
/// as near.
pub open spec fn nearest(n: nat, d: nat) -> nat {
    let q = n / d;
    let rest = n % d;
    if 2 * rest > d || (2 * rest == d && q % 2 == 1) {
        q + 1
    } else {
        q
    }
}

/// The first power of two from `p` on, at which `b` has no more than 53 digits in
/// base two.
pub open spec fn unit_of(b: nat, p: nat) -> nat
    decreases b - p,
{
    if p == 0 || b < p * 9_007_199_254_740_992 || p >= b {
        p
    } else {
        unit_of(b, 2 * p)
    }
}

/// The nearest number to `b` that has no more than 53 digits in base two, and then
/// zeros only.
pub open spec fn in_53_digits(b: nat) -> nat {
    nearest(b, unit_of(b, 1)) * unit_of(b, 1)
}

/// `n` divided by `d` with one digit behind the point.
pub open spec fn one_place(n: nat, d: nat) -> Seq<char> {
    let t = nearest(n * 10, d);
    decimal(t / 10).push('.').push(digit(t % 10))
}

/// `n` divided by `d` with two digits behind the point.
pub open spec fn two_places(n: nat, d: nat) -> Seq<char> {
    let t = nearest(n * 100, d);
    decimal(t / 100).push('.').push(digit(t / 10 % 10)).push(digit(t % 10))
}

/// A size as people read it: bytes below a kilobyte, then kilobytes and megabytes
/// with one digit behind the point, and gigabytes with two, of the size in 53
/// binary digits.
pub open spec fn size_text(bytes: int) -> Seq<char> {
    if bytes < 1024 {
        decimal_int(bytes) + " B"@
    } else if bytes < 1_048_576 {
        one_place(bytes as nat, 1024) + " KB"@
    } else if bytes < 1_073_741_824 {
        one_place(bytes as nat, 1_048_576) + " MB"@
    } else {
        two_places(in_53_digits(bytes as nat), 1_073_741_824) + " GB"@
    }
}

/// `n` divided by `d`, to the nearest integer.
fn round_div(n: u128, d: u128) -> (r: u128)
    requires
        d > 0,
        d <= 0x1_0000_0000_0000_0000,
        n <= 0x1_0000_0000_0000_0000_0000_0000,
    ensures
        r == nearest(n as nat, d as nat),
        r <= n + 1,
{
    let q: u128 = n / d;
    let rest: u128 = n % d;
    proof {
        assert(q <= n) by (nonlinear_arith)
            requires
                q == n / d,
                d > 0,
                n >= 0,
        ;
    }
    if 2 * rest > d || (2 * rest == d && q % 2 == 1) {
        q + 1
    } else {
        q
    }
}

/// The unit in which `b` has no more than 53 binary digits.
fn find_unit(b: u128) -> (r: u128)
    requires
        b <= 0x8000_0000_0000_0000,
    ensures
        r == unit_of(b as nat, 1),
        1 <= r <= 2048,
{
    let mut p: u128 = 1;
    while !(b < p * 9_007_199_254_740_992 || p >= b)
        invariant
            1 <= p <= 2048,
            b <= 0x8000_0000_0000_0000,
            unit_of(b as nat, 1) == unit_of(b as nat, p as nat),
        decreases 0x8000_0000_0000_0000 - p,
    {
        proof {
            assert(p <= 1024) by {
                if p > 1024 {
                    assert(p * 9_007_199_254_740_992 > 0x8000_0000_0000_0000);
                }
            }
        }
        p = 2 * p;
    }
    p
}

/// The nearest number to `b` in 53 binary digits.
fn fit_53_digits(b: u128) -> (r: u128)
    requires
        b <= 0x8000_0000_0000_0000,
    ensures
        r == in_53_digits(b as nat),
        r <= 0x1_0000_0000_0000_0000,
{
    let unit: u128 = find_unit(b);
    let q: u128 = round_div(b, unit);
    proof {
        lemma_nearest_near(b as nat, unit as nat);
        assert(q * unit <= b + unit);
    }
    q * unit
}

/// What the nearest integer is of.
proof fn lemma_nearest_near(n: nat, d: nat)
    requires
        d > 0,
    ensures
        nearest(n, d) * d <= n + d,
{
    let q = n / d;
    let rest = n % d;
    assert(n == d * q + rest) by (nonlinear_arith)
        requires
            q == n / d,
            rest == n % d,
            d > 0,
    ;
    assert((q + 1) * d == d * q + d) by (nonlinear_arith);
    assert(q * d == d * q) by (nonlinear_arith);
}

/// A sign behind a text.
fn add_digit(out: &mut String, d: u128)
    requires
        d < 10,
    ensures
        final(out)@ == old(out)@.push(digit(d as nat)),
{
    out.push((48 + d as u8) as char);
}

/// `n` divided by `d` with one digit behind the point.
fn with_one_place(n: u128, d: u128) -> (r: String)
    requires
        n <= 0x8000_0000_0000_0000,
        1 <= d <= 0x8000_0000_0000_0000,
        nearest((n * 10) as nat, d as nat) < 0x8000_0000_0000_0000,
    ensures
        r@ == one_place(n as nat, d as nat),
{
    let t: u128 = round_div(n * 10, d);
    let mut out = text::number((t / 10) as u64);
    out.push('.');
    add_digit(&mut out, t % 10);
    out
}

/// `n` divided by `d` with two digits behind the point.
fn with_two_places(n: u128, d: u128) -> (r: String)
    requires
        n <= 0x1_0000_0000_0000_0000,
        1 <= d <= 0x8000_0000_0000_0000,
        nearest((n * 100) as nat, d as nat) < 0x8000_0000_0000_0000,
    ensures
        r@ == two_places(n as nat, d as nat),
{
    let t: u128 = round_div(n * 100, d);
    let mut out = text::number((t / 100) as u64);
    out.push('.');
    add_digit(&mut out, t / 10 % 10);
    add_digit(&mut out, t % 10);
    out
}

/// A size as people read it.
pub fn format_bytes(bytes: i64) -> (r: String)
    ensures
        r@ == size_text(bytes as int),
{
    if bytes < 1024 {
        let mut out = text::signed_number(bytes);
        out.append(" B");
        return out;
    }
    let n: u128 = bytes as u128;
    if bytes < 1_048_576 {
        let mut out = with_one_place(n, 1024);
        out.append(" KB");
        out
    } else if bytes < 1_073_741_824 {
        let mut out = with_one_place(n, 1_048_576);
        out.append(" MB");
        out
    } else {
        let f: u128 = fit_53_digits(n);
        proof {
            assert((f * 100) / 1_073_741_824 <= 1_717_986_918_400int);
        }
        let mut out = with_two_places(f, 1_073_741_824);
        out.append(" GB");
        out
    }
}

// ── The list ─────────────────────────────────────────────────────────────────

/// A cache volume as stored.
pub struct StoredVolume {
    pub id: String,
    pub username: String,
    pub user_id: String,
    pub capability_id: String,
    pub created_at: String,
    pub last_active_at: String,
}

/// The name of a cache volume.
pub open spec fn volume_name(user_id: Seq<char>, capability_id: Seq<char>) -> Seq<char> {
    "selu-cache-"@ + user_id + "-"@ + capability_id
}

/// The size that a list gives a volume: that of the last entry with its name.
pub open spec fn size_in(sizes: Seq<(String, i64)>, name: Seq<char>) -> Option<i64>
    decreases sizes.len(),
{
    if sizes.len() == 0 {
        None
    } else if sizes.last().0@ == name {
        Some(sizes.last().1)
    } else {
        size_in(sizes.drop_last(), name)
    }
}

/// The size that a list gives a volume.
fn find_size(sizes: &Vec<(String, i64)>, name: &str) -> (r: Option<i64>)
    ensures
        r == size_in(sizes@, name@),
{
    let mut k: usize = sizes.len();
    proof {
        assert(sizes@.take(k as int) =~= sizes@);
    }
    while k > 0
        invariant
            k <= sizes@.len(),
            size_in(sizes@, name@) == size_in(sizes@.take(k as int), name@),
        decreases k,
    {
        proof {
            assert(sizes@.take(k as int).drop_last() =~= sizes@.take(k - 1));
            assert(sizes@.take(k as int).last() == sizes@[k - 1]);
        }
        if text::same(sizes[k - 1].0.as_str(), name) {
            return Some(sizes[k - 1].1);
        }
        k -= 1;
    }
    None
}

/// Whether `v` lists a stored volume.
pub open spec fn shows_volume(
    v: CacheVolumeRow,
    row: StoredVolume,
    sizes: Seq<(String, i64)>,
) -> bool {
    &&& v.id == row.id
    &&& v.username == row.username
    &&& v.capability_id == row.capability_id
    &&& v.created_at == row.created_at
    &&& v.last_active_at == row.last_active_at
    &&& v.size@ == match size_in(sizes, volume_name(row.user_id@, row.capability_id@)) {
        Some(n) => size_text(n as int),
        None => "\u{2013}"@,
    }
}

/// A cache volume as listed.
pub fn cache_volume_row(row: StoredVolume, sizes: &Vec<(String, i64)>) -> (r: CacheVolumeRow)
    ensures
        shows_volume(r, row, sizes@),
{
    let mut name = "selu-cache-".to_string();
    name.append(row.user_id.as_str());
    name.append("-");
    name.append(row.capability_id.as_str());
    let size = match find_size(sizes, name.as_str()) {
        Some(n) => format_bytes(n),
        None => "\u{2013}".to_string(),
    };
    CacheVolumeRow {
        id: row.id,
        username: row.username,
        capability_id: row.capability_id,
        created_at: row.created_at,
        last_active_at: row.last_active_at,
        size,
    }
}

/// The cache volumes as listed.
pub fn cache_index(rows: Vec<StoredVolume>, sizes: &Vec<(String, i64)>) -> (r: Vec<CacheVolumeRow>)
    ensures
        r@.len() == rows@.len(),
        forall|i: int| 0 <= i < rows@.len() ==> shows_volume(#[trigger] r@[i], rows@[i], sizes@),
{
    let mut out: Vec<CacheVolumeRow> = Vec::new();
    for row in it: rows
        invariant
            it.seq() == rows@,
            out@.len() == it.index(),
            forall|k: int|
                0 <= k < out@.len() ==> shows_volume(#[trigger] out@[k], rows@[k], sizes@),
    {
        out.push(cache_volume_row(row, sizes));
    }
    out
}

/// Whose caches somebody sees and may delete: those of anybody for an administrator, else
/// their own.
pub fn restricted_to(is_admin: bool, user_id: &str) -> (r: Option<String>)
    ensures
        opt_text(r) == if is_admin {
            None
        } else {
            Some(user_id@)
        },
{
    if is_admin {
        None
    } else {
        Some(user_id.to_string())
    }
}

/// The answer once a cache was to be deleted.
pub fn cache_delete(outcome: &Result<bool, String>) -> (r: WebAnswer)
    ensures
        r@ == match outcome {
            Ok(true) => Sent::Html(""@),
            Ok(false) => Sent::Status(response::NOT_FOUND),
            Err(_) => Sent::Status(response::INTERNAL_SERVER_ERROR),
        },
{
    response::cleared(outcome)
}

// ── Laws ─────────────────────────────────────────────────────────────────────

/// The nearest integer is no further away than a half, and even where two are as near.
proof fn lemma_nearest(n: nat, d: nat)
    requires
        d > 0,
    ensures
        2 * (nearest(n, d) * d - n) <= d,
        2 * (n - nearest(n, d) * d) <= d,
        2 * (nearest(n, d) * d - n) == d || 2 * (n - nearest(n, d) * d) == d ==> nearest(n, d) % 2
            == 0,
{
    let q = n / d;
    let rest = n % d;
    assert(n == d * q + rest && 0 <= rest < d) by (nonlinear_arith)
        requires
            q == n / d,
            rest == n % d,
            d > 0,
    ;
    assert((q + 1) * d == d * q + d) by (nonlinear_arith);
    assert(q * d == d * q) by (nonlinear_arith);
}

/// The unit of a size is never more than 2048 bytes.
proof fn lemma_unit(b: nat, p: nat)
    requires
        1 <= p <= 2048,
        b <= 0x8000_0000_0000_0000,
    ensures
        1 <= unit_of(b, p) <= 2048,
    decreases 4096 - p,
{
    if !(b < p * 9_007_199_254_740_992 || p >= b) {
        lemma_unit(b, 2 * p);
    }
}

/// A size below a kilobyte is told in bytes, to the byte.
pub proof fn law_small_sizes_are_exact(bytes: i64, r: String)
    requires
        call_ensures(format_bytes, (bytes,), r),
        bytes < 1024,
    ensures
        r@ == decimal_int(bytes as int) + " B"@,
{
}

/// A size from a kilobyte up to a megabyte is told in tenths of a kilobyte, and one up to a gigabyte
/// in tenths of a megabyte: in those that are nearest to it.
pub proof fn law_sizes_are_told_to_the_nearest_tenth(bytes: i64, r: String)
    requires
        call_ensures(format_bytes, (bytes,), r),
        1024 <= bytes < 1_073_741_824,
    ensures
        exists|t: nat|
            ({
                let unit: int = if bytes < 1_048_576 {
                    1024
                } else {
                    1_048_576
                };
                let name = if bytes < 1_048_576 {
                    " KB"@
                } else {
                    " MB"@
                };
                &&& r@ == #[trigger] decimal(t / 10) + seq!['.', digit(t % 10)] + name
                &&& -unit <= 2 * (t * unit - bytes * 10) <= unit
                &&& 2 * (t * unit - bytes * 10) == unit || 2 * (t * unit - bytes * 10) == -unit
                    ==> t % 2 == 0
            }),
{
    let unit: nat = if bytes < 1_048_576 {
        1024
    } else {
        1_048_576
    };
    let n = bytes as nat * 10;
    let t = nearest(n, unit);
    lemma_nearest(n, unit);
    let name = if bytes < 1_048_576 {
        " KB"@
    } else {
        " MB"@
    };
    assert(r@ =~= decimal(t / 10) + seq!['.', digit(t % 10)] + name);
}

/// A size from a gigabyte on is told in hundredths of a gigabyte: in those nearest to it, or nearest to
/// a size that is within a kilobyte of it where it is greater than can be told apart to the byte.
pub proof fn law_large_sizes_are_told_to_the_nearest_hundredth(bytes: i64, r: String)
    requires
        call_ensures(format_bytes, (bytes,), r),
        bytes >= 1_073_741_824,
    ensures
        exists|t: nat, f: nat|
            ({
                &&& r@ == #[trigger] decimal(t / 100) + seq![
                    '.',
                    digit(t / 10 % 10),
                    digit(t % 10),
                ] + " GB"@
                &&& -1_073_741_824 <= 2 * (t * 1_073_741_824 - #[trigger] (f * 100))
                    <= 1_073_741_824
                &&& -1024 <= f - bytes <= 1024
                &&& bytes < 9_007_199_254_740_992 ==> f == bytes
            }),
{
    let b = bytes as nat;
    let unit = unit_of(b, 1);
    lemma_unit(b, 1);
    lemma_nearest(b, unit);
    let f = in_53_digits(b);
    if bytes < 9_007_199_254_740_992 {
        assert(unit == 1);
        assert(f == b);
    }
    let t = nearest(f * 100, 1_073_741_824);
    lemma_nearest(f * 100, 1_073_741_824);
    assert(r@ =~= decimal(t / 100) + seq!['.', digit(t / 10 % 10), digit(t % 10)] + " GB"@);
}

/// The size of a name is that of its last entry, and there is none where there is no entry.
proof fn lemma_size_in(sizes: Seq<(String, i64)>, name: Seq<char>)
    ensures
        match size_in(sizes, name) {
            Some(n) => exists|i: int|
                0 <= i < sizes.len() && (#[trigger] sizes[i]).0@ == name && sizes[i].1 == n && (
                forall|j: int| i < j < sizes.len() ==> (#[trigger] sizes[j]).0@ != name),
            None => forall|j: int| 0 <= j < sizes.len() ==> (#[trigger] sizes[j]).0@ != name,
        },
    decreases sizes.len(),
{
    if sizes.len() > 0 {
        let rest = sizes.drop_last();
        if sizes.last().0@ == name {
            assert(sizes[sizes.len() - 1].0@ == name);
        } else {
            lemma_size_in(rest, name);
            match size_in(rest, name) {
                Some(n) => {
                    let i = choose|i: int|
                        0 <= i < rest.len() && (#[trigger] rest[i]).0@ == name && rest[i].1 == n && (
                        forall|j: int| i < j < rest.len() ==> (#[trigger] rest[j]).0@ != name);
                    assert(sizes[i] == rest[i]);
                    assert forall|j: int| i < j < sizes.len() implies (#[trigger] sizes[j]).0@
                        != name by {
                        if j < rest.len() {
                            assert(rest[j] == sizes[j]);
                        }
                    }
                },
                None => {
                    assert forall|j: int| 0 <= j < sizes.len() implies (#[trigger] sizes[j]).0@
                        != name by {
                        if j < rest.len() {
                            assert(rest[j] == sizes[j]);
                        }
                    }
                },
            }
        }
    }
}

/// A volume is listed as it is stored, with the size that was last measured of the volume that is named
/// after its user and its capability; with a dash where none was measured.
pub proof fn law_volume_is_listed_with_its_size(
    rows: Vec<StoredVolume>,
    sizes: Vec<(String, i64)>,
    r: Vec<CacheVolumeRow>,
    i: int,
)
    requires
        call_ensures(cache_index, (rows, &sizes), r),
        0 <= i < rows@.len(),
    ensures
        r@.len() == rows@.len(),
        r@[i].id@ == rows@[i].id@,
        r@[i].username@ == rows@[i].username@,
        r@[i].capability_id@ == rows@[i].capability_id@,
        r@[i].created_at@ == rows@[i].created_at@,
        r@[i].last_active_at@ == rows@[i].last_active_at@,
        ({
            let name = "selu-cache-"@ + rows@[i].user_id@ + "-"@ + rows@[i].capability_id@;
            if exists|k: int| 0 <= k < sizes@.len() && (#[trigger] sizes@[k]).0@ == name {
                exists|k: int|
                    0 <= k < sizes@.len() && (#[trigger] sizes@[k]).0@ == name && (forall|j: int|
                        k < j < sizes@.len() ==> (#[trigger] sizes@[j]).0@ != name) && r@[i].size@
                        == size_text(sizes@[k].1 as int)
            } else {
                r@[i].size@ == "\u{2013}"@
            }
        }),
{
    assert(shows_volume(r@[i], rows@[i], sizes@));
    lemma_size_in(sizes@, "selu-cache-"@ + rows@[i].user_id@ + "-"@ + rows@[i].capability_id@);
}

/// An administrator sees the caches of everybody, and nobody else those of another.
pub proof fn law_caches_are_seen_by_their_owners(is_admin: bool, user_id: &str, r: Option<String>)
    requires
        call_ensures(restricted_to, (is_admin, user_id), r),
    ensures
        r is None <==> is_admin,
        r matches Some(u) ==> u@ == user_id@,
{
}

/// Only a cache that was deleted leaves the page; one that was not there and one that could not be
/// deleted are told apart.
pub proof fn law_deleted_cache_leaves_the_page(outcome: Result<bool, String>, r: WebAnswer)
    requires
        call_ensures(cache_delete, (&outcome,), r),
    ensures
        r is Html <==> outcome == Ok::<bool, String>(true),
        r@ == Sent::Status(404) <==> outcome == Ok::<bool, String>(false),
        r@ == Sent::Status(500) <==> outcome is Err,
{
}

} // verus!
