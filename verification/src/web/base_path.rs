//! The path prefix that the web layer is served under, and the origin that a
//! browser sees.
use vstd::prelude::*;
use vstd::string::*;
use crate::text;
use crate::text::{
    decimal, is_alnum, is_hex, opt_str, opt_text, pieces, texts, trimmed_end_of,
};

verus! {

/// The path prefix of a request.
#[derive(Debug, Clone)]
pub struct BasePath(pub String);

/// The origin of a request as the browser sees it: scheme, host and prefix.
#[derive(Debug, Clone)]
pub struct ExternalOrigin(pub String);

// ── Models ───────────────────────────────────────────────────────────────────

/// The characters that stand for themselves in a segment.
pub open spec fn is_unreserved(c: char) -> bool {
    is_alnum(c) || c == '-' || c == '.' || c == '_' || c == '~'
}

/// The value of a hexadecimal digit.
pub open spec fn hex_digit(c: char) -> int {
    if '0' <= c <= '9' {
        c as int - 48
    } else if 'a' <= c <= 'f' {
        c as int - 87
    } else {
        c as int - 55
    }
}

/// The byte that two hexadecimal digits stand for.
pub open spec fn escaped_byte(a: char, b: char) -> u8 {
    (hex_digit(a) * 16 + hex_digit(b)) as u8
}

/// The bytes that must not be hidden behind an escape: control characters, and
/// those that end a path or a piece of HTML.
pub open spec fn is_hazardous(b: u8) -> bool {
    ||| b < 32
    ||| b == 127
    ||| b == 47
    ||| b == 92
    ||| b == 63
    ||| b == 35
    ||| b == 60
    ||| b == 62
    ||| b == 34
    ||| b == 39
}

/// Whether a segment starts with an escape of a byte that may stand there.
pub open spec fn starts_with_escape(s: Seq<char>) -> bool {
    &&& s.len() >= 3
    &&& s[0] == '%'
    &&& is_hex(s[1])
    &&& is_hex(s[2])
    &&& !is_hazardous(escaped_byte(s[1], s[2]))
}

/// The bytes that a segment stands for, where it is well formed.
pub open spec fn decoded(s: Seq<char>) -> Option<Seq<u8>>
    decreases s.len(),
{
    if s.len() == 0 {
        Some(Seq::empty())
    } else if is_unreserved(s[0]) {
        match decoded(s.subrange(1, s.len() as int)) {
            Some(d) => Some(seq![s[0] as u8] + d),
            None => None,
        }
    } else if starts_with_escape(s) {
        match decoded(s.subrange(3, s.len() as int)) {
            Some(d) => Some(seq![escaped_byte(s[1], s[2])] + d),
            None => None,
        }
    } else {
        None
    }
}

/// Whether bytes are one or two dots.
pub open spec fn is_dots(d: Seq<u8>) -> bool {
    d == seq![46u8] || d == seq![46u8, 46u8]
}

/// Whether a segment may stand in a prefix: it is not empty, is well formed, and
/// neither is nor stands for one or two dots.
pub open spec fn is_good_segment(s: Seq<char>) -> bool {
    &&& s.len() > 0
    &&& s != "."@
    &&& s != ".."@
    &&& decoded(s) is Some
    &&& !is_dots(decoded(s)->0)
}

/// Whether `n` is a prefix in canonical form that is not empty: a slash, and good
/// segments with a slash between neighbours.
pub open spec fn is_prefix_path(n: Seq<char>) -> bool {
    &&& n.len() > 0
    &&& n[0] == '/'
    &&& forall|i: int|
        0 <= i < pieces(n.subrange(1, n.len() as int), '/').len() ==> is_good_segment(
            #[trigger] pieces(n.subrange(1, n.len() as int), '/')[i],
        )
}

/// The canonical form of a prefix: without slashes at its end. A prefix that is
/// not well formed has none.
pub open spec fn normalized(raw: Seq<char>) -> Option<Seq<char>> {
    if raw.len() == 0 || raw == "/"@ {
        Some(Seq::empty())
    } else if raw[0] != '/' || "//"@.is_suffix_of(raw) {
        None
    } else {
        let n = trimmed_end_of(raw, '/');
        if n.len() == 0 {
            Some(Seq::empty())
        } else if is_prefix_path(n) {
            Some(n)
        } else {
            None
        }
    }
}

/// What is left of a path under a prefix: a slash for the prefix itself, and what
/// follows the prefix where that starts with a slash.
pub open spec fn stripped(path: Seq<char>, base_path: Seq<char>) -> Option<Seq<char>> {
    if base_path.len() == 0 {
        None
    } else if path == base_path {
        Some("/"@)
    } else if base_path.is_prefix_of(path) && path.len() > base_path.len() && path[base_path.len() as int]
        == '/' {
        Some(path.subrange(base_path.len() as int, path.len() as int))
    } else {
        None
    }
}

// ── Functions ────────────────────────────────────────────────────────────────

/// The value of a hexadecimal digit.
pub fn hex_value(byte: u8) -> (r: u8)
    requires
        48 <= byte <= 57 || 97 <= byte <= 102 || 65 <= byte <= 70,
    ensures
        48 <= byte <= 57 ==> r == byte - 48,
        97 <= byte <= 102 ==> r == byte - 87,
        65 <= byte <= 70 ==> r == byte - 55,
        r < 16,
{
    if byte <= 57 {
        byte - 48
    } else if byte <= 70 {
        byte - 65 + 10
    } else {
        byte - 97 + 10
    }
}

/// The byte that two hexadecimal digits stand for.
fn unescape(a: char, b: char) -> (r: u8)
    requires
        is_hex(a),
        is_hex(b),
    ensures
        r == escaped_byte(a, b),
{
    hex_value(a as u8) * 16 + hex_value(b as u8)
}

/// Whether a byte must not be hidden behind an escape.
fn hazardous(b: u8) -> (r: bool)
    ensures
        r == is_hazardous(b),
{
    b < 32 || b == 127 || b == 47 || b == 92 || b == 63 || b == 35 || b == 60 || b == 62 || b == 34
        || b == 39
}

/// The bytes that a segment stands for, where it is well formed.
fn decode_segment(segment: &str) -> (r: Option<Vec<u8>>)
    ensures
        match r {
            Some(v) => decoded(segment@) == Some(v@),
            None => decoded(segment@) is None,
        },
{
    let v = text::chars_of(segment);
    let n: usize = v.len();
    let mut out: Vec<u8> = Vec::new();
    let mut i: usize = 0;
    proof {
        assert(segment@.subrange(0, n as int) =~= segment@);
        if let Some(d) = decoded(segment@) {
            assert(out@ + d =~= d);
        }
    }
    while i < n
        invariant
            i <= n == v@.len(),
            v@ == segment@,
            match decoded(segment@.subrange(i as int, n as int)) {
                Some(d) => decoded(segment@) == Some(out@ + d),
                None => decoded(segment@) is None,
            },
        decreases n - i,
    {
        let ghost rest = segment@.subrange(i as int, n as int);
        let ghost before = out@;
        let c = v[i];
        if text::char_is_alnum(c) || c == '-' || c == '.' || c == '_' || c == '~' {
            proof {
                assert(rest.subrange(1, rest.len() as int) =~= segment@.subrange(i + 1, n as int));
            }
            out.push(c as u8);
            i += 1;
            proof {
                if let Some(d) = decoded(segment@.subrange(i as int, n as int)) {
                    assert(before + (seq![c as u8] + d) =~= out@ + d);
                }
            }
        } else if c == '%' && n - i >= 3 && text::char_is_hex(v[i + 1]) && text::char_is_hex(
            v[i + 2],
        ) {
            let b: u8 = unescape(v[i + 1], v[i + 2]);
            if hazardous(b) {
                return None;
            }
            proof {
                assert(rest.subrange(3, rest.len() as int) =~= segment@.subrange(i + 3, n as int));
            }
            out.push(b);
            i += 3;
            proof {
                if let Some(d) = decoded(segment@.subrange(i as int, n as int)) {
                    assert(before + (seq![b] + d) =~= out@ + d);
                }
            }
        } else {
            return None;
        }
    }
    proof {
        assert(segment@.subrange(i as int, n as int) =~= Seq::<char>::empty());
        assert(out@ + Seq::<u8>::empty() =~= out@);
    }
    Some(out)
}

/// Whether a segment may stand in a prefix.
fn segment_is_good(segment: &str) -> (r: bool)
    ensures
        r == is_good_segment(segment@),
{
    if segment.is_empty() || text::same(segment, ".") || text::same(segment, "..") {
        return false;
    }
    match decode_segment(segment) {
        Some(d) => {
            let one = d.len() == 1 && d[0] == 46;
            let two = d.len() == 2 && d[0] == 46 && d[1] == 46;
            proof {
                if one {
                    assert(d@ =~= seq![46u8]);
                }
                if two {
                    assert(d@ =~= seq![46u8, 46u8]);
                }
            }
            !one && !two
        },
        None => false,
    }
}

/// The canonical form of a prefix that a proxy or the configuration gives.
pub fn normalize_base_path(raw: &str) -> (r: Option<String>)
    ensures
        opt_text(r) == normalized(raw@),
{
    proof {
        reveal_strlit("/");
        reveal_strlit("//");
    }
    if raw.is_empty() || text::same(raw, "/") {
        return Some(String::new());
    }
    if raw.get_char(0) != '/' || text::ends_with(raw, "//") {
        return None;
    }
    let n = text::trim_end_of(raw, '/');
    if n.is_empty() {
        return Some(String::new());
    }
    proof {
        text::lemma_trim_end_shape(raw@, text::being('/'));
        assert(n@[0] == raw@[0]);
    }
    let len: usize = n.unicode_len();
    let parts = text::split(n.substring_char(1, len), '/');
    let ghost segments = pieces(n@.subrange(1, n@.len() as int), '/');
    let mut i: usize = 0;
    while i < parts.len()
        invariant
            i <= parts@.len(),
            texts(parts@) == segments,
            n@.len() > 0,
            n@[0] == '/',
            segments == pieces(n@.subrange(1, n@.len() as int), '/'),
            normalized(raw@) == if is_prefix_path(n@) {
                Some(n@)
            } else {
                None
            },
            forall|j: int| 0 <= j < i ==> is_good_segment(#[trigger] segments[j]),
        decreases parts@.len() - i,
    {
        proof {
            assert(segments[i as int] == parts@[i as int]@);
        }
        if !segment_is_good(parts[i].as_str()) {
            proof {
                assert(!is_good_segment(segments[i as int]));
                assert(!is_prefix_path(n@));
            }
            return None;
        }
        i += 1;
    }
    Some(n.to_string())
}

/// What is left of a path under a prefix; only a whole segment is taken away.
pub fn strip_base_path<'a>(path: &'a str, base_path: &str) -> (r: Option<&'a str>)
    ensures
        opt_str(r) == stripped(path@, base_path@),
{
    if base_path.is_empty() {
        return None;
    }
    if text::same(path, base_path) {
        return Some("/");
    }
    match text::strip_prefix(path, base_path) {
        Some(rest) => {
            if !rest.is_empty() && rest.get_char(0) == '/' {
                return Some(rest);
            }
            proof {
                if path@.len() == base_path@.len() {
                    assert(path@ =~= base_path@);
                }
            }
            None
        },
        None => None,
    }
}

/// The prefix of a request: that of the proxy where it is well formed, else the
/// configured one where that is, else none.
pub open spec fn resolved(configured: Seq<char>, forwarded: Option<Seq<char>>) -> Seq<char> {
    let own = match normalized(configured) {
        Some(n) => n,
        None => Seq::empty(),
    };
    match forwarded {
        Some(f) => match normalized(f) {
            Some(n) => n,
            None => own,
        },
        None => own,
    }
}

/// The prefix of a request.
pub fn resolve_base_path(configured: &str, forwarded: Option<&str>) -> (r: BasePath)
    ensures
        r.0@ == resolved(configured@, opt_str(forwarded)),
{
    let own = match normalize_base_path(configured) {
        Some(n) => n,
        None => String::new(),
    };
    match forwarded {
        Some(f) => match normalize_base_path(f) {
            Some(n) => BasePath(n),
            None => BasePath(own),
        },
        None => BasePath(own),
    }
}

/// Where a request leads inside the application, where it came in under the
/// prefix.
pub fn rewritten_uri(path: &str, query: Option<&str>, base_path: &str) -> (r: Option<String>)
    ensures
        opt_text(r) == match (stripped(path@, base_path@), opt_str(query)) {
            (Some(p), Some(q)) => Some(p + "?"@ + q),
            (Some(p), None) => Some(p),
            (None, _) => None,
        },
{
    match strip_base_path(path, base_path) {
        Some(p) => {
            let mut out = p.to_string();
            match query {
                Some(q) => {
                    out.append("?");
                    out.append(q);
                },
                None => {},
            }
            Some(out)
        },
        None => None,
    }
}

/// The origin that a request came in at, without the prefix: the address that an
/// administrator set, else the configured one, else the one that the headers
/// give, else this machine.
pub open spec fn origin_of(
    set_by_admin: Option<Seq<char>>,
    external_url: Option<Seq<char>>,
    proto: Option<Seq<char>>,
    host: Option<Seq<char>>,
    port: nat,
) -> Seq<char> {
    match (set_by_admin, external_url) {
        (Some(o), _) => trimmed_end_of(o, '/'),
        (None, Some(o)) => trimmed_end_of(o, '/'),
        (None, None) => match host {
            Some(h) if h.len() > 0 => (match proto {
                Some(p) => p,
                None => "http"@,
            }) + "://"@ + h,
            _ => "http://localhost:"@ + decimal(port),
        },
    }
}

/// The origin of a request as the browser sees it.
pub fn external_origin(
    set_by_admin: Option<&str>,
    external_url: Option<&str>,
    proto: Option<&str>,
    host: Option<&str>,
    port: u16,
    base_path: &str,
) -> (r: ExternalOrigin)
    ensures
        r.0@ == origin_of(
            opt_str(set_by_admin),
            opt_str(external_url),
            opt_str(proto),
            opt_str(host),
            port as nat,
        ) + base_path@,
{
    let mut out = match (set_by_admin, external_url) {
        (Some(o), _) => text::trim_end_of(o, '/').to_string(),
        (None, Some(o)) => text::trim_end_of(o, '/').to_string(),
        (None, None) => {
            let h = match host {
                Some(h) => h,
                None => "",
            };
            proof {
                reveal_strlit("");
            }
            if h.is_empty() {
                let n = text::number(port as u64);
                let mut o = "http://localhost:".to_string();
                o.append(n.as_str());
                o
            } else {
                let mut o = (match proto {
                    Some(p) => p,
                    None => "http",
                }).to_string();
                o.append("://");
                o.append(h);
                o
            }
        },
    };
    out.append(base_path);
    ExternalOrigin(out)
}

/// A path of the application behind the prefix.
pub fn prefixed(base_path: &str, path: &str) -> (r: String)
    ensures
        r@ == base_path@ + path@,
{
    let mut out = base_path.to_string();
    out.append(path);
    out
}

// ── Laws ─────────────────────────────────────────────────────────────────────

/// The characters of a prefix in canonical form: those that stand for themselves,
/// slashes, and the signs of escapes.
pub open spec fn is_path_char(c: char) -> bool {
    is_unreserved(c) || c == '%' || c == '/'
}

/// The characters of a well-formed segment.
proof fn lemma_decoded_chars(s: Seq<char>)
    requires
        decoded(s) is Some,
    ensures
        forall|i: int| 0 <= i < s.len() ==> is_path_char(#[trigger] s[i]),
    decreases s.len(),
{
    if s.len() > 0 {
        if is_unreserved(s[0]) {
            let t = s.subrange(1, s.len() as int);
            lemma_decoded_chars(t);
            assert forall|i: int| 0 <= i < s.len() implies is_path_char(#[trigger] s[i]) by {
                if i > 0 {
                    assert(s[i] == t[i - 1]);
                }
            }
        } else {
            let t = s.subrange(3, s.len() as int);
            lemma_decoded_chars(t);
            assert forall|i: int| 0 <= i < s.len() implies is_path_char(#[trigger] s[i]) by {
                if i >= 3 {
                    assert(s[i] == t[i - 3]);
                }
            }
        }
    }
}

/// Each character of a text stands in one of its pieces, or is the one between
/// them.
proof fn lemma_char_in_piece(s: Seq<char>, d: char, k: int)
    requires
        0 <= k < s.len(),
    ensures
        s[k] == d || exists|i: int, j: int|
            0 <= i < pieces(s, d).len() && 0 <= j < pieces(s, d)[i].len() && pieces(s, d)[i][j]
                == s[k],
    decreases s.len(),
{
    let b = pieces(s.drop_last(), d);
    let p = pieces(s, d);
    text::lemma_pieces_some(s.drop_last(), d);
    if s[k] != d {
        if k == s.len() - 1 {
            let i = p.len() - 1;
            assert(p[i] == b.last().push(s.last()));
            assert(p[i][b.last().len() as int] == s[k]);
        } else {
            lemma_char_in_piece(s.drop_last(), d, k);
            let (i, j) = choose|i: int, j: int|
                0 <= i < b.len() && 0 <= j < b[i].len() && b[i][j] == s.drop_last()[k];
            if s.last() == d || i < b.len() - 1 {
                assert(p[i] == b[i]);
            } else {
                assert(p[i] == b.last().push(s.last()));
            }
            assert(p[i][j] == s[k]);
        }
    }
}

/// A prefix in canonical form holds no delimiter of a query or fragment, no
/// backslash, no control character and nothing that has a meaning in HTML.
pub proof fn law_prefix_is_harmless(raw: Seq<char>, i: int)
    requires
        normalized(raw) matches Some(n) && 0 <= i < n.len(),
    ensures
        is_path_char(normalized(raw)->0[i]),
{
    let n = normalized(raw)->0;
    if i > 0 {
        let t = n.subrange(1, n.len() as int);
        assert(t[i - 1] == n[i]);
        lemma_char_in_piece(t, '/', i - 1);
        if t[i - 1] != '/' {
            let (a, b) = choose|a: int, b: int|
                0 <= a < pieces(t, '/').len() && 0 <= b < pieces(t, '/')[a].len() && pieces(
                    t,
                    '/',
                )[a][b] == t[i - 1];
            assert(is_good_segment(pieces(t, '/')[a]));
            lemma_decoded_chars(pieces(t, '/')[a]);
        }
    }
}

/// The canonical form of a prefix is its own canonical form.
pub proof fn law_normalized_twice(raw: Seq<char>)
    ensures
        normalized(raw) matches Some(n) ==> normalized(n) == Some(n),
{
    reveal_strlit("/");
    reveal_strlit("//");
    if let Some(n) = normalized(raw) {
        if n.len() > 0 {
            text::lemma_trim_end_shape(raw, text::being('/'));
            assert(!text::being('/')(n.last()));
            assert(n.last() != '/');
            text::lemma_trim_end(n, text::being('/'), n.len() as int);
            assert(n.subrange(0, n.len() as int) =~= n);
            if "//"@.is_suffix_of(n) {
                assert(n.subrange(n.len() - 2, n.len() as int)[1] == '/');
            }
        }
    }
}

/// A prefix is only taken away at the end of a segment: what is left starts with
/// a slash, and behind the prefix it is the path again.
pub proof fn law_stripped_at_segment(path: Seq<char>, base_path: Seq<char>)
    ensures
        stripped(path, base_path) matches Some(rest) ==> rest.len() > 0 && rest[0] == '/' && (path
            == base_path && rest == "/"@ || path == base_path + rest),
{
    reveal_strlit("/");
    if let Some(rest) = stripped(path, base_path) {
        if path != base_path {
            assert(path =~= base_path + rest);
        }
    }
}

/// A path that was made with a prefix leads back to the path: the prefix is taken
/// away again.
pub proof fn law_prefixed_then_stripped(base_path: Seq<char>, path: Seq<char>)
    requires
        base_path.len() > 0,
        path.len() > 0,
        path[0] == '/',
    ensures
        stripped(base_path + path, base_path) == Some(path),
{
    let whole = base_path + path;
    assert(whole.len() != base_path.len());
    assert(whole.subrange(0, base_path.len() as int) =~= base_path);
    assert(whole.subrange(base_path.len() as int, whole.len() as int) =~= path);
}

/// A separator and a text without one behind a text add one piece to its pieces.
proof fn lemma_piece_behind(t: Seq<char>, seg: Seq<char>, d: char)
    requires
        forall|i: int| 0 <= i < seg.len() ==> #[trigger] seg[i] != d,
    ensures
        pieces(t.push(d) + seg, d) == pieces(t, d).push(seg),
    decreases seg.len(),
{
    if seg.len() == 0 {
        assert(t.push(d) + seg =~= t.push(d));
        assert(t.push(d).drop_last() =~= t);
        assert(seg =~= Seq::<char>::empty());
    } else {
        let s = t.push(d) + seg;
        let rest = seg.drop_last();
        lemma_piece_behind(t, rest, d);
        assert(s.drop_last() =~= t.push(d) + rest);
        assert(s.last() == seg[seg.len() - 1]);
        let before = pieces(t, d).push(rest);
        assert(before.drop_last() =~= pieces(t, d));
        assert(rest.push(seg.last()) =~= seg);
    }
}

/// A text without the separator is one piece.
proof fn lemma_one_piece(seg: Seq<char>, d: char)
    requires
        forall|i: int| 0 <= i < seg.len() ==> #[trigger] seg[i] != d,
    ensures
        pieces(seg, d) == seq![seg],
    decreases seg.len(),
{
    if seg.len() == 0 {
        assert(seg =~= Seq::<char>::empty());
    } else {
        let rest = seg.drop_last();
        lemma_one_piece(rest, d);
        assert(seg.last() == seg[seg.len() - 1]);
        assert(seq![rest].drop_last() =~= Seq::<Seq<char>>::empty());
        assert(rest.push(seg.last()) =~= seg);
        assert(pieces(seg, d) =~= seq![seg]);
    }
}

/// A path that does not end with a slash is a prefix as it is or not at all.
proof fn lemma_normalized_whole(n: Seq<char>)
    requires
        n.len() > 1,
        n[0] == '/',
        n.last() != '/',
    ensures
        normalized(n) == if is_prefix_path(n) {
            Some(n)
        } else {
            None
        },
{
    reveal_strlit("/");
    reveal_strlit("//");
    text::lemma_trim_end(n, text::being('/'), n.len() as int);
    assert(n.subrange(0, n.len() as int) =~= n);
    if "//"@.is_suffix_of(n) {
        assert(n.subrange(n.len() - 2, n.len() as int)[1] == '/');
    }
    assert(n != "/"@);
}

/// A path of one segment is a prefix where the segment is good.
proof fn lemma_one_segment(seg: Seq<char>)
    requires
        seg.len() > 0,
        forall|i: int| 0 <= i < seg.len() ==> #[trigger] seg[i] != '/',
    ensures
        normalized(seq!['/'] + seg) == if is_good_segment(seg) {
            Some(seq!['/'] + seg)
        } else {
            None
        },
{
    let n = seq!['/'] + seg;
    assert(n.last() == seg[seg.len() - 1]);
    lemma_normalized_whole(n);
    assert(n.subrange(1, n.len() as int) =~= seg);
    lemma_one_piece(seg, '/');
    assert(pieces(seg, '/')[0] == seg);
}

/// What letters, digits and `-._~` ahead of a text stand for stands ahead of what the text stands for.
proof fn lemma_decoded_behind(a: Seq<char>, s: Seq<char>)
    requires
        forall|i: int| 0 <= i < a.len() ==> is_unreserved(#[trigger] a[i]),
    ensures
        decoded(a + s) is Some <==> decoded(s) is Some,
        decoded(s) is Some ==> decoded(a + s)->0 == a.map_values(|c: char| c as u8) + decoded(s)->0,
    decreases a.len(),
{
    let f = |c: char| c as u8;
    if a.len() == 0 {
        assert(a + s =~= s);
        assert(decoded(s) is Some ==> a.map_values(f) + decoded(s)->0 =~= decoded(s)->0);
    } else {
        let b = a.drop_first();
        assert forall|i: int| 0 <= i < b.len() implies is_unreserved(#[trigger] b[i]) by {
            assert(b[i] == a[i + 1]);
        }
        lemma_decoded_behind(b, s);
        assert(is_unreserved(a[0]));
        assert((a + s)[0] == a[0]);
        assert((a + s).subrange(1, (a + s).len() as int) =~= b + s);
        if decoded(s) is Some {
            assert(seq![a[0] as u8] + (b.map_values(f) + decoded(s)->0) =~= a.map_values(f)
                + decoded(s)->0);
        }
    }
}

/// Segments are judged one by one: whether one more may stand behind a prefix depends on that segment
/// alone.
pub proof fn law_segments_are_judged_alone(
    prefix: &str,
    seg: Seq<char>,
    longer: &str,
    single: &str,
    long: Option<String>,
    short: Option<String>,
)
    requires
        normalized(prefix@) == Some(prefix@),
        prefix@.len() > 0,
        seg.len() > 0,
        forall|i: int| 0 <= i < seg.len() ==> #[trigger] seg[i] != '/',
        longer@ == prefix@ + seq!['/'] + seg,
        single@ == seq!['/'] + seg,
        call_ensures(normalize_base_path, (longer,), long),
        call_ensures(normalize_base_path, (single,), short),
    ensures
        long is Some <==> short is Some,
        long is Some ==> long->0@ == longer@ && short->0@ == single@,
{
    let p = prefix@;
    let n = longer@;
    let t = p.subrange(1, p.len() as int);
    lemma_one_segment(seg);
    assert(p[0] == '/');
    assert(n[0] == '/');
    assert(n.last() == seg[seg.len() - 1]);
    lemma_normalized_whole(n);
    assert(n.subrange(1, n.len() as int) =~= t.push('/') + seg);
    lemma_piece_behind(t, seg, '/');
    let all = pieces(t, '/').push(seg);
    assert(is_prefix_path(p));
    assert(all[all.len() - 1] == seg);
    if is_good_segment(seg) {
        assert forall|i: int| 0 <= i < all.len() implies is_good_segment(#[trigger] all[i]) by {
            if i < all.len() - 1 {
                assert(all[i] == pieces(t, '/')[i]);
            }
        }
    }
}

/// A segment of letters, digits and `-._~` is kept as it is, and refused exactly where it is one or two
/// dots, which lead elsewhere.
pub proof fn law_plain_segment_is_kept(seg: Seq<char>, raw: &str, r: Option<String>)
    requires
        seg.len() > 0,
        forall|i: int|
            0 <= i < seg.len() ==> ('0' <= #[trigger] seg[i] <= '9' || 'a' <= seg[i] <= 'z' || 'A'
                <= seg[i] <= 'Z' || seg[i] == '-' || seg[i] == '.' || seg[i] == '_' || seg[i]
                == '~'),
        raw@ == seq!['/'] + seg,
        call_ensures(normalize_base_path, (raw,), r),
    ensures
        r is None <==> seg == seq!['.'] || seg == seq!['.', '.'],
        r is Some ==> r->0@ == raw@,
{
    reveal_strlit(".");
    reveal_strlit("..");
    assert("."@ =~= seq!['.']);
    assert(".."@ =~= seq!['.', '.']);
    assert forall|i: int| 0 <= i < seg.len() implies is_unreserved(#[trigger] seg[i]) && seg[i]
        != '/' by {}
    lemma_one_segment(seg);
    let none = Seq::<char>::empty();
    lemma_decoded_behind(seg, none);
    assert(seg + none =~= seg);
    let d = decoded(seg)->0;
    assert(decoded(none) == Some(Seq::<u8>::empty()));
    assert(d =~= seg.map_values(|c: char| c as u8));
    if is_dots(d) {
        assert(d.len() == seg.len());
        assert(d[0] == seg[0] as u8);
        assert(seg[0] == '.');
        if d.len() == 2 {
            assert(d[1] == seg[1] as u8);
            assert(seg[1] == '.');
            assert(seg =~= seq!['.', '.']);
        } else {
            assert(seg =~= seq!['.']);
        }
    }
}

/// A percent sign is accepted exactly ahead of two hexadecimal digits that stand for a harmless byte:
/// for no control character, slash, backslash, question mark, number sign, angle bracket or quote.
pub proof fn law_escapes_are_harmless(
    a: Seq<char>,
    x: char,
    y: char,
    b: Seq<char>,
    raw: &str,
    r: Option<String>,
)
    requires
        forall|i: int| 0 <= i < a.len() ==> is_unreserved(#[trigger] a[i]),
        forall|i: int| 0 <= i < b.len() ==> is_unreserved(#[trigger] b[i]),
        a.len() + b.len() >= 2,
        x != '/' && y != '/',
        raw@ == seq!['/'] + (a + (seq!['%', x, y] + b)),
        call_ensures(normalize_base_path, (raw,), r),
    ensures
        r is Some ==> r->0@ == raw@,
        r is Some <==> {
            let v = hex_digit(x) * 16 + hex_digit(y);
            &&& '0' <= x <= '9' || 'a' <= x <= 'f' || 'A' <= x <= 'F'
            &&& '0' <= y <= '9' || 'a' <= y <= 'f' || 'A' <= y <= 'F'
            &&& v >= 32 && v != 127
            &&& v != '/' as int && v != '\\' as int && v != '?' as int && v != '#' as int
            &&& v != '<' as int && v != '>' as int && v != '"' as int && v != '\'' as int
        },
{
    reveal_strlit(".");
    reveal_strlit("..");
    let tail = seq!['%', x, y] + b;
    let seg = a + tail;
    assert forall|i: int| 0 <= i < seg.len() implies #[trigger] seg[i] != '/' by {
        if i < a.len() {
            assert(seg[i] == a[i]);
        } else if i >= a.len() + 3 {
            assert(seg[i] == b[i - a.len() - 3]);
        }
    }
    lemma_one_segment(seg);
    lemma_decoded_behind(a, tail);
    let none = Seq::<char>::empty();
    lemma_decoded_behind(b, none);
    assert(b + none =~= b);
    assert(tail.subrange(3, tail.len() as int) =~= b);
    assert(tail[0] == '%' && tail[1] == x && tail[2] == y);
    assert(!is_unreserved('%'));
    if starts_with_escape(tail) {
        assert(decoded(tail) is Some);
        assert(decoded(b)->0.len() == b.len());
        assert(decoded(seg)->0.len() == a.len() + 1 + b.len());
    } else {
        assert(decoded(tail) is None);
    }
    assert(seg.len() > 2);
}

/// An escape does not hide a segment of dots: one or two dots are refused however they are written.
pub proof fn law_dots_cannot_hide(before: bool, behind: bool, raw: &str, y: char, r: Option<String>)
    requires
        !(before && behind),
        y == 'e' || y == 'E',
        raw@ == seq!['/'] + ((if before {
            seq!['.']
        } else {
            Seq::<char>::empty()
        }) + (seq!['%', '2', y] + (if behind {
            seq!['.']
        } else {
            Seq::<char>::empty()
        }))),
        call_ensures(normalize_base_path, (raw,), r),
    ensures
        r is None,
{
    let a: Seq<char> = if before {
        seq!['.']
    } else {
        Seq::empty()
    };
    let b: Seq<char> = if behind {
        seq!['.']
    } else {
        Seq::empty()
    };
    let tail = seq!['%', '2', y] + b;
    let seg = a + tail;
    lemma_one_segment(seg);
    lemma_decoded_behind(a, tail);
    let none = Seq::<char>::empty();
    lemma_decoded_behind(b, none);
    assert(b + none =~= b);
    assert(tail.subrange(3, tail.len() as int) =~= b);
    assert(tail[0] == '%' && tail[1] == '2' && tail[2] == y);
    assert(!is_unreserved('%'));
    assert(escaped_byte('2', y) == 46u8);
    assert(starts_with_escape(tail));
    assert(decoded(none) == Some(Seq::<u8>::empty()));
    let f = |c: char| c as u8;
    let d = decoded(seg)->0;
    assert(d == a.map_values(f) + (seq![46u8] + (b.map_values(f) + Seq::<u8>::empty())));
    assert(before ==> a.map_values(f) =~= seq![46u8]);
    assert(behind ==> b.map_values(f) =~= seq![46u8]);
    if before || behind {
        assert(d =~= seq![46u8, 46u8]);
    } else {
        assert(d =~= seq![46u8]);
    }
}

/// The prefix that a proxy tells of counts where it is one; else the configured one, else there is none.
pub proof fn law_told_prefix_counts(
    configured: &str,
    forwarded: Option<&str>,
    own: Option<String>,
    told: Option<String>,
    r: BasePath,
)
    requires
        call_ensures(normalize_base_path, (configured,), own),
        forwarded is Some ==> call_ensures(normalize_base_path, (forwarded->0,), told),
        forwarded is None ==> told is None,
        call_ensures(resolve_base_path, (configured, forwarded), r),
    ensures
        told is Some ==> r.0@ == told->0@,
        told is None && own is Some ==> r.0@ == own->0@,
        told is None && own is None ==> r.0@.len() == 0,
{
}

/// The address that the administrator set goes ahead of the configured one, and that ahead of the one
/// of the request; without any of them it is the own machine's, at the own port.
pub proof fn law_origin_is_the_first_known(
    set_by_admin: Option<&str>,
    external_url: Option<&str>,
    proto: Option<&str>,
    host: Option<&str>,
    port: u16,
    base_path: &str,
    r: ExternalOrigin,
)
    requires
        call_ensures(
            external_origin,
            (set_by_admin, external_url, proto, host, port, base_path),
            r,
        ),
    ensures
        set_by_admin is Some ==> r.0@ == trimmed_end_of(set_by_admin->0@, '/') + base_path@,
        set_by_admin is None && external_url is Some ==> r.0@ == trimmed_end_of(
            external_url->0@,
            '/',
        ) + base_path@,
        set_by_admin is None && external_url is None && host is Some && host->0@.len() > 0 && proto
            is Some ==> r.0@ == proto->0@ + "://"@ + host->0@ + base_path@,
        set_by_admin is None && external_url is None && host is Some && host->0@.len() > 0 && proto
            is None ==> r.0@ == "http"@ + "://"@ + host->0@ + base_path@,
        set_by_admin is None && external_url is None && (host is None || host->0@.len() == 0)
            ==> r.0@ == "http://localhost:"@ + decimal(port as nat) + base_path@,
{
}

/// A request is led on without its prefix and with its query, and only where it has the prefix.
pub proof fn law_request_is_led_on(
    path: &str,
    query: Option<&str>,
    base_path: &str,
    rest: Option<&str>,
    r: Option<String>,
)
    requires
        call_ensures(strip_base_path, (path, base_path), rest),
        call_ensures(rewritten_uri, (path, query, base_path), r),
    ensures
        r is Some <==> rest is Some,
        r is Some && query is None ==> r->0@ == rest->0@,
        r is Some && query is Some ==> r->0@ == rest->0@ + "?"@ + query->0@,
{
}

} // verus!
