//! Text as sequences of characters: what the rest of the library says about
//! strings, and the functions that compute it.
use vstd::prelude::*;
use vstd::string::*;
use vstd::utf8::{decode_utf8, encode_utf8, is_char_boundary};

verus! {

/// `String::push`: the character is added at the end.
pub assume_specification[ String::push ](s: &mut String, c: char)
    ensures
        final(s)@ == old(s)@.push(c),
;

/// `==` on two `str` values: equal exactly when they hold the same characters.
#[verifier::external_body]
pub(crate) fn same(a: &str, b: &str) -> (r: bool)
    ensures
        r == (a@ == b@),
{
    a == b
}

// ── Models ───────────────────────────────────────────────────────────────────

/// The texts that a sequence of strings holds.
pub open spec fn texts(v: Seq<String>) -> Seq<Seq<char>> {
    v.map_values(|s: String| s@)
}

/// What an optional string holds.
pub open spec fn opt_text(o: Option<String>) -> Option<Seq<char>> {
    match o {
        Some(s) => Some(s@),
        None => None,
    }
}

/// What an optional string slice holds.
pub open spec fn opt_str(o: Option<&str>) -> Option<Seq<char>> {
    match o {
        Some(s) => Some(s@),
        None => None,
    }
}

/// The characters with the Unicode property `White_Space`.
pub open spec fn is_white(c: char) -> bool {
    ||| 0x09 <= c as u32 <= 0x0d
    ||| c as u32 == 0x20
    ||| c as u32 == 0x85
    ||| c as u32 == 0xa0
    ||| c as u32 == 0x1680
    ||| 0x2000 <= c as u32 <= 0x200a
    ||| c as u32 == 0x2028
    ||| c as u32 == 0x2029
    ||| c as u32 == 0x202f
    ||| c as u32 == 0x205f
    ||| c as u32 == 0x3000
}

/// `s` without the longest prefix of characters that satisfy `p`.
pub open spec fn trim_start_by(s: Seq<char>, p: spec_fn(char) -> bool) -> Seq<char>
    decreases s.len(),
{
    if s.len() > 0 && p(s[0]) {
        trim_start_by(s.drop_first(), p)
    } else {
        s
    }
}

/// `s` without the longest suffix of characters that satisfy `p`.
pub open spec fn trim_end_by(s: Seq<char>, p: spec_fn(char) -> bool) -> Seq<char>
    decreases s.len(),
{
    if s.len() > 0 && p(s.last()) {
        trim_end_by(s.drop_last(), p)
    } else {
        s
    }
}

/// The predicate `is_white` as a function value.
pub open spec fn white() -> spec_fn(char) -> bool {
    |c: char| is_white(c)
}

/// The predicate of being one given character.
pub open spec fn being(d: char) -> spec_fn(char) -> bool {
    |c: char| c == d
}

/// `s` without white space at its start.
pub open spec fn trimmed_start(s: Seq<char>) -> Seq<char> {
    trim_start_by(s, white())
}

/// `s` without white space at both ends.
pub open spec fn trimmed(s: Seq<char>) -> Seq<char> {
    trim_end_by(trim_start_by(s, white()), white())
}

/// Whether `s` holds white space only.
pub open spec fn blank(s: Seq<char>) -> bool {
    forall|i: int| 0 <= i < s.len() ==> is_white(#[trigger] s[i])
}

/// `s` without the characters `d` at its end.
pub open spec fn trimmed_end_of(s: Seq<char>, d: char) -> Seq<char> {
    trim_end_by(s, being(d))
}

/// Whether `pat` stands in `s` at place `i`.
pub open spec fn occurs(s: Seq<char>, pat: Seq<char>, i: int) -> bool {
    &&& 0 <= i
    &&& i + pat.len() <= s.len()
    &&& s.subrange(i, i + pat.len()) == pat
}

/// Whether `pat` stands anywhere in `s`.
pub open spec fn occurs_in(s: Seq<char>, pat: Seq<char>) -> bool {
    exists|i: int| occurs(s, pat, i)
}

/// The first place at or after `from` where `pat` stands in `s`.
pub open spec fn find_from(s: Seq<char>, pat: Seq<char>, from: int) -> Option<int>
    decreases s.len() - from + 1,
{
    if from < 0 || from + pat.len() > s.len() {
        None
    } else if occurs(s, pat, from) {
        Some(from)
    } else {
        find_from(s, pat, from + 1)
    }
}

/// The part of `s` ahead of the first `pat`, or all of it where there is none.
pub open spec fn ahead_of(s: Seq<char>, pat: Seq<char>) -> Seq<char> {
    match find_from(s, pat, 0) {
        Some(i) => s.subrange(0, i),
        None => s,
    }
}

/// The last place where `c` stands in `s`.
pub open spec fn last_place(s: Seq<char>, c: char) -> Option<int>
    decreases s.len(),
{
    if s.len() == 0 {
        None
    } else if s.last() == c {
        Some(s.len() - 1)
    } else {
        last_place(s.drop_last(), c)
    }
}

/// Whether each character of `s` satisfies `p`.
pub open spec fn all_chars(s: Seq<char>, p: spec_fn(char) -> bool) -> bool {
    forall|i: int| 0 <= i < s.len() ==> p(#[trigger] s[i])
}

/// Whether some character of `s` satisfies `p`.
pub open spec fn any_char(s: Seq<char>, p: spec_fn(char) -> bool) -> bool {
    exists|i: int| 0 <= i < s.len() && p(#[trigger] s[i])
}

/// The decimal digits.
pub open spec fn is_digit(c: char) -> bool {
    '0' <= c <= '9'
}

/// The ASCII letters and digits.
pub open spec fn is_alnum(c: char) -> bool {
    is_digit(c) || 'a' <= c <= 'z' || 'A' <= c <= 'Z'
}

/// The hexadecimal digits.
pub open spec fn is_hex(c: char) -> bool {
    is_digit(c) || 'a' <= c <= 'f' || 'A' <= c <= 'F'
}

/// The pieces of `s` between the characters `d`.
pub open spec fn pieces(s: Seq<char>, d: char) -> Seq<Seq<char>>
    decreases s.len(),
{
    if s.len() == 0 {
        seq![Seq::<char>::empty()]
    } else {
        let before = pieces(s.drop_last(), d);
        if s.last() == d {
            before.push(Seq::<char>::empty())
        } else {
            before.drop_last().push(before.last().push(s.last()))
        }
    }
}

/// A terminated line without the carriage return that may end it.
pub open spec fn without_return(s: Seq<char>) -> Seq<char> {
    if s.len() > 0 && s.last() == '\r' {
        s.drop_last()
    } else {
        s
    }
}

/// The lines of `s`: a line ends with `\n` or `\r\n`, and the last one need not.
pub open spec fn lines_of(s: Seq<char>) -> Seq<Seq<char>> {
    let p = pieces(s, '\n');
    let ended = p.drop_last().map_values(|l: Seq<char>| without_return(l));
    if p.last().len() == 0 {
        ended
    } else {
        ended.push(p.last())
    }
}

/// The texts `parts` one after another, with `sep` between neighbours.
pub open spec fn joined(parts: Seq<Seq<char>>, sep: Seq<char>) -> Seq<char>
    decreases parts.len(),
{
    if parts.len() == 0 {
        Seq::empty()
    } else if parts.len() == 1 {
        parts[0]
    } else {
        joined(parts.drop_last(), sep) + sep + parts.last()
    }
}

/// An ASCII capital letter as its small letter, any other character as it is.
pub open spec fn lower_char(c: char) -> char {
    if 'A' <= c <= 'Z' {
        ((c as u32 + 32) as u8) as char
    } else {
        c
    }
}

/// `s` with each ASCII capital letter as its small letter.
pub open spec fn lowered(s: Seq<char>) -> Seq<char> {
    s.map_values(|c: char| lower_char(c))
}

/// What stands for `c` when `from` is replaced by `to`.
pub open spec fn swapped(c: char, from: char, to: Seq<char>) -> Seq<char> {
    if c == from {
        to
    } else {
        seq![c]
    }
}

/// `s` with `to` in the place of each `from`.
pub open spec fn replaced(s: Seq<char>, from: char, to: Seq<char>) -> Seq<char> {
    s.flat_map(|c: char| swapped(c, from, to))
}

/// `s` with `to` in the place of each occurrence of `pat`, taken from the left
/// without overlap; `pat` is not empty.
pub open spec fn replaced_text(s: Seq<char>, pat: Seq<char>, to: Seq<char>) -> Seq<char>
    decreases s.len(),
{
    match find_from(s, pat, 0) {
        Some(i) if pat.len() > 0 && 0 <= i && i + pat.len() <= s.len() => s.subrange(0, i) + to
            + replaced_text(s.subrange(i + pat.len(), s.len() as int), pat, to),
        _ => s,
    }
}

/// The decimal digit `d`.
pub open spec fn digit(d: nat) -> char {
    ((48 + d) as u8) as char
}

/// `n` in decimal, without leading zeros.
pub open spec fn decimal(n: nat) -> Seq<char>
    decreases n,
{
    if n < 10 {
        seq![digit(n)]
    } else {
        decimal(n / 10).push(digit(n % 10))
    }
}

/// `i` in decimal, with a minus sign where it is negative.
pub open spec fn decimal_int(i: int) -> Seq<char> {
    if i < 0 {
        seq!['-'] + decimal((-i) as nat)
    } else {
        decimal(i as nat)
    }
}

/// The number that digits stand for.
pub open spec fn value_of(s: Seq<char>) -> int
    decreases s.len(),
{
    if s.len() == 0 {
        0
    } else {
        value_of(s.drop_last()) * 10 + (s.last() as int - '0' as int)
    }
}

/// The digits of a number that may have a sign.
pub open spec fn unsigned(s: Seq<char>) -> Seq<char> {
    if s.len() > 0 && (s[0] == '+' || s[0] == '-') {
        s.drop_first()
    } else {
        s
    }
}

/// The number that a text stands for, where that is one of 64 bits that is not
/// negative.
pub open spec fn natural(s: Seq<char>) -> Option<int> {
    let d = unsigned(s);
    if d.len() > 0 && all_chars(d, |c: char| is_digit(c)) && value_of(d) <= i64::MAX && (s[0] == '-'
        ==> value_of(d) == 0) {
        Some(value_of(d))
    } else {
        None
    }
}

/// Whether `a` comes before `b` in the order of their first difference.
pub open spec fn before(a: Seq<char>, b: Seq<char>) -> bool
    decreases a.len(),
{
    if b.len() == 0 {
        false
    } else if a.len() == 0 {
        true
    } else if a[0] == b[0] {
        before(a.drop_first(), b.drop_first())
    } else {
        a[0] < b[0]
    }
}

/// The number of bytes of `s` in UTF-8.
pub open spec fn byte_len(s: Seq<char>) -> nat {
    encode_utf8(s).len()
}

/// Whether `s` can be cut after `k` bytes.
pub open spec fn cuts_at(s: Seq<char>, k: int) -> bool {
    0 <= k <= encode_utf8(s).len() && is_char_boundary(encode_utf8(s), k)
}

/// The first `k` bytes of `s`.
pub open spec fn first_bytes(s: Seq<char>, k: int) -> Seq<char> {
    decode_utf8(encode_utf8(s).subrange(0, k))
}

// ── Lemmas ───────────────────────────────────────────────────────────────────

/// Trimming at the start leaves the part from the first character that stays.
pub proof fn lemma_trim_start(s: Seq<char>, p: spec_fn(char) -> bool, i: int)
    requires
        0 <= i <= s.len(),
        forall|j: int| 0 <= j < i ==> p(#[trigger] s[j]),
        i < s.len() ==> !p(s[i]),
    ensures
        trim_start_by(s, p) == s.subrange(i, s.len() as int),
    decreases i,
{
    if i == 0 {
        assert(s.subrange(0, s.len() as int) =~= s);
    } else {
        assert(p(s[0]));
        lemma_trim_start(s.drop_first(), p, i - 1);
        assert(s.drop_first().subrange(i - 1, s.len() - 1) =~= s.subrange(i, s.len() as int));
    }
}

/// Trimming at the end leaves the part up to the last character that stays.
pub proof fn lemma_trim_end(s: Seq<char>, p: spec_fn(char) -> bool, i: int)
    requires
        0 <= i <= s.len(),
        forall|j: int| i <= j < s.len() ==> p(#[trigger] s[j]),
        i > 0 ==> !p(s[i - 1]),
    ensures
        trim_end_by(s, p) == s.subrange(0, i),
    decreases s.len(),
{
    if i == s.len() {
        assert(s.subrange(0, i) =~= s);
    } else {
        assert(p(s.last()));
        lemma_trim_end(s.drop_last(), p, i);
        assert(s.drop_last().subrange(0, i) =~= s.subrange(0, i));
    }
}

/// What trimming leaves starts with a character that stays, and what it takes
/// away holds none.
pub proof fn lemma_trim_start_shape(s: Seq<char>, p: spec_fn(char) -> bool)
    ensures
        ({
            let t = trim_start_by(s, p);
            &&& t.len() <= s.len()
            &&& t == s.subrange(s.len() - t.len(), s.len() as int)
            &&& t.len() > 0 ==> !p(t[0])
            &&& forall|j: int| 0 <= j < s.len() - t.len() ==> p(#[trigger] s[j])
        }),
    decreases s.len(),
{
    if s.len() > 0 && p(s[0]) {
        lemma_trim_start_shape(s.drop_first(), p);
        let t = trim_start_by(s.drop_first(), p);
        assert(t =~= s.subrange(s.len() - t.len(), s.len() as int));
        assert forall|j: int| 0 <= j < s.len() - t.len() implies p(#[trigger] s[j]) by {
            if j > 0 {
                assert(s[j] == s.drop_first()[j - 1]);
            }
        }
    } else {
        assert(s.subrange(0, s.len() as int) =~= s);
    }
}

/// What trimming leaves ends with a character that stays, and what it takes
/// away holds none.
pub proof fn lemma_trim_end_shape(s: Seq<char>, p: spec_fn(char) -> bool)
    ensures
        ({
            let t = trim_end_by(s, p);
            &&& t.len() <= s.len()
            &&& t == s.subrange(0, t.len() as int)
            &&& t.len() > 0 ==> !p(t.last())
            &&& forall|j: int| t.len() <= j < s.len() ==> p(#[trigger] s[j])
        }),
    decreases s.len(),
{
    if s.len() > 0 && p(s.last()) {
        lemma_trim_end_shape(s.drop_last(), p);
        let t = trim_end_by(s.drop_last(), p);
        assert(t =~= s.subrange(0, t.len() as int));
        assert forall|j: int| t.len() <= j < s.len() implies p(#[trigger] s[j]) by {
            if j < s.len() - 1 {
                assert(s[j] == s.drop_last()[j]);
            }
        }
    } else {
        assert(s.subrange(0, s.len() as int) =~= s);
    }
}

/// The trimmed text is empty exactly where the text holds white space only.
pub proof fn lemma_blank(s: Seq<char>)
    ensures
        blank(s) <==> trimmed(s).len() == 0,
{
    lemma_trim_start_shape(s, white());
    let t = trim_start_by(s, white());
    lemma_trim_end_shape(t, white());
    if t.len() > 0 {
        assert(t[0] == s[s.len() - t.len()]);
        assert(!white()(t[0]));
        assert(!is_white(s[s.len() - t.len()]));
        if trimmed(s).len() == 0 {
            assert(white()(t[0]));
        }
    } else {
        assert forall|i: int| 0 <= i < s.len() implies is_white(#[trigger] s[i]) by {
            assert(white()(s[i]));
        }
    }
}

/// Trimming a trimmed text changes nothing.
pub proof fn lemma_trimmed_twice(s: Seq<char>)
    ensures
        trimmed(trimmed(s)) == trimmed(s),
        trimmed_start(trimmed(s)) == trimmed(s),
{
    let w = white();
    let t = trim_start_by(s, w);
    let u = trim_end_by(t, w);
    lemma_trim_start_shape(s, w);
    lemma_trim_end_shape(t, w);
    if u.len() > 0 {
        assert(u[0] == t[0]);
        lemma_trim_start(u, w, 0);
        lemma_trim_end(u, w, u.len() as int);
        assert(u.subrange(0, u.len() as int) =~= u);
    }
}

/// A text that starts and ends with a character that is no white space, or is
/// empty, is its own trimmed form.
pub proof fn lemma_trimmed_same(s: Seq<char>)
    requires
        s.len() > 0 ==> !is_white(s[0]) && !is_white(s.last()),
    ensures
        trimmed(s) == s,
        trimmed_start(s) == s,
{
    if s.len() > 0 {
        lemma_trim_start(s, white(), 0);
        lemma_trim_end(s, white(), s.len() as int);
        assert(s.subrange(0, s.len() as int) =~= s);
    }
}

/// What `find_from` says of a place: nothing stands before it, and the text
/// stands at it.
pub proof fn lemma_find_from(s: Seq<char>, pat: Seq<char>, from: int)
    requires
        0 <= from,
    ensures
        match find_from(s, pat, from) {
            Some(i) => from <= i && occurs(s, pat, i) && (forall|j: int|
                from <= j < i ==> !occurs(s, pat, j)),
            None => forall|j: int| from <= j ==> !occurs(s, pat, j),
        },
    decreases s.len() - from + 1,
{
    if from + pat.len() > s.len() {
    } else if occurs(s, pat, from) {
    } else {
        lemma_find_from(s, pat, from + 1);
        assert forall|j: int| from <= j && (find_from(s, pat, from) matches Some(i) ==> j < i) implies !occurs(s, pat, j) by {
            if j == from {
            } else {
                assert(from + 1 <= j);
            }
        }
    }
}

/// Searching finds the place of an occurrence that has none before it.
pub proof fn lemma_find_at(s: Seq<char>, pat: Seq<char>, from: int, i: int)
    requires
        0 <= from <= i,
        occurs(s, pat, i),
        forall|j: int| from <= j < i ==> !occurs(s, pat, j),
    ensures
        find_from(s, pat, from) == Some(i),
{
    lemma_find_from(s, pat, from);
}

/// Searching finds nothing where nothing stands.
pub proof fn lemma_find_none(s: Seq<char>, pat: Seq<char>, from: int)
    requires
        0 <= from,
        forall|j: int| from <= j ==> !occurs(s, pat, j),
    ensures
        find_from(s, pat, from) == None::<int>,
{
    lemma_find_from(s, pat, from);
}

/// The last place of a character is where it stands with none after it.
pub proof fn lemma_last_place(s: Seq<char>, c: char, i: int)
    requires
        0 <= i < s.len(),
        s[i] == c,
        forall|j: int| i < j < s.len() ==> #[trigger] s[j] != c,
    ensures
        last_place(s, c) == Some(i),
    decreases s.len(),
{
    if i < s.len() - 1 {
        assert(s[s.len() - 1] != c);
        assert forall|j: int| i < j < s.drop_last().len() implies #[trigger] s.drop_last()[j]
            != c by {
            assert(s.drop_last()[j] == s[j]);
        }
        lemma_last_place(s.drop_last(), c, i);
    }
}

/// What `last_place` says of a place.
pub proof fn lemma_last_place_shape(s: Seq<char>, c: char)
    ensures
        match last_place(s, c) {
            Some(i) => 0 <= i < s.len() && s[i] == c && (forall|j: int|
                i < j < s.len() ==> #[trigger] s[j] != c),
            None => forall|j: int| 0 <= j < s.len() ==> #[trigger] s[j] != c,
        },
    decreases s.len(),
{
    if s.len() > 0 && s.last() != c {
        lemma_last_place_shape(s.drop_last(), c);
        assert forall|j: int|
            0 <= j < s.len() && (last_place(s, c) matches Some(i) ==> i < j) implies #[trigger] s[j]
            != c by {
            if j < s.len() - 1 {
                assert(s.drop_last()[j] == s[j]);
            }
        }
    }
}

/// The trimmed text is no longer than the text, and is the text itself where it
/// is as long.
pub proof fn lemma_trimmed_len(s: Seq<char>)
    ensures
        trimmed(s).len() <= s.len(),
        trimmed(s).len() == s.len() ==> trimmed(s) == s,
{
    lemma_trim_start_shape(s, white());
    let t = trim_start_by(s, white());
    lemma_trim_end_shape(t, white());
    assert(t.len() == s.len() ==> t =~= s);
    assert(trimmed(s).len() == t.len() ==> trimmed(s) =~= t);
}

/// A text that is its own trimmed form starts and ends with no white space.
pub proof fn lemma_trimmed_ends(s: Seq<char>)
    requires
        trimmed(s) == s,
        s.len() > 0,
    ensures
        !is_white(s[0]),
        !is_white(s.last()),
{
    let w = white();
    lemma_trim_start_shape(s, w);
    let t = trim_start_by(s, w);
    lemma_trim_end_shape(t, w);
    assert(t.len() == s.len());
    assert(t =~= s);
    assert(!w(t[0]));
    assert(!w(s.last()));
}

/// There is always at least one piece.
pub proof fn lemma_pieces_some(s: Seq<char>, d: char)
    ensures
        pieces(s, d).len() >= 1,
    decreases s.len(),
{
    if s.len() > 0 {
        lemma_pieces_some(s.drop_last(), d);
    }
}

/// No piece holds the character that separates the pieces.
pub proof fn lemma_pieces_free(s: Seq<char>, d: char)
    ensures
        forall|i: int, j: int|
            0 <= i < pieces(s, d).len() && 0 <= j < pieces(s, d)[i].len() ==> pieces(s, d)[i][j]
                != d,
    decreases s.len(),
{
    lemma_pieces_some(s, d);
    if s.len() > 0 {
        lemma_pieces_some(s.drop_last(), d);
        lemma_pieces_free(s.drop_last(), d);
    }
}

/// The pieces joined by the character that separates them are the text again.
pub proof fn lemma_pieces_joined(s: Seq<char>, d: char)
    ensures
        joined(pieces(s, d), seq![d]) == s,
    decreases s.len(),
{
    if s.len() > 0 {
        let b = pieces(s.drop_last(), d);
        lemma_pieces_some(s.drop_last(), d);
        lemma_pieces_joined(s.drop_last(), d);
        if s.last() == d {
            let p = b.push(Seq::<char>::empty());
            assert(p.drop_last() =~= b);
            assert(joined(p, seq![d]) =~= joined(b, seq![d]) + seq![d] + Seq::<char>::empty());
            assert(joined(p, seq![d]) =~= s);
        } else {
            let p = b.drop_last().push(b.last().push(s.last()));
            if b.len() == 1 {
                assert(p.len() == 1);
                assert(p[0] =~= s);
            } else {
                assert(p.drop_last() =~= b.drop_last());
                assert(joined(b, seq![d]) == joined(b.drop_last(), seq![d]) + seq![d] + b.last());
                assert(joined(p, seq![d]) =~= s.drop_last().push(s.last()));
                assert(s.drop_last().push(s.last()) =~= s);
            }
        }
    } else {
        assert(joined(pieces(s, d), seq![d]) =~= s);
    }
}

/// Joining one more text.
pub proof fn lemma_joined_push(parts: Seq<Seq<char>>, sep: Seq<char>, x: Seq<char>)
    ensures
        joined(parts.push(x), sep) == if parts.len() == 0 {
            x
        } else {
            joined(parts, sep) + sep + x
        },
{
    if parts.len() > 0 {
        assert(parts.push(x).drop_last() =~= parts);
    }
}

/// The value of digits is not negative.
pub proof fn lemma_value_of(s: Seq<char>)
    requires
        all_chars(s, |c: char| is_digit(c)),
    ensures
        0 <= value_of(s),
    decreases s.len(),
{
    if s.len() > 0 {
        assert(is_digit(s[s.len() - 1]));
        assert forall|i: int| 0 <= i < s.drop_last().len() implies is_digit(
            #[trigger] s.drop_last()[i],
        ) by {
            assert(is_digit(s[i]));
        }
        lemma_value_of(s.drop_last());
    }
}

/// The number that a text stands for is one of 64 bits that is not negative.
pub proof fn lemma_natural(s: Seq<char>)
    requires
        natural(s) is Some,
    ensures
        0 <= natural(s)->Some_0 <= i64::MAX,
{
    lemma_value_of(unsigned(s));
}

/// A text comes never before itself.
pub proof fn lemma_before_irreflexive(a: Seq<char>)
    ensures
        !before(a, a),
    decreases a.len(),
{
    if a.len() > 0 {
        lemma_before_irreflexive(a.drop_first());
    }
}

/// Of two different texts one comes before the other.
pub proof fn lemma_before_total(a: Seq<char>, b: Seq<char>)
    ensures
        a == b || before(a, b) || before(b, a),
    decreases a.len(),
{
    if a.len() > 0 && b.len() > 0 {
        if a[0] == b[0] {
            lemma_before_total(a.drop_first(), b.drop_first());
            if a.drop_first() == b.drop_first() {
                assert(a =~= seq![a[0]] + a.drop_first());
                assert(b =~= seq![b[0]] + b.drop_first());
            }
        }
    } else if a.len() == 0 && b.len() == 0 {
        assert(a =~= b);
    }
}

/// The order of texts is transitive.
pub proof fn lemma_before_transitive(a: Seq<char>, b: Seq<char>, c: Seq<char>)
    requires
        before(a, b),
        before(b, c),
    ensures
        before(a, c),
    decreases a.len(),
{
    if a.len() > 0 {
        if a[0] == b[0] && b[0] == c[0] {
            lemma_before_transitive(a.drop_first(), b.drop_first(), c.drop_first());
        }
    }
}

/// Of two texts at most one comes before the other.
pub proof fn lemma_before_asymmetric(a: Seq<char>, b: Seq<char>)
    requires
        before(a, b),
    ensures
        !before(b, a),
{
    if before(b, a) {
        lemma_before_transitive(a, b, a);
        lemma_before_irreflexive(a);
    }
}

/// What is replaced in a text is replaced in its first character and in the rest.
pub proof fn lemma_replaced_first(s: Seq<char>, from: char, to: Seq<char>)
    requires
        s.len() > 0,
    ensures
        replaced(s, from, to) == swapped(s[0], from, to) + replaced(s.drop_first(), from, to),
{
    let f = |c: char| swapped(c, from, to);
    assert(s.map_values(f).drop_first() =~= s.drop_first().map_values(f));
    assert(s.map_values(f).first() == swapped(s[0], from, to));
}

/// What is replaced in two texts is replaced in one after the other.
pub proof fn lemma_replaced_concat(a: Seq<char>, b: Seq<char>, from: char, to: Seq<char>)
    ensures
        replaced(a + b, from, to) == replaced(a, from, to) + replaced(b, from, to),
    decreases a.len(),
{
    if a.len() == 0 {
        lemma_replaced_none(a, from, to);
        assert(a + b =~= b);
        assert(replaced(a, from, to) + replaced(b, from, to) =~= replaced(b, from, to));
    } else {
        lemma_replaced_first(a, from, to);
        lemma_replaced_first(a + b, from, to);
        lemma_replaced_concat(a.drop_first(), b, from, to);
        assert((a + b).drop_first() =~= a.drop_first() + b);
        assert(replaced(a + b, from, to) =~= replaced(a, from, to) + replaced(b, from, to));
    }
}

/// Where there is nothing to replace, a text stays as it is.
pub proof fn lemma_replaced_none(s: Seq<char>, from: char, to: Seq<char>)
    requires
        forall|i: int| 0 <= i < s.len() ==> #[trigger] s[i] != from,
    ensures
        replaced(s, from, to) == s,
    decreases s.len(),
{
    if s.len() == 0 {
        let f = |c: char| swapped(c, from, to);
        assert(s.map_values(f) =~= Seq::<Seq<char>>::empty());
        assert(replaced(s, from, to) =~= s);
    } else {
        lemma_replaced_first(s, from, to);
        let t = s.drop_first();
        assert forall|i: int| 0 <= i < t.len() implies #[trigger] t[i] != from by {
            assert(t[i] == s[i + 1]);
        }
        lemma_replaced_none(t, from, to);
        assert(seq![s[0]] + t =~= s);
    }
}

/// What is replaced in a text of one character.
pub proof fn lemma_replaced_one(c: char, from: char, to: Seq<char>)
    ensures
        replaced(seq![c], from, to) == swapped(c, from, to),
{
    lemma_replaced_first(seq![c], from, to);
    let none = seq![c].drop_first();
    lemma_replaced_none(none, from, to);
    assert(swapped(c, from, to) + none =~= swapped(c, from, to));
}

// ── Functions ────────────────────────────────────────────────────────────────

/// The characters of `s`.
pub fn chars_of(s: &str) -> (v: Vec<char>)
    ensures
        v@ == s@,
{
    let mut v: Vec<char> = Vec::new();
    for c in it: s.chars()
        invariant
            v@ == it.seq().take(it.index() as int),
            it.seq() == s@,
    {
        v.push(c);
    }
    v
}

/// The characters of `v` from `from` up to `to` as a string.
pub fn string_of(v: &Vec<char>, from: usize, to: usize) -> (s: String)
    requires
        from <= to <= v@.len(),
    ensures
        s@ == v@.subrange(from as int, to as int),
{
    let mut s = String::new();
    let mut i: usize = from;
    while i < to
        invariant
            from <= i <= to <= v@.len(),
            s@ == v@.subrange(from as int, i as int),
        decreases to - i,
    {
        s.push(v[i]);
        i += 1;
        assert(v@.subrange(from as int, i as int) =~= v@.subrange(from as int, i - 1).push(
            v@[i - 1],
        ));
    }
    s
}

/// Whether `c` is white space.
pub fn char_is_white(c: char) -> (r: bool)
    ensures
        r == is_white(c),
{
    let u: u32 = c as u32;
    (0x09 <= u && u <= 0x0d) || u == 0x20 || u == 0x85 || u == 0xa0 || u == 0x1680 || (0x2000 <= u
        && u <= 0x200a) || u == 0x2028 || u == 0x2029 || u == 0x202f || u == 0x205f || u == 0x3000
}

/// `s` without white space at its start.
pub fn trim_start(s: &str) -> (r: &str)
    ensures
        r@ == trimmed_start(s@),
{
    let v = chars_of(s);
    let mut i: usize = 0;
    while i < v.len() && char_is_white(v[i])
        invariant
            i <= v@.len(),
            v@ == s@,
            forall|j: int| 0 <= j < i ==> is_white(#[trigger] v@[j]),
        decreases v@.len() - i,
    {
        i += 1;
    }
    proof {
        lemma_trim_start(s@, white(), i as int);
    }
    s.substring_char(i, v.len())
}

/// `s` without white space at both ends.
pub fn trim(s: &str) -> (r: &str)
    ensures
        r@ == trimmed(s@),
{
    let v = chars_of(s);
    let mut i: usize = 0;
    while i < v.len() && char_is_white(v[i])
        invariant
            i <= v@.len(),
            v@ == s@,
            forall|j: int| 0 <= j < i ==> is_white(#[trigger] v@[j]),
        decreases v@.len() - i,
    {
        i += 1;
    }
    let mut k: usize = v.len();
    while k > i && char_is_white(v[k - 1])
        invariant
            i <= k <= v@.len(),
            forall|j: int| k <= j < v@.len() ==> is_white(#[trigger] v@[j]),
        decreases k,
    {
        k -= 1;
    }
    proof {
        let t = s@.subrange(i as int, s@.len() as int);
        lemma_trim_start(s@, white(), i as int);
        assert forall|j: int| k - i <= j < t.len() implies white()(#[trigger] t[j]) by {
            assert(t[j] == v@[j + i]);
        }
        if k > i {
            assert(t[k - i - 1] == v@[k - 1]);
        }
        lemma_trim_end(t, white(), k - i);
        assert(t.subrange(0, k - i) =~= s@.subrange(i as int, k as int));
    }
    s.substring_char(i, k)
}

/// Whether `s` holds white space only.
pub fn is_blank(s: &str) -> (r: bool)
    ensures
        r == blank(s@),
{
    proof {
        lemma_blank(s@);
    }
    trim(s).is_empty()
}

/// `s` without the characters `d` at its end.
pub fn trim_end_of(s: &str, d: char) -> (r: &str)
    ensures
        r@ == trimmed_end_of(s@, d),
{
    let v = chars_of(s);
    let mut k: usize = v.len();
    while k > 0 && v[k - 1] == d
        invariant
            k <= v@.len(),
            v@ == s@,
            forall|j: int| k <= j < v@.len() ==> #[trigger] v@[j] == d,
        decreases k,
    {
        k -= 1;
    }
    proof {
        lemma_trim_end(s@, being(d), k as int);
    }
    s.substring_char(0, k)
}

/// Whether the characters `p` stand in `v` at place `i`.
pub fn stands_at(v: &Vec<char>, p: &Vec<char>, i: usize) -> (r: bool)
    requires
        i <= v@.len(),
    ensures
        r == occurs(v@, p@, i as int),
{
    let n: usize = v.len();
    if p.len() > n - i {
        return false;
    }
    let mut k: usize = 0;
    while k < p.len()
        invariant
            k <= p@.len(),
            n == v@.len(),
            i + p@.len() <= v@.len(),
            forall|j: int| 0 <= j < k ==> v@[i + j] == #[trigger] p@[j],
        decreases p@.len() - k,
    {
        if v[i + k] != p[k] {
            proof {
                assert(v@.subrange(i as int, i + p@.len())[k as int] != p@[k as int]);
            }
            return false;
        }
        k += 1;
    }
    proof {
        assert(v@.subrange(i as int, i + p@.len()) =~= p@);
    }
    true
}

/// Whether `s` starts with `p`.
pub fn starts_with(s: &str, p: &str) -> (r: bool)
    ensures
        r == p@.is_prefix_of(s@),
{
    let v = chars_of(s);
    let w = chars_of(p);
    stands_at(&v, &w, 0)
}

/// Whether `s` ends with `p`.
pub fn ends_with(s: &str, p: &str) -> (r: bool)
    ensures
        r == p@.is_suffix_of(s@),
{
    let v = chars_of(s);
    let w = chars_of(p);
    if w.len() > v.len() {
        return false;
    }
    stands_at(&v, &w, v.len() - w.len())
}

/// What follows `p` in `s`, where `s` starts with `p`.
pub fn strip_prefix<'a>(s: &'a str, p: &str) -> (r: Option<&'a str>)
    ensures
        opt_str(r) == if p@.is_prefix_of(s@) {
            Some(s@.subrange(p@.len() as int, s@.len() as int))
        } else {
            None
        },
{
    if starts_with(s, p) {
        Some(s.substring_char(p.unicode_len(), s.unicode_len()))
    } else {
        None
    }
}

/// What precedes `p` in `s`, where `s` ends with `p`.
pub fn strip_suffix<'a>(s: &'a str, p: &str) -> (r: Option<&'a str>)
    ensures
        opt_str(r) == if p@.is_suffix_of(s@) {
            Some(s@.subrange(0, s@.len() - p@.len()))
        } else {
            None
        },
{
    if ends_with(s, p) {
        Some(s.substring_char(0, s.unicode_len() - p.unicode_len()))
    } else {
        None
    }
}

/// The number of bytes of `s`.
pub fn byte_count(s: &str) -> (r: usize)
    ensures
        r == byte_len(s@),
{
    s.as_bytes().len()
}

/// The first `k` bytes of `s`.
pub fn head_bytes(s: &str, k: usize) -> (r: &str)
    requires
        cuts_at(s@, k as int),
    ensures
        r@ == first_bytes(s@, k as int),
{
    let parts = s.split_at(k);
    proof {
        vstd::utf8::encode_utf8_decode_utf8(parts.0@);
    }
    parts.0
}

/// The first place at or after `from` where `p` stands in `v`.
pub fn find_chars(v: &Vec<char>, p: &Vec<char>, from: usize) -> (r: Option<usize>)
    requires
        from <= v@.len(),
    ensures
        match r {
            Some(i) => find_from(v@, p@, from as int) == Some(i as int),
            None => find_from(v@, p@, from as int) == None::<int>,
        },
        r matches Some(i) ==> occurs(v@, p@, i as int) && from <= i,
{
    let mut i: usize = from;
    while i < v.len()
        invariant
            from <= i <= v@.len(),
            forall|j: int| from <= j < i ==> !occurs(v@, p@, j),
        decreases v@.len() - i,
    {
        if stands_at(v, p, i) {
            proof {
                lemma_find_at(v@, p@, from as int, i as int);
            }
            return Some(i);
        }
        i += 1;
    }
    if stands_at(v, p, i) {
        proof {
            lemma_find_at(v@, p@, from as int, i as int);
        }
        return Some(i);
    }
    proof {
        lemma_find_none(v@, p@, from as int);
    }
    None
}

/// The first place where `p` stands in `s`, counted in characters.
pub fn find(s: &str, p: &str) -> (r: Option<usize>)
    ensures
        match r {
            Some(i) => find_from(s@, p@, 0) == Some(i as int) && occurs(s@, p@, i as int),
            None => find_from(s@, p@, 0) == None::<int>,
        },
{
    let v = chars_of(s);
    let w = chars_of(p);
    find_chars(&v, &w, 0)
}

/// Whether `p` stands anywhere in `s`.
pub fn contains(s: &str, p: &str) -> (r: bool)
    ensures
        r == occurs_in(s@, p@),
{
    let f = find(s, p);
    proof {
        lemma_find_from(s@, p@, 0);
        if f is None && occurs_in(s@, p@) {
            let i = choose|i: int| occurs(s@, p@, i);
            assert(0 <= i);
        }
    }
    f.is_some()
}

/// What precedes and what follows the first `p` in `s`.
pub fn split_once<'a>(s: &'a str, p: &str) -> (r: Option<(&'a str, &'a str)>)
    ensures
        match r {
            Some(t) => find_from(s@, p@, 0) matches Some(i) && t.0@ == s@.subrange(0, i) && t.1@
                == s@.subrange(i + p@.len(), s@.len() as int),
            None => find_from(s@, p@, 0) == None::<int>,
        },
{
    match find(s, p) {
        Some(i) => {
            let n: usize = s.unicode_len();
            let m: usize = p.unicode_len();
            Some((s.substring_char(0, i), s.substring_char(i + m, n)))
        },
        None => None,
    }
}

/// The part of `s` ahead of the first `p`, or all of it where there is none.
pub fn before_text<'a>(s: &'a str, p: &str) -> (r: &'a str)
    ensures
        r@ == ahead_of(s@, p@),
{
    match find(s, p) {
        Some(i) => s.substring_char(0, i),
        None => s,
    }
}

/// Whether `c` is a decimal digit.
pub fn char_is_digit(c: char) -> (r: bool)
    ensures
        r == is_digit(c),
{
    '0' <= c && c <= '9'
}

/// Whether `c` is an ASCII letter or digit.
pub fn char_is_alnum(c: char) -> (r: bool)
    ensures
        r == is_alnum(c),
{
    char_is_digit(c) || ('a' <= c && c <= 'z') || ('A' <= c && c <= 'Z')
}

/// Whether `c` is a hexadecimal digit.
pub fn char_is_hex(c: char) -> (r: bool)
    ensures
        r == is_hex(c),
{
    char_is_digit(c) || ('a' <= c && c <= 'f') || ('A' <= c && c <= 'F')
}

/// Whether the characters of `v` from `from` on are hexadecimal digits.
pub fn all_hex(v: &Vec<char>, from: usize) -> (r: bool)
    ensures
        r == forall|i: int| from <= i < v@.len() ==> is_hex(#[trigger] v@[i]),
{
    let mut i: usize = from;
    while i < v.len()
        invariant
            from <= i,
            from <= v@.len() ==> i <= v@.len(),
            forall|j: int| from <= j < i ==> is_hex(#[trigger] v@[j]),
        decreases v@.len() - i,
    {
        if !char_is_hex(v[i]) {
            return false;
        }
        i += 1;
    }
    true
}

/// The last place where `d` stands in `s`, counted in characters.
pub fn find_last(s: &str, d: char) -> (r: Option<usize>)
    ensures
        match r {
            Some(i) => last_place(s@, d) == Some(i as int) && i < s@.len(),
            None => last_place(s@, d) == None::<int>,
        },
{
    let v = chars_of(s);
    let mut k: usize = v.len();
    proof {
        assert(s@.subrange(0, s@.len() as int) =~= s@);
    }
    while k > 0
        invariant
            k <= v@.len(),
            v@ == s@,
            last_place(s@, d) == last_place(s@.subrange(0, k as int), d),
        decreases k,
    {
        proof {
            assert(s@.subrange(0, k as int).drop_last() =~= s@.subrange(0, k - 1));
        }
        if v[k - 1] == d {
            return Some(k - 1);
        }
        k -= 1;
    }
    None
}

/// The pieces of `s` between the characters `d`.
pub fn split(s: &str, d: char) -> (r: Vec<String>)
    ensures
        texts(r@) == pieces(s@, d),
        r@.len() >= 1,
{
    let v = chars_of(s);
    let mut out: Vec<String> = Vec::new();
    let mut cur = String::new();
    let mut i: usize = 0;
    proof {
        assert(texts(out@).push(cur@) =~= pieces(s@.take(0), d));
    }
    while i < v.len()
        invariant
            i <= v@.len(),
            v@ == s@,
            texts(out@).push(cur@) == pieces(s@.take(i as int), d),
        decreases v@.len() - i,
    {
        let ghost before = pieces(s@.take(i as int), d);
        let ghost out0 = texts(out@);
        let ghost cur0 = cur@;
        proof {
            assert(s@.take(i + 1).drop_last() =~= s@.take(i as int));
            assert(before.drop_last() =~= out0);
            assert(before.last() == cur0);
        }
        if v[i] == d {
            out.push(cur);
            cur = String::new();
            proof {
                assert(texts(out@) =~= out0.push(cur0));
            }
        } else {
            cur.push(v[i]);
        }
        i += 1;
    }
    proof {
        assert(s@.take(s@.len() as int) =~= s@);
    }
    let ghost out0 = texts(out@);
    let ghost cur0 = cur@;
    out.push(cur);
    proof {
        assert(texts(out@) =~= out0.push(cur0));
    }
    out
}

/// The lines of `s`.
pub fn lines(s: &str) -> (r: Vec<String>)
    ensures
        texts(r@) == lines_of(s@),
{
    let parts = split(s, '\n');
    let mut out: Vec<String> = Vec::new();
    let mut i: usize = 0;
    let ghost p = pieces(s@, '\n');
    let ghost ended = p.drop_last().map_values(|l: Seq<char>| without_return(l));
    while i < parts.len() - 1
        invariant
            i <= parts@.len() - 1,
            texts(parts@) == p,
            ended == p.drop_last().map_values(|l: Seq<char>| without_return(l)),
            texts(out@) == ended.take(i as int),
        decreases parts@.len() - i,
    {
        let v = chars_of(parts[i].as_str());
        proof {
            assert(p[i as int] == parts@[i as int]@);
        }
        let ghost out0 = texts(out@);
        if v.len() > 0 && v[v.len() - 1] == '\r' {
            out.push(string_of(&v, 0, v.len() - 1));
        } else {
            out.push(string_of(&v, 0, v.len()));
        }
        proof {
            assert(v@.subrange(0, v@.len() as int) =~= v@);
            assert(without_return(p[i as int]) =~= out@.last()@);
            assert(texts(out@) =~= out0.push(out@.last()@));
            assert(ended.take(i + 1) =~= ended.take(i as int).push(ended[i as int]));
        }
        i += 1;
    }
    let last = &parts[parts.len() - 1];
    proof {
        assert(p.last() == last@);
        assert(ended.take(i as int) =~= ended);
    }
    let ghost out0 = texts(out@);
    if !last.as_str().is_empty() {
        out.push(last.clone());
        proof {
            assert(texts(out@) =~= out0.push(last@));
        }
    }
    out
}

/// The texts `parts` one after another, with `sep` between neighbours.
pub fn join(parts: &Vec<String>, sep: &str) -> (r: String)
    ensures
        r@ == joined(texts(parts@), sep@),
{
    let mut out = String::new();
    let mut i: usize = 0;
    while i < parts.len()
        invariant
            i <= parts@.len(),
            out@ == joined(texts(parts@).take(i as int), sep@),
        decreases parts@.len() - i,
    {
        let ghost t = texts(parts@);
        proof {
            lemma_joined_push(t.take(i as int), sep@, t[i as int]);
            assert(t.take(i + 1) =~= t.take(i as int).push(t[i as int]));
        }
        if i > 0 {
            out.append(sep);
            out.append(parts[i].as_str());
        } else {
            out = parts[i].clone();
        }
        i += 1;
    }
    proof {
        assert(texts(parts@).take(i as int) =~= texts(parts@));
    }
    out
}

/// `c` as a small letter, where it is an ASCII capital letter.
pub fn lower(c: char) -> (r: char)
    ensures
        r == lower_char(c),
{
    if 'A' <= c && c <= 'Z' {
        (c as u8 + 32) as char
    } else {
        c
    }
}

/// `s` with each ASCII capital letter as its small letter.
pub fn to_lower(s: &str) -> (r: String)
    ensures
        r@ == lowered(s@),
{
    let v = chars_of(s);
    let mut out = String::new();
    let mut i: usize = 0;
    while i < v.len()
        invariant
            i <= v@.len(),
            v@ == s@,
            out@ == lowered(s@).take(i as int),
        decreases v@.len() - i,
    {
        out.push(lower(v[i]));
        i += 1;
        proof {
            assert(lowered(s@).take(i as int) =~= lowered(s@).take(i - 1).push(lowered(s@)[i - 1]));
        }
    }
    proof {
        assert(lowered(s@).take(i as int) =~= lowered(s@));
    }
    out
}

/// `s` with `to` in the place of each `from`.
pub fn replace(s: &str, from: char, to: &str) -> (r: String)
    ensures
        r@ == replaced(s@, from, to@),
{
    let v = chars_of(s);
    let mut out = String::new();
    let mut i: usize = 0;
    let ghost f = |c: char| swapped(c, from, to@);
    while i < v.len()
        invariant
            i <= v@.len(),
            v@ == s@,
            f == (|c: char| swapped(c, from, to@)),
            out@ == s@.take(i as int).flat_map(f),
        decreases v@.len() - i,
    {
        proof {
            s@.lemma_flat_map_take_append(f, i as int);
        }
        if v[i] == from {
            out.append(to);
        } else {
            out.push(v[i]);
        }
        i += 1;
    }
    proof {
        assert(s@.take(i as int) =~= s@);
    }
    out
}

/// `s` with `to` in the place of each occurrence of `p`.
pub fn replace_text(s: &str, p: &str, to: &str) -> (r: String)
    requires
        p@.len() > 0,
    ensures
        r@ == replaced_text(s@, p@, to@),
{
    let mut rest: &str = s;
    let mut out = String::new();
    let mut going = true;
    while going
        invariant
            p@.len() > 0,
            going ==> out@ + replaced_text(rest@, p@, to@) == replaced_text(s@, p@, to@),
            !going ==> out@ == replaced_text(s@, p@, to@),
        decreases
            if going {
                rest@.len() + 1
            } else {
                0
            },
    {
        proof {
            lemma_find_from(rest@, p@, 0);
        }
        match split_once(rest, p) {
            Some(t) => {
                let ghost whole = out@ + replaced_text(rest@, p@, to@);
                out.append(t.0);
                out.append(to);
                proof {
                    assert(whole =~= out@ + replaced_text(t.1@, p@, to@));
                }
                rest = t.1;
            },
            None => {
                out.append(rest);
                going = false;
            },
        }
    }
    out
}

/// The number that a text stands for, where that is one of 64 bits that is not
/// negative.
pub fn parse_natural(s: &str) -> (r: Option<i64>)
    ensures
        match natural(s@) {
            Some(n) => r matches Some(v) && v == n,
            None => r is None,
        },
{
    let v = chars_of(s);
    let from: usize = if v.len() > 0 && (v[0] == '+' || v[0] == '-') {
        1
    } else {
        0
    };
    let ghost d = unsigned(s@);
    proof {
        assert(d =~= v@.subrange(from as int, v@.len() as int));
    }
    if v.len() == from {
        return None;
    }
    let mut n: i64 = 0;
    let mut fits = true;
    let mut i: usize = from;
    while i < v.len()
        invariant
            from <= i <= v@.len(),
            d == v@.subrange(from as int, v@.len() as int),
            d == unsigned(s@),
            forall|k: int| from <= k < i ==> is_digit(#[trigger] v@[k]),
            0 <= value_of(d.take(i - from)),
            fits ==> n == value_of(d.take(i - from)),
            !fits ==> value_of(d.take(i - from)) > i64::MAX,
            n >= 0,
        decreases v@.len() - i,
    {
        let c = v[i];
        proof {
            assert(d[i - from] == c);
            assert(d.take(i - from + 1).drop_last() =~= d.take(i - from));
            assert(d.take(i - from + 1).last() == c);
        }
        if !char_is_digit(c) {
            assert(!is_digit(d[i - from]));
            return None;
        }
        let digit: i64 = (c as u32 - 48) as i64;
        if fits && n <= (i64::MAX - digit) / 10 {
            n = n * 10 + digit;
        } else {
            fits = false;
        }
        i += 1;
    }
    proof {
        assert(d.take(i - from) =~= d);
        assert forall|k: int| 0 <= k < d.len() implies is_digit(#[trigger] d[k]) by {
            assert(is_digit(v@[k + from]));
        }
    }
    if !fits || (v[0] == '-' && n != 0) {
        return None;
    }
    Some(n)
}

/// `n` in decimal.
pub fn number(n: u64) -> (r: String)
    ensures
        r@ == decimal(n as nat),
    decreases n,
{
    let mut out = if n < 10 {
        String::new()
    } else {
        number(n / 10)
    };
    out.push((48 + (n % 10) as u8) as char);
    proof {
        if n < 10 {
            assert(out@ =~= seq![digit(n as nat)]);
        }
    }
    out
}

/// `i` in decimal.
pub fn signed_number(i: i64) -> (r: String)
    ensures
        r@ == decimal_int(i as int),
{
    if i < 0 {
        let mut out = String::new();
        out.push('-');
        let n: u64 = (-(i as i128)) as u64;
        let d = number(n);
        out.append(d.as_str());
        proof {
            assert(out@ =~= seq!['-'] + decimal((-(i as int)) as nat));
        }
        out
    } else {
        number(i as u64)
    }
}

/// Whether `a` comes before `b`.
pub fn is_before(a: &str, b: &str) -> (r: bool)
    ensures
        r == before(a@, b@),
{
    let v = chars_of(a);
    let w = chars_of(b);
    let mut i: usize = 0;
    proof {
        assert(a@.subrange(0, a@.len() as int) =~= a@);
        assert(b@.subrange(0, b@.len() as int) =~= b@);
    }
    while i < v.len() && i < w.len()
        invariant
            i <= v@.len(),
            i <= w@.len(),
            v@ == a@,
            w@ == b@,
            before(a@, b@) == before(
                a@.subrange(i as int, a@.len() as int),
                b@.subrange(i as int, b@.len() as int),
            ),
        decreases v@.len() - i,
    {
        proof {
            let x = a@.subrange(i as int, a@.len() as int);
            let y = b@.subrange(i as int, b@.len() as int);
            assert(x.drop_first() =~= a@.subrange(i + 1, a@.len() as int));
            assert(y.drop_first() =~= b@.subrange(i + 1, b@.len() as int));
        }
        if v[i] != w[i] {
            return v[i] < w[i];
        }
        i += 1;
    }
    i < w.len()
}

/// A list of texts, once more.
pub fn copy_all(v: &Vec<String>) -> (r: Vec<String>)
    ensures
        texts(r@) == texts(v@),
{
    let mut out: Vec<String> = Vec::new();
    let mut i: usize = 0;
    while i < v.len()
        invariant
            i <= v@.len(),
            texts(out@) == texts(v@).take(i as int),
        decreases v@.len() - i,
    {
        let ghost before = texts(out@);
        out.push(v[i].clone());
        proof {
            assert(texts(out@) =~= before.push(v@[i as int]@));
            assert(texts(v@).take(i + 1) =~= texts(v@).take(i as int).push(v@[i as int]@));
        }
        i += 1;
    }
    proof {
        assert(texts(v@).take(i as int) =~= texts(v@));
    }
    out
}

/// What becomes of an item that is kept is among what becomes of them all.
pub proof fn lemma_item_is_kept<A, B>(s: Seq<A>, f: spec_fn(A) -> Option<B>, i: int)
    requires
        0 <= i < s.len(),
        f(s[i]) is Some,
    ensures
        s.filter_map(f).contains(f(s[i])->0),
    decreases s.len(),
{
    let rest = s.drop_last();
    let y = f(s[i])->0;
    if i == s.len() - 1 {
        let all = rest.filter_map(f) + seq![y];
        assert(all[all.len() - 1] == y);
    } else {
        lemma_item_is_kept(rest, f, i);
        let k = choose|k: int| 0 <= k < rest.filter_map(f).len() && rest.filter_map(f)[k] == y;
        assert(s.filter_map(f)[k] == y);
    }
}

// ── Laws ─────────────────────────────────────────────────────────────────────

/// Of the first 256 characters, the blank, the tabulators, the ends of lines and pages, the next line and
/// the hard blank are white space, and no others.
pub proof fn law_white_space_is_known(c: char, r: bool)
    requires
        call_ensures(char_is_white, (c,), r),
        (c as u32) < 256,
    ensures
        r <==> c == ' ' || c == '\t' || c == '\n' || c == '\r' || c as u32 == 11 || c as u32 == 12
            || c as u32 == 133 || c as u32 == 160,
{
}

/// Digits, letters and hexadecimal digits are those of ASCII.
pub proof fn law_digits_and_letters_are_those_of_ascii(c: char, number: bool, word: bool, hex: bool)
    requires
        call_ensures(char_is_digit, (c,), number),
        call_ensures(char_is_alnum, (c,), word),
        call_ensures(char_is_hex, (c,), hex),
    ensures
        number <==> 48 <= c as u32 <= 57,
        word <==> 48 <= c as u32 <= 57 || 65 <= c as u32 <= 90 || 97 <= c as u32 <= 122,
        hex <==> 48 <= c as u32 <= 57 || 65 <= c as u32 <= 70 || 97 <= c as u32 <= 102,
{
}

/// Trimming takes all white space from both ends of a text, and nothing else.
pub proof fn law_trimming_takes_white_space_only(s: &str, r: &str)
    requires
        call_ensures(trim, (s,), r),
    ensures
        r@.len() > 0 ==> !is_white(r@[0]) && !is_white(r@[r@.len() - 1]),
        exists|a: int| #[trigger]
            occurs(s@, r@, a) && (forall|j: int| 0 <= j < a ==> is_white(#[trigger] s@[j])) && (
            forall|j: int| a + r@.len() <= j < s@.len() ==> is_white(#[trigger] s@[j])),
{
    let p = white();
    let t = trim_start_by(s@, p);
    lemma_trim_start_shape(s@, p);
    lemma_trim_end_shape(t, p);
    let a = s@.len() - t.len();
    assert(s@.subrange(a, a + r@.len()) =~= r@);
    assert forall|j: int| 0 <= j < a implies is_white(#[trigger] s@[j]) by {
        assert(p(s@[j]));
    }
    assert forall|j: int| a + r@.len() <= j < s@.len() implies is_white(#[trigger] s@[j]) by {
        assert(t[j - a] == s@[j]);
        assert(p(t[j - a]));
    }
    if r@.len() > 0 {
        assert(r@[0] == t[0]);
        assert(!p(t[0]));
        assert(!p(r@.last()));
    }
    assert(occurs(s@, r@, a));
}

/// Only the capital letters of ASCII become small ones: each its own.
pub proof fn law_capitals_become_small(s: &str, r: String, i: int)
    requires
        call_ensures(to_lower, (s,), r),
        0 <= i < s@.len(),
    ensures
        r@.len() == s@.len(),
        'A' <= s@[i] <= 'Z' ==> r@[i] as u32 == s@[i] as u32 + 32,
        !('A' <= s@[i] <= 'Z') ==> r@[i] == s@[i],
{
    assert(r@[i] == lower_char(s@[i]));
    if 'A' <= s@[i] <= 'Z' {
        let n = s@[i] as u32 + 32;
        assert(97 <= n <= 122);
        assert((n as u8) as u32 == n);
    }
}

/// The digits of a number stand for it.
proof fn lemma_decimal(n: nat)
    ensures
        decimal(n).len() > 0,
        all_chars(decimal(n), |c: char| is_digit(c)),
        value_of(decimal(n)) == n,
    decreases n,
{
    let d = |c: char| is_digit(c);
    let last = digit(n % 10);
    assert(is_digit(last) && last as int - '0' as int == n % 10);
    if n >= 10 {
        lemma_decimal(n / 10);
        let all = decimal(n);
        assert(all.drop_last() =~= decimal(n / 10));
        assert(all.last() == last);
        assert forall|i: int| 0 <= i < all.len() implies d(#[trigger] all[i]) by {
            if i < all.len() - 1 {
                assert(d(decimal(n / 10)[i]));
            }
        }
        assert(value_of(all) == value_of(decimal(n / 10)) * 10 + n % 10);
    } else {
        let one = seq![digit(n)];
        assert(decimal(n) == one);
        assert(one.drop_last() =~= Seq::<char>::empty());
        assert(value_of(one) == value_of(Seq::<char>::empty()) * 10 + n);
        assert forall|i: int| 0 <= i < one.len() implies d(#[trigger] one[i]) by {}
    }
}

/// A number that was written is read again as it was, as far as it can be held; and a negative one has its
/// sign ahead of it.
pub proof fn law_written_number_is_read(
    n: u64,
    written: String,
    s: &str,
    read: Option<i64>,
    i: i64,
    signed: String,
)
    requires
        call_ensures(number, (n,), written),
        s@ == written@,
        call_ensures(parse_natural, (s,), read),
        call_ensures(signed_number, (i,), signed),
    ensures
        n <= i64::MAX ==> read == Some(n as i64),
        n > i64::MAX ==> read is None,
        i == n ==> signed@ == written@,
        i == -(n as int) && n > 0 ==> signed@ == seq!['-'] + written@,
{
    lemma_decimal(n as nat);
    let d = |c: char| is_digit(c);
    assert(d(s@[0]));
    assert(unsigned(s@) == s@);
}

/// The pieces of a text hold no separator, and joined by it they are the text.
pub proof fn law_split_then_join(s: &str, d: char, sep: &str, parts: Vec<String>, whole: String, i: int)
    requires
        call_ensures(split, (s, d), parts),
        sep@ == seq![d],
        call_ensures(join, (&parts, sep), whole),
    ensures
        whole@ == s@,
        0 <= i < parts@.len() ==> !parts@[i]@.contains(d),
{
    lemma_pieces_joined(s@, d);
    lemma_pieces_free(s@, d);
    if 0 <= i < parts@.len() {
        let p = parts@[i]@;
        assert(texts(parts@)[i] == p);
        if p.contains(d) {
            let j = choose|j: int| 0 <= j < p.len() && p[j] == d;
            assert(pieces(s@, d)[i][j] == d);
        }
    }
}

/// A text is found at its first place, and exactly where it stands somewhere; split there, the two parts
/// and what stands between them are the text.
pub proof fn law_text_is_found_at_its_first_place(
    s: &str,
    p: &str,
    found: Option<usize>,
    inside: bool,
    parts: Option<(&str, &str)>,
)
    requires
        call_ensures(find, (s, p), found),
        call_ensures(contains, (s, p), inside),
        call_ensures(split_once, (s, p), parts),
    ensures
        found is Some <==> inside,
        parts is Some <==> inside,
        found matches Some(i) ==> s@.subrange(i as int, i + p@.len()) == p@ && forall|j: int|
            0 <= j < i ==> !occurs(s@, p@, j),
        parts matches Some(t) ==> s@ == t.0@ + p@ + t.1@ && t.0@.len() == found->0,
{
    lemma_find_from(s@, p@, 0);
    if inside {
        let i = choose|i: int| occurs(s@, p@, i);
        assert(0 <= i);
    }
    if let Some(t) = parts {
        let i = find_from(s@, p@, 0)->0;
        assert(s@ =~= s@.subrange(0, i) + s@.subrange(i, i + p@.len()) + s@.subrange(
            i + p@.len(),
            s@.len() as int,
        ));
    }
}

/// What starts or ends with a text is that text and what is left without it.
pub proof fn law_prefix_and_rest_are_the_text(
    s: &str,
    p: &str,
    starts: bool,
    ends: bool,
    behind: Option<&str>,
    ahead: Option<&str>,
)
    requires
        call_ensures(starts_with, (s, p), starts),
        call_ensures(ends_with, (s, p), ends),
        call_ensures(strip_prefix, (s, p), behind),
        call_ensures(strip_suffix, (s, p), ahead),
    ensures
        starts <==> behind is Some,
        ends <==> ahead is Some,
        behind matches Some(t) ==> s@ == p@ + t@,
        ahead matches Some(t) ==> s@ == t@ + p@,
{
    if behind is Some {
        assert(s@ =~= p@ + s@.subrange(p@.len() as int, s@.len() as int));
    }
    if ahead is Some {
        assert(s@ =~= s@.subrange(0, s@.len() - p@.len()) + p@);
    }
}

/// Behind a common start, the first characters that differ decide which text comes first, and the shorter
/// one does where there are none.
pub proof fn law_first_difference_decides(
    start: Seq<char>,
    x: char,
    y: char,
    u: Seq<char>,
    v: Seq<char>,
    a: &str,
    b: &str,
    r: bool,
)
    requires
        a@ == start + seq![x] + u,
        b@ == start + seq![y] + v || b@ == start,
        x != y,
        call_ensures(is_before, (a, b), r),
    ensures
        b@ == start ==> !r,
        b@ != start ==> (r <==> x < y),
{
    lemma_before_behind(start, seq![x] + u, if b@ == start {
        Seq::<char>::empty()
    } else {
        seq![y] + v
    });
    assert(a@ =~= start + (seq![x] + u));
    if b@ == start {
        assert(b@ =~= start + Seq::<char>::empty());
    } else {
        assert(b@ =~= start + (seq![y] + v));
    }
}

/// A common start does not change which of two texts comes first.
proof fn lemma_before_behind(start: Seq<char>, a: Seq<char>, b: Seq<char>)
    ensures
        before(start + a, start + b) == before(a, b),
    decreases start.len(),
{
    if start.len() == 0 {
        assert(start + a =~= a && start + b =~= b);
    } else {
        let rest = start.drop_first();
        lemma_before_behind(rest, a, b);
        assert((start + a).drop_first() =~= rest + a);
        assert((start + b).drop_first() =~= rest + b);
        assert((start + a)[0] == (start + b)[0]);
    }
}

/// Replacing a text changes nothing where it does not stand, and puts the other one in the place of its
/// first occurrence before it goes on behind that.
pub proof fn law_every_occurrence_is_replaced(
    s: &str,
    p: &str,
    to: &str,
    r: String,
    front: Seq<char>,
    rest: &str,
    more: String,
)
    requires
        p@.len() > 0,
        call_ensures(replace_text, (s, p, to), r),
        call_ensures(replace_text, (rest, p, to), more),
        s@ == front + p@ + rest@,
        forall|j: int| 0 <= j < front.len() ==> !occurs(s@, p@, j),
    ensures
        r@ == front + to@ + more@,
        !occurs_in(rest@, p@) ==> more@ == rest@,
{
    let n = front.len() as int;
    assert(s@.subrange(n, n + p@.len()) =~= p@);
    assert(occurs(s@, p@, n));
    lemma_find_at(s@, p@, 0, n);
    assert(s@.subrange(0, n) =~= front);
    assert(s@.subrange(n + p@.len(), s@.len() as int) =~= rest@);
    if !occurs_in(rest@, p@) {
        lemma_find_none(rest@, p@, 0);
    }
}

} // verus!
