//! Addresses: their parts, and text in them.
use vstd::prelude::*;
use vstd::string::*;
use vstd::utf8::encode_utf8;
use crate::text::{is_alnum, opt_text};

verus! {

// ── Text in an address ───────────────────────────────────────────────────────

/// The bytes that stand for themselves in a query.
pub open spec fn is_query_byte(b: u8) -> bool {
    is_alnum(b as char) || b == 45 || b == 46 || b == 95 || b == 126
}

/// The hexadecimal digit of a value below sixteen, as a capital letter from ten
/// on.
pub open spec fn capital_hex(d: int) -> char {
    if d < 10 {
        (48 + d) as char
    } else {
        (55 + d) as char
    }
}

/// What stands for a byte in a query.
pub open spec fn query_byte(b: u8) -> Seq<char> {
    if is_query_byte(b) {
        seq![b as char]
    } else {
        seq!['%', capital_hex(b as int / 16), capital_hex(b as int % 16)]
    }
}

/// What stands for a text in a query: each byte of its UTF-8 form that is no
/// letter, digit or one of `-._~` is written as an escape.
pub open spec fn percent_encoded(s: Seq<char>) -> Seq<char> {
    encode_utf8(s).flat_map(|b: u8| query_byte(b))
}

/// `urlencoding::encode`: letters, digits and `-._~` stay, and every other byte
/// becomes a percent sign and two hexadecimal digits.
#[verifier::external_body]
pub(crate) fn encode(s: &str) -> (r: String)
    ensures
        r@ == percent_encoded(s@),
{
    urlencoding::encode(s).into_owned()
}

// ── The parts of an address ──────────────────────────────────────────────────

/// The parts of an address that matter here.
#[derive(Debug)]
pub struct UrlParts {
    pub scheme: String,
    pub host: Option<String>,
    pub path: String,
    pub has_query: bool,
    pub has_fragment: bool,
}

impl UrlParts {
    pub open spec fn view(&self) -> (Seq<char>, Option<Seq<char>>, Seq<char>, bool, bool) {
        (self.scheme@, opt_text(self.host), self.path@, self.has_query, self.has_fragment)
    }
}

/// The scheme, host and path that `reqwest::Url::parse` finds in an address, and
/// whether it finds a query and a fragment; nothing where it rejects the address.
pub uninterp spec fn url_parts(s: Seq<char>) -> Option<
    (Seq<char>, Option<Seq<char>>, Seq<char>, bool, bool),
>;

/// The view of the parts of an address, where there are any.
pub open spec fn parts_view(p: Option<UrlParts>) -> Option<
    (Seq<char>, Option<Seq<char>>, Seq<char>, bool, bool),
> {
    match p {
        Some(u) => Some(u@),
        None => None,
    }
}

/// `reqwest::Url::parse`: the parts of an address, named by `url_parts`.
#[verifier::external_body]
pub(crate) fn parse_url(s: &str) -> (r: Option<UrlParts>)
    ensures
        parts_view(r) == url_parts(s@),
{
    match reqwest::Url::parse(s) {
        Ok(u) => Some(
            UrlParts {
                scheme: u.scheme().to_string(),
                host: u.host_str().map(str::to_string),
                path: u.path().to_string(),
                has_query: u.query().is_some(),
                has_fragment: u.fragment().is_some(),
            },
        ),
        Err(_) => None,
    }
}

// ── Laws ─────────────────────────────────────────────────────────────────────

/// A text in a query holds nothing that could end it or stand for something else:
/// only letters, digits, `-._~` and the signs of escapes.
pub proof fn law_encoded_text_is_inert(s: Seq<char>, i: int)
    requires
        0 <= i < percent_encoded(s).len(),
    ensures
        ({
            let c = percent_encoded(s)[i];
            is_alnum(c) || c == '-' || c == '.' || c == '_' || c == '~' || c == '%'
        }),
{
    lemma_encoded_bytes(encode_utf8(s), i);
}

proof fn lemma_encoded_bytes(bytes: Seq<u8>, i: int)
    requires
        0 <= i < bytes.flat_map(|b: u8| query_byte(b)).len(),
    ensures
        ({
            let c = bytes.flat_map(|b: u8| query_byte(b))[i];
            is_alnum(c) || c == '-' || c == '.' || c == '_' || c == '~' || c == '%'
        }),
    decreases bytes.len(),
{
    let f = |b: u8| query_byte(b);
    let whole = bytes.flat_map(f);
    if bytes.len() == 0 {
        assert(bytes.map_values(f) =~= Seq::<Seq<char>>::empty());
    } else {
        let first = query_byte(bytes[0]);
        let rest = bytes.drop_first();
        assert(bytes.map_values(f).drop_first() =~= rest.map_values(f));
        assert(bytes.map_values(f).first() == first);
        assert(whole == first + rest.flat_map(f));
        if i >= first.len() {
            lemma_encoded_bytes(rest, i - first.len());
        }
    }
}

} // verus!
