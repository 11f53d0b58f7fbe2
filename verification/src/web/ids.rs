//! Identifiers and tokens.
use vstd::prelude::*;
use vstd::string::*;
use crate::text;
use crate::text::{is_digit, replaced};

verus! {

/// The small hexadecimal digits.
pub open spec fn is_small_hex(c: char) -> bool {
    is_digit(c) || 'a' <= c <= 'f'
}

/// Whether a place in an identifier is that of a hyphen.
pub open spec fn is_hyphen_place(i: int) -> bool {
    i == 8 || i == 13 || i == 18 || i == 23
}

/// Whether `s` is an identifier: 36 characters, hyphens in four places and small
/// hexadecimal digits in all others.
pub open spec fn is_id(s: Seq<char>) -> bool {
    &&& s.len() == 36
    &&& forall|i: int|
        0 <= i < 36 ==> if is_hyphen_place(i) {
            #[trigger] s[i] == '-'
        } else {
            is_small_hex(s[i])
        }
}

/// `uuid::Uuid::new_v4` as text: a random identifier in its hyphenated form.
/// Which one it is rests on chance.
#[verifier::external_body]
pub(crate) fn random_id() -> (r: String)
    ensures
        is_id(r@),
{
    uuid::Uuid::new_v4().to_string()
}

/// A new identifier.
pub fn new_id() -> (r: String)
    ensures
        is_id(r@),
{
    random_id()
}

/// The token that is made of an identifier: its digits.
pub open spec fn token_of(id: Seq<char>) -> Seq<char> {
    replaced(id, '-', Seq::empty())
}

/// The token that is made of an identifier.
pub fn inbound_token(id: &str) -> (r: String)
    ensures
        r@ == token_of(id@),
{
    proof {
        reveal_strlit("");
        assert(""@ =~= Seq::<char>::empty());
    }
    text::replace(id, '-', "")
}

/// What is left of a part of an identifier without hyphens.
proof fn lemma_token_part(s: Seq<char>)
    requires
        forall|i: int| 0 <= i < s.len() ==> is_small_hex(#[trigger] s[i]),
    ensures
        token_of(s) == s,
{
    text::lemma_replaced_none(s, '-', Seq::empty());
}

/// A hyphen leaves nothing.
proof fn lemma_token_hyphen()
    ensures
        token_of(seq!['-']) == Seq::<char>::empty(),
{
    text::lemma_replaced_one('-', '-', Seq::empty());
}

/// The token of an identifier is made of 32 small hexadecimal digits, so that it
/// can stand in an address as it is.
pub proof fn law_token_is_hexadecimal(id: Seq<char>)
    requires
        is_id(id),
    ensures
        token_of(id).len() == 32,
        forall|i: int| 0 <= i < 32 ==> is_small_hex(#[trigger] token_of(id)[i]),
{
    let a = id.subrange(0, 8);
    let b = id.subrange(9, 13);
    let c = id.subrange(14, 18);
    let d = id.subrange(19, 23);
    let e = id.subrange(24, 36);
    let h = seq!['-'];
    assert(id[8] == '-' && id[13] == '-' && id[18] == '-' && id[23] == '-');
    assert(id =~= a + (h + (b + (h + (c + (h + (d + (h + e))))))));
    lemma_token_hyphen();
    lemma_token_part(a);
    lemma_token_part(b);
    lemma_token_part(c);
    lemma_token_part(d);
    lemma_token_part(e);
    let none = Seq::<char>::empty();
    text::lemma_replaced_concat(h, e, '-', none);
    text::lemma_replaced_concat(d, h + e, '-', none);
    text::lemma_replaced_concat(h, d + (h + e), '-', none);
    text::lemma_replaced_concat(c, h + (d + (h + e)), '-', none);
    text::lemma_replaced_concat(h, c + (h + (d + (h + e))), '-', none);
    text::lemma_replaced_concat(b, h + (c + (h + (d + (h + e)))), '-', none);
    text::lemma_replaced_concat(h, b + (h + (c + (h + (d + (h + e))))), '-', none);
    text::lemma_replaced_concat(a, h + (b + (h + (c + (h + (d + (h + e)))))), '-', none);
    assert(token_of(id) =~= a + b + c + d + e);
    let t = a + b + c + d + e;
    assert forall|i: int| 0 <= i < 32 implies is_small_hex(#[trigger] t[i]) by {
        if i < 8 {
            assert(t[i] == id[i]);
        } else if i < 12 {
            assert(t[i] == id[i + 1]);
        } else if i < 16 {
            assert(t[i] == id[i + 2]);
        } else if i < 20 {
            assert(t[i] == id[i + 3]);
        } else {
            assert(t[i] == id[i + 4]);
        }
    }
}

} // verus!
