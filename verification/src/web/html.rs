//! Text in HTML: escaping, and what a browser makes of it.
use vstd::prelude::*;
use vstd::string::*;
use crate::text;

verus! {

/// What stands for a character in HTML text.
pub open spec fn escaped_char(c: char) -> Seq<char> {
    if c == '&' {
        "&amp;"@
    } else if c == '<' {
        "&lt;"@
    } else if c == '>' {
        "&gt;"@
    } else if c == '"' {
        "&quot;"@
    } else {
        seq![c]
    }
}

/// What stands for a text in HTML.
pub open spec fn escaped(s: Seq<char>) -> Seq<char> {
    s.flat_map(|c: char| escaped_char(c))
}

/// What stands for a character in an attribute of HTML, whichever quotes it is
/// written in.
pub open spec fn attribute_char(c: char) -> Seq<char> {
    if c == '\'' {
        "&#x27;"@
    } else {
        escaped_char(c)
    }
}

/// What stands for a text in an attribute of HTML.
pub open spec fn attribute(s: Seq<char>) -> Seq<char> {
    s.flat_map(|c: char| attribute_char(c))
}

/// What stands for a text in HTML.
pub fn html_escape(s: &str) -> (r: String)
    ensures
        r@ == escaped(s@),
{
    let v = text::chars_of(s);
    let mut out = String::new();
    let mut i: usize = 0;
    let ghost f = |c: char| escaped_char(c);
    while i < v.len()
        invariant
            i <= v@.len(),
            v@ == s@,
            f == (|c: char| escaped_char(c)),
            out@ == s@.take(i as int).flat_map(f),
        decreases v@.len() - i,
    {
        proof {
            s@.lemma_flat_map_take_append(f, i as int);
        }
        let c = v[i];
        if c == '&' {
            out.append("&amp;");
        } else if c == '<' {
            out.append("&lt;");
        } else if c == '>' {
            out.append("&gt;");
        } else if c == '"' {
            out.append("&quot;");
        } else {
            out.push(c);
        }
        i += 1;
    }
    proof {
        assert(s@.take(i as int) =~= s@);
    }
    out
}

/// What stands for a text in an attribute of HTML.
pub fn escape_html_attribute(value: &str) -> (r: String)
    ensures
        r@ == attribute(value@),
{
    let v = text::chars_of(value);
    let mut out = String::new();
    let mut i: usize = 0;
    let ghost f = |c: char| attribute_char(c);
    while i < v.len()
        invariant
            i <= v@.len(),
            v@ == value@,
            f == (|c: char| attribute_char(c)),
            out@ == value@.take(i as int).flat_map(f),
        decreases v@.len() - i,
    {
        proof {
            value@.lemma_flat_map_take_append(f, i as int);
        }
        let c = v[i];
        if c == '&' {
            out.append("&amp;");
        } else if c == '<' {
            out.append("&lt;");
        } else if c == '>' {
            out.append("&gt;");
        } else if c == '"' {
            out.append("&quot;");
        } else if c == '\'' {
            out.append("&#x27;");
        } else {
            out.push(c);
        }
        i += 1;
    }
    proof {
        assert(value@.take(i as int) =~= value@);
    }
    out
}

// ── Laws ─────────────────────────────────────────────────────────────────────

/// What stands for a text is what stands for its first character, and then what
/// stands for the rest.
proof fn lemma_attribute_first(s: Seq<char>)
    requires
        s.len() > 0,
    ensures
        attribute(s) == attribute_char(s[0]) + attribute(s.drop_first()),
{
    let f = |c: char| attribute_char(c);
    assert(s.map_values(f).drop_first() =~= s.drop_first().map_values(f));
    assert(s.map_values(f).first() == attribute_char(s[0]));
}

proof fn lemma_escaped_first(s: Seq<char>)
    requires
        s.len() > 0,
    ensures
        escaped(s) == escaped_char(s[0]) + escaped(s.drop_first()),
{
    let f = |c: char| escaped_char(c);
    assert(s.map_values(f).drop_first() =~= s.drop_first().map_values(f));
    assert(s.map_values(f).first() == escaped_char(s[0]));
}

proof fn lemma_none_escaped(s: Seq<char>)
    requires
        s.len() == 0,
    ensures
        escaped(s) == Seq::<char>::empty(),
        attribute(s) == Seq::<char>::empty(),
{
    let f = |c: char| attribute_char(c);
    let g = |c: char| escaped_char(c);
    assert(s.map_values(f) =~= Seq::<Seq<char>>::empty());
    assert(s.map_values(g) =~= Seq::<Seq<char>>::empty());
}

/// Escaped text can neither open nor close a tag, nor end an attribute in double
/// quotes.
pub proof fn law_escaped_text_is_inert(s: Seq<char>, i: int)
    requires
        0 <= i < escaped(s).len(),
    ensures
        escaped(s)[i] != '<',
        escaped(s)[i] != '>',
        escaped(s)[i] != '"',
    decreases s.len(),
{
    reveal_strlit("&amp;");
    reveal_strlit("&lt;");
    reveal_strlit("&gt;");
    reveal_strlit("&quot;");
    if s.len() == 0 {
        lemma_none_escaped(s);
    } else {
        lemma_escaped_first(s);
        let k = escaped_char(s[0]).len();
        if i >= k {
            law_escaped_text_is_inert(s.drop_first(), i - k);
        }
    }
}

/// An escaped attribute can neither open nor close a tag, nor end the attribute,
/// whichever quotes it is written in.
pub proof fn law_escaped_attribute_is_inert(s: Seq<char>, i: int)
    requires
        0 <= i < attribute(s).len(),
    ensures
        attribute(s)[i] != '<',
        attribute(s)[i] != '>',
        attribute(s)[i] != '"',
        attribute(s)[i] != '\'',
    decreases s.len(),
{
    reveal_strlit("&amp;");
    reveal_strlit("&lt;");
    reveal_strlit("&gt;");
    reveal_strlit("&quot;");
    reveal_strlit("&#x27;");
    if s.len() == 0 {
        lemma_none_escaped(s);
    } else {
        lemma_attribute_first(s);
        let k = attribute_char(s[0]).len();
        if i >= k {
            law_escaped_attribute_is_inert(s.drop_first(), i - k);
        }
    }
}

/// The character that the reference at the start of a text stands for, and its
/// length.
pub open spec fn reference_at_start(s: Seq<char>) -> Option<(char, int)> {
    if "&amp;"@.is_prefix_of(s) {
        Some(('&', 5))
    } else if "&lt;"@.is_prefix_of(s) {
        Some(('<', 4))
    } else if "&gt;"@.is_prefix_of(s) {
        Some(('>', 4))
    } else if "&quot;"@.is_prefix_of(s) {
        Some(('"', 6))
    } else if "&#x27;"@.is_prefix_of(s) {
        Some(('\'', 6))
    } else {
        None
    }
}

/// What a browser makes of text with such references.
pub open spec fn browser_reads(s: Seq<char>) -> Seq<char>
    decreases s.len(),
{
    if s.len() == 0 {
        Seq::empty()
    } else {
        match reference_at_start(s) {
            Some(r) if 0 < r.1 <= s.len() => seq![r.0] + browser_reads(
                s.subrange(r.1, s.len() as int),
            ),
            _ => seq![s[0]] + browser_reads(s.drop_first()),
        }
    }
}

proof fn lemma_reads_reference(c: char, reference: Seq<char>, tail: Seq<char>)
    requires
        reference == attribute_char(c) || reference == escaped_char(c),
        c == '&' || c == '<' || c == '>' || c == '"' || (c == '\'' && reference == attribute_char(
            c,
        )),
    ensures
        browser_reads(reference + tail) == seq![c] + browser_reads(tail),
{
    reveal_strlit("&amp;");
    reveal_strlit("&lt;");
    reveal_strlit("&gt;");
    reveal_strlit("&quot;");
    reveal_strlit("&#x27;");
    let s = reference + tail;
    let n = reference.len() as int;
    assert(s.subrange(0, n) =~= reference);
    assert(s.subrange(n, s.len() as int) =~= tail);
    assert forall|p: Seq<char>| #[trigger] p.is_prefix_of(s) && 2 <= p.len() && 2 <= n implies p[1]
        == reference[1] && p[0] == reference[0] by {
        assert(s.subrange(0, p.len() as int)[1] == s[1]);
        assert(s.subrange(0, p.len() as int)[0] == s[0]);
    }
}

proof fn lemma_reads_plain(c: char, tail: Seq<char>)
    requires
        c != '&',
    ensures
        browser_reads(seq![c] + tail) == seq![c] + browser_reads(tail),
{
    reveal_strlit("&amp;");
    reveal_strlit("&lt;");
    reveal_strlit("&gt;");
    reveal_strlit("&quot;");
    reveal_strlit("&#x27;");
    let s = seq![c] + tail;
    assert(s.drop_first() =~= tail);
    assert forall|p: Seq<char>| #[trigger] p.is_prefix_of(s) && 1 <= p.len() implies p[0] == c by {
        assert(s.subrange(0, p.len() as int)[0] == s[0]);
    }
}

/// A browser reads escaped text as the text itself.
pub proof fn law_browser_reads_escaped_text(s: Seq<char>)
    ensures
        browser_reads(escaped(s)) == s,
    decreases s.len(),
{
    if s.len() == 0 {
        lemma_none_escaped(s);
        assert(browser_reads(Seq::<char>::empty()) =~= s);
    } else {
        let c = s[0];
        let tail = escaped(s.drop_first());
        lemma_escaped_first(s);
        law_browser_reads_escaped_text(s.drop_first());
        if c == '&' || c == '<' || c == '>' || c == '"' {
            lemma_reads_reference(c, escaped_char(c), tail);
        } else {
            lemma_reads_plain(c, tail);
        }
        assert(seq![c] + s.drop_first() =~= s);
    }
}

/// A browser reads an escaped attribute as the text itself.
pub proof fn law_browser_reads_escaped_attribute(s: Seq<char>)
    ensures
        browser_reads(attribute(s)) == s,
    decreases s.len(),
{
    if s.len() == 0 {
        lemma_none_escaped(s);
        assert(browser_reads(Seq::<char>::empty()) =~= s);
    } else {
        let c = s[0];
        let tail = attribute(s.drop_first());
        lemma_attribute_first(s);
        law_browser_reads_escaped_attribute(s.drop_first());
        if c == '&' || c == '<' || c == '>' || c == '"' || c == '\'' {
            lemma_reads_reference(c, attribute_char(c), tail);
        } else {
            lemma_reads_plain(c, tail);
        }
        assert(seq![c] + s.drop_first() =~= s);
    }
}

} // verus!
