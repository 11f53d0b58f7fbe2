//! The environment file: lines of the form `KEY=value`, kept in their order
//! together with every line that the service does not own.
use vstd::prelude::*;
use vstd::string::*;
use crate::text;
use crate::text::{
    joined, lines_of, pieces, texts, trimmed, trimmed_start, is_white, without_return,
};

verus! {

/// The lines of an environment file, and whether they differ from the file.
#[derive(Debug)]
pub struct EnvDocument {
    pub lines: Vec<String>,
    pub dirty: bool,
}

/// Whether `line` assigns a value to `key`.
pub open spec fn assigns(line: Seq<char>, key: Seq<char>) -> bool {
    (key + "="@).is_prefix_of(trimmed_start(line))
}

/// The value that `line` assigns to `key`.
pub open spec fn assigned_value(line: Seq<char>, key: Seq<char>) -> Seq<char> {
    let t = trimmed_start(line);
    trimmed(t.subrange((key + "="@).len() as int, t.len() as int))
}

/// The value of `key` in a file: that of the first line that assigns one, and
/// nothing where no line does.
pub open spec fn lookup(lines: Seq<Seq<char>>, key: Seq<char>) -> Seq<char>
    decreases lines.len(),
{
    if lines.len() == 0 {
        Seq::empty()
    } else if assigns(lines[0], key) {
        assigned_value(lines[0], key)
    } else {
        lookup(lines.drop_first(), key)
    }
}

/// Whether some line assigns a value to `key`.
pub open spec fn mentions(lines: Seq<Seq<char>>, key: Seq<char>) -> bool {
    exists|i: int| 0 <= i < lines.len() && assigns(#[trigger] lines[i], key)
}

/// The line that gives `key` the value `value`.
pub open spec fn assignment(key: Seq<char>, value: Seq<char>) -> Seq<char> {
    key + "="@ + value
}

/// `lines` with the assignment in the place of each line that assigns to `key`.
pub open spec fn reassigned(lines: Seq<Seq<char>>, key: Seq<char>, value: Seq<char>) -> Seq<
    Seq<char>,
> {
    lines.map_values(
        |l: Seq<char>|
            if assigns(l, key) {
                assignment(key, value)
            } else {
                l
            },
    )
}

/// `lines` after `key` was given the value `value`: each line that assigns to
/// `key` is the new assignment, which is added at the end where there is none.
pub open spec fn assigned(lines: Seq<Seq<char>>, key: Seq<char>, value: Seq<char>) -> Seq<
    Seq<char>,
> {
    if mentions(lines, key) {
        reassigned(lines, key, value)
    } else {
        lines.push(assignment(key, value))
    }
}

/// `lines` after a group of assignments, made one after another.
pub open spec fn assigned_all(
    lines: Seq<Seq<char>>,
    values: Seq<(Seq<char>, Seq<char>)>,
) -> Seq<Seq<char>>
    decreases values.len(),
{
    if values.len() == 0 {
        lines
    } else {
        assigned(assigned_all(lines, values.drop_last()), values.last().0, values.last().1)
    }
}

/// Whether some assignment of the group changes the lines.
pub open spec fn disturbs(lines: Seq<Seq<char>>, values: Seq<(Seq<char>, Seq<char>)>) -> bool
    decreases values.len(),
{
    if values.len() == 0 {
        false
    } else {
        disturbs(lines, values.drop_last()) || assigned_all(lines, values) != assigned_all(
            lines,
            values.drop_last(),
        )
    }
}

/// The file with the given lines: each ends with a line feed.
pub open spec fn rendered(lines: Seq<Seq<char>>) -> Seq<char> {
    if lines.len() == 0 {
        Seq::empty()
    } else {
        joined(lines, "\n"@) + "\n"@
    }
}

/// The texts that a group of pairs holds.
pub open spec fn pair_texts(values: Seq<(&str, &str)>) -> Seq<(Seq<char>, Seq<char>)> {
    values.map_values(|p: (&str, &str)| (p.0@, p.1@))
}

impl EnvDocument {
    /// The lines of the document.
    pub open spec fn view(&self) -> Seq<Seq<char>> {
        texts(self.lines@)
    }

    /// The document that a file holds.
    pub fn parse(content: &str) -> (r: Self)
        ensures
            r@ == lines_of(content@),
            !r.dirty,
    {
        EnvDocument { lines: text::lines(content), dirty: false }
    }

    /// The value of `key`, without white space at its ends.
    pub fn value(&self, key: &str) -> (r: String)
        ensures
            r@ == lookup(self@, key@),
    {
        let mut prefix = key.to_string();
        prefix.append("=");
        let mut i: usize = 0;
        proof {
            assert(self@.subrange(0, self@.len() as int) =~= self@);
        }
        while i < self.lines.len()
            invariant
                i <= self.lines@.len(),
                prefix@ == key@ + "="@,
                lookup(self@, key@) == lookup(self@.subrange(i as int, self@.len() as int), key@),
            decreases self.lines@.len() - i,
        {
            let ghost rest = self@.subrange(i as int, self@.len() as int);
            proof {
                assert(rest[0] == self.lines@[i as int]@);
                assert(rest.drop_first() =~= self@.subrange(i + 1, self@.len() as int));
            }
            let line = text::trim_start(self.lines[i].as_str());
            match text::strip_prefix(line, prefix.as_str()) {
                Some(v) => {
                    return text::trim(v).to_string();
                },
                None => {},
            }
            i += 1;
        }
        String::new()
    }

    /// Gives `key` the value `value`.
    pub fn set(&mut self, key: &str, value: &str)
        ensures
            final(self)@ == assigned(old(self)@, key@, value@),
            final(self).dirty == (old(self).dirty || final(self)@ != old(self)@),
    {
        let mut prefix = key.to_string();
        prefix.append("=");
        let mut replacement = prefix.clone();
        replacement.append(value);
        let ghost before = self@;
        let ghost after = reassigned(before, key@, value@);
        let mut found = false;
        let mut i: usize = 0;
        while i < self.lines.len()
            invariant
                i <= self.lines@.len(),
                before == old(self)@,
                self.lines@.len() == before.len(),
                prefix@ == key@ + "="@,
                replacement@ == assignment(key@, value@),
                after == reassigned(before, key@, value@),
                forall|j: int| 0 <= j < i ==> #[trigger] self@[j] == after[j],
                forall|j: int| i <= j < before.len() ==> #[trigger] self@[j] == before[j],
                found == exists|j: int| 0 <= j < i && assigns(#[trigger] before[j], key@),
                self.dirty == (old(self).dirty || exists|j: int|
                    0 <= j < i && #[trigger] before[j] != after[j]),
            decreases self.lines@.len() - i,
        {
            let ghost before_i = self@[i as int];
            let ghost now = self@;
            proof {
                assert(before_i == self.lines@[i as int]@);
                assert(before_i == before[i as int]);
            }
            let line = text::trim_start(self.lines[i].as_str());
            if text::starts_with(line, prefix.as_str()) {
                proof {
                    assert(assigns(before[i as int], key@));
                }
                found = true;
                if !text::same(self.lines[i].as_str(), replacement.as_str()) {
                    self.lines[i] = replacement.clone();
                    self.dirty = true;
                    proof {
                        assert(self@ =~= now.update(i as int, replacement@));
                        assert(before[i as int] != after[i as int]);
                    }
                }
            }
            proof {
                assert(self@[i as int] == after[i as int]);
            }
            i += 1;
        }
        proof {
            if exists|j: int| 0 <= j < before.len() && #[trigger] before[j] != after[j] {
                let j = choose|j: int| 0 <= j < before.len() && #[trigger] before[j] != after[j];
                assert(self@[j] == after[j]);
                assert(self@ != before);
            }
            assert(self@ =~= after);
            if self@ != before {
                assert(exists|j: int| 0 <= j < before.len() && before[j] != after[j]) by {
                    if forall|j: int| 0 <= j < before.len() ==> before[j] == after[j] {
                        assert(before =~= after);
                    }
                }
            }
        }
        if !found {
            let ghost now = self@;
            proof {
                assert(after =~= before);
            }
            self.lines.push(replacement);
            self.dirty = true;
            proof {
                assert(self@ =~= now.push(replacement@));
                assert(self@.len() != before.len());
            }
        }
    }

    /// Makes a group of assignments, one after another.
    pub fn upsert_env_vars(&mut self, values: &[(&str, &str)])
        ensures
            final(self)@ == assigned_all(old(self)@, pair_texts(values@)),
            final(self).dirty == (old(self).dirty || disturbs(old(self)@, pair_texts(values@))),
    {
        let mut i: usize = 0;
        let ghost all = pair_texts(values@);
        while i < values.len()
            invariant
                i <= values@.len(),
                all == pair_texts(values@),
                self@ == assigned_all(old(self)@, all.take(i as int)),
                self.dirty == (old(self).dirty || disturbs(old(self)@, all.take(i as int))),
            decreases values@.len() - i,
        {
            proof {
                assert(all.take(i + 1).drop_last() =~= all.take(i as int));
            }
            self.set(values[i].0, values[i].1);
            i += 1;
        }
        proof {
            assert(all.take(i as int) =~= all);
        }
    }

    /// The file that the document stands for.
    pub fn render(&self) -> (r: String)
        ensures
            r@ == rendered(self@),
    {
        if self.lines.len() == 0 {
            String::new()
        } else {
            let mut out = text::join(&self.lines, "\n");
            out.append("\n");
            out
        }
    }
}

// ── Laws ─────────────────────────────────────────────────────────────────────

/// A key that can be read back: it does not start with white space.
pub open spec fn readable_key(key: Seq<char>) -> bool {
    key.len() > 0 ==> !is_white(key[0])
}

/// A text on one line.
pub open spec fn one_line(s: Seq<char>) -> bool {
    forall|i: int| 0 <= i < s.len() ==> #[trigger] s[i] != '\n'
}

/// An assignment assigns its value to its key.
pub proof fn lemma_assignment(key: Seq<char>, value: Seq<char>)
    requires
        readable_key(key),
    ensures
        assigns(assignment(key, value), key),
        assigned_value(assignment(key, value), key) == trimmed(value),
{
    reveal_strlit("=");
    let a = assignment(key, value);
    assert(a[0] == if key.len() > 0 {
        key[0]
    } else {
        '='
    });
    text::lemma_trim_start(a, text::white(), 0);
    assert(a.subrange(0, a.len() as int) =~= a);
    assert(a.subrange(0, (key + "="@).len() as int) =~= key + "="@);
    assert(a.subrange((key + "="@).len() as int, a.len() as int) =~= value);
}

/// A line assigns to at most one key without an equals sign.
pub proof fn lemma_one_key(line: Seq<char>, a: Seq<char>, b: Seq<char>)
    requires
        assigns(line, a),
        assigns(line, b),
        !a.contains('='),
        !b.contains('='),
    ensures
        a == b,
{
    reveal_strlit("=");
    let t = trimmed_start(line);
    let p = a + "="@;
    let q = b + "="@;
    assert forall|i: int| 0 <= i < p.len() implies t[i] == #[trigger] p[i] by {
        assert(t.subrange(0, p.len() as int)[i] == p[i]);
    }
    assert forall|i: int| 0 <= i < q.len() implies t[i] == #[trigger] q[i] by {
        assert(t.subrange(0, q.len() as int)[i] == q[i]);
    }
    assert(p[a.len() as int] == '=');
    assert(q[b.len() as int] == '=');
    if a.len() < b.len() {
        assert(q[a.len() as int] == b[a.len() as int]);
        assert(b.contains('='));
    } else if b.len() < a.len() {
        assert(p[b.len() as int] == a[b.len() as int]);
        assert(a.contains('='));
    } else {
        assert forall|i: int| 0 <= i < a.len() implies a[i] == b[i] by {
            assert(p[i] == a[i]);
            assert(q[i] == b[i]);
        }
        assert(a =~= b);
    }
}

/// The value of a key in two files that agree line by line on whether a line
/// assigns to it, and on what.
pub proof fn lemma_lookup_agrees(a: Seq<Seq<char>>, b: Seq<Seq<char>>, key: Seq<char>)
    requires
        a.len() == b.len(),
        forall|i: int| 0 <= i < a.len() ==> assigns(#[trigger] a[i], key) == assigns(b[i], key),
        forall|i: int|
            0 <= i < a.len() && assigns(#[trigger] a[i], key) ==> assigned_value(a[i], key)
                == assigned_value(b[i], key),
    ensures
        lookup(a, key) == lookup(b, key),
    decreases a.len(),
{
    if a.len() > 0 {
        assert(assigns(a[0], key) == assigns(b[0], key));
        if !assigns(a[0], key) {
            let c = a.drop_first();
            let d = b.drop_first();
            assert forall|i: int| 0 <= i < c.len() implies assigns(#[trigger] c[i], key)
                == assigns(d[i], key) by {
                assert(c[i] == a[i + 1]);
            }
            assert forall|i: int| 0 <= i < c.len() && assigns(#[trigger] c[i], key) implies
                assigned_value(c[i], key) == assigned_value(d[i], key) by {
                assert(c[i] == a[i + 1]);
            }
            lemma_lookup_agrees(c, d, key);
        }
    }
}

/// A line at the end that assigns to another key changes nothing, and one that
/// assigns to this key is read where none before it does.
pub proof fn lemma_lookup_push(lines: Seq<Seq<char>>, last: Seq<char>, key: Seq<char>)
    ensures
        lookup(lines.push(last), key) == if mentions(lines, key) || !assigns(last, key) {
            lookup(lines, key)
        } else {
            assigned_value(last, key)
        },
    decreases lines.len(),
{
    if lines.len() > 0 {
        assert(lines.push(last)[0] == lines[0]);
        if !assigns(lines[0], key) {
            assert(lines.push(last).drop_first() =~= lines.drop_first().push(last));
            lemma_lookup_push(lines.drop_first(), last, key);
            if mentions(lines, key) {
                let i = choose|i: int| 0 <= i < lines.len() && assigns(#[trigger] lines[i], key);
                assert(lines.drop_first()[i - 1] == lines[i]);
                assert(mentions(lines.drop_first(), key));
            } else if mentions(lines.drop_first(), key) {
                let i = choose|i: int|
                    0 <= i < lines.drop_first().len() && assigns(
                        #[trigger] lines.drop_first()[i],
                        key,
                    );
                assert(lines[i + 1] == lines.drop_first()[i]);
            }
        }
    } else {
        assert(lines.push(last)[0] == last);
        assert(lines.push(last).drop_first() =~= lines);
    }
}

/// Where every line that assigns to `key` assigns the same value, that value is
/// read.
pub proof fn lemma_lookup_uniform(lines: Seq<Seq<char>>, key: Seq<char>, value: Seq<char>)
    requires
        mentions(lines, key),
        forall|i: int|
            0 <= i < lines.len() && assigns(#[trigger] lines[i], key) ==> assigned_value(
                lines[i],
                key,
            ) == value,
    ensures
        lookup(lines, key) == value,
    decreases lines.len(),
{
    if !assigns(lines[0], key) {
        let rest = lines.drop_first();
        let i = choose|i: int| 0 <= i < lines.len() && assigns(#[trigger] lines[i], key);
        assert(rest[i - 1] == lines[i]);
        assert forall|j: int| 0 <= j < rest.len() && assigns(#[trigger] rest[j], key) implies
            assigned_value(rest[j], key) == value by {
            assert(rest[j] == lines[j + 1]);
        }
        lemma_lookup_uniform(rest, key, value);
    }
}

/// What was set is read: after `set` the value of the key is the value that was
/// given, without white space at its ends.
pub proof fn law_set_then_value(lines: Seq<Seq<char>>, key: Seq<char>, value: Seq<char>)
    requires
        readable_key(key),
    ensures
        lookup(assigned(lines, key, value), key) == trimmed(value),
{
    lemma_assignment(key, value);
    if mentions(lines, key) {
        let after = assigned(lines, key, value);
        let i = choose|i: int| 0 <= i < lines.len() && assigns(#[trigger] lines[i], key);
        assert(after[i] == assignment(key, value));
        lemma_lookup_uniform(after, key, trimmed(value));
    } else {
        lemma_lookup_push(lines, assignment(key, value), key);
    }
}

/// Setting one key leaves the value of every other key as it was.
pub proof fn law_set_keeps_other_keys(
    lines: Seq<Seq<char>>,
    key: Seq<char>,
    value: Seq<char>,
    other: Seq<char>,
)
    requires
        readable_key(key),
        !key.contains('='),
        !other.contains('='),
        key != other,
    ensures
        lookup(assigned(lines, key, value), other) == lookup(lines, other),
{
    lemma_assignment(key, value);
    if assigns(assignment(key, value), other) {
        lemma_one_key(assignment(key, value), key, other);
    }
    if mentions(lines, key) {
        let after = assigned(lines, key, value);
        assert forall|i: int| 0 <= i < lines.len() implies assigns(#[trigger] lines[i], other)
            == assigns(after[i], other) && (assigns(lines[i], other) ==> assigned_value(
            lines[i],
            other,
        ) == assigned_value(after[i], other)) by {
            if assigns(lines[i], key) && assigns(lines[i], other) {
                lemma_one_key(lines[i], key, other);
            }
        }
        lemma_lookup_agrees(lines, after, other);
    } else {
        lemma_lookup_push(lines, assignment(key, value), other);
    }
}

/// Setting a key leaves every line that does not assign to it as it is, in its
/// place.
pub proof fn law_set_keeps_other_lines(
    lines: Seq<Seq<char>>,
    key: Seq<char>,
    value: Seq<char>,
    i: int,
)
    requires
        0 <= i < lines.len(),
        !assigns(lines[i], key),
    ensures
        i < assigned(lines, key, value).len(),
        assigned(lines, key, value)[i] == lines[i],
{
}

/// Setting a key to the same value again changes nothing.
pub proof fn law_set_twice(lines: Seq<Seq<char>>, key: Seq<char>, value: Seq<char>)
    requires
        readable_key(key),
    ensures
        assigned(assigned(lines, key, value), key, value) == assigned(lines, key, value),
{
    lemma_assignment(key, value);
    let once = assigned(lines, key, value);
    if mentions(lines, key) {
        let i = choose|i: int| 0 <= i < lines.len() && assigns(#[trigger] lines[i], key);
        assert(once[i] == assignment(key, value));
    } else {
        assert(once.last() == assignment(key, value));
        assert(once[once.len() - 1] == once.last());
    }
    assert(mentions(once, key));
    assert forall|i: int| 0 <= i < once.len() implies reassigned(once, key, value)[i]
        == once[i] by {
        if !mentions(lines, key) && i < lines.len() {
            assert(once[i] == lines[i]);
        }
    }
    assert(reassigned(once, key, value) =~= once);
}

/// The pieces of a text that ends with the character between the pieces.
proof fn lemma_pieces_ended(s: Seq<char>, t: Seq<char>, d: char)
    requires
        forall|i: int| 0 <= i < t.len() ==> t[i] != d,
    ensures
        pieces(s.push(d) + t, d) == pieces(s, d).push(t),
    decreases t.len(),
{
    let whole = s.push(d) + t;
    if t.len() == 0 {
        assert(whole =~= s.push(d));
        assert(whole.drop_last() =~= s);
        assert(t =~= Seq::<char>::empty());
    } else {
        assert(whole.drop_last() =~= s.push(d) + t.drop_last());
        lemma_pieces_ended(s, t.drop_last(), d);
        let before = pieces(s, d).push(t.drop_last());
        assert(before.drop_last() =~= pieces(s, d));
        assert(t.drop_last().push(t.last()) =~= t);
        assert(whole.last() == t.last());
    }
}

/// The pieces of a text without the character between the pieces.
proof fn lemma_pieces_single(t: Seq<char>, d: char)
    requires
        forall|i: int| 0 <= i < t.len() ==> t[i] != d,
    ensures
        pieces(t, d) == seq![t],
    decreases t.len(),
{
    if t.len() == 0 {
        assert(t =~= Seq::<char>::empty());
    } else {
        lemma_pieces_single(t.drop_last(), d);
        let before = seq![t.drop_last()];
        assert(before.drop_last() =~= Seq::<Seq<char>>::empty());
        assert(t.drop_last().push(t.last()) =~= t);
        assert(pieces(t, d) =~= seq![t]);
    }
}

/// The pieces of lines joined by line feeds are those lines.
proof fn lemma_joined_pieces(lines: Seq<Seq<char>>)
    requires
        lines.len() > 0,
        forall|i: int| 0 <= i < lines.len() ==> one_line(#[trigger] lines[i]),
    ensures
        pieces(joined(lines, "\n"@), '\n') == lines,
    decreases lines.len(),
{
    reveal_strlit("\n");
    let last = lines.last();
    assert(one_line(lines[lines.len() - 1]));
    if lines.len() == 1 {
        lemma_pieces_single(last, '\n');
        assert(lines =~= seq![last]);
    } else {
        let front = lines.drop_last();
        assert forall|i: int| 0 <= i < front.len() implies one_line(#[trigger] front[i]) by {
            assert(front[i] == lines[i]);
        }
        lemma_joined_pieces(front);
        let j = joined(front, "\n"@);
        lemma_pieces_ended(j, last, '\n');
        assert(j + "\n"@ + last =~= j.push('\n') + last);
        assert(front.push(last) =~= lines);
    }
}

/// What a rendered document reads back as: its lines, each without a carriage
/// return at its end.
pub proof fn lemma_rendered_lines(lines: Seq<Seq<char>>)
    requires
        forall|i: int| 0 <= i < lines.len() ==> one_line(#[trigger] lines[i]),
    ensures
        lines_of(rendered(lines)) == lines.map_values(|l: Seq<char>| without_return(l)),
{
    reveal_strlit("\n");
    let f = |l: Seq<char>| without_return(l);
    if lines.len() == 0 {
        assert(lines_of(rendered(lines)) =~= lines.map_values(f));
    } else {
        lemma_joined_pieces(lines);
        let j = joined(lines, "\n"@);
        let none = Seq::<char>::empty();
        lemma_pieces_ended(j, none, '\n');
        assert(j + "\n"@ =~= j.push('\n') + none);
        let p = pieces(rendered(lines), '\n');
        assert(p == lines.push(none));
        assert(p.drop_last() =~= lines);
        assert(p.last() == none);
    }
}

/// Rendering a document and parsing it again gives the same lines, where each
/// is one line and none ends with a carriage return.
pub proof fn law_render_then_parse(lines: Seq<Seq<char>>)
    requires
        forall|i: int| 0 <= i < lines.len() ==> one_line(#[trigger] lines[i]),
        forall|i: int|
            0 <= i < lines.len() && (#[trigger] lines[i]).len() > 0 ==> lines[i].last() != '\r',
    ensures
        lines_of(rendered(lines)) == lines,
{
    lemma_rendered_lines(lines);
    let f = |l: Seq<char>| without_return(l);
    assert forall|i: int| 0 <= i < lines.len() implies lines.map_values(f)[i] == lines[i] by {
        assert(lines[i].len() > 0 ==> lines[i].last() != '\r');
    }
    assert(lines.map_values(f) =~= lines);
}

/// The lines of a file hold no line feed.
pub proof fn lemma_parsed_lines(content: Seq<char>)
    ensures
        forall|i: int| 0 <= i < lines_of(content).len() ==> one_line(#[trigger] lines_of(content)[i]),
{
    let p = pieces(content, '\n');
    text::lemma_pieces_some(content, '\n');
    text::lemma_pieces_free(content, '\n');
    assert forall|i: int| 0 <= i < lines_of(content).len() implies one_line(
        #[trigger] lines_of(content)[i],
    ) by {
        let l = lines_of(content)[i];
        assert forall|j: int| 0 <= j < l.len() implies #[trigger] l[j] != '\n' by {
            assert(p[i][j] != '\n');
        }
    }
}

/// A carriage return at the end of a line plays no part in what it assigns.
proof fn lemma_without_return(line: Seq<char>, key: Seq<char>)
    ensures
        assigns(without_return(line), key) == assigns(line, key),
        assigns(line, key) ==> assigned_value(without_return(line), key) == assigned_value(
            line,
            key,
        ),
{
    reveal_strlit("=");
    if line.len() > 0 && line.last() == '\r' {
        let w = text::white();
        let m = line.drop_last();
        let p = key + "="@;
        text::lemma_trim_start_shape(line, w);
        text::lemma_trim_start_shape(m, w);
        let t = trimmed_start(line);
        let u = trimmed_start(m);
        assert(is_white('\r'));
        assert(p.last() == '=');
        if t.len() == 0 {
            // White space only.
            if u.len() > 0 {
                assert(u[0] == m[m.len() - u.len()]);
                assert(w(line[m.len() - u.len()]));
            }
            assert(!p.is_prefix_of(t));
            assert(!p.is_prefix_of(u));
        } else {
            let k = line.len() - t.len();
            assert(t[0] == line[k]);
            assert(t.len() > 1) by {
                if t.len() == 1 {
                    assert(t[0] == line.last());
                }
            }
            assert forall|j: int| 0 <= j < k implies w(#[trigger] m[j]) by {
                assert(m[j] == line[j]);
            }
            text::lemma_trim_start(m, w, k as int);
            assert(u =~= t.drop_last());
            assert(t.last() == '\r');
            if p.is_prefix_of(t) {
                assert(t.subrange(0, p.len() as int)[p.len() - 1] == '=');
                assert(p.len() < t.len());
                assert(u.subrange(0, p.len() as int) =~= t.subrange(0, p.len() as int));
                let a = t.subrange(p.len() as int, t.len() as int);
                let b = u.subrange(p.len() as int, u.len() as int);
                assert(b =~= a.drop_last());
                assert(a.last() == '\r');
                lemma_trim_last_white(a);
            }
            if p.is_prefix_of(u) {
                assert(u.subrange(0, p.len() as int) =~= t.subrange(0, p.len() as int));
            }
        }
    }
}

/// White space at the end plays no part in the trimmed text.
proof fn lemma_trim_last_white(a: Seq<char>)
    requires
        a.len() > 0,
        is_white(a.last()),
    ensures
        trimmed(a.drop_last()) == trimmed(a),
{
    let w = text::white();
    let b = a.drop_last();
    text::lemma_trim_start_shape(a, w);
    text::lemma_trim_start_shape(b, w);
    let t = trimmed_start(a);
    let u = trimmed_start(b);
    if t.len() == 0 {
        if u.len() > 0 {
            assert(u[0] == b[b.len() - u.len()]);
            assert(w(a[b.len() - u.len()]));
        }
        assert(u =~= t);
    } else {
        let k = a.len() - t.len();
        assert(t[0] == a[k]);
        assert(t.len() > 1) by {
            if t.len() == 1 {
                assert(t[0] == a.last());
            }
        }
        assert forall|j: int| 0 <= j < k implies w(#[trigger] b[j]) by {
            assert(b[j] == a[j]);
        }
        text::lemma_trim_start(b, w, k as int);
        assert(u =~= t.drop_last());
        assert(w(t.last()));
    }
}

/// The value of a key in a document is that in the file it renders to.
pub proof fn law_render_keeps_values(lines: Seq<Seq<char>>, key: Seq<char>)
    requires
        forall|i: int| 0 <= i < lines.len() ==> one_line(#[trigger] lines[i]),
    ensures
        lookup(lines_of(rendered(lines)), key) == lookup(lines, key),
{
    lemma_rendered_lines(lines);
    let read = lines_of(rendered(lines));
    assert forall|i: int| 0 <= i < lines.len() implies assigns(#[trigger] lines[i], key)
        == assigns(read[i], key) && (assigns(lines[i], key) ==> assigned_value(lines[i], key)
        == assigned_value(read[i], key)) by {
        lemma_without_return(lines[i], key);
    }
    lemma_lookup_agrees(lines, read, key);
}

/// An assignment of one-line texts keeps every line one line.
proof fn lemma_assigned_one_line(lines: Seq<Seq<char>>, key: Seq<char>, value: Seq<char>)
    requires
        one_line(key),
        one_line(value),
        forall|i: int| 0 <= i < lines.len() ==> one_line(#[trigger] lines[i]),
    ensures
        forall|i: int|
            0 <= i < assigned(lines, key, value).len() ==> one_line(
                #[trigger] assigned(lines, key, value)[i],
            ),
{
    reveal_strlit("=");
    let a = assignment(key, value);
    assert(one_line(a)) by {
        assert forall|i: int| 0 <= i < a.len() implies #[trigger] a[i] != '\n' by {
            if i < key.len() {
                assert(a[i] == key[i]);
            } else if i > key.len() {
                assert(a[i] == value[i - key.len() - 1]);
            }
        }
    }
    assert forall|i: int| 0 <= i < assigned(lines, key, value).len() implies one_line(
        #[trigger] assigned(lines, key, value)[i],
    ) by {
        if i < lines.len() {
            assert(one_line(lines[i]));
        }
    }
}

/// What is written to the file is read from it: parse, set, render, and parse
/// again gives the value that was set.
pub proof fn law_write_then_read(content: Seq<char>, key: Seq<char>, value: Seq<char>)
    requires
        readable_key(key),
        one_line(key),
        one_line(value),
    ensures
        lookup(lines_of(rendered(assigned(lines_of(content), key, value))), key) == trimmed(value),
{
    lemma_parsed_lines(content);
    lemma_assigned_one_line(lines_of(content), key, value);
    law_render_keeps_values(assigned(lines_of(content), key, value), key);
    law_set_then_value(lines_of(content), key, value);
}

/// Writing one key to the file leaves what is read of every other key.
pub proof fn law_write_keeps_other_keys(
    content: Seq<char>,
    key: Seq<char>,
    value: Seq<char>,
    other: Seq<char>,
)
    requires
        readable_key(key),
        one_line(key),
        one_line(value),
        !key.contains('='),
        !other.contains('='),
        key != other,
    ensures
        lookup(lines_of(rendered(assigned(lines_of(content), key, value))), other) == lookup(
            lines_of(content),
            other,
        ),
{
    lemma_parsed_lines(content);
    lemma_assigned_one_line(lines_of(content), key, value);
    law_render_keeps_values(assigned(lines_of(content), key, value), other);
    law_set_keeps_other_keys(lines_of(content), key, value, other);
}

/// Each assignment of a group whose keys differ is read back, whatever its place
/// in the group.
pub proof fn law_group_then_value(
    lines: Seq<Seq<char>>,
    values: Seq<(Seq<char>, Seq<char>)>,
    i: int,
)
    requires
        0 <= i < values.len(),
        forall|j: int|
            0 <= j < values.len() ==> readable_key((#[trigger] values[j]).0)
                && !values[j].0.contains('='),
        forall|j: int, k: int|
            0 <= j < k < values.len() ==> (#[trigger] values[j]).0 != (#[trigger] values[k]).0,
    ensures
        lookup(assigned_all(lines, values), values[i].0) == trimmed(values[i].1),
    decreases values.len(),
{
    let front = values.drop_last();
    let last = values.last();
    let before = assigned_all(lines, front);
    assert(last == values[values.len() - 1]);
    if i == values.len() - 1 {
        law_set_then_value(before, last.0, last.1);
    } else {
        assert(front[i] == values[i]);
        assert(values[i].0 != values[values.len() - 1].0);
        law_group_then_value(lines, front, i);
        law_set_keeps_other_keys(before, last.0, last.1, values[i].0);
    }
}

/// A group of assignments leaves the value of every key outside the group.
pub proof fn law_group_keeps_other_keys(
    lines: Seq<Seq<char>>,
    values: Seq<(Seq<char>, Seq<char>)>,
    other: Seq<char>,
)
    requires
        forall|j: int|
            0 <= j < values.len() ==> readable_key((#[trigger] values[j]).0)
                && !values[j].0.contains('=') && values[j].0 != other,
        !other.contains('='),
    ensures
        lookup(assigned_all(lines, values), other) == lookup(lines, other),
    decreases values.len(),
{
    if values.len() > 0 {
        let front = values.drop_last();
        let last = values.last();
        assert(last == values[values.len() - 1]);
        assert forall|j: int| 0 <= j < front.len() implies readable_key((#[trigger] front[j]).0)
            && !front[j].0.contains('=') && front[j].0 != other by {
            assert(front[j] == values[j]);
        }
        law_group_keeps_other_keys(lines, front, other);
        law_set_keeps_other_keys(assigned_all(lines, front), last.0, last.1, other);
    }
}

/// A group of one-line assignments keeps every line one line.
proof fn lemma_group_one_line(lines: Seq<Seq<char>>, values: Seq<(Seq<char>, Seq<char>)>)
    requires
        forall|i: int| 0 <= i < lines.len() ==> one_line(#[trigger] lines[i]),
        forall|j: int|
            0 <= j < values.len() ==> one_line((#[trigger] values[j]).0) && one_line(values[j].1),
    ensures
        forall|i: int|
            0 <= i < assigned_all(lines, values).len() ==> one_line(
                #[trigger] assigned_all(lines, values)[i],
            ),
    decreases values.len(),
{
    if values.len() > 0 {
        let front = values.drop_last();
        let last = values.last();
        assert(last == values[values.len() - 1]);
        assert forall|j: int| 0 <= j < front.len() implies one_line((#[trigger] front[j]).0)
            && one_line(front[j].1) by {
            assert(front[j] == values[j]);
        }
        lemma_group_one_line(lines, front);
        lemma_assigned_one_line(assigned_all(lines, front), last.0, last.1);
    }
}

/// A group is published whole: whoever reads the file after it was written reads each
/// of its values, and of every other key what stood in the file before.
pub proof fn law_group_is_published_whole(
    content: Seq<char>,
    values: Seq<(Seq<char>, Seq<char>)>,
    i: int,
    other: Seq<char>,
)
    requires
        0 <= i < values.len(),
        forall|j: int|
            0 <= j < values.len() ==> readable_key((#[trigger] values[j]).0)
                && !values[j].0.contains('=') && values[j].0 != other && one_line(values[j].0)
                && one_line(values[j].1),
        forall|j: int, k: int|
            0 <= j < k < values.len() ==> (#[trigger] values[j]).0 != (#[trigger] values[k]).0,
        !other.contains('='),
    ensures
        ({
            let read = lines_of(rendered(assigned_all(lines_of(content), values)));
            &&& lookup(read, values[i].0) == trimmed(values[i].1)
            &&& lookup(read, other) == lookup(lines_of(content), other)
        }),
{
    let lines = lines_of(content);
    lemma_parsed_lines(content);
    lemma_group_one_line(lines, values);
    law_render_keeps_values(assigned_all(lines, values), values[i].0);
    law_render_keeps_values(assigned_all(lines, values), other);
    law_group_then_value(lines, values, i);
    law_group_keeps_other_keys(lines, values, other);
}

} // verus!
