//! Lists in the order of their texts.
use vstd::prelude::*;
use vstd::relations::{sorted_by, total_ordering};
use vstd::seq_lib::lemma_sorted_unique;
use vstd::set_lib::{lemma_int_range, lemma_subset_equality, set_int_range};
use crate::text;
use crate::text::{
    before, lemma_before_asymmetric, lemma_before_irreflexive, lemma_before_total,
    lemma_before_transitive, texts,
};

verus! {

/// Whether the item with the key `keys[i]` comes ahead of the one with `keys[j]`:
/// by their keys, and by their places where the keys are the same.
pub open spec fn goes_ahead(keys: Seq<Seq<char>>, falling: bool, i: int, j: int) -> bool {
    if keys[i] == keys[j] {
        i < j
    } else if falling {
        before(keys[j], keys[i])
    } else {
        before(keys[i], keys[j])
    }
}

/// Whether `order` lists the places from `from` on in their order.
pub open spec fn is_order_from(
    keys: Seq<Seq<char>>,
    falling: bool,
    from: int,
    order: Seq<int>,
) -> bool {
    &&& order.len() == keys.len() - from
    &&& forall|a: int| 0 <= a < order.len() ==> from <= #[trigger] order[a] < keys.len()
    &&& forall|a: int, b: int|
        0 <= a < b < order.len() ==> goes_ahead(
            keys,
            falling,
            #[trigger] order[a],
            #[trigger] order[b],
        )
}

/// Whether `order` lists the places of all keys in their order.
pub open spec fn is_order(keys: Seq<Seq<char>>, falling: bool, order: Seq<int>) -> bool {
    is_order_from(keys, falling, 0, order)
}

/// The places of all keys in their order.
pub open spec fn order_of(keys: Seq<Seq<char>>, falling: bool) -> Seq<int> {
    choose|order: Seq<int>| is_order(keys, falling, order)
}

/// Items in the order of their keys.
pub open spec fn in_order<T>(items: Seq<T>, keys: Seq<Seq<char>>, falling: bool) -> Seq<T> {
    order_of(keys, falling).map_values(|i: int| items[i])
}

// ── The order ────────────────────────────────────────────────────────────────

/// Of two places one goes ahead.
proof fn lemma_ahead_total(keys: Seq<Seq<char>>, falling: bool, i: int, j: int)
    requires
        i != j,
    ensures
        goes_ahead(keys, falling, i, j) == !goes_ahead(keys, falling, j, i),
{
    lemma_before_total(keys[i], keys[j]);
    if before(keys[i], keys[j]) {
        lemma_before_asymmetric(keys[i], keys[j]);
    }
    if before(keys[j], keys[i]) {
        lemma_before_asymmetric(keys[j], keys[i]);
    }
}

/// What goes ahead of one place goes ahead of those behind it.
proof fn lemma_ahead_transitive(keys: Seq<Seq<char>>, falling: bool, i: int, j: int, k: int)
    requires
        goes_ahead(keys, falling, i, j),
        goes_ahead(keys, falling, j, k),
    ensures
        goes_ahead(keys, falling, i, k),
{
    if keys[i] != keys[j] && keys[j] != keys[k] {
        if falling {
            lemma_before_transitive(keys[k], keys[j], keys[i]);
        } else {
            lemma_before_transitive(keys[i], keys[j], keys[k]);
        }
        lemma_before_irreflexive(keys[i]);
    }
}

/// The place ahead of `from` is put in where all before go ahead of it and all
/// behind do not.
proof fn lemma_put_in(keys: Seq<Seq<char>>, falling: bool, from: int, order: Seq<int>, p: int)
    requires
        0 < from <= keys.len(),
        is_order_from(keys, falling, from, order),
        0 <= p <= order.len(),
        forall|a: int| 0 <= a < p ==> goes_ahead(keys, falling, #[trigger] order[a], from - 1),
        p < order.len() ==> !goes_ahead(keys, falling, order[p], from - 1),
    ensures
        is_order_from(keys, falling, from - 1, order.insert(p, from - 1)),
{
    let longer = order.insert(p, from - 1);
    assert forall|a: int, b: int| 0 <= a < b < longer.len() implies goes_ahead(
        keys,
        falling,
        #[trigger] longer[a],
        #[trigger] longer[b],
    ) by {
        if a == p {
            lemma_ahead_total(keys, falling, order[p], from - 1);
            if b > p + 1 {
                assert(goes_ahead(keys, falling, order[p], order[b - 1]));
                lemma_ahead_transitive(keys, falling, from - 1, order[p], order[b - 1]);
            }
        }
    }
}

/// The place at which the one ahead of `from` is put in.
proof fn lemma_has_place(
    keys: Seq<Seq<char>>,
    falling: bool,
    from: int,
    order: Seq<int>,
    p: int,
) -> (r: int)
    requires
        0 < from <= keys.len(),
        is_order_from(keys, falling, from, order),
        0 <= p <= order.len(),
        forall|a: int| 0 <= a < p ==> goes_ahead(keys, falling, #[trigger] order[a], from - 1),
    ensures
        0 <= r <= order.len(),
        forall|a: int| 0 <= a < r ==> goes_ahead(keys, falling, #[trigger] order[a], from - 1),
        r < order.len() ==> !goes_ahead(keys, falling, order[r], from - 1),
    decreases order.len() - p,
{
    if p < order.len() && goes_ahead(keys, falling, order[p], from - 1) {
        lemma_has_place(keys, falling, from, order, p + 1)
    } else {
        p
    }
}

/// The places from `from` on have an order.
proof fn lemma_has_order(keys: Seq<Seq<char>>, falling: bool, from: int) -> (r: Seq<int>)
    requires
        0 <= from <= keys.len(),
    ensures
        is_order_from(keys, falling, from, r),
    decreases keys.len() - from,
{
    if from == keys.len() {
        Seq::empty()
    } else {
        let rest = lemma_has_order(keys, falling, from + 1);
        let p = lemma_has_place(keys, falling, from + 1, rest, 0);
        lemma_put_in(keys, falling, from + 1, rest, p);
        rest.insert(p, from)
    }
}

/// An order has every place once.
pub proof fn lemma_order_has_all(keys: Seq<Seq<char>>, falling: bool, order: Seq<int>)
    requires
        is_order(keys, falling, order),
    ensures
        order.no_duplicates(),
        order.to_set() == set_int_range(0, keys.len() as int),
{
    assert forall|a: int, b: int| 0 <= a < order.len() && 0 <= b < order.len() && a != b implies
        order[a] != order[b] by {
        if a < b {
            assert(goes_ahead(keys, falling, order[a], order[b]));
        } else {
            assert(goes_ahead(keys, falling, order[b], order[a]));
        }
    }
    let all = set_int_range(0, keys.len() as int);
    lemma_int_range(0, keys.len() as int);
    order.unique_seq_to_set();
    assert forall|i: int| order.to_set().contains(i) implies all.contains(i) by {
        let a = choose|a: int| 0 <= a < order.len() && order[a] == i;
        assert(0 <= order[a] < keys.len());
    }
    lemma_subset_equality(order.to_set(), all);
}

/// Keys have one order.
pub proof fn law_order_is_unique(keys: Seq<Seq<char>>, falling: bool, a: Seq<int>, b: Seq<int>)
    requires
        is_order(keys, falling, a),
        is_order(keys, falling, b),
    ensures
        a == b,
{
    let leq = |i: int, j: int| i == j || goes_ahead(keys, falling, i, j);
    assert(total_ordering(leq)) by {
        assert forall|i: int, j: int| #[trigger] leq(i, j) || #[trigger] leq(j, i) by {
            if i != j {
                lemma_ahead_total(keys, falling, i, j);
            }
        }
        assert forall|i: int, j: int| #[trigger] leq(i, j) && #[trigger] leq(j, i) implies i == j by {
            if i != j {
                lemma_ahead_total(keys, falling, i, j);
            }
        }
        assert forall|i: int, j: int, k: int| #[trigger] leq(i, j) && #[trigger] leq(j, k) implies leq(
            i,
            k,
        ) by {
            if i != j && j != k {
                lemma_ahead_transitive(keys, falling, i, j, k);
            }
        }
    }
    lemma_order_has_all(keys, falling, a);
    lemma_order_has_all(keys, falling, b);
    a.lemma_multiset_has_no_duplicates();
    b.lemma_multiset_has_no_duplicates();
    assert(a.to_multiset() =~= b.to_multiset()) by {
        assert forall|i: int| a.to_multiset().count(i) == b.to_multiset().count(i) by {
            a.to_multiset_ensures();
            b.to_multiset_ensures();
            assert(a.contains(i) <==> a.to_set().contains(i));
            assert(b.contains(i) <==> b.to_set().contains(i));
        }
    }
    lemma_sorted_unique(a, b, leq);
}

/// Items stand in the order of their keys, and none is lost: each place is taken
/// once, no key stands behind one that it goes ahead of, and items with the same
/// key stay in the order in which they came.
pub proof fn law_in_order(keys: Seq<Seq<char>>, falling: bool)
    ensures
        is_order(keys, falling, order_of(keys, falling)),
        order_of(keys, falling).no_duplicates(),
        order_of(keys, falling).to_set() == set_int_range(0, keys.len() as int),
{
    let order = lemma_has_order(keys, falling, 0);
    assert(is_order(keys, falling, order));
    lemma_order_has_all(keys, falling, order_of(keys, falling));
}

/// What items are mapped to stands in the same order as the items.
pub proof fn lemma_in_order_mapped<T, U>(
    items: Seq<T>,
    f: spec_fn(T) -> U,
    keys: Seq<Seq<char>>,
    falling: bool,
)
    requires
        items.len() == keys.len(),
    ensures
        in_order(items, keys, falling).map_values(f) == in_order(
            items.map_values(f),
            keys,
            falling,
        ),
{
    law_in_order(keys, falling);
    assert(in_order(items, keys, falling).map_values(f) =~= in_order(
        items.map_values(f),
        keys,
        falling,
    ));
}

/// An item stands somewhere in the order of the keys.
pub proof fn lemma_in_order_has<T>(
    items: Seq<T>,
    keys: Seq<Seq<char>>,
    falling: bool,
    i: int,
) -> (r: int)
    requires
        items.len() == keys.len(),
        0 <= i < items.len(),
    ensures
        0 <= r < items.len(),
        in_order(items, keys, falling).len() == items.len(),
        in_order(items, keys, falling)[r] == items[i],
{
    law_in_order(keys, falling);
    let order = order_of(keys, falling);
    assert(set_int_range(0, keys.len() as int).contains(i));
    assert(order.to_set().contains(i));
    choose|r: int| 0 <= r < order.len() && order[r] == i
}

// ── Sorting ──────────────────────────────────────────────────────────────────

/// Whether the item at `i` goes ahead of the one at `j`.
fn is_ahead(keys: &Vec<String>, falling: bool, i: usize, j: usize) -> (r: bool)
    requires
        i < keys@.len(),
        j < keys@.len(),
    ensures
        r == goes_ahead(texts(keys@), falling, i as int, j as int),
{
    let (a, b) = (keys[i].as_str(), keys[j].as_str());
    if text::same(a, b) {
        i < j
    } else if falling {
        text::is_before(b, a)
    } else {
        text::is_before(a, b)
    }
}

/// Items in the order of their keys.
pub fn sort<T>(items: Vec<T>, keys: &Vec<String>, falling: bool) -> (r: Vec<T>)
    requires
        items@.len() == keys@.len(),
    ensures
        r@ == in_order(items@, texts(keys@), falling),
{
    let ghost all = items@;
    let ghost ks = texts(keys@);
    let mut rest = items;
    let mut out: Vec<T> = Vec::new();
    let mut order: Vec<usize> = Vec::new();
    let ghost mut places: Seq<int> = Seq::empty();
    let mut from: usize = keys.len();
    while from > 0
        invariant
            from <= keys@.len(),
            all.len() == keys@.len(),
            ks == texts(keys@),
            rest@ == all.take(from as int),
            order@.len() == places.len(),
            forall|a: int|
                    #![trigger places[a]]
                    #![trigger order@[a]]
                    0 <= a < places.len() ==> places[a] == order@[a],
            is_order_from(ks, falling, from as int, places),
            out@ == places.map_values(|i: int| all[i]),
        decreases from,
    {
        let mut p: usize = 0;
        while p < order.len() && is_ahead(keys, falling, order[p], from - 1)
            invariant
                0 < from <= keys@.len(),
                ks == texts(keys@),
                order@.len() == places.len(),
                forall|a: int|
                    #![trigger places[a]]
                    #![trigger order@[a]]
                    0 <= a < places.len() ==> places[a] == order@[a],
                is_order_from(ks, falling, from as int, places),
                p <= order@.len(),
                forall|a: int| 0 <= a < p ==> goes_ahead(ks, falling, #[trigger] places[a], from - 1),
            ensures
                p < places.len() ==> !goes_ahead(ks, falling, places[p as int], from - 1),
            decreases order@.len() - p,
        {
            assert(goes_ahead(ks, falling, places[p as int], from - 1));
            p += 1;
        }
        proof {
            lemma_put_in(ks, falling, from as int, places, p as int);
        }
        if let Some(item) = rest.pop() {
            out.insert(p, item);
        }
        order.insert(p, from - 1);
        proof {
            places = places.insert(p as int, from - 1);
            assert(out@ =~= places.map_values(|i: int| all[i]));
            assert(rest@ =~= all.take(from - 1));
        }
        from -= 1;
    }
    proof {
        law_in_order(ks, falling);
        law_order_is_unique(ks, falling, places, order_of(ks, falling));
    }
    out
}

} // verus!
