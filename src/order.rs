//! Stable alphabetical order of rows by an optional key: rows with a key
//! come first, by key; rows without one come last; equal keys keep their
//! order.
use crate::text::{
    chars_equal, lemma_seq_lt_irreflexive, lemma_seq_lt_total, lemma_seq_lt_transitive, less_than,
    seq_lt,
};
use vstd::prelude::*;

verus! {

/// Whether row `ia` with key `ka` goes before row `ib` with key `kb`.
pub open spec fn row_before(ka: Option<Seq<char>>, ia: int, kb: Option<Seq<char>>, ib: int) -> bool {
    match (ka, kb) {
        (Some(a), Some(b)) => seq_lt(a, b) || (a == b && ia < ib),
        (Some(_), None) => true,
        (None, Some(_)) => false,
        (None, None) => ia < ib,
    }
}

/// The key of a row as a sequence.
pub open spec fn key_view(k: Option<Vec<char>>) -> Option<Seq<char>> {
    match k {
        Some(v) => Some(v@),
        None => None,
    }
}

/// The keys of all rows as sequences.
pub open spec fn keys_view(keys: Seq<Option<Vec<char>>>) -> Seq<Option<Seq<char>>> {
    keys.map_values(|k: Option<Vec<char>>| key_view(k))
}

/// Whether `order` lists every row of `keys` once, in alphabetical order.
pub open spec fn is_alphabetical(keys: Seq<Option<Seq<char>>>, order: Seq<usize>) -> bool {
    &&& order.len() == keys.len()
    &&& forall|k: int| 0 <= k < order.len() ==> #[trigger] order[k] < keys.len()
    &&& forall|k: int, l: int|
        0 <= k < l < order.len() ==> row_before(
            keys[order[k] as int],
            order[k] as int,
            keys[order[l] as int],
            order[l] as int,
        )
}

proof fn lemma_row_before_transitive(
    ka: Option<Seq<char>>,
    ia: int,
    kb: Option<Seq<char>>,
    ib: int,
    kc: Option<Seq<char>>,
    ic: int,
)
    requires
        row_before(ka, ia, kb, ib),
        row_before(kb, ib, kc, ic),
    ensures
        row_before(ka, ia, kc, ic),
{
    if ka is Some && kb is Some && kc is Some {
        let (a, b, c) = (ka->0, kb->0, kc->0);
        if seq_lt(a, b) && seq_lt(b, c) {
            lemma_seq_lt_transitive(a, b, c);
        }
    }
}

proof fn lemma_row_before_total(ka: Option<Seq<char>>, ia: int, kb: Option<Seq<char>>, ib: int)
    requires
        ia != ib,
    ensures
        row_before(ka, ia, kb, ib) || row_before(kb, ib, ka, ia),
{
    if ka is Some && kb is Some {
        lemma_seq_lt_total(ka->0, kb->0);
    }
}

proof fn lemma_row_before_irreflexive(ka: Option<Seq<char>>, ia: int)
    ensures
        !row_before(ka, ia, ka, ia),
{
    if ka is Some {
        lemma_seq_lt_irreflexive(ka->0);
    }
}

/// Whether row `ia` with key `ka` goes before row `ib` with key `kb`.
fn precedes(ka: &Option<Vec<char>>, ia: usize, kb: &Option<Vec<char>>, ib: usize) -> (r: bool)
    ensures
        r == row_before(key_view(*ka), ia as int, key_view(*kb), ib as int),
{
    match (ka, kb) {
        (Some(a), Some(b)) => less_than(a, b) || (chars_equal(a, b) && ia < ib),
        (Some(_), None) => true,
        (None, Some(_)) => false,
        (None, None) => ia < ib,
    }
}

/// The rows `0..keys.len()` in alphabetical order.
pub fn alphabetical_order(keys: &Vec<Option<Vec<char>>>) -> (order: Vec<usize>)
    ensures
        is_alphabetical(keys_view(keys@), order@),
{
    let ghost kv = keys_view(keys@);
    let mut order: Vec<usize> = Vec::new();
    let mut i: usize = 0;
    while i < keys.len()
        invariant
            i <= keys@.len(),
            kv == keys_view(keys@),
            kv.len() == keys@.len(),
            order@.len() == i,
            forall|k: int| 0 <= k < order@.len() ==> #[trigger] order@[k] < i,
            forall|k: int, l: int|
                0 <= k < l < order@.len() ==> row_before(
                    kv[order@[k] as int],
                    order@[k] as int,
                    kv[order@[l] as int],
                    order@[l] as int,
                ),
        decreases keys@.len() - i,
    {
        let mut pos: usize = 0;
        while pos < order.len() && !precedes(&keys[i], i, &keys[order[pos]], order[pos])
            invariant
                pos <= order@.len(),
                i < keys@.len(),
                kv == keys_view(keys@),
                kv.len() == keys@.len(),
                forall|k: int| 0 <= k < order@.len() ==> #[trigger] order@[k] < i,
                forall|k: int|
                    0 <= k < pos ==> row_before(
                        kv[order@[k] as int],
                        order@[k] as int,
                        kv[i as int],
                        i as int,
                    ),
            decreases order@.len() - pos,
        {
            proof {
                assert(kv[order@[pos as int] as int] == key_view(keys@[order@[pos as int] as int]));
                assert(kv[i as int] == key_view(keys@[i as int]));
                lemma_row_before_total(
                    kv[i as int],
                    i as int,
                    kv[order@[pos as int] as int],
                    order@[pos as int] as int,
                );
            }
            pos += 1;
        }
        let ghost old_order = order@;
        proof {
            assert(kv[i as int] == key_view(keys@[i as int]));
            if pos < old_order.len() {
                assert(kv[old_order[pos as int] as int] == key_view(keys@[old_order[pos as int] as int]));
                assert forall|l: int| pos <= l < old_order.len() implies row_before(
                    kv[i as int],
                    i as int,
                    kv[old_order[l] as int],
                    old_order[l] as int,
                ) by {
                    if l > pos {
                        lemma_row_before_transitive(
                            kv[i as int],
                            i as int,
                            kv[old_order[pos as int] as int],
                            old_order[pos as int] as int,
                            kv[old_order[l] as int],
                            old_order[l] as int,
                        );
                    }
                }
            }
        }
        order.insert(pos, i);
        proof {
            assert forall|k: int, l: int| 0 <= k < l < order@.len() implies row_before(
                kv[order@[k] as int],
                order@[k] as int,
                kv[order@[l] as int],
                order@[l] as int,
            ) by {
                if k < pos && l < pos {
                    assert(order@[k] == old_order[k] && order@[l] == old_order[l]);
                } else if k < pos && l == pos {
                } else if k < pos {
                    assert(order@[k] == old_order[k] && order@[l] == old_order[l - 1]);
                    lemma_row_before_transitive(
                        kv[old_order[k] as int],
                        old_order[k] as int,
                        kv[i as int],
                        i as int,
                        kv[old_order[l - 1] as int],
                        old_order[l - 1] as int,
                    );
                } else if k == pos {
                    assert(order@[l] == old_order[l - 1]);
                } else {
                    assert(order@[k] == old_order[k - 1] && order@[l] == old_order[l - 1]);
                }
            }
        }
        i += 1;
    }
    order
}

/// An alphabetical order is unique: two orders of the same keys that are
/// both alphabetical are equal.
pub proof fn lemma_alphabetical_unique(keys: Seq<Option<Seq<char>>>, a: Seq<usize>, b: Seq<usize>)
    requires
        is_alphabetical(keys, a),
        is_alphabetical(keys, b),
    ensures
        a == b,
{
    assert forall|k: int| 0 <= k < a.len() implies a[k] == b[k] by {
        lemma_alphabetical_position(keys, a, b, k);
    }
    assert(a =~= b);
}

/// In an alphabetical order, the row at place `k` has exactly `k` rows
/// before it.
proof fn lemma_alphabetical_position(keys: Seq<Option<Seq<char>>>, a: Seq<usize>, b: Seq<usize>, k: int)
    requires
        is_alphabetical(keys, a),
        is_alphabetical(keys, b),
        0 <= k < a.len(),
    ensures
        a[k] == b[k],
{
    let x = a[k];
    lemma_rank(keys, a, k);
    let m = choose|m: int| 0 <= m < b.len() && b[m] == x;
    lemma_members(keys, b, x as int);
    lemma_rank(keys, b, m);
    if m != k {
        assert(a[k] == b[m]);
    }
    assert(m == k);
}

/// Every row appears in an alphabetical order.
proof fn lemma_members(keys: Seq<Option<Seq<char>>>, a: Seq<usize>, x: int)
    requires
        is_alphabetical(keys, a),
        0 <= x < keys.len(),
    ensures
        exists|m: int| 0 <= m < a.len() && a[m] == x,
{
    lemma_distinct(keys, a);
    let s = Set::new(|j: int| 0 <= j < a.len()).map(|j: int| a[j] as int);
    let range = vstd::set_lib::set_int_range(0, keys.len() as int);
    lemma_injective_image_len(a);
    vstd::set_lib::lemma_int_range(0, keys.len() as int);
    if !(exists|m: int| 0 <= m < a.len() && a[m] == x) {
        let t = range.remove(x);
        assert(s.subset_of(t)) by {
            assert forall|v: int| s.contains(v) implies t.contains(v) by {
                let j = choose|j: int| 0 <= j < a.len() && a[j] as int == v;
                assert(a[j] < keys.len());
            }
        }
        assert(range.contains(x));
        vstd::set_lib::lemma_len_subset(s, t);
    }
}

proof fn lemma_distinct(keys: Seq<Option<Seq<char>>>, a: Seq<usize>)
    requires
        is_alphabetical(keys, a),
    ensures
        forall|k: int, l: int| 0 <= k < l < a.len() ==> a[k] != a[l],
{
    assert forall|k: int, l: int| 0 <= k < l < a.len() implies a[k] != a[l] by {
        if a[k] == a[l] {
            lemma_row_before_irreflexive(keys[a[k] as int], a[k] as int);
        }
    }
}

proof fn lemma_injective_image_len(a: Seq<usize>)
    requires
        forall|k: int, l: int| 0 <= k < l < a.len() ==> a[k] != a[l],
    ensures
        Set::new(|j: int| 0 <= j < a.len()).map(|j: int| a[j] as int).len() == a.len(),
        Set::new(|j: int| 0 <= j < a.len()).map(|j: int| a[j] as int).finite(),
    decreases a.len(),
{
    let dom = Set::new(|j: int| 0 <= j < a.len());
    let img = dom.map(|j: int| a[j] as int);
    if a.len() == 0 {
        assert(img =~= Set::empty());
    } else {
        let p = a.drop_last();
        lemma_injective_image_len(p);
        let pimg = Set::new(|j: int| 0 <= j < p.len()).map(|j: int| p[j] as int);
        assert(img =~= pimg.insert(a.last() as int)) by {
            assert forall|v: int| img.contains(v) <==> pimg.insert(a.last() as int).contains(v) by {
                if img.contains(v) {
                    let j = choose|j: int| dom.contains(j) && a[j] as int == v;
                    if j < a.len() - 1 {
                        assert(Set::new(|j: int| 0 <= j < p.len()).contains(j));
                    }
                }
                if pimg.contains(v) {
                    let j = choose|j: int| 0 <= j < p.len() && p[j] as int == v;
                    assert(dom.contains(j));
                }
                if v == a.last() as int {
                    assert(dom.contains(a.len() - 1));
                }
            }
        }
        assert(!pimg.contains(a.last() as int)) by {
            if pimg.contains(a.last() as int) {
                let j = choose|j: int| 0 <= j < p.len() && p[j] as int == a.last() as int;
                assert(a[j] == a[a.len() - 1]);
            }
        }
    }
}

/// The place of a row in an alphabetical order is the number of rows that
/// go before it.
proof fn lemma_rank(keys: Seq<Option<Seq<char>>>, a: Seq<usize>, k: int)
    requires
        is_alphabetical(keys, a),
        0 <= k < a.len(),
    ensures
        Set::new(|j: int| 0 <= j < keys.len() && row_before(keys[j], j, keys[a[k] as int], a[k] as int)).len() == k,
        Set::new(|j: int| 0 <= j < keys.len() && row_before(keys[j], j, keys[a[k] as int], a[k] as int)).finite(),
{
    let x = a[k];
    let before = Set::new(|j: int| 0 <= j < keys.len() && row_before(keys[j], j, keys[x as int], x as int));
    let firsts = a.take(k);
    lemma_distinct(keys, a);
    lemma_injective_image_len(firsts);
    let img = Set::new(|j: int| 0 <= j < firsts.len()).map(|j: int| firsts[j] as int);
    assert(before =~= img) by {
        assert forall|v: int| before.contains(v) <==> img.contains(v) by {
            if before.contains(v) {
                lemma_members(keys, a, v);
                let m = choose|m: int| 0 <= m < a.len() && a[m] == v;
                if m >= k {
                    if m == k {
                        lemma_row_before_irreflexive(keys[x as int], x as int);
                    } else {
                        lemma_row_before_transitive(keys[x as int], x as int, keys[v], v, keys[x as int], x as int);
                        lemma_row_before_irreflexive(keys[x as int], x as int);
                    }
                }
                assert(Set::new(|j: int| 0 <= j < firsts.len()).contains(m));
            }
            if img.contains(v) {
                let m = choose|m: int| 0 <= m < firsts.len() && firsts[m] as int == v;
                assert(a[m] == firsts[m]);
            }
        }
    }
}

} // verus!
