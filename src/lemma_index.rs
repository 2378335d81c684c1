//! The ordered lemma index: every usable gloss under its lowercase sort
//! key, in ascending order, for looking up the glosses around a key.
use crate::corpus::gloss_list;
use crate::model::{Gloss, GlossUuid, Glosses, Sequence};
use crate::text::{
    chars_equal, chars_of, lemma_seq_lt_total, lemma_seq_lt_transitive, less_than, lower_of,
    lowercase, seq_lt,
};
use vstd::prelude::*;

verus! {

/// How many entries have a key that sorts before `k`.
pub open spec fn count_below(e: Seq<(Seq<char>, Gloss)>, k: Seq<char>) -> int
    decreases e.len(),
{
    if e.len() == 0 {
        0
    } else {
        count_below(e.drop_last(), k) + if seq_lt(e.last().0, k) {
            1int
        } else {
            0int
        }
    }
}

/// Entry list `e` with gloss `g` stored under key `k`: replacing the gloss
/// of an entry with that key, or inserted where the key belongs.
pub open spec fn insert_entry(e: Seq<(Seq<char>, Gloss)>, k: Seq<char>, g: Gloss) -> Seq<(Seq<char>, Gloss)> {
    let p = count_below(e, k);
    if p < e.len() && e[p].0 == k {
        e.update(p, (k, g))
    } else {
        e.insert(p, (k, g))
    }
}

/// The index of a list of glosses: each gloss with nonzero status under its
/// lowercase sort key, a later gloss replacing an earlier one with the same
/// key.
pub open spec fn index_entries(gs: Seq<Gloss>) -> Seq<(Seq<char>, Gloss)>
    decreases gs.len(),
{
    if gs.len() == 0 {
        Seq::empty()
    } else {
        let prev = index_entries(gs.drop_last());
        let g = gs.last();
        if g.status != 0 {
            insert_entry(prev, lower_of(g.sort_alpha@), g)
        } else {
            prev
        }
    }
}

/// Whether the keys of `e` strictly ascend.
pub open spec fn ascending(e: Seq<(Seq<char>, Gloss)>) -> bool {
    forall|i: int, j: int| 0 <= i < j < e.len() ==> seq_lt(e[i].0, e[j].0)
}

/// The glosses around `key` in the index of `gs`: up to `num - 1` entries
/// whose keys sort before `key`, the nearest ones, then up to `num` entries
/// from the first whose key does not sort before `key`; and the id of that
/// first entry, if any.
pub open spec fn glosses_near(gs: Seq<Gloss>, key: Seq<char>, num: int) -> (Seq<Gloss>, Option<GlossUuid>) {
    let e = index_entries(gs);
    let p = count_below(e, key);
    let before = if num > 0 { num - 1 } else { 0 };
    let lo = if p >= before { p - before } else { 0 };
    let hi = if p + num <= e.len() { p + num } else { e.len() as int };
    let part = e.subrange(lo, hi);
    (part.map_values(|x: (Seq<char>, Gloss)| x.1), if p < e.len() && num > 0 { Some(e[p].1.uuid) } else { None })
}

proof fn lemma_count_below_prefix(e: Seq<(Seq<char>, Gloss)>, k: Seq<char>, p: int)
    requires
        0 <= p <= e.len(),
        forall|j: int| 0 <= j < p ==> seq_lt(#[trigger] e[j].0, k),
        forall|j: int| p <= j < e.len() ==> !seq_lt(#[trigger] e[j].0, k),
    ensures
        count_below(e, k) == p,
    decreases e.len(),
{
    if e.len() > 0 {
        if p == e.len() {
            lemma_count_below_prefix(e.drop_last(), k, p - 1);
        } else {
            lemma_count_below_prefix(e.drop_last(), k, p);
        }
    }
}

/// The view of an entry list.
pub open spec fn entries_of(v: Seq<(Vec<char>, Gloss)>) -> Seq<(Seq<char>, Gloss)> {
    v.map_values(|x: (Vec<char>, Gloss)| (x.0@, x.1))
}

/// Stores gloss `g` under key `k` in the ascending entry list `e`.
fn insert_sorted(e: &mut Vec<(Vec<char>, Gloss)>, k: Vec<char>, g: Gloss)
    requires
        ascending(entries_of(old(e)@)),
    ensures
        ascending(entries_of(final(e)@)),
        entries_of(final(e)@) == insert_entry(entries_of(old(e)@), k@, g),
{
    let ghost ev = entries_of(e@);
    let mut p: usize = 0;
    while p < e.len() && less_than(&e[p].0, &k)
        invariant
            p <= e@.len(),
            ev == entries_of(e@),
            ascending(ev),
            forall|j: int| 0 <= j < p ==> seq_lt(#[trigger] ev[j].0, k@),
        decreases e@.len() - p,
    {
        p += 1;
    }
    proof {
        assert forall|j: int| p <= j < ev.len() implies !seq_lt(#[trigger] ev[j].0, k@) by {
            assert(!seq_lt(ev[p as int].0, k@));
            if j > p && seq_lt(ev[j].0, k@) {
                lemma_seq_lt_transitive(ev[p as int].0, ev[j].0, k@);
            }
        }
        lemma_count_below_prefix(ev, k@, p as int);
    }
    if p < e.len() && chars_equal(&e[p].0, &k) {
        e.set(p, (k, g));
        proof {
            assert(entries_of(e@) =~= ev.update(p as int, (k@, g)));
            let ne = entries_of(e@);
            assert forall|i: int, j: int| 0 <= i < j < ne.len() implies seq_lt(ne[i].0, ne[j].0) by {
                assert(ne[i].0 == ev[i].0 && ne[j].0 == ev[j].0);
            }
        }
    } else {
        let ghost kv = k@;
        e.insert(p, (k, g));
        proof {
            assert(entries_of(e@) =~= ev.insert(p as int, (kv, g)));
            if p < ev.len() {
                lemma_seq_lt_total(ev[p as int].0, kv);
            }
            let ne = entries_of(e@);
            assert forall|j: int| p < j < ne.len() implies seq_lt(kv, #[trigger] ne[j].0) by {
                if j > p + 1 {
                    lemma_seq_lt_transitive(kv, ev[p as int].0, ev[j - 1].0);
                }
            }
            assert forall|i: int, j: int| 0 <= i < j < ne.len() implies seq_lt(ne[i].0, ne[j].0) by {
                if i < p && j > p {
                    lemma_seq_lt_transitive(ne[i].0, kv, ne[j].0);
                }
            }
        }
    }
}

impl Sequence {
    /// The lemma index of every gloss set: each gloss with nonzero status
    /// under its lowercase sort key, ascending.
    fn lemma_entries(&self) -> (r: Vec<(Vec<char>, Gloss)>)
        ensures
            entries_of(r@) == index_entries(gloss_list(self.glosses@)),
    {
        let mut e: Vec<(Vec<char>, Gloss)> = Vec::new();
        let mut t: usize = 0;
        proof {
            assert(self.glosses@.take(0) =~= Seq::<Glosses>::empty());
            assert(entries_of(e@) =~= Seq::empty());
        }
        while t < self.glosses.len()
            invariant
                t <= self.glosses@.len(),
                ascending(entries_of(e@)),
                entries_of(e@) == index_entries(gloss_list(self.glosses@.take(t as int))),
            decreases self.glosses@.len() - t,
        {
            let gs = &self.glosses[t].gloss;
            let ghost before = gloss_list(self.glosses@.take(t as int));
            let mut k: usize = 0;
            proof {
                assert(before + gs@.take(0) =~= before);
            }
            while k < gs.len()
                invariant
                    k <= gs@.len(),
                    ascending(entries_of(e@)),
                    entries_of(e@) == index_entries(before + gs@.take(k as int)),
                decreases gs@.len() - k,
            {
                let g = &gs[k];
                proof {
                    assert((before + gs@.take(k + 1)).drop_last() =~= before + gs@.take(k as int));
                }
                if g.status != 0 {
                    let low = lowercase(g.sort_alpha.as_str());
                    let key = chars_of(low.as_str());
                    insert_sorted(&mut e, key, g.duplicate());
                }
                k += 1;
            }
            proof {
                assert(self.glosses@.take(t + 1).drop_last() =~= self.glosses@.take(t as int));
                assert(gs@.take(gs@.len() as int) =~= gs@);
            }
            t += 1;
        }
        proof {
            assert(self.glosses@.take(self.glosses@.len() as int) =~= self.glosses@);
        }
        e
    }

    /// The glosses around `key` in the lemma index: up to `num - 1` glosses
    /// whose keys sort before `key`, nearest last, then up to `num` glosses
    /// from the first whose key does not sort before `key`; and the id of
    /// that first gloss, when there is one and `num` is positive.
    pub fn get_glosses(&self, key: &str, num: usize) -> (r: (Vec<Gloss>, Option<GlossUuid>))
        ensures
            (r.0@, r.1) == glosses_near(gloss_list(self.glosses@), key@, num as int),
    {
        let e = self.lemma_entries();
        let ghost ev = entries_of(e@);
        let k = chars_of(key);
        let mut p: usize = 0;
        while p < e.len() && less_than(&e[p].0, &k)
            invariant
                p <= e@.len(),
                ev == entries_of(e@),
                ev == index_entries(gloss_list(self.glosses@)),
                forall|j: int| 0 <= j < p ==> seq_lt(#[trigger] ev[j].0, k@),
            decreases e@.len() - p,
        {
            p += 1;
        }
        proof {
            lemma_index_ascending(gloss_list(self.glosses@));
            assert forall|j: int| p <= j < ev.len() implies !seq_lt(#[trigger] ev[j].0, k@) by {
                assert(!seq_lt(ev[p as int].0, k@));
                if j > p && seq_lt(ev[j].0, k@) {
                    lemma_seq_lt_transitive(ev[p as int].0, ev[j].0, k@);
                }
            }
            lemma_count_below_prefix(ev, k@, p as int);
        }
        let before: usize = if num > 0 {
            num - 1
        } else {
            0
        };
        let lo: usize = if p >= before {
            p - before
        } else {
            0
        };
        let hi: usize = if num <= e.len() - p {
            p + num
        } else {
            e.len()
        };
        let mut out: Vec<Gloss> = Vec::new();
        let mut j: usize = lo;
        while j < hi
            invariant
                lo <= j <= hi,
                hi <= e@.len(),
                ev == entries_of(e@),
                out@ == ev.subrange(lo as int, j as int).map_values(|x: (Seq<char>, Gloss)| x.1),
            decreases hi - j,
        {
            out.push(e[j].1.duplicate());
            proof {
                assert(ev.subrange(lo as int, j + 1).map_values(|x: (Seq<char>, Gloss)| x.1) =~= ev.subrange(
                    lo as int,
                    j as int,
                ).map_values(|x: (Seq<char>, Gloss)| x.1).push(ev[j as int].1));
            }
            j += 1;
        }
        let selected = if p < e.len() && num > 0 {
            Some(e[p].1.uuid)
        } else {
            None
        };
        (out, selected)
    }
}

/// The index of any list of glosses ascends strictly.
proof fn lemma_index_ascending(gs: Seq<Gloss>)
    ensures
        ascending(index_entries(gs)),
    decreases gs.len(),
{
    if gs.len() > 0 {
        lemma_index_ascending(gs.drop_last());
        let prev = index_entries(gs.drop_last());
        let g = gs.last();
        if g.status != 0 {
            lemma_insert_entry_ascending(prev, lower_of(g.sort_alpha@), g);
        }
    }
}

proof fn lemma_insert_entry_ascending(e: Seq<(Seq<char>, Gloss)>, k: Seq<char>, g: Gloss)
    requires
        ascending(e),
    ensures
        ascending(insert_entry(e, k, g)),
{
    let p = lemma_count_below_is_prefix(e, k);
    let ne = insert_entry(e, k, g);
    if !(p < e.len() && e[p].0 == k) {
        if p < e.len() {
            lemma_seq_lt_total(e[p].0, k);
        }
        assert forall|j: int| p < j < ne.len() implies seq_lt(k, #[trigger] ne[j].0) by {
            if j > p + 1 {
                lemma_seq_lt_transitive(k, e[p].0, e[j - 1].0);
            }
        }
        assert forall|i: int, j: int| 0 <= i < j < ne.len() implies seq_lt(ne[i].0, ne[j].0) by {
            if i < p && j > p {
                lemma_seq_lt_transitive(ne[i].0, k, ne[j].0);
            }
        }
    }
}

/// In an ascending list the entries below a key form a prefix whose length
/// is `count_below`.
proof fn lemma_count_below_is_prefix(e: Seq<(Seq<char>, Gloss)>, k: Seq<char>) -> (p: int)
    requires
        ascending(e),
    ensures
        p == count_below(e, k),
        0 <= p <= e.len(),
        forall|j: int| 0 <= j < p ==> seq_lt(#[trigger] e[j].0, k),
        forall|j: int| p <= j < e.len() ==> !seq_lt(#[trigger] e[j].0, k),
    decreases e.len(),
{
    if e.len() == 0 {
        0
    } else {
        let q = lemma_count_below_is_prefix(e.drop_last(), k);
        if seq_lt(e.last().0, k) {
            assert forall|j: int| 0 <= j < e.len() implies seq_lt(#[trigger] e[j].0, k) by {
                if j < e.len() - 1 {
                    lemma_seq_lt_transitive(e[j].0, e.last().0, k);
                }
            }
            lemma_count_below_prefix(e, k, e.len() as int);
            e.len() as int
        } else {
            assert forall|j: int| q <= j < e.len() implies !seq_lt(#[trigger] e[j].0, k) by {
                if j < e.len() - 1 {
                    assert(e.drop_last()[j] == e[j]);
                }
            }
            assert forall|j: int| 0 <= j < q implies seq_lt(#[trigger] e[j].0, k) by {
                assert(e.drop_last()[j] == e[j]);
            }
            lemma_count_below_prefix(e, k, q);
            q
        }
    }
}

} // verus!
