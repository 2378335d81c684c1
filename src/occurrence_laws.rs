//! What holds of the occurrence records of every corpus that verifies:
//! where glosses are arrowed, how visibility follows the arrow, how counts
//! run, and that the pass is a function of the corpus.
use crate::corpus::{
    arrow_map, corpus_size, corpus_words, gloss_list, gloss_map, gloss_map_of, slots,
};
use crate::integrity::{
    arrow_failure, arrows_found, first_failure, id_seen_before, word_failure, words_failure,
};
use crate::model::{
    error_detail, error_kind, ArrowedState, Gloss, GlossArrow, GlossOccurrance, GlossUuid,
    GlosserError, Sequence, Text, Word, WordType, WordUuid,
};
use crate::occurrences::{
    count_refs, first_arrow, is_arrow_at, occurrence_at, occurrences_view, process_outcome,
    refers_to,
};
use vstd::prelude::*;
use vstd::set_lib::lemma_len_subset;

verus! {

/// Whether corpus `s` passes every check of the verifier against its own
/// arrow table and gloss table.
pub open spec fn corpus_verifies(s: Sequence) -> bool {
    first_failure(
        s,
        arrow_map(s.sequence_description.arrowed_words@),
        gloss_map(s.glosses@),
    ) is None
}

/// How many words at positions below `n` carry a reference to gloss `id`.
pub open spec fn count_referencing(ws: Seq<Word>, id: GlossUuid, n: nat) -> nat
    decreases n,
{
    if n == 0 {
        0
    } else {
        count_referencing(ws, id, (n - 1) as nat) + if ws[n - 1].gloss_uuid == Some(id) {
            1nat
        } else {
            0nat
        }
    }
}

/// Whether some occurrence of gloss `id` has running count `k`.
pub open spec fn running_count_reached(
    ws: Seq<Word>,
    am: Map<WordUuid, GlossUuid>,
    gm: Map<GlossUuid, Gloss>,
    id: GlossUuid,
    k: int,
) -> bool {
    exists|p: int|
        0 <= p < ws.len() && refers_to(ws, gm, id, p) && (#[trigger] occurrence_at(
            ws,
            am,
            gm,
            p,
        )).running_count == Some(k as usize)
}

proof fn lemma_arrows_distinct(arrows: Seq<GlossArrow>, k: nat)
    requires
        k <= arrows.len(),
        arrow_failure(arrows, k) is None,
    ensures
        forall|i: int, j: int|
            0 <= i < j < k ==> arrows[i].word_uuid != arrows[j].word_uuid && arrows[i].gloss_uuid
                != arrows[j].gloss_uuid,
    decreases k,
{
    if k > 0 {
        lemma_arrows_distinct(arrows, (k - 1) as nat);
        let a = arrows[k - 1];
        assert forall|i: int, j: int|
            0 <= i < j < k implies arrows[i].word_uuid != arrows[j].word_uuid
                && arrows[i].gloss_uuid != arrows[j].gloss_uuid by {
            if j == k - 1 {
                if arrows[i].word_uuid == a.word_uuid {
                    assert(exists|x: int| 0 <= x < k - 1 && arrows[x].word_uuid == a.word_uuid);
                }
                if arrows[i].gloss_uuid == a.gloss_uuid {
                    assert(exists|x: int| 0 <= x < k - 1 && arrows[x].gloss_uuid == a.gloss_uuid);
                }
            }
        }
    }
}

proof fn lemma_arrow_map_entries(arrows: Seq<GlossArrow>)
    requires
        forall|i: int, j: int|
            0 <= i < j < arrows.len() ==> arrows[i].word_uuid != arrows[j].word_uuid,
    ensures
        forall|i: int|
            0 <= i < arrows.len() ==> arrow_map(arrows).contains_key(#[trigger] arrows[i].word_uuid)
                && arrow_map(arrows)[arrows[i].word_uuid] == arrows[i].gloss_uuid,
        forall|w: WordUuid|
            arrow_map(arrows).contains_key(w) ==> exists|i: int|
                0 <= i < arrows.len() && #[trigger] arrows[i].word_uuid == w,
        arrow_map(arrows).len() == arrows.len(),
        arrow_map(arrows).dom().finite(),
    decreases arrows.len(),
{
    if arrows.len() > 0 {
        let prev = arrows.drop_last();
        lemma_arrow_map_entries(prev);
        let last = arrows.last();
        assert(!arrow_map(prev).contains_key(last.word_uuid)) by {
            if arrow_map(prev).contains_key(last.word_uuid) {
                let i = choose|i: int| 0 <= i < prev.len() && #[trigger] prev[i].word_uuid == last.word_uuid;
                assert(arrows[i].word_uuid == arrows[arrows.len() - 1].word_uuid);
            }
        }
        assert forall|w: WordUuid| arrow_map(arrows).contains_key(w) implies exists|i: int|
            0 <= i < arrows.len() && #[trigger] arrows[i].word_uuid == w by {
            if w != last.word_uuid {
                let i = choose|i: int| 0 <= i < prev.len() && #[trigger] prev[i].word_uuid == w;
                assert(arrows[i].word_uuid == w);
            } else {
                assert(arrows[arrows.len() - 1].word_uuid == w);
            }
        }
        assert forall|i: int| 0 <= i < arrows.len() implies arrow_map(arrows).contains_key(
            #[trigger] arrows[i].word_uuid,
        ) && arrow_map(arrows)[arrows[i].word_uuid] == arrows[i].gloss_uuid by {
            if i < arrows.len() - 1 {
                assert(prev[i] == arrows[i]);
            }
        }
    }
}

proof fn lemma_gloss_map_ids(gs: Seq<Gloss>, g: GlossUuid)
    requires
        gloss_map_of(gs).contains_key(g),
    ensures
        gloss_map_of(gs)[g].uuid == g,
    decreases gs.len(),
{
    if gs.len() > 0 && gs.last().uuid != g {
        lemma_gloss_map_ids(gs.drop_last(), g);
    }
}

proof fn lemma_words_ok(
    texts: Seq<Text>,
    am: Map<WordUuid, GlossUuid>,
    gm: Map<GlossUuid, Gloss>,
    n: nat,
    p: int,
)
    requires
        words_failure(texts, am, gm, n) is None,
        0 <= p < n,
    ensures
        word_failure(
            corpus_words(texts)[p],
            slots(texts)[p].0,
            slots(texts)[p].1,
            id_seen_before(texts, p),
            am,
            gm,
        ) is None,
    decreases n,
{
    if p < n - 1 {
        lemma_words_ok(texts, am, gm, (n - 1) as nat, p);
    }
}

/// What a verified corpus guarantees of the word at position `p`.
proof fn lemma_word_facts(s: Sequence, p: int)
    requires
        corpus_verifies(s),
        0 <= p < corpus_size(s.texts@),
    ensures
        ({
            let ws = corpus_words(s.texts@);
            let am = arrow_map(s.sequence_description.arrowed_words@);
            let gm = gloss_map(s.glosses@);
            let w = ws[p];
            &&& forall|q: int| 0 <= q < p ==> ws[q].uuid != w.uuid
            &&& w.gloss_uuid matches Some(g) ==> w.word_type == WordType::Word && gm.contains_key(g)
                && gm[g].uuid == g && gm[g].status != 0
            &&& am.contains_key(w.uuid) ==> w.word_type == WordType::Word && w.gloss_uuid == Some(
                am[w.uuid],
            )
        }),
{
    let texts = s.texts@;
    let am = arrow_map(s.sequence_description.arrowed_words@);
    let gm = gloss_map(s.glosses@);
    let ws = corpus_words(texts);
    lemma_words_ok(texts, am, gm, corpus_size(texts), p);
    if let Some(g) = ws[p].gloss_uuid {
        lemma_gloss_map_ids(gloss_list(s.glosses@), g);
    }
}

/// In a verified corpus, distinct positions hold distinct word ids.
proof fn lemma_ids_distinct(s: Sequence, p: int, q: int)
    requires
        corpus_verifies(s),
        0 <= p < corpus_size(s.texts@),
        0 <= q < corpus_size(s.texts@),
        corpus_words(s.texts@)[p].uuid == corpus_words(s.texts@)[q].uuid,
    ensures
        p == q,
{
    if p < q {
        lemma_word_facts(s, q);
    } else if q < p {
        lemma_word_facts(s, p);
    }
}

/// In a verified corpus, a word arrowed for the gloss of assignment `a` is
/// that assignment's target.
proof fn lemma_only_target(s: Sequence, a: int, q: int)
    requires
        corpus_verifies(s),
        0 <= a < s.sequence_description.arrowed_words@.len(),
        0 <= q < corpus_size(s.texts@),
        is_arrow_at(
            corpus_words(s.texts@),
            arrow_map(s.sequence_description.arrowed_words@),
            gloss_map(s.glosses@),
            q,
        ),
        refers_to(
            corpus_words(s.texts@),
            gloss_map(s.glosses@),
            s.sequence_description.arrowed_words@[a].gloss_uuid,
            q,
        ),
    ensures
        corpus_words(s.texts@)[q].uuid == s.sequence_description.arrowed_words@[a].word_uuid,
{
    let arrows = s.sequence_description.arrowed_words@;
    let ws = corpus_words(s.texts@);
    lemma_arrows_distinct(arrows, arrows.len());
    lemma_arrow_map_entries(arrows);
    let i = choose|i: int| 0 <= i < arrows.len() && #[trigger] arrows[i].word_uuid == ws[q].uuid;
    assert(arrows[i].gloss_uuid == arrows[a].gloss_uuid);
    if i != a {
        if i < a {
            assert(arrows[i].gloss_uuid != arrows[a].gloss_uuid);
        } else {
            assert(arrows[a].gloss_uuid != arrows[i].gloss_uuid);
        }
    }
}

/// `first_arrow` finds a position exactly when some earlier word is arrowed
/// for the gloss.
proof fn lemma_first_arrow_exists(
    ws: Seq<Word>,
    am: Map<WordUuid, GlossUuid>,
    gm: Map<GlossUuid, Gloss>,
    id: GlossUuid,
    n: nat,
)
    ensures
        first_arrow(ws, am, gm, id, n) is Some <==> exists|q: int|
            0 <= q < n && refers_to(ws, gm, id, q) && is_arrow_at(ws, am, gm, q),
    decreases n,
{
    if n > 0 {
        lemma_first_arrow_exists(ws, am, gm, id, (n - 1) as nat);
        if first_arrow(ws, am, gm, id, n) is Some {
            if first_arrow(ws, am, gm, id, (n - 1) as nat) is Some {
                let q = choose|q: int|
                    0 <= q < n - 1 && refers_to(ws, gm, id, q) && is_arrow_at(ws, am, gm, q);
                assert(0 <= q < n);
            } else {
                assert(refers_to(ws, gm, id, n - 1) && is_arrow_at(ws, am, gm, n - 1));
            }
        }
    }
}

/// Arrow uniqueness. In a corpus that verifies, let assignment `a` name the
/// word at global position `p`: that occurrence resolves to the assignment's
/// gloss and is arrowed, and no other occurrence of that gloss is arrowed.
pub proof fn law_arrow_unique(s: Sequence, a: int, p: int)
    requires
        corpus_verifies(s),
        0 <= a < s.sequence_description.arrowed_words@.len(),
        0 <= p < corpus_size(s.texts@),
        corpus_words(s.texts@)[p].uuid == s.sequence_description.arrowed_words@[a].word_uuid,
    ensures
        ({
            let ws = corpus_words(s.texts@);
            let am = arrow_map(s.sequence_description.arrowed_words@);
            let gm = gloss_map(s.glosses@);
            let id = s.sequence_description.arrowed_words@[a].gloss_uuid;
            &&& occurrence_at(ws, am, gm, p).gloss matches Some(g) && g.uuid == id
            &&& occurrence_at(ws, am, gm, p).arrowed_state == ArrowedState::Arrowed
            &&& forall|q: int|
                0 <= q < ws.len() && q != p && (occurrence_at(ws, am, gm, q).gloss matches Some(
                    g,
                ) && g.uuid == id) ==> occurrence_at(ws, am, gm, q).arrowed_state
                    != ArrowedState::Arrowed
        }),
{
    let arrows = s.sequence_description.arrowed_words@;
    let ws = corpus_words(s.texts@);
    let am = arrow_map(arrows);
    let gm = gloss_map(s.glosses@);
    let id = arrows[a].gloss_uuid;
    lemma_arrows_distinct(arrows, arrows.len());
    lemma_arrow_map_entries(arrows);
    assert(am.contains_key(arrows[a].word_uuid));
    lemma_word_facts(s, p);
    assert(is_arrow_at(ws, am, gm, p));
    assert(refers_to(ws, gm, id, p));
    lemma_first_arrow_exists(ws, am, gm, id, p as nat);
    if first_arrow(ws, am, gm, id, p as nat) is Some {
        let q = choose|q: int| 0 <= q < p && refers_to(ws, gm, id, q) && is_arrow_at(ws, am, gm, q);
        lemma_only_target(s, a, q);
        lemma_ids_distinct(s, p, q);
    }
    assert forall|q: int|
        0 <= q < ws.len() && q != p && (occurrence_at(ws, am, gm, q).gloss matches Some(g)
            && g.uuid == id) implies occurrence_at(ws, am, gm, q).arrowed_state
        != ArrowedState::Arrowed by {
        if occurrence_at(ws, am, gm, q).arrowed_state == ArrowedState::Arrowed {
            assert(refers_to(ws, gm, id, q));
            assert(is_arrow_at(ws, am, gm, q));
            lemma_only_target(s, a, q);
            lemma_ids_distinct(s, p, q);
        }
    }
}

/// The ids of the arrow targets among the words below position `n`.
pub open spec fn found_ids(ws: Seq<Word>, am: Map<WordUuid, GlossUuid>, n: nat) -> Set<WordUuid> {
    Set::new(|u: WordUuid| am.contains_key(u) && exists|q: int| 0 <= q < n && ws[q].uuid == u)
}

proof fn lemma_found_ids(s: Sequence, n: nat)
    requires
        corpus_verifies(s),
        n <= corpus_size(s.texts@),
    ensures
        ({
            let ws = corpus_words(s.texts@);
            let am = arrow_map(s.sequence_description.arrowed_words@);
            found_ids(ws, am, n).finite() && found_ids(ws, am, n).len() == arrows_found(s.texts@, am, n)
        }),
    decreases n,
{
    let ws = corpus_words(s.texts@);
    let am = arrow_map(s.sequence_description.arrowed_words@);
    if n == 0 {
        assert(found_ids(ws, am, 0) =~= Set::empty());
    } else {
        lemma_found_ids(s, (n - 1) as nat);
        lemma_word_facts(s, n - 1);
        let prev = found_ids(ws, am, (n - 1) as nat);
        let u = ws[n - 1].uuid;
        if am.contains_key(u) {
            assert(found_ids(ws, am, n) =~= prev.insert(u)) by {
                assert forall|v: WordUuid| found_ids(ws, am, n).contains(v) implies prev.insert(u).contains(v) by {
                    let q = choose|q: int| 0 <= q < n && ws[q].uuid == v;
                    if q < n - 1 {
                        assert(prev.contains(v));
                    }
                }
                assert(ws[n - 1].uuid == u);
            }
            assert(!prev.contains(u));
        } else {
            assert(found_ids(ws, am, n) =~= prev) by {
                assert forall|v: WordUuid| found_ids(ws, am, n).contains(v) implies prev.contains(v) by {
                    let q = choose|q: int| 0 <= q < n && ws[q].uuid == v;
                    if q == n - 1 {
                        assert(ws[q].uuid == u);
                    }
                }
            }
        }
    }
}

/// Arrow targets exist. In a corpus that verifies, the word that each
/// assignment names stands somewhere in the texts.
pub proof fn law_arrow_target_exists(s: Sequence, a: int)
    requires
        corpus_verifies(s),
        0 <= a < s.sequence_description.arrowed_words@.len(),
    ensures
        exists|p: int|
            0 <= p < corpus_size(s.texts@) && #[trigger] corpus_words(s.texts@)[p].uuid
                == s.sequence_description.arrowed_words@[a].word_uuid,
{
    let arrows = s.sequence_description.arrowed_words@;
    let ws = corpus_words(s.texts@);
    let am = arrow_map(arrows);
    let n = corpus_size(s.texts@);
    let w = arrows[a].word_uuid;
    lemma_arrows_distinct(arrows, arrows.len());
    lemma_arrow_map_entries(arrows);
    lemma_found_ids(s, n);
    if !(exists|p: int| 0 <= p < n && #[trigger] ws[p].uuid == w) {
        let rest = am.dom().remove(w);
        assert(found_ids(ws, am, n).subset_of(rest));
        assert(am.dom().contains(w));
        lemma_len_subset(found_ids(ws, am, n), rest);
    }
}

/// Monotonic visibility. In a corpus that verifies, take an occurrence at
/// position `q` of gloss `id`. If no assignment names `id`, it is visible.
/// If an assignment names `id` and its target word stands at position `p`,
/// the occurrence is visible when `q < p` and invisible when `q > p`.
pub proof fn law_monotonic_visibility(s: Sequence, id: GlossUuid, q: int)
    requires
        corpus_verifies(s),
        0 <= q < corpus_size(s.texts@),
        refers_to(corpus_words(s.texts@), gloss_map(s.glosses@), id, q),
    ensures
        ({
            let arrows = s.sequence_description.arrowed_words@;
            let ws = corpus_words(s.texts@);
            let am = arrow_map(arrows);
            let gm = gloss_map(s.glosses@);
            let st = occurrence_at(ws, am, gm, q).arrowed_state;
            &&& (forall|a: int| 0 <= a < arrows.len() ==> #[trigger] arrows[a].gloss_uuid != id) ==> st
                == ArrowedState::Visible
            &&& forall|a: int, p: int|
                0 <= a < arrows.len() && 0 <= p < ws.len() && #[trigger] arrows[a].gloss_uuid == id
                    && #[trigger] ws[p].uuid == arrows[a].word_uuid ==> (q < p ==> st
                    == ArrowedState::Visible) && (q > p ==> st == ArrowedState::Invisible)
        }),
{
    let arrows = s.sequence_description.arrowed_words@;
    let ws = corpus_words(s.texts@);
    let am = arrow_map(arrows);
    let gm = gloss_map(s.glosses@);
    lemma_arrows_distinct(arrows, arrows.len());
    lemma_arrow_map_entries(arrows);
    lemma_first_arrow_exists(ws, am, gm, id, q as nat);
    if forall|a: int| 0 <= a < arrows.len() ==> #[trigger] arrows[a].gloss_uuid != id {
        assert forall|x: int|
            0 <= x < ws.len() && refers_to(ws, gm, id, x) implies !is_arrow_at(ws, am, gm, x) by {
            if is_arrow_at(ws, am, gm, x) {
                let i = choose|i: int| 0 <= i < arrows.len() && #[trigger] arrows[i].word_uuid == ws[x].uuid;
                assert(arrows[i].gloss_uuid == id);
            }
        }
    }
    assert forall|a: int, p: int|
        0 <= a < arrows.len() && 0 <= p < ws.len() && #[trigger] arrows[a].gloss_uuid == id
            && #[trigger] ws[p].uuid == arrows[a].word_uuid implies (q < p
            ==> occurrence_at(ws, am, gm, q).arrowed_state == ArrowedState::Visible) && (q > p
            ==> occurrence_at(ws, am, gm, q).arrowed_state == ArrowedState::Invisible) by {
        if q < p {
            if first_arrow(ws, am, gm, id, q as nat) is Some {
                let x = choose|x: int| 0 <= x < q && refers_to(ws, gm, id, x) && is_arrow_at(ws, am, gm, x);
                lemma_only_target(s, a, x);
                lemma_ids_distinct(s, p, x);
            }
            if is_arrow_at(ws, am, gm, q) {
                lemma_only_target(s, a, q);
                lemma_ids_distinct(s, p, q);
            }
        }
        if q > p {
            law_arrow_unique(s, a, p);
            assert(refers_to(ws, gm, id, p));
            lemma_word_facts(s, p);
            assert(is_arrow_at(ws, am, gm, p));
        }
    }
}

/// In a verified corpus, a word resolves to gloss `id` exactly when it
/// carries a reference to `id`.
proof fn lemma_refs_are_references(s: Sequence, id: GlossUuid, n: nat)
    requires
        corpus_verifies(s),
        n <= corpus_size(s.texts@),
    ensures
        count_refs(corpus_words(s.texts@), gloss_map(s.glosses@), id, n) == count_referencing(
            corpus_words(s.texts@),
            id,
            n,
        ),
    decreases n,
{
    if n > 0 {
        lemma_refs_are_references(s, id, (n - 1) as nat);
        lemma_word_facts(s, n - 1);
    }
}

proof fn lemma_count_refs_monotone(
    ws: Seq<Word>,
    gm: Map<GlossUuid, Gloss>,
    id: GlossUuid,
    m: nat,
    n: nat,
)
    requires
        m <= n,
    ensures
        count_refs(ws, gm, id, m) <= count_refs(ws, gm, id, n),
    decreases n - m,
{
    if m < n {
        lemma_count_refs_monotone(ws, gm, id, m, (n - 1) as nat);
    }
}

/// Every count from 1 up to the count below `n` is reached at a word of
/// the gloss below `n`.
proof fn lemma_count_refs_reached(
    ws: Seq<Word>,
    gm: Map<GlossUuid, Gloss>,
    id: GlossUuid,
    n: nat,
    k: nat,
)
    requires
        1 <= k <= count_refs(ws, gm, id, n),
    ensures
        exists|p: int|
            0 <= p < n && refers_to(ws, gm, id, p) && count_refs(ws, gm, id, (p + 1) as nat) == k,
    decreases n,
{
    if k == count_refs(ws, gm, id, n) && refers_to(ws, gm, id, n - 1) {
        assert(refers_to(ws, gm, id, n - 1) && count_refs(ws, gm, id, n as nat) == k);
    } else {
        lemma_count_refs_reached(ws, gm, id, (n - 1) as nat, k);
        let p = choose|p: int|
            0 <= p < n - 1 && refers_to(ws, gm, id, p) && count_refs(ws, gm, id, (p + 1) as nat) == k;
        assert(0 <= p < n);
    }
}

/// Count integrity. In a corpus that verifies, every occurrence of gloss
/// `id` carries as total the number of words that refer to `id`; its
/// running count lies between 1 and that total; running counts strictly
/// increase in reading order; and every count from 1 to the total is the
/// running count of some occurrence.
pub proof fn law_count_integrity(s: Sequence, id: GlossUuid)
    requires
        corpus_verifies(s),
        corpus_size(s.texts@) <= usize::MAX,
    ensures
        ({
            let ws = corpus_words(s.texts@);
            let am = arrow_map(s.sequence_description.arrowed_words@);
            let gm = gloss_map(s.glosses@);
            let total = count_referencing(ws, id, ws.len());
            &&& forall|q: int|
                0 <= q < ws.len() && refers_to(ws, gm, id, q) ==> (#[trigger] occurrence_at(
                    ws,
                    am,
                    gm,
                    q,
                )).total_count == Some(total as usize) && occurrence_at(ws, am, gm, q).running_count
                    is Some && 1 <= occurrence_at(ws, am, gm, q).running_count->0 <= total
            &&& forall|p: int, q: int|
                0 <= p < q < ws.len() && refers_to(ws, gm, id, p) && refers_to(ws, gm, id, q) ==> (
                #[trigger] occurrence_at(ws, am, gm, p)).running_count->0 < (
                #[trigger] occurrence_at(ws, am, gm, q)).running_count->0
            &&& forall|k: int| 1 <= k <= total ==> #[trigger] running_count_reached(ws, am, gm, id, k)
        }),
{
    let ws = corpus_words(s.texts@);
    let am = arrow_map(s.sequence_description.arrowed_words@);
    let gm = gloss_map(s.glosses@);
    let n = ws.len();
    lemma_refs_are_references(s, id, n);
    crate::occurrences::lemma_count_refs_bound(ws, gm, id, n);
    assert forall|q: int|
        0 <= q < ws.len() && refers_to(ws, gm, id, q) implies (#[trigger] occurrence_at(
        ws,
        am,
        gm,
        q,
    )).total_count == Some(count_referencing(ws, id, n) as usize) && occurrence_at(
        ws,
        am,
        gm,
        q,
    ).running_count is Some && 1 <= occurrence_at(ws, am, gm, q).running_count->0
        <= count_referencing(ws, id, n) by {
        lemma_count_refs_monotone(ws, gm, id, (q + 1) as nat, n);
        crate::occurrences::lemma_count_refs_bound(ws, gm, id, (q + 1) as nat);
    }
    assert forall|p: int, q: int|
        0 <= p < q < ws.len() && refers_to(ws, gm, id, p) && refers_to(
            ws,
            gm,
            id,
            q,
        ) implies (#[trigger] occurrence_at(ws, am, gm, p)).running_count->0 < (
    #[trigger] occurrence_at(ws, am, gm, q)).running_count->0 by {
        lemma_count_refs_monotone(ws, gm, id, (p + 1) as nat, q as nat);
        crate::occurrences::lemma_count_refs_bound(ws, gm, id, (q + 1) as nat);
    }
    assert forall|k: int| 1 <= k <= count_referencing(ws, id, n) implies #[trigger] running_count_reached(
        ws,
        am,
        gm,
        id,
        k,
    ) by {
        lemma_count_refs_reached(ws, gm, id, n, k as nat);
        let p = choose|p: int|
            0 <= p < n && refers_to(ws, gm, id, p) && count_refs(ws, gm, id, (p + 1) as nat) == k;
        crate::occurrences::lemma_count_refs_bound(ws, gm, id, (p + 1) as nat);
        assert(occurrence_at(ws, am, gm, p).running_count == Some(k as usize));
    }
}

/// Determinism. Two results that both meet the contract of
/// `Sequence::process` on the same corpus agree: both succeed with the same
/// records, or both fail with the same kind of error and the same text.
pub proof fn law_process_deterministic(
    s: Sequence,
    r1: Result<Vec<Vec<GlossOccurrance>>, GlosserError>,
    r2: Result<Vec<Vec<GlossOccurrance>>, GlosserError>,
)
    requires
        process_outcome(s, r1),
        process_outcome(s, r2),
    ensures
        r1 is Ok <==> r2 is Ok,
        r1 matches Ok(v1) ==> r2 matches Ok(v2) && occurrences_view(v1) == occurrences_view(v2),
        r1 matches Err(e1) ==> r2 matches Err(e2) && error_kind(e1) == error_kind(e2)
            && error_detail(e1) == error_detail(e2),
{
}

} // verus!
