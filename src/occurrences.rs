//! The occurrence pass: one record per word of the corpus, in reading order,
//! with its resolved gloss, running and total count, and arrowed state.
use crate::corpus::{
    arrow_map, arrow_table, corpus_size, corpus_words, gloss_map, gloss_table, lemma_offset_ends,
    lemma_slots_prefix, lemma_slots_step, lemma_word_at, text_offset,
};
use crate::integrity::{describes, first_failure};
use crate::model::{
    ArrowedState, Gloss, GlossOccurrance, GlossSeqCount, GlossUuid, GlosserError, Sequence, Word,
    WordUuid,
};
use std::collections::HashMap;
use vstd::prelude::*;

verus! {

broadcast use vstd::std_specs::hash::group_hash_axioms;

/// The gloss that word `w` refers to, if the gloss table holds it.
pub open spec fn resolved(w: Word, gm: Map<GlossUuid, Gloss>) -> Option<Gloss> {
    match w.gloss_uuid {
        Some(g) => if gm.contains_key(g) {
            Some(gm[g])
        } else {
            None
        },
        None => None,
    }
}

/// Whether the word at position `p` resolves to the gloss with id `id`.
pub open spec fn refers_to(ws: Seq<Word>, gm: Map<GlossUuid, Gloss>, id: GlossUuid, p: int) -> bool {
    resolved(ws[p], gm) matches Some(g) && g.uuid == id
}

/// Whether the word at position `p` is the declared arrow target of the
/// gloss it resolves to.
pub open spec fn is_arrow_at(
    ws: Seq<Word>,
    am: Map<WordUuid, GlossUuid>,
    gm: Map<GlossUuid, Gloss>,
    p: int,
) -> bool {
    resolved(ws[p], gm) matches Some(g) && am.contains_key(ws[p].uuid) && am[ws[p].uuid] == g.uuid
}

/// How many words at positions below `n` resolve to gloss `id`.
pub open spec fn count_refs(ws: Seq<Word>, gm: Map<GlossUuid, Gloss>, id: GlossUuid, n: nat) -> nat
    decreases n,
{
    if n == 0 {
        0
    } else {
        count_refs(ws, gm, id, (n - 1) as nat) + if refers_to(ws, gm, id, n - 1) {
            1nat
        } else {
            0nat
        }
    }
}

/// The first position below `n` where gloss `id` is arrowed, if any.
pub open spec fn first_arrow(
    ws: Seq<Word>,
    am: Map<WordUuid, GlossUuid>,
    gm: Map<GlossUuid, Gloss>,
    id: GlossUuid,
    n: nat,
) -> Option<nat>
    decreases n,
{
    if n == 0 {
        None
    } else {
        match first_arrow(ws, am, gm, id, (n - 1) as nat) {
            Some(q) => Some(q),
            None => if refers_to(ws, gm, id, n - 1) && is_arrow_at(ws, am, gm, n - 1) {
                Some((n - 1) as nat)
            } else {
                None
            },
        }
    }
}

/// The arrowed state of the occurrence at position `p` of gloss `id`:
/// invisible once the gloss was arrowed earlier, arrowed at its target,
/// visible otherwise.
pub open spec fn state_at(
    ws: Seq<Word>,
    am: Map<WordUuid, GlossUuid>,
    gm: Map<GlossUuid, Gloss>,
    id: GlossUuid,
    p: int,
) -> ArrowedState {
    if first_arrow(ws, am, gm, id, p as nat) is Some {
        ArrowedState::Invisible
    } else if is_arrow_at(ws, am, gm, p) {
        ArrowedState::Arrowed
    } else {
        ArrowedState::Visible
    }
}

/// The occurrence record of the word at position `p`, its total count
/// left unset.
pub open spec fn partial_occurrence(
    ws: Seq<Word>,
    am: Map<WordUuid, GlossUuid>,
    gm: Map<GlossUuid, Gloss>,
    p: int,
) -> GlossOccurrance {
    match resolved(ws[p], gm) {
        None => GlossOccurrance {
            word: ws[p],
            gloss: None,
            running_count: None,
            total_count: None,
            arrowed_state: ArrowedState::Visible,
        },
        Some(g) => GlossOccurrance {
            word: ws[p],
            gloss: Some(g),
            running_count: Some(count_refs(ws, gm, g.uuid, (p + 1) as nat) as usize),
            total_count: None,
            arrowed_state: state_at(ws, am, gm, g.uuid, p),
        },
    }
}

/// The occurrence record of the word at position `p`.
pub open spec fn occurrence_at(
    ws: Seq<Word>,
    am: Map<WordUuid, GlossUuid>,
    gm: Map<GlossUuid, Gloss>,
    p: int,
) -> GlossOccurrance {
    let o = partial_occurrence(ws, am, gm, p);
    match o.gloss {
        None => o,
        Some(g) => GlossOccurrance {
            total_count: Some(count_refs(ws, gm, g.uuid, ws.len()) as usize),
            ..o
        },
    }
}

/// The occurrence records of a corpus, one list per text, one record per
/// word.
pub open spec fn expected_occurrences(s: Sequence) -> Seq<Seq<GlossOccurrance>> {
    let texts = s.texts@;
    let ws = corpus_words(texts);
    let am = arrow_map(s.sequence_description.arrowed_words@);
    let gm = gloss_map(s.glosses@);
    Seq::new(
        texts.len(),
        |t: int|
            Seq::new(
                texts[t].words@.len(),
                |j: int| occurrence_at(ws, am, gm, text_offset(texts, t) + j),
            ),
    )
}

/// The records held by a list of per-text lists.
pub open spec fn occurrences_view(v: Vec<Vec<GlossOccurrance>>) -> Seq<Seq<GlossOccurrance>> {
    v@.map_values(|x: Vec<GlossOccurrance>| x@)
}

/// Whether `r` is what the occurrence pass owes on corpus `s`: the error
/// for an empty corpus, else the verifier's first failure, else every
/// record.
pub open spec fn process_outcome(s: Sequence, r: Result<Vec<Vec<GlossOccurrance>>, GlosserError>) -> bool {
    let am = arrow_map(s.sequence_description.arrowed_words@);
    let gm = gloss_map(s.glosses@);
    if s.texts@.len() == 0 || s.glosses@.len() == 0 {
        r matches Err(e) && e matches GlosserError::NotFound(m) && m@ == "Gloss or texts not found"@
    } else {
        match first_failure(s, am, gm) {
            Some(f) => r matches Err(e) && describes(e, f, s.texts@),
            None => r matches Ok(v) && occurrences_view(v) == expected_occurrences(s),
        }
    }
}

/// Aggregate `agg` holds, for every gloss, the count and first arrow
/// position over the words below position `n`.
pub open spec fn aggregate_matches(
    agg: Map<GlossUuid, GlossSeqCount>,
    ws: Seq<Word>,
    am: Map<WordUuid, GlossUuid>,
    gm: Map<GlossUuid, Gloss>,
    n: nat,
) -> bool {
    forall|id: GlossUuid|
        #![trigger agg.contains_key(id)]
        #![trigger count_refs(ws, gm, id, n)]
        if agg.contains_key(id) {
            agg[id].count == count_refs(ws, gm, id, n) && agg[id].arrowed_seq == match first_arrow(
                ws,
                am,
                gm,
                id,
                n,
            ) {
                Some(q) => Some(q as usize),
                None => None,
            }
        } else {
            count_refs(ws, gm, id, n) == 0 && first_arrow(ws, am, gm, id, n) is None
        }
}

/// A gloss never counts more words than there are.
pub proof fn lemma_count_refs_bound(ws: Seq<Word>, gm: Map<GlossUuid, Gloss>, id: GlossUuid, n: nat)
    ensures
        count_refs(ws, gm, id, n) <= n,
    decreases n,
{
    if n > 0 {
        lemma_count_refs_bound(ws, gm, id, (n - 1) as nat);
    }
}

/// The first arrow position below `n` is below `n`.
pub proof fn lemma_first_arrow_below(
    ws: Seq<Word>,
    am: Map<WordUuid, GlossUuid>,
    gm: Map<GlossUuid, Gloss>,
    id: GlossUuid,
    n: nat,
)
    ensures
        first_arrow(ws, am, gm, id, n) matches Some(q) ==> q < n,
    decreases n,
{
    if n > 0 {
        lemma_first_arrow_below(ws, am, gm, id, (n - 1) as nat);
    }
}

/// Resolves the gloss of word `w`.
fn resolve(w: &Word, gm: &HashMap<GlossUuid, Gloss>) -> (r: Option<Gloss>)
    ensures
        r == resolved(*w, gm@),
{
    match w.gloss_uuid {
        Some(g) => match gm.get(&g) {
            Some(x) => Some(x.duplicate()),
            None => None,
        },
        None => None,
    }
}

/// The record of word `w` at position `p`, its total count unset; updates
/// the aggregate past that word.
fn occurrence_step(
    w: &Word,
    p: usize,
    am: &HashMap<WordUuid, GlossUuid>,
    gm: &HashMap<GlossUuid, Gloss>,
    agg: &mut HashMap<GlossUuid, GlossSeqCount>,
    Ghost(ws): Ghost<Seq<Word>>,
) -> (o: GlossOccurrance)
    requires
        p < ws.len(),
        ws.len() <= usize::MAX,
        ws[p as int] == *w,
        aggregate_matches(old(agg)@, ws, am@, gm@, p as nat),
    ensures
        aggregate_matches(final(agg)@, ws, am@, gm@, (p + 1) as nat),
        o == partial_occurrence(ws, am@, gm@, p as int),
{
    let gloss = resolve(w, gm);
    proof {
        assert forall|id: GlossUuid|
            count_refs(ws, gm@, id, (p + 1) as nat) == count_refs(ws, gm@, id, p as nat) + if refers_to(
                ws,
                gm@,
                id,
                p as int,
            ) {
                1nat
            } else {
                0nat
            } by {}
    }
    match gloss {
        None => {
            proof {
                assert forall|id: GlossUuid|
                    #![trigger agg@.contains_key(id)]
                    #![trigger count_refs(ws, gm@, id, (p + 1) as nat)]
                    count_refs(ws, gm@, id, (p + 1) as nat) == count_refs(ws, gm@, id, p as nat)
                        && first_arrow(ws, am@, gm@, id, (p + 1) as nat) == first_arrow(
                        ws,
                        am@,
                        gm@,
                        id,
                        p as nat,
                    ) by {}
            }
            GlossOccurrance {
                word: w.duplicate(),
                gloss: None,
                running_count: None,
                total_count: None,
                arrowed_state: ArrowedState::Visible,
            }
        },
        Some(g) => {
            let k = g.uuid;
            let is_arrow = match am.get(&w.uuid) {
                Some(a) => *a == k,
                None => false,
            };
            assert(is_arrow == is_arrow_at(ws, am@, gm@, p as int));
            let prior = match agg.get(&k) {
                Some(c) => *c,
                None => GlossSeqCount { count: 0, arrowed_seq: None },
            };
            proof {
                lemma_count_refs_bound(ws, gm@, k, p as nat);
                lemma_first_arrow_below(ws, am@, gm@, k, p as nat);
            }
            let state = if prior.arrowed_seq.is_some() {
                ArrowedState::Invisible
            } else if is_arrow {
                ArrowedState::Arrowed
            } else {
                ArrowedState::Visible
            };
            let count = prior.count + 1;
            let arrowed_seq = if prior.arrowed_seq.is_some() {
                prior.arrowed_seq
            } else if is_arrow {
                Some(p)
            } else {
                None
            };
            agg.insert(k, GlossSeqCount { count, arrowed_seq });
            proof {
                assert forall|id: GlossUuid|
                    #![trigger final(agg)@.contains_key(id)]
                    #![trigger count_refs(ws, gm@, id, (p + 1) as nat)]
                    id != k ==> count_refs(ws, gm@, id, (p + 1) as nat) == count_refs(
                        ws,
                        gm@,
                        id,
                        p as nat,
                    ) && first_arrow(ws, am@, gm@, id, (p + 1) as nat) == first_arrow(
                        ws,
                        am@,
                        gm@,
                        id,
                        p as nat,
                    ) by {}
                assert(refers_to(ws, gm@, k, p as int));
                assert(count_refs(ws, gm@, k, (p + 1) as nat) == count_refs(ws, gm@, k, p as nat) + 1);
            }
            GlossOccurrance {
                word: w.duplicate(),
                gloss: Some(g),
                running_count: Some(count),
                total_count: None,
                arrowed_state: state,
            }
        },
    }
}

impl Sequence {
    /// One record per word of every text, in reading order, including texts
    /// that are not displayed. Each record holds the word, its resolved
    /// gloss, the gloss's running count up to this word and total count over
    /// the corpus, and the arrowed state. Fails with the verifier's error on
    /// a corpus that does not verify, and with `NotFound` when there are no
    /// texts or no gloss sets.
    pub fn process(&self) -> (r: Result<Vec<Vec<GlossOccurrance>>, GlosserError>)
        requires
            corpus_size(self.texts@) <= usize::MAX,
        ensures
            process_outcome(*self, r),
    {
        if self.texts.len() == 0 || self.glosses.len() == 0 {
            return Err(GlosserError::NotFound(String::from_str("Gloss or texts not found")));
        }
        let gm = gloss_table(&self.glosses);
        let am = arrow_table(&self.sequence_description.arrowed_words);
        match self.verify(&am, &gm) {
            Err(e) => {
                return Err(e);
            },
            Ok(()) => {},
        }
        let ghost texts = self.texts@;
        let ghost ws = corpus_words(texts);
        let ghost n = corpus_size(texts);
        let mut agg: HashMap<GlossUuid, GlossSeqCount> = HashMap::new();
        let mut firsts: Vec<Vec<GlossOccurrance>> = Vec::new();
        let mut i: usize = 0;
        let mut t: usize = 0;
        proof {
            lemma_offset_ends(texts);
        }
        while t < self.texts.len()
            invariant
                texts == self.texts@,
                ws == corpus_words(texts),
                n == corpus_size(texts),
                ws.len() == n,
                n <= usize::MAX,
                t <= texts.len(),
                text_offset(texts, texts.len() as int) == n,
                i == text_offset(texts, t as int),
                i <= n,
                aggregate_matches(agg@, ws, am@, gm@, i as nat),
                firsts@.len() == t,
                forall|tt: int, j: int|
                    0 <= tt < t && 0 <= j < texts[tt].words@.len() ==> firsts@[tt]@.len()
                        == texts[tt].words@.len() && #[trigger] firsts@[tt]@[j]
                        == partial_occurrence(ws, am@, gm@, text_offset(texts, tt) + j),
                forall|tt: int| 0 <= tt < t ==> #[trigger] firsts@[tt]@.len() == texts[tt].words@.len(),
            decreases texts.len() - t,
        {
            let words = &self.texts[t].words;
            let mut row: Vec<GlossOccurrance> = Vec::new();
            let mut j: usize = 0;
            while j < words.len()
                invariant
                    ws == corpus_words(texts),
                    n == corpus_size(texts),
                    ws.len() == n,
                    n <= usize::MAX,
                    t < texts.len(),
                    *words == texts[t as int].words,
                    j <= words@.len(),
                    i == text_offset(texts, t as int) + j,
                    aggregate_matches(agg@, ws, am@, gm@, i as nat),
                    row@.len() == j,
                    forall|jj: int|
                        0 <= jj < j ==> #[trigger] row@[jj] == partial_occurrence(
                            ws,
                            am@,
                            gm@,
                            text_offset(texts, t as int) + jj,
                        ),
                decreases words@.len() - j,
            {
                proof {
                    lemma_word_at(texts, t as int, j as int);
                }
                let o = occurrence_step(&words[j], i, &am, &gm, &mut agg, Ghost(ws));
                row.push(o);
                i = i + 1;
                j += 1;
            }
            proof {
                lemma_slots_step(texts, t as int);
                lemma_slots_prefix(texts, (t + 1) as int);
            }
            firsts.push(row);
            t += 1;
        }
        let mut res: Vec<Vec<GlossOccurrance>> = Vec::new();
        let mut t: usize = 0;
        while t < firsts.len()
            invariant
                texts == self.texts@,
                ws == corpus_words(texts),
                ws.len() == n,
                n <= usize::MAX,
                i == n,
                am@ == arrow_map(self.sequence_description.arrowed_words@),
                gm@ == gloss_map(self.glosses@),
                firsts@.len() == texts.len(),
                t <= texts.len(),
                aggregate_matches(agg@, ws, am@, gm@, n),
                forall|tt: int, j: int|
                    0 <= tt < texts.len() && 0 <= j < texts[tt].words@.len() ==> #[trigger] firsts@[tt]@[j]
                        == partial_occurrence(ws, am@, gm@, text_offset(texts, tt) + j),
                forall|tt: int| 0 <= tt < texts.len() ==> #[trigger] firsts@[tt]@.len() == texts[tt].words@.len(),
                res@.len() == t,
                forall|tt: int| 0 <= tt < t ==> #[trigger] res@[tt]@ == expected_occurrences(*self)[tt],
            decreases texts.len() - t,
        {
            let row = &firsts[t];
            let mut out: Vec<GlossOccurrance> = Vec::new();
            let mut j: usize = 0;
            while j < row.len()
                invariant
                    ws == corpus_words(texts),
                    ws.len() == n,
                    n <= usize::MAX,
                    t < texts.len(),
                    texts == self.texts@,
                    *row == firsts@[t as int],
                    row@.len() == texts[t as int].words@.len(),
                    aggregate_matches(agg@, ws, am@, gm@, n),
                    forall|jj: int|
                        0 <= jj < row@.len() ==> #[trigger] row@[jj] == partial_occurrence(
                            ws,
                            am@,
                            gm@,
                            text_offset(texts, t as int) + jj,
                        ),
                    j <= row@.len(),
                    out@.len() == j,
                    forall|jj: int|
                        0 <= jj < j ==> #[trigger] out@[jj] == occurrence_at(
                            ws,
                            am@,
                            gm@,
                            text_offset(texts, t as int) + jj,
                        ),
                decreases row@.len() - j,
            {
                let o = &row[j];
                let gloss = match &o.gloss {
                    Some(g) => Some(g.duplicate()),
                    None => None,
                };
                let total = match &o.gloss {
                    Some(g) => match agg.get(&g.uuid) {
                        Some(c) => Some(c.count),
                        None => None,
                    },
                    None => None,
                };
                proof {
                    if o.gloss is Some {
                        let g = o.gloss->0;
                        let p = text_offset(texts, t as int) + j;
                        lemma_word_at(texts, t as int, j as int);
                        assert(refers_to(ws, gm@, g.uuid, p));
                        lemma_count_refs_positive(ws, gm@, g.uuid, p, n);
                    }
                }
                out.push(
                    GlossOccurrance {
                        word: o.word.duplicate(),
                        gloss,
                        running_count: o.running_count,
                        total_count: total,
                        arrowed_state: o.arrowed_state,
                    },
                );
                j += 1;
            }
            proof {
                assert(out@ =~= expected_occurrences(*self)[t as int]) by {
                    assert forall|jj: int| 0 <= jj < out@.len() implies out@[jj] == expected_occurrences(*self)[t as int][jj] by {}
                }
            }
            res.push(out);
            t += 1;
        }
        proof {
            assert(occurrences_view(res) =~= expected_occurrences(*self));
        }
        Ok(res)
    }
}

/// A gloss referred to at position `p` below `n` has a positive count
/// below `n`.
pub proof fn lemma_count_refs_positive(
    ws: Seq<Word>,
    gm: Map<GlossUuid, Gloss>,
    id: GlossUuid,
    p: int,
    n: nat,
)
    requires
        0 <= p < n,
        refers_to(ws, gm, id, p),
    ensures
        count_refs(ws, gm, id, n) > 0,
    decreases n,
{
    if p < n - 1 {
        lemma_count_refs_positive(ws, gm, id, p, (n - 1) as nat);
    }
}

} // verus!
