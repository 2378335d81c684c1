//! The corpus seen as one reading order: every word of every text, in text
//! order and then word order, with the lookup tables built from the
//! corpus's glosses and arrow assignments.
use crate::model::{Gloss, GlossArrow, GlossUuid, Glosses, Text, Word, WordUuid};
use std::collections::HashMap;
use vstd::prelude::*;

verus! {

broadcast use vstd::std_specs::hash::group_hash_axioms;

/// The place of each word of the corpus, as (text index, word index), in
/// reading order.
pub open spec fn slots(texts: Seq<Text>) -> Seq<(int, int)>
    decreases texts.len(),
{
    if texts.len() == 0 {
        Seq::empty()
    } else {
        slots(texts.drop_last()) + Seq::new(
            texts.last().words@.len(),
            |j: int| ((texts.len() - 1) as int, j),
        )
    }
}

/// The global position of the first word of text `t`.
pub open spec fn text_offset(texts: Seq<Text>, t: int) -> int {
    slots(texts.take(t)).len() as int
}

/// Every word of the corpus, in reading order; the index of a word here is
/// its global position.
pub open spec fn corpus_words(texts: Seq<Text>) -> Seq<Word> {
    slots(texts).map_values(|s: (int, int)| texts[s.0].words@[s.1])
}

/// The number of words in the corpus.
pub open spec fn corpus_size(texts: Seq<Text>) -> nat {
    slots(texts).len()
}

/// Each place names an existing word.
pub proof fn lemma_slots_valid(texts: Seq<Text>, p: int)
    requires
        0 <= p < slots(texts).len(),
    ensures
        0 <= slots(texts)[p].0 < texts.len(),
        0 <= slots(texts)[p].1 < texts[slots(texts)[p].0].words@.len(),
    decreases texts.len(),
{
    let prev = slots(texts.drop_last());
    if p < prev.len() {
        lemma_slots_valid(texts.drop_last(), p);
    }
}

/// The places of the first `t` texts are a prefix of the places of all.
pub proof fn lemma_slots_prefix(texts: Seq<Text>, t: int)
    requires
        0 <= t <= texts.len(),
    ensures
        slots(texts.take(t)) == slots(texts).take(text_offset(texts, t)),
        text_offset(texts, t) <= slots(texts).len(),
    decreases texts.len(),
{
    if t == texts.len() {
        assert(texts.take(t) =~= texts);
        assert(slots(texts).take(slots(texts).len() as int) =~= slots(texts));
    } else {
        assert(texts.take(t) =~= texts.drop_last().take(t));
        lemma_slots_prefix(texts.drop_last(), t);
        assert(slots(texts).take(text_offset(texts, t)) =~= slots(texts.drop_last()).take(
            text_offset(texts, t),
        ));
    }
}

/// Text `t` adds its own words, in order, after those of the texts before it.
pub proof fn lemma_slots_step(texts: Seq<Text>, t: int)
    requires
        0 <= t < texts.len(),
    ensures
        slots(texts.take(t + 1)) == slots(texts.take(t)) + Seq::new(
            texts[t].words@.len(),
            |j: int| (t, j),
        ),
        text_offset(texts, t + 1) == text_offset(texts, t) + texts[t].words@.len(),
{
    assert(texts.take(t + 1).drop_last() =~= texts.take(t));
    assert(texts.take(t + 1).last() == texts[t]);
}

/// The word at global position `text_offset(t) + j` is word `j` of text `t`.
pub proof fn lemma_word_at(texts: Seq<Text>, t: int, j: int)
    requires
        0 <= t < texts.len(),
        0 <= j < texts[t].words@.len(),
    ensures
        text_offset(texts, t) + j < corpus_size(texts),
        slots(texts)[text_offset(texts, t) + j] == (t, j),
        corpus_words(texts)[text_offset(texts, t) + j] == texts[t].words@[j],
{
    lemma_slots_step(texts, t);
    lemma_slots_prefix(texts, t + 1);
    let o = text_offset(texts, t);
    assert(slots(texts.take(t + 1))[o + j] == (t, j));
}

/// The global position before text 0 is 0, and after the last text it is
/// the size of the corpus.
pub proof fn lemma_offset_ends(texts: Seq<Text>)
    ensures
        text_offset(texts, 0) == 0,
        text_offset(texts, texts.len() as int) == corpus_size(texts),
{
    assert(texts.take(0) =~= Seq::<Text>::empty());
    assert(texts.take(texts.len() as int) =~= texts);
}

/// The arrow table: word id to gloss id, a later assignment of the same word
/// replacing an earlier one.
pub open spec fn arrow_map(arrows: Seq<GlossArrow>) -> Map<WordUuid, GlossUuid>
    decreases arrows.len(),
{
    if arrows.len() == 0 {
        Map::empty()
    } else {
        arrow_map(arrows.drop_last()).insert(arrows.last().word_uuid, arrows.last().gloss_uuid)
    }
}

/// Every gloss of every gloss set, in order.
pub open spec fn gloss_list(groups: Seq<Glosses>) -> Seq<Gloss>
    decreases groups.len(),
{
    if groups.len() == 0 {
        Seq::empty()
    } else {
        gloss_list(groups.drop_last()) + groups.last().gloss@
    }
}

/// The gloss table of a list of glosses: id to gloss, a later gloss with the
/// same id replacing an earlier one.
pub open spec fn gloss_map_of(gs: Seq<Gloss>) -> Map<GlossUuid, Gloss>
    decreases gs.len(),
{
    if gs.len() == 0 {
        Map::empty()
    } else {
        gloss_map_of(gs.drop_last()).insert(gs.last().uuid, gs.last())
    }
}

/// The gloss table of the corpus.
pub open spec fn gloss_map(groups: Seq<Glosses>) -> Map<GlossUuid, Gloss> {
    gloss_map_of(gloss_list(groups))
}

/// Builds the arrow table of `arrows`.
pub fn arrow_table(arrows: &Vec<GlossArrow>) -> (m: HashMap<WordUuid, GlossUuid>)
    ensures
        m@ == arrow_map(arrows@),
{
    let mut m: HashMap<WordUuid, GlossUuid> = HashMap::new();
    let mut k: usize = 0;
    while k < arrows.len()
        invariant
            k <= arrows@.len(),
            m@ == arrow_map(arrows@.take(k as int)),
        decreases arrows@.len() - k,
    {
        let a = arrows[k];
        m.insert(a.word_uuid, a.gloss_uuid);
        proof {
            assert(arrows@.take(k + 1).drop_last() =~= arrows@.take(k as int));
        }
        k += 1;
    }
    proof {
        assert(arrows@.take(arrows@.len() as int) =~= arrows@);
    }
    m
}

/// Builds the gloss table of the corpus's gloss sets.
pub fn gloss_table(groups: &Vec<Glosses>) -> (m: HashMap<GlossUuid, Gloss>)
    ensures
        m@ == gloss_map(groups@),
{
    let mut m: HashMap<GlossUuid, Gloss> = HashMap::new();
    let mut g: usize = 0;
    while g < groups.len()
        invariant
            g <= groups@.len(),
            m@ == gloss_map_of(gloss_list(groups@.take(g as int))),
        decreases groups@.len() - g,
    {
        let gs = &groups[g].gloss;
        let ghost before = gloss_list(groups@.take(g as int));
        let mut k: usize = 0;
        proof {
            assert(before + gs@.take(0) =~= before);
        }
        while k < gs.len()
            invariant
                k <= gs@.len(),
                m@ == gloss_map_of(before + gs@.take(k as int)),
            decreases gs@.len() - k,
        {
            let x = gs[k].duplicate();
            m.insert(gs[k].uuid, x);
            proof {
                assert((before + gs@.take(k + 1)).drop_last() =~= before + gs@.take(k as int));
            }
            k += 1;
        }
        proof {
            assert(groups@.take(g + 1).drop_last() =~= groups@.take(g as int));
            assert(gs@.take(gs@.len() as int) =~= gs@);
        }
        g += 1;
    }
    proof {
        assert(groups@.take(groups@.len() as int) =~= groups@);
    }
    m
}

} // verus!
