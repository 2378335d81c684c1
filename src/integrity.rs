//! Referential-integrity verification of a corpus. The checks run in a fixed
//! order and the first one violated is reported.
use crate::corpus::{corpus_size, corpus_words, lemma_offset_ends, lemma_word_at, slots, text_offset};
use crate::model::{
    uuid_hyphenated, uuid_text, Gloss, GlossArrow, GlossUuid, GlosserError, Sequence, Text, Word,
    WordType, WordUuid,
};
use crate::text::{decimal, push_decimal};
use std::collections::{HashMap, HashSet};
use vstd::prelude::*;

verus! {

broadcast use vstd::std_specs::hash::group_hash_axioms;

/// The first violated invariant of a corpus, with the ids it concerns.
#[derive(Clone, Copy, Debug, PartialEq, Eq, Structural)]
pub enum VerifyFailure {
    /// Two assignments name the same word.
    ArrowedWordTwice { word: WordUuid },
    /// Two assignments name the same gloss.
    ArrowedGlossTwice { gloss: GlossUuid },
    /// A word id occurs twice in the corpus; `text` is the index of the text
    /// holding the second.
    DuplicateWordId { text: usize, word: WordUuid },
    /// A word that is not of kind `Word` carries a gloss.
    NonWordGlossed { text: usize, word: WordUuid },
    /// A word refers to a retired gloss.
    GlossRetired { gloss: GlossUuid, word: WordUuid },
    /// A word refers to a gloss that does not exist.
    GlossMissing { gloss: GlossUuid, word: WordUuid },
    /// An assignment names a word that is not of kind `Word`.
    NonWordArrowed { word: WordUuid },
    /// An assignment names a word without a gloss.
    ArrowedWordUnglossed { word: WordUuid },
    /// An assignment names a word whose gloss is another; the word is word
    /// `index` of text `text`.
    ArrowedGlossMismatch { text: usize, index: usize, gloss: GlossUuid, arrowed: GlossUuid },
    /// An assignment names a gloss that does not exist.
    ArrowedGlossMissing { gloss: GlossUuid },
    /// An assignment names a retired gloss.
    ArrowedGlossRetired { gloss: GlossUuid },
    /// Fewer words of the texts are arrow targets than assignments declared.
    ArrowedWordsMissing { declared: usize, found: usize },
}

/// The failure, if any, of the assignment at index `k - 1` against those
/// before it, or of an earlier one.
pub open spec fn arrow_failure(arrows: Seq<GlossArrow>, k: nat) -> Option<VerifyFailure>
    decreases k,
{
    if k == 0 {
        None
    } else {
        match arrow_failure(arrows, (k - 1) as nat) {
            Some(f) => Some(f),
            None => {
                let a = arrows[k - 1];
                if exists|i: int| 0 <= i < k - 1 && arrows[i].word_uuid == a.word_uuid {
                    Some(VerifyFailure::ArrowedWordTwice { word: a.word_uuid })
                } else if exists|i: int| 0 <= i < k - 1 && arrows[i].gloss_uuid == a.gloss_uuid {
                    Some(VerifyFailure::ArrowedGlossTwice { gloss: a.gloss_uuid })
                } else {
                    None
                }
            },
        }
    }
}

/// What the checks of a single word find, given whether its id occurred
/// before; `t` and `j` place it in the corpus.
pub open spec fn word_failure(
    w: Word,
    t: int,
    j: int,
    seen_before: bool,
    am: Map<WordUuid, GlossUuid>,
    gm: Map<GlossUuid, Gloss>,
) -> Option<VerifyFailure> {
    if seen_before {
        Some(VerifyFailure::DuplicateWordId { text: t as usize, word: w.uuid })
    } else if w.gloss_uuid is Some && w.word_type != WordType::Word {
        Some(VerifyFailure::NonWordGlossed { text: t as usize, word: w.uuid })
    } else if w.gloss_uuid is Some && gm.contains_key(w.gloss_uuid->0) && gm[w.gloss_uuid->0].status
        == 0 {
        Some(VerifyFailure::GlossRetired { gloss: w.gloss_uuid->0, word: w.uuid })
    } else if w.gloss_uuid is Some && !gm.contains_key(w.gloss_uuid->0) {
        Some(VerifyFailure::GlossMissing { gloss: w.gloss_uuid->0, word: w.uuid })
    } else if am.contains_key(w.uuid) {
        let ag = am[w.uuid];
        if w.word_type != WordType::Word {
            Some(VerifyFailure::NonWordArrowed { word: w.uuid })
        } else if w.gloss_uuid is None {
            Some(VerifyFailure::ArrowedWordUnglossed { word: w.uuid })
        } else if ag != w.gloss_uuid->0 {
            Some(
                VerifyFailure::ArrowedGlossMismatch {
                    text: t as usize,
                    index: j as usize,
                    gloss: w.gloss_uuid->0,
                    arrowed: ag,
                },
            )
        } else if !gm.contains_key(ag) {
            Some(VerifyFailure::ArrowedGlossMissing { gloss: ag })
        } else if gm[ag].status == 0 {
            Some(VerifyFailure::ArrowedGlossRetired { gloss: ag })
        } else {
            None
        }
    } else {
        None
    }
}

/// Whether the id of the word at global position `p` occurs at an earlier
/// position.
pub open spec fn id_seen_before(texts: Seq<Text>, p: int) -> bool {
    exists|q: int| 0 <= q < p && corpus_words(texts)[q].uuid == corpus_words(texts)[p].uuid
}

/// The first failure among the words at global positions below `p`.
pub open spec fn words_failure(
    texts: Seq<Text>,
    am: Map<WordUuid, GlossUuid>,
    gm: Map<GlossUuid, Gloss>,
    p: nat,
) -> Option<VerifyFailure>
    decreases p,
{
    if p == 0 {
        None
    } else {
        match words_failure(texts, am, gm, (p - 1) as nat) {
            Some(f) => Some(f),
            None => {
                let q = p - 1;
                word_failure(
                    corpus_words(texts)[q],
                    slots(texts)[q].0,
                    slots(texts)[q].1,
                    id_seen_before(texts, q),
                    am,
                    gm,
                )
            },
        }
    }
}

/// How many of the words at global positions below `p` are arrow targets.
pub open spec fn arrows_found(texts: Seq<Text>, am: Map<WordUuid, GlossUuid>, p: nat) -> nat
    decreases p,
{
    if p == 0 {
        0
    } else {
        arrows_found(texts, am, (p - 1) as nat) + if am.contains_key(
            corpus_words(texts)[p - 1].uuid,
        ) {
            1nat
        } else {
            0nat
        }
    }
}

/// The first violated invariant of the corpus `s`, given its arrow table
/// `am` and gloss table `gm`: the assignments are checked first, then each
/// word in reading order, then the number of arrow targets found.
pub open spec fn first_failure(
    s: Sequence,
    am: Map<WordUuid, GlossUuid>,
    gm: Map<GlossUuid, Gloss>,
) -> Option<VerifyFailure> {
    let arrows = s.sequence_description.arrowed_words@;
    let texts = s.texts@;
    let n = corpus_size(texts);
    match arrow_failure(arrows, arrows.len()) {
        Some(f) => Some(f),
        None => match words_failure(texts, am, gm, n) {
            Some(f) => Some(f),
            None => if am.len() != arrows_found(texts, am, n) {
                Some(
                    VerifyFailure::ArrowedWordsMissing {
                        declared: am.len() as usize,
                        found: arrows_found(texts, am, n) as usize,
                    },
                )
            } else {
                None
            },
        },
    }
}

/// Whether `e` reports failure `f` of a corpus whose texts are `texts`.
pub open spec fn describes(e: GlosserError, f: VerifyFailure, texts: Seq<Text>) -> bool {
    match f {
        VerifyFailure::ArrowedWordTwice { word } => e matches GlosserError::ArrowedWordTwice(m)
            && m@ == "duplicate word_id in arrowed words "@ + uuid_hyphenated(word),
        VerifyFailure::ArrowedGlossTwice { gloss } => e matches GlosserError::ArrowedGlossTwice(m)
            && m@ == "duplicate gloss_uuid in arrowed words "@ + uuid_hyphenated(gloss),
        VerifyFailure::DuplicateWordId { text, word } => e matches GlosserError::DuplicateWordIdInTexts(
            m,
        ) && m@ == "duplicate word uuid found in text "@ + texts[text as int].text_name@
            + ", word "@ + uuid_hyphenated(word),
        VerifyFailure::NonWordGlossed { text, word } => e matches GlosserError::NonWordTypeIsGlossed(
            m,
        ) && m@ == "non-word type is glossed: text: "@ + texts[text as int].text_name@
            + ", word: "@ + uuid_hyphenated(word),
        VerifyFailure::GlossRetired {
            gloss,
            word,
        } => e matches GlosserError::ReferencedGlossIdDoesNotExistInGlossOrInvalid(m) && m@
            == "gloss "@ + uuid_hyphenated(gloss) + " set for word "@ + uuid_hyphenated(word)
            + " has status == 0"@,
        VerifyFailure::GlossMissing {
            gloss,
            word,
        } => e matches GlosserError::ReferencedGlossIdDoesNotExistInGlossOrInvalid(m) && m@
            == "gloss "@ + uuid_hyphenated(gloss) + " set for word "@ + uuid_hyphenated(word)
            + " does not exist in gloss"@,
        VerifyFailure::NonWordArrowed { word } => e matches GlosserError::NonWordTypeIsArrowed(m)
            && m@ == "non-word type is arrowed: "@ + uuid_hyphenated(word),
        VerifyFailure::ArrowedWordUnglossed {
            word,
        } => e matches GlosserError::ArrowedWordsGlossDoesNotMatchText(m) && m@
            == "arrowed word has a gloss which is not set: "@ + uuid_hyphenated(word),
        VerifyFailure::ArrowedGlossMismatch {
            text,
            index,
            gloss,
            arrowed,
        } => e matches GlosserError::ArrowedWordsGlossDoesNotMatchText(m) && m@
            == "arrow gloss doesn't match text's gloss "@ + texts[text as int].words@[index as int].word@
            + " (word "@ + uuid_hyphenated(texts[text as int].words@[index as int].uuid)
            + "): text has "@ + uuid_hyphenated(gloss) + ", arrow has "@ + uuid_hyphenated(arrowed),
        VerifyFailure::ArrowedGlossMissing { gloss } => e matches GlosserError::ArrowedGlossNotFound(
            m,
        ) && m@ == "arrowed gloss id does not exist in gloss: "@ + uuid_hyphenated(gloss),
        VerifyFailure::ArrowedGlossRetired { gloss } => e matches GlosserError::ArrowedGlossIsInvalid(
            m,
        ) && m@ == "gloss with status 0 is arrowed: "@ + uuid_hyphenated(gloss),
        VerifyFailure::ArrowedWordsMissing {
            declared,
            found,
        } => e matches GlosserError::ArrowedWordNotFound(m) && m@
            == "didn't find correct number of arrowed words; arrowed: "@ + decimal(declared as nat)
            + ", found in texts: "@ + decimal(found as nat),
    }
}

/// Appends the hyphenated text of `id` to `s`.
fn push_uuid(s: &mut String, id: u128)
    ensures
        final(s)@ == old(s)@ + uuid_hyphenated(id),
{
    let u = uuid_text(id);
    s.append(u.as_str());
}

/// Whether the text and word that `f` names, if any, exist in `texts`.
pub open spec fn failure_in_range(f: VerifyFailure, texts: Seq<Text>) -> bool {
    match f {
        VerifyFailure::DuplicateWordId { text, word } => text < texts.len(),
        VerifyFailure::NonWordGlossed { text, word } => text < texts.len(),
        VerifyFailure::ArrowedGlossMismatch { text, index, gloss, arrowed } => text < texts.len()
            && index < texts[text as int].words@.len(),
        _ => true,
    }
}

/// The error that reports failure `f` of a corpus whose texts are `texts`.
pub fn failure_error(f: &VerifyFailure, texts: &Vec<Text>) -> (e: GlosserError)
    requires
        failure_in_range(*f, texts@),
    ensures
        describes(e, *f, texts@),
{
    match *f {
        VerifyFailure::ArrowedWordTwice { word } => {
            let mut m = String::from_str("duplicate word_id in arrowed words ");
            push_uuid(&mut m, word);
            GlosserError::ArrowedWordTwice(m)
        },
        VerifyFailure::ArrowedGlossTwice { gloss } => {
            let mut m = String::from_str("duplicate gloss_uuid in arrowed words ");
            push_uuid(&mut m, gloss);
            GlosserError::ArrowedGlossTwice(m)
        },
        VerifyFailure::DuplicateWordId { text, word } => {
            let mut m = String::from_str("duplicate word uuid found in text ");
            m.append(texts[text].text_name.as_str());
            m.append(", word ");
            push_uuid(&mut m, word);
            GlosserError::DuplicateWordIdInTexts(m)
        },
        VerifyFailure::NonWordGlossed { text, word } => {
            let mut m = String::from_str("non-word type is glossed: text: ");
            m.append(texts[text].text_name.as_str());
            m.append(", word: ");
            push_uuid(&mut m, word);
            GlosserError::NonWordTypeIsGlossed(m)
        },
        VerifyFailure::GlossRetired { gloss, word } => {
            let mut m = String::from_str("gloss ");
            push_uuid(&mut m, gloss);
            m.append(" set for word ");
            push_uuid(&mut m, word);
            m.append(" has status == 0");
            GlosserError::ReferencedGlossIdDoesNotExistInGlossOrInvalid(m)
        },
        VerifyFailure::GlossMissing { gloss, word } => {
            let mut m = String::from_str("gloss ");
            push_uuid(&mut m, gloss);
            m.append(" set for word ");
            push_uuid(&mut m, word);
            m.append(" does not exist in gloss");
            GlosserError::ReferencedGlossIdDoesNotExistInGlossOrInvalid(m)
        },
        VerifyFailure::NonWordArrowed { word } => {
            let mut m = String::from_str("non-word type is arrowed: ");
            push_uuid(&mut m, word);
            GlosserError::NonWordTypeIsArrowed(m)
        },
        VerifyFailure::ArrowedWordUnglossed { word } => {
            let mut m = String::from_str("arrowed word has a gloss which is not set: ");
            push_uuid(&mut m, word);
            GlosserError::ArrowedWordsGlossDoesNotMatchText(m)
        },
        VerifyFailure::ArrowedGlossMismatch { text, index, gloss, arrowed } => {
            let mut m = String::from_str("arrow gloss doesn't match text's gloss ");
            m.append(texts[text].words[index].word.as_str());
            m.append(" (word ");
            push_uuid(&mut m, texts[text].words[index].uuid);
            m.append("): text has ");
            push_uuid(&mut m, gloss);
            m.append(", arrow has ");
            push_uuid(&mut m, arrowed);
            GlosserError::ArrowedWordsGlossDoesNotMatchText(m)
        },
        VerifyFailure::ArrowedGlossMissing { gloss } => {
            let mut m = String::from_str("arrowed gloss id does not exist in gloss: ");
            push_uuid(&mut m, gloss);
            GlosserError::ArrowedGlossNotFound(m)
        },
        VerifyFailure::ArrowedGlossRetired { gloss } => {
            let mut m = String::from_str("gloss with status 0 is arrowed: ");
            push_uuid(&mut m, gloss);
            GlosserError::ArrowedGlossIsInvalid(m)
        },
        VerifyFailure::ArrowedWordsMissing { declared, found } => {
            let mut m = String::from_str("didn't find correct number of arrowed words; arrowed: ");
            push_decimal(&mut m, declared);
            m.append(", found in texts: ");
            push_decimal(&mut m, found);
            GlosserError::ArrowedWordNotFound(m)
        },
    }
}

/// Once the assignments fail, later ones do not change the failure.
proof fn lemma_arrow_failure_stable(arrows: Seq<GlossArrow>, k: nat, m: nat)
    requires
        k <= m,
        arrow_failure(arrows, k) is Some,
    ensures
        arrow_failure(arrows, m) == arrow_failure(arrows, k),
    decreases m - k,
{
    if k < m {
        lemma_arrow_failure_stable(arrows, k, (m - 1) as nat);
    }
}

/// Once a word fails, later words do not change the failure.
proof fn lemma_words_failure_stable(
    texts: Seq<Text>,
    am: Map<WordUuid, GlossUuid>,
    gm: Map<GlossUuid, Gloss>,
    p: nat,
    m: nat,
)
    requires
        p <= m,
        words_failure(texts, am, gm, p) is Some,
    ensures
        words_failure(texts, am, gm, m) == words_failure(texts, am, gm, p),
    decreases m - p,
{
    if p < m {
        lemma_words_failure_stable(texts, am, gm, p, (m - 1) as nat);
    }
}

/// The first failure among the assignments.
fn check_arrows(arrows: &Vec<GlossArrow>) -> (r: Option<VerifyFailure>)
    ensures
        r == arrow_failure(arrows@, arrows@.len()),
        r matches Some(f) ==> f is ArrowedWordTwice || f is ArrowedGlossTwice,
{
    let mut seen_words: HashSet<WordUuid> = HashSet::new();
    let mut seen_glosses: HashSet<GlossUuid> = HashSet::new();
    let mut k: usize = 0;
    while k < arrows.len()
        invariant
            k <= arrows@.len(),
            arrow_failure(arrows@, k as nat) is None,
            forall|u: WordUuid|
                seen_words@.contains(u) <==> exists|i: int|
                    0 <= i < k && #[trigger] arrows@[i].word_uuid == u,
            forall|u: GlossUuid|
                seen_glosses@.contains(u) <==> exists|i: int|
                    0 <= i < k && #[trigger] arrows@[i].gloss_uuid == u,
        decreases arrows@.len() - k,
    {
        let a = arrows[k];
        if !seen_words.insert(a.word_uuid) {
            proof {
                lemma_arrow_failure_stable(arrows@, (k + 1) as nat, arrows@.len());
            }
            return Some(VerifyFailure::ArrowedWordTwice { word: a.word_uuid });
        }
        if !seen_glosses.insert(a.gloss_uuid) {
            proof {
                lemma_arrow_failure_stable(arrows@, (k + 1) as nat, arrows@.len());
            }
            return Some(VerifyFailure::ArrowedGlossTwice { gloss: a.gloss_uuid });
        }
        proof {
            assert forall|u: WordUuid|
                seen_words@.contains(u) <==> exists|i: int|
                    0 <= i < k + 1 && #[trigger] arrows@[i].word_uuid == u by {
                if u == a.word_uuid {
                    assert(arrows@[k as int].word_uuid == u);
                }
            }
            assert forall|u: GlossUuid|
                seen_glosses@.contains(u) <==> exists|i: int|
                    0 <= i < k + 1 && #[trigger] arrows@[i].gloss_uuid == u by {
                if u == a.gloss_uuid {
                    assert(arrows@[k as int].gloss_uuid == u);
                }
            }
        }
        k += 1;
    }
    None
}

/// What the checks of word `w`, word `j` of text `t`, find.
fn check_word(
    w: &Word,
    t: usize,
    j: usize,
    seen_before: bool,
    am: &HashMap<WordUuid, GlossUuid>,
    gm: &HashMap<GlossUuid, Gloss>,
) -> (r: Option<VerifyFailure>)
    ensures
        r == word_failure(*w, t as int, j as int, seen_before, am@, gm@),
{
    if seen_before {
        return Some(VerifyFailure::DuplicateWordId { text: t, word: w.uuid });
    }
    if let Some(g) = w.gloss_uuid {
        if w.word_type != WordType::Word {
            return Some(VerifyFailure::NonWordGlossed { text: t, word: w.uuid });
        }
        match gm.get(&g) {
            Some(gloss) => {
                if gloss.status == 0 {
                    return Some(VerifyFailure::GlossRetired { gloss: g, word: w.uuid });
                }
            },
            None => {
                return Some(VerifyFailure::GlossMissing { gloss: g, word: w.uuid });
            },
        }
    }
    match am.get(&w.uuid) {
        None => None,
        Some(ag) => {
            let ag = *ag;
            if w.word_type != WordType::Word {
                Some(VerifyFailure::NonWordArrowed { word: w.uuid })
            } else {
                match w.gloss_uuid {
                    None => Some(VerifyFailure::ArrowedWordUnglossed { word: w.uuid }),
                    Some(g) => {
                        if ag != g {
                            Some(
                                VerifyFailure::ArrowedGlossMismatch {
                                    text: t,
                                    index: j,
                                    gloss: g,
                                    arrowed: ag,
                                },
                            )
                        } else {
                            match gm.get(&ag) {
                                None => Some(VerifyFailure::ArrowedGlossMissing { gloss: ag }),
                                Some(gloss) => {
                                    if gloss.status == 0 {
                                        Some(VerifyFailure::ArrowedGlossRetired { gloss: ag })
                                    } else {
                                        None
                                    }
                                },
                            }
                        }
                    },
                }
            }
        },
    }
}

/// The first failure among the words of the corpus, or the number of arrow
/// targets among them.
fn check_words(
    texts: &Vec<Text>,
    am: &HashMap<WordUuid, GlossUuid>,
    gm: &HashMap<GlossUuid, Gloss>,
) -> (r: Result<usize, VerifyFailure>)
    requires
        corpus_size(texts@) <= usize::MAX,
    ensures
        match r {
            Ok(found) => words_failure(texts@, am@, gm@, corpus_size(texts@)) is None && found
                == arrows_found(texts@, am@, corpus_size(texts@)),
            Err(f) => words_failure(texts@, am@, gm@, corpus_size(texts@)) == Some(f)
                && failure_in_range(f, texts@),
        },
{
    let ghost ws = corpus_words(texts@);
    let ghost n = corpus_size(texts@);
    let mut seen: HashSet<WordUuid> = HashSet::new();
    let mut found: usize = 0;
    let mut t: usize = 0;
    proof {
        lemma_offset_ends(texts@);
    }
    while t < texts.len()
        invariant
            ws == corpus_words(texts@),
            n == corpus_size(texts@),
            n <= usize::MAX,
            t <= texts@.len(),
            text_offset(texts@, 0) == 0,
            text_offset(texts@, texts@.len() as int) == n,
            text_offset(texts@, t as int) <= n,
            words_failure(texts@, am@, gm@, text_offset(texts@, t as int) as nat) is None,
            found == arrows_found(texts@, am@, text_offset(texts@, t as int) as nat),
            found <= text_offset(texts@, t as int),
            forall|u: WordUuid|
                seen@.contains(u) <==> exists|q: int|
                    0 <= q < text_offset(texts@, t as int) && #[trigger] ws[q].uuid == u,
        decreases texts@.len() - t,
    {
        let words = &texts[t].words;
        let ghost o = text_offset(texts@, t as int);
        let mut j: usize = 0;
        while j < words.len()
            invariant
                ws == corpus_words(texts@),
                n == corpus_size(texts@),
                n <= usize::MAX,
                t < texts@.len(),
                *words == texts@[t as int].words,
                o == text_offset(texts@, t as int),
                j <= words@.len(),
                o + j <= n,
                words_failure(texts@, am@, gm@, (o + j) as nat) is None,
                found == arrows_found(texts@, am@, (o + j) as nat),
                found <= o + j,
                forall|u: WordUuid|
                    seen@.contains(u) <==> exists|q: int| 0 <= q < o + j && #[trigger] ws[q].uuid == u,
            decreases words@.len() - j,
        {
            let w = &words[j];
            let ghost p = o + j;
            proof {
                lemma_word_at(texts@, t as int, j as int);
                assert(ws[p] == *w);
            }
            let fresh = seen.insert(w.uuid);
            assert(fresh == !id_seen_before(texts@, p));
            let outcome = check_word(w, t, j, !fresh, am, gm);
            if let Some(f) = outcome {
                proof {
                    lemma_words_failure_stable(texts@, am@, gm@, (p + 1) as nat, n);
                }
                return Err(f);
            }
            if am.contains_key(&w.uuid) {
                found = found + 1;
            }
            proof {
                assert forall|u: WordUuid|
                    seen@.contains(u) <==> exists|q: int|
                        0 <= q < p + 1 && #[trigger] ws[q].uuid == u by {
                    if u == w.uuid {
                        assert(ws[p].uuid == u);
                    }
                }
            }
            j += 1;
        }
        proof {
            crate::corpus::lemma_slots_step(texts@, t as int);
            crate::corpus::lemma_slots_prefix(texts@, (t + 1) as int);
        }
        t += 1;
    }
    Ok(found)
}

impl Sequence {
    /// Checks the corpus against its arrow table and gloss table and reports
    /// the first violated invariant: assignment by assignment, one whose word
    /// or whose gloss an earlier assignment already names; then, word by word in reading order, a repeated word id,
    /// a gloss on a word that is not of kind `Word`, a missing or retired
    /// gloss, and an arrow target that is not a `Word`, has no gloss, has
    /// another gloss, or whose gloss is missing or retired; last, fewer arrow
    /// targets in the texts than entries in the arrow table.
    pub fn verify(
        &self,
        arrowed_words_hash: &HashMap<WordUuid, GlossUuid>,
        glosses_hash: &HashMap<GlossUuid, Gloss>,
    ) -> (r: Result<(), GlosserError>)
        requires
            corpus_size(self.texts@) <= usize::MAX,
        ensures
            match first_failure(*self, arrowed_words_hash@, glosses_hash@) {
                None => r is Ok,
                Some(f) => r matches Err(e) && describes(e, f, self.texts@),
            },
    {
        if let Some(f) = check_arrows(&self.sequence_description.arrowed_words) {
            return Err(failure_error(&f, &self.texts));
        }
        match check_words(&self.texts, arrowed_words_hash, glosses_hash) {
            Err(f) => Err(failure_error(&f, &self.texts)),
            Ok(found) => {
                let declared = arrowed_words_hash.len();
                if declared != found {
                    let f = VerifyFailure::ArrowedWordsMissing { declared, found };
                    Err(failure_error(&f, &self.texts))
                } else {
                    Ok(())
                }
            },
        }
    }
}

} // verus!
