//! The gloss list of one page: which occurrences are listed, in what order,
//! and which arrowed words the page contributes to the index.
use crate::glosstext::{get_small_lemma, small_lemma};
use crate::model::{
    ArrowedState, ArrowedWordsIndex, GlossOccurrance, GlossPageOptions, GlossUuid, WordType,
};
use crate::order::{alphabetical_order, is_alphabetical, key_view, keys_view, lemma_alphabetical_unique};
use crate::text::{chars_of, lower_of, lowercase};
use vstd::prelude::*;

verus! {

/// Whether an occurrence may appear in a gloss list: it is a word, and not
/// an invisible one when invisible occurrences are hidden.
pub open spec fn kept(o: GlossOccurrance, opts: GlossPageOptions) -> bool {
    o.word.word_type == WordType::Word && !(opts.filter_invisible && o.arrowed_state
        == ArrowedState::Invisible)
}

/// Whether row `o` is for gloss `id`.
pub open spec fn has_gloss_id(o: GlossOccurrance, id: GlossUuid) -> bool {
    o.gloss matches Some(g) && g.uuid == id
}

/// The rows of a page when duplicates are allowed: every kept occurrence,
/// but one without a gloss only when invisible occurrences are shown.
pub open spec fn listed_rows(occ: Seq<GlossOccurrance>, opts: GlossPageOptions) -> Seq<GlossOccurrance>
    decreases occ.len(),
{
    if occ.len() == 0 {
        Seq::empty()
    } else {
        let o = occ.last();
        listed_rows(occ.drop_last(), opts) + if kept(o, opts) && (o.gloss is Some
            || !opts.filter_invisible) {
            seq![o]
        } else {
            Seq::empty()
        }
    }
}

/// The rows of a page with one row per gloss: the first kept occurrence of
/// each gloss, in order of first occurrence, replaced by an arrowed
/// occurrence of the same gloss when one follows. A kept occurrence without
/// a gloss gets a row of its own, in order, when invisible occurrences are
/// shown.
pub open spec fn unique_rows(occ: Seq<GlossOccurrance>, opts: GlossPageOptions) -> Seq<GlossOccurrance>
    decreases occ.len(),
{
    if occ.len() == 0 {
        Seq::empty()
    } else {
        let prev = unique_rows(occ.drop_last(), opts);
        let o = occ.last();
        if kept(o, opts) && o.gloss is Some {
            let id = o.gloss->0.uuid;
            if exists|k: int| 0 <= k < prev.len() && has_gloss_id(prev[k], id) {
                if o.arrowed_state == ArrowedState::Arrowed {
                    prev.map_values(
                        |r: GlossOccurrance|
                            if has_gloss_id(r, id) {
                                o
                            } else {
                                r
                            },
                    )
                } else {
                    prev
                }
            } else {
                prev.push(o)
            }
        } else if kept(o, opts) && o.gloss is None && !opts.filter_invisible {
            prev.push(o)
        } else {
            prev
        }
    }
}

/// The rows of a page before any sorting.
pub open spec fn page_rows(occ: Seq<GlossOccurrance>, opts: GlossPageOptions) -> Seq<GlossOccurrance> {
    if opts.filter_unique {
        unique_rows(occ, opts)
    } else {
        listed_rows(occ, opts)
    }
}

/// The sort key of a row: its gloss's sort key in lowercase, or none.
pub open spec fn row_key(o: GlossOccurrance) -> Option<Seq<char>> {
    match o.gloss {
        Some(g) => Some(lower_of(g.sort_alpha@)),
        None => None,
    }
}

/// The sort keys of a list of rows.
pub open spec fn row_keys(rows: Seq<GlossOccurrance>) -> Seq<Option<Seq<char>>> {
    rows.map_values(|o: GlossOccurrance| row_key(o))
}

/// Whether `r` is the gloss list owed for a page with occurrences `occ`:
/// the page's rows, and with `sort_alpha` those rows in alphabetical order
/// of their keys, rows without a gloss last.
pub open spec fn is_gloss_list(
    occ: Seq<GlossOccurrance>,
    opts: GlossPageOptions,
    r: Seq<GlossOccurrance>,
) -> bool {
    let rows = page_rows(occ, opts);
    if opts.sort_alpha {
        exists|order: Seq<usize>|
            #[trigger] is_alphabetical(row_keys(rows), order) && r == order.map_values(
                |k: usize| rows[k as int],
            )
    } else {
        r == rows
    }
}

/// The gloss list of a page with occurrences `occ`: the one list that
/// `is_gloss_list` admits.
pub open spec fn gloss_list(occ: Seq<GlossOccurrance>, opts: GlossPageOptions) -> Seq<GlossOccurrance> {
    if opts.sort_alpha {
        choose|r: Seq<GlossOccurrance>| is_gloss_list(occ, opts, r)
    } else {
        page_rows(occ, opts)
    }
}

/// A page has a single gloss list: any list that `is_gloss_list` admits is
/// `gloss_list`.
pub proof fn lemma_gloss_list_unique(occ: Seq<GlossOccurrance>, opts: GlossPageOptions, r: Seq<GlossOccurrance>)
    requires
        is_gloss_list(occ, opts, r),
    ensures
        r == gloss_list(occ, opts),
{
    if opts.sort_alpha {
        let rows = page_rows(occ, opts);
        let r2 = choose|x: Seq<GlossOccurrance>| is_gloss_list(occ, opts, x);
        let o1 = choose|o: Seq<usize>|
            #[trigger] is_alphabetical(row_keys(rows), o) && r == o.map_values(|k: usize| rows[k as int]);
        let o2 = choose|o: Seq<usize>|
            #[trigger] is_alphabetical(row_keys(rows), o) && r2 == o.map_values(|k: usize| rows[k as int]);
        lemma_alphabetical_unique(row_keys(rows), o1, o2);
    }
}

/// An index entry as (short lemma, sort key, page number).
pub open spec fn entry_view(e: ArrowedWordsIndex) -> (Seq<char>, Seq<char>, usize) {
    (e.gloss_lemma@, e.gloss_sort@, e.page_number)
}

/// Index entries as triples.
pub open spec fn entries_view(v: Seq<ArrowedWordsIndex>) -> Seq<(Seq<char>, Seq<char>, usize)> {
    v.map_values(|e: ArrowedWordsIndex| entry_view(e))
}

/// The index entries of a page: one for each arrowed word with a gloss, in
/// order, whatever the options.
pub open spec fn page_index_entries(occ: Seq<GlossOccurrance>, page_number: usize) -> Seq<
    (Seq<char>, Seq<char>, usize),
>
    decreases occ.len(),
{
    if occ.len() == 0 {
        Seq::empty()
    } else {
        let o = occ.last();
        page_index_entries(occ.drop_last(), page_number) + match o.gloss {
            Some(g) => if o.word.word_type == WordType::Word && o.arrowed_state
                == ArrowedState::Arrowed {
                seq![(small_lemma(g.lemma@), g.sort_alpha@, page_number)]
            } else {
                Seq::empty()
            },
            None => Seq::empty(),
        }
    }
}

/// The place of the row for gloss `id` among `rows`, if any.
fn find_gloss_row(rows: &Vec<GlossOccurrance>, id: GlossUuid) -> (r: Option<usize>)
    ensures
        match r {
            Some(k) => k < rows@.len() && has_gloss_id(rows@[k as int], id),
            None => forall|k: int| 0 <= k < rows@.len() ==> !has_gloss_id(rows@[k], id),
        },
{
    let mut k: usize = 0;
    while k < rows.len()
        invariant
            k <= rows@.len(),
            forall|j: int| 0 <= j < k ==> !has_gloss_id(rows@[j], id),
        decreases rows@.len() - k,
    {
        match &rows[k].gloss {
            Some(g) => {
                if g.uuid == id {
                    return Some(k);
                }
            },
            None => {},
        }
        k += 1;
    }
    None
}

/// The rows of a page, before sorting.
fn collect_rows(occ: &[GlossOccurrance], options: &GlossPageOptions) -> (rows: Vec<GlossOccurrance>)
    ensures
        rows@ == page_rows(occ@, *options),
{
    let mut rows: Vec<GlossOccurrance> = Vec::new();
    let mut i: usize = 0;
    proof {
        assert(occ@.take(0) =~= Seq::<GlossOccurrance>::empty());
    }
    while i < occ.len()
        invariant
            i <= occ@.len(),
            rows@ == page_rows(occ@.take(i as int), *options),
            options.filter_unique ==> forall|k: int, l: int|
                0 <= k < l < rows@.len() && (#[trigger] rows@[k]).gloss is Some ==> !has_gloss_id(
                    #[trigger] rows@[l],
                    rows@[k].gloss->0.uuid,
                ),
        decreases occ@.len() - i,
    {
        let o = &occ[i];
        let ghost prev = rows@;
        proof {
            assert(occ@.take(i + 1).drop_last() =~= occ@.take(i as int));
            assert(occ@.take(i + 1).last() == occ@[i as int]);
        }
        let is_kept = o.word.word_type == WordType::Word && !(options.filter_invisible
            && o.arrowed_state == ArrowedState::Invisible);
        if options.filter_unique {
            if is_kept {
                match &o.gloss {
                    Some(g) => {
                        let id = g.uuid;
                        match find_gloss_row(&rows, id) {
                            Some(k) => {
                                if o.arrowed_state == ArrowedState::Arrowed {
                                    rows.set(k, o.duplicate());
                                    proof {
                                        assert(exists|j: int| 0 <= j < prev.len() && has_gloss_id(prev[j], id));
                                        assert(rows@ =~= prev.map_values(
                                            |r: GlossOccurrance|
                                                if has_gloss_id(r, id) {
                                                    *o
                                                } else {
                                                    r
                                                },
                                        )) by {
                                            assert forall|j: int| 0 <= j < prev.len() && j != k implies !has_gloss_id(prev[j], id) by {
                                                if j < k && prev[j].gloss is Some {
                                                    assert(!has_gloss_id(prev[k as int], prev[j].gloss->0.uuid));
                                                } else if j > k {
                                                    assert(!has_gloss_id(prev[j], prev[k as int].gloss->0.uuid));
                                                }
                                            }
                                        }
                                    }
                                } else {
                                    proof {
                                        assert(exists|j: int| 0 <= j < prev.len() && has_gloss_id(prev[j], id));
                                    }
                                }
                            },
                            None => {
                                rows.push(o.duplicate());
                            },
                        }
                    },
                    None => {
                        if !options.filter_invisible {
                            rows.push(o.duplicate());
                        }
                    },
                }
            }
        } else {
            if is_kept && (o.gloss.is_some() || !options.filter_invisible) {
                rows.push(o.duplicate());
            }
        }
        i += 1;
    }
    proof {
        assert(occ@.take(occ@.len() as int) =~= occ@);
    }
    rows
}

/// The index entries of a page, appended to `index`.
fn collect_index_entries(
    occ: &[GlossOccurrance],
    index: &mut Vec<ArrowedWordsIndex>,
    page_number: usize,
)
    ensures
        entries_view(final(index)@) == entries_view(old(index)@) + page_index_entries(occ@, page_number),
{
    let ghost start = entries_view(index@);
    let mut i: usize = 0;
    proof {
        assert(occ@.take(0) =~= Seq::<GlossOccurrance>::empty());
        assert(start + page_index_entries(occ@.take(0), page_number) =~= start);
    }
    while i < occ.len()
        invariant
            i <= occ@.len(),
            entries_view(index@) == start + page_index_entries(occ@.take(i as int), page_number),
        decreases occ@.len() - i,
    {
        let o = &occ[i];
        proof {
            assert(occ@.take(i + 1).drop_last() =~= occ@.take(i as int));
            assert(occ@.take(i + 1).last() == occ@[i as int]);
        }
        match &o.gloss {
            Some(g) => {
                if o.word.word_type == WordType::Word && o.arrowed_state == ArrowedState::Arrowed {
                    let e = ArrowedWordsIndex {
                        gloss_lemma: get_small_lemma(g.lemma.as_str()),
                        gloss_sort: g.sort_alpha.clone(),
                        page_number,
                    };
                    let ghost before = index@;
                    let ghost ev = entry_view(e);
                    index.push(e);
                    proof {
                        assert(entries_view(index@) =~= entries_view(before).push(ev));
                        assert(entries_view(index@) =~= start + page_index_entries(occ@.take(i + 1), page_number));
                    }
                } else {
                    proof {
                        assert(entries_view(index@) =~= start + page_index_entries(occ@.take(i + 1), page_number));
                    }
                }
            },
            None => {
                proof {
                    assert(entries_view(index@) =~= start + page_index_entries(occ@.take(i + 1), page_number));
                }
            },
        }
        i += 1;
    }
    proof {
        assert(occ@.take(occ@.len() as int) =~= occ@);
    }
}

/// The sort key of a row.
fn row_sort_key(o: &GlossOccurrance) -> (r: Option<Vec<char>>)
    ensures
        key_view(r) == row_key(*o),
{
    match &o.gloss {
        Some(g) => {
            let low = lowercase(g.sort_alpha.as_str());
            Some(chars_of(low.as_str()))
        },
        None => None,
    }
}

/// The gloss list of a page with occurrences `gloss_occurrances`, and the
/// page's index entries appended to `arrowed_words_index`.
///
/// An occurrence is listed when it is a word, unless it is invisible and
/// invisible occurrences are hidden; one without a gloss only when
/// invisible occurrences are shown. With `filter_unique` each gloss gets one
/// row, the arrowed occurrence when there is one, while rows without a
/// gloss stay as they are. With `sort_alpha` the rows are ordered by the lowercase sort
/// key of their gloss, equal keys keeping their order and rows without a
/// gloss last. Every arrowed word with a gloss gives an index entry, whatever
/// the options.
pub fn filter_and_sort_glosses(
    gloss_occurrances: &[GlossOccurrance],
    arrowed_words_index: &mut Vec<ArrowedWordsIndex>,
    page_number: usize,
    options: &GlossPageOptions,
) -> (r: Vec<GlossOccurrance>)
    ensures
        entries_view(final(arrowed_words_index)@) == entries_view(old(arrowed_words_index)@)
            + page_index_entries(gloss_occurrances@, page_number),
        is_gloss_list(gloss_occurrances@, *options, r@),
{
    collect_index_entries(gloss_occurrances, arrowed_words_index, page_number);
    let rows = collect_rows(gloss_occurrances, options);
    if !options.sort_alpha {
        return rows;
    }
    let mut keys: Vec<Option<Vec<char>>> = Vec::new();
    let mut i: usize = 0;
    while i < rows.len()
        invariant
            i <= rows@.len(),
            keys@.len() == i,
            forall|k: int| 0 <= k < i ==> key_view(#[trigger] keys@[k]) == row_key(rows@[k]),
        decreases rows@.len() - i,
    {
        keys.push(row_sort_key(&rows[i]));
        i += 1;
    }
    let ghost kv = row_keys(rows@);
    proof {
        assert(keys_view(keys@) =~= kv);
    }
    let order = alphabetical_order(&keys);
    let mut out: Vec<GlossOccurrance> = Vec::new();
    let mut k: usize = 0;
    while k < order.len()
        invariant
            k <= order@.len(),
            is_alphabetical(kv, order@),
            kv.len() == rows@.len(),
            out@ == order@.take(k as int).map_values(|x: usize| rows@[x as int]),
        decreases order@.len() - k,
    {
        let x = order[k];
        out.push(rows[x].duplicate());
        proof {
            assert(order@.take(k + 1).map_values(|x: usize| rows@[x as int]) =~= order@.take(
                k as int,
            ).map_values(|x: usize| rows@[x as int]).push(rows@[x as int]));
        }
        k += 1;
    }
    proof {
        assert(order@.take(order@.len() as int) =~= order@);
        assert(kv == row_keys(page_rows(gloss_occurrances@, *options)));
        assert(is_alphabetical(kv, order@));
    }
    out
}

} // verus!
