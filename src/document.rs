//! Assembly of the whole document through a render sink: pages laid out as
//! the pagination says, each page's running text and gloss list, blank
//! pages, and the index of arrowed words at the end.
use crate::glosstext::{page_plan, page_plan_of, sanitize_greek, sanitized};
use crate::layout::{
    book_pass, lay_out, lemma_book_pages_in_range, page_budget, slot_in_range, DocumentLayout,
    PageSlot, TextPages,
};
use crate::model::{
    AppCrit, ArrowedWordsIndex, GlossOccurrance, GlossPageOptions, Sequence, Text, WordUuid,
};
use crate::order::{
    alphabetical_order, is_alphabetical, key_view, keys_view, lemma_alphabetical_unique,
};
use crate::page_glosses::{
    entries_view, filter_and_sort_glosses, gloss_list, lemma_gloss_list_unique, page_index_entries,
};
use crate::text::{chars_of, lower_of, lowercase};
use std::collections::HashMap;
use vstd::prelude::*;

verus! {

broadcast use vstd::std_specs::hash::group_hash_axioms;

/// An output format. Each method returns the markup of one part of the
/// document; the spec functions say which markup that is.
pub trait ExportDocument {
    /// The markup of one gloss-list entry with lemma `lemma`.
    spec fn gloss_entry_text(&self, o: GlossOccurrance, lemma: Option<Seq<char>>) -> Seq<char>;

    /// The running text of a page with occurrences `occ` and apparatus notes
    /// `notes`, by word id.
    spec fn text_markup(&self, occ: Seq<GlossOccurrance>, notes: Map<WordUuid, String>) -> Seq<char>;

    /// The markup that starts a page titled `title`.
    spec fn page_start_text(&self, title: Seq<char>, page_number: usize) -> Seq<char>;

    /// The markup that ends a page.
    spec fn page_end_text(&self) -> Seq<char>;

    /// The markup that starts a page's gloss list.
    spec fn gloss_list_start_text(&self) -> Seq<char>;

    /// The markup that ends the document.
    spec fn document_end_text(&self) -> Seq<char>;

    /// The markup that starts the document.
    spec fn document_start_text(&self, title: Seq<char>, start_page: usize) -> Seq<char>;

    /// The markup of the index of arrowed words, given as (short lemma, sort
    /// key, page number).
    spec fn index_text(&self, entries: Seq<(Seq<char>, Seq<char>, usize)>) -> Seq<char>;

    /// The markup of a blank page.
    spec fn blank_page_text(&self) -> Seq<char>;

    /// One entry of a page's gloss list; `lemma` is the gloss's lemma, if
    /// the occurrence has a gloss.
    fn gloss_entry(&self, gloss_occurrance: &GlossOccurrance, lemma: Option<&str>) -> (r: String)
        ensures
            r@ == self.gloss_entry_text(*gloss_occurrance, opt_view(lemma)),
    ;

    /// The running text of a page, with the apparatus notes of its words.
    fn make_text(
        &self,
        gloss_occurrances: &[GlossOccurrance],
        appcrit_hash: &HashMap<WordUuid, String>,
    ) -> (r: String)
        ensures
            r@ == self.text_markup(gloss_occurrances@, appcrit_hash@),
    ;

    /// The start of a page with running title `title`.
    fn page_start(&self, title: &str, page_number: usize) -> (r: String)
        ensures
            r@ == self.page_start_text(title@, page_number),
    ;

    /// The end of a page.
    fn page_end(&self) -> (r: String)
        ensures
            r@ == self.page_end_text(),
    ;

    /// The start of a page's gloss list.
    fn page_gloss_start(&self) -> (r: String)
        ensures
            r@ == self.gloss_list_start_text(),
    ;

    /// The end of the document.
    fn document_end(&self) -> (r: String)
        ensures
            r@ == self.document_end_text(),
    ;

    /// The start of the document.
    fn document_start(&self, title: &str, start_page: usize) -> (r: String)
        ensures
            r@ == self.document_start_text(title@, start_page),
    ;

    /// The index of arrowed words, already sorted.
    fn make_index(&self, arrowed_words_index: &[ArrowedWordsIndex]) -> (r: String)
        ensures
            r@ == self.index_text(entries_view(arrowed_words_index@)),
    ;

    /// A blank page.
    fn blank_page(&self) -> (r: String)
        ensures
            r@ == self.blank_page_text(),
    ;
}

/// An optional string as its characters.
pub open spec fn opt_view(s: Option<&str>) -> Option<Seq<char>> {
    match s {
        Some(x) => Some(x@),
        None => None,
    }
}

/// How many page numbers the texts' page-size plans can use at most.
pub open spec fn plans_budget(texts: Seq<Text>) -> nat
    decreases texts.len(),
{
    if texts.len() == 0 {
        1
    } else {
        plans_budget(texts.drop_last()) + page_plan_of(texts.last().words_per_page@).len() + 2
    }
}

/// What pagination is given for text `t`: its display flag from the book
/// description, its number of occurrences, and its page-size plan.
pub open spec fn pages_match(
    tp: TextPages,
    s: Sequence,
    occ: Seq<Vec<GlossOccurrance>>,
    t: int,
) -> bool {
    &&& tp.display == s.sequence_description.texts@[t].display
    &&& tp.occurrences == occ[t]@.len()
    &&& tp.plan@ == page_plan_of(s.texts@[t].words_per_page@)
}

/// Whether the book's page numbers fit in a `usize`.
pub open spec fn page_numbers_fit(s: Sequence) -> bool {
    s.sequence_description.start_page + plans_budget(s.texts@) <= usize::MAX
}

/// Whether `occ` holds one occurrence list per text and the description
/// one entry per text.
pub open spec fn occurrences_fit(s: Sequence, occ: Seq<Vec<GlossOccurrance>>) -> bool {
    occ.len() == s.texts@.len() && s.sequence_description.texts@.len() >= s.texts@.len()
}

proof fn lemma_budget_matches(tp: Seq<TextPages>, s: Sequence, occ: Seq<Vec<GlossOccurrance>>, n: int)
    requires
        0 <= n <= tp.len(),
        n <= s.texts@.len(),
        forall|t: int| 0 <= t < tp.len() ==> pages_match(#[trigger] tp[t], s, occ, t),
    ensures
        page_budget(tp.take(n)) == plans_budget(s.texts@.take(n)),
    decreases n,
{
    if n > 0 {
        lemma_budget_matches(tp, s, occ, n - 1);
        assert(tp.take(n).drop_last() =~= tp.take(n - 1));
        assert(s.texts@.take(n).drop_last() =~= s.texts@.take(n - 1));
        assert(pages_match(tp[n - 1], s, occ, n - 1));
    } else {
        assert(tp.take(0) =~= Seq::<TextPages>::empty());
        assert(s.texts@.take(0) =~= Seq::<Text>::empty());
    }
}

/// The lemma handed to the sink with a gloss-list row: the gloss's lemma
/// with Greek accents normalised, or none for a row without a gloss.
pub open spec fn entry_lemma(o: GlossOccurrance) -> Option<Seq<char>> {
    match o.gloss {
        Some(g) => Some(sanitized(g.lemma@)),
        None => None,
    }
}

/// The markup of a gloss list: the sink's entry for each row, in order.
pub open spec fn gloss_list_text<E: ExportDocument>(export: &E, rows: Seq<GlossOccurrance>) -> Seq<char>
    decreases rows.len(),
{
    if rows.len() == 0 {
        Seq::empty()
    } else {
        gloss_list_text(export, rows.drop_last()) + export.gloss_entry_text(
            rows.last(),
            entry_lemma(rows.last()),
        )
    }
}

/// The markup of a page: its start, the running text `text` the sink made
/// of its occurrences, the start of its gloss list, the entries of the
/// gloss list `rows`, and its end.
pub open spec fn page_markup<E: ExportDocument>(
    export: &E,
    title: Seq<char>,
    page_number: usize,
    text: Seq<char>,
    rows: Seq<GlossOccurrance>,
) -> Seq<char> {
    export.page_start_text(title, page_number) + text + export.gloss_list_start_text()
        + gloss_list_text(export, rows) + export.page_end_text()
}

/// The sort keys of index entries given as (short lemma, sort key, page).
pub open spec fn view_keys(v: Seq<(Seq<char>, Seq<char>, usize)>) -> Seq<Option<Seq<char>>> {
    v.map_values(|e: (Seq<char>, Seq<char>, usize)| Some(lower_of(e.1)))
}

/// Whether `r` is `v` ordered by lowercase sort key, equal keys keeping
/// their order.
pub open spec fn is_sorted_index(v: Seq<(Seq<char>, Seq<char>, usize)>, r: Seq<(Seq<char>, Seq<char>, usize)>) -> bool {
    exists|order: Seq<usize>|
        #[trigger] is_alphabetical(view_keys(v), order) && r == order.map_values(|k: usize| v[k as int])
}

/// The index entries `v` in sorted order.
pub open spec fn sorted_index(v: Seq<(Seq<char>, Seq<char>, usize)>) -> Seq<(Seq<char>, Seq<char>, usize)> {
    choose|r: Seq<(Seq<char>, Seq<char>, usize)>| is_sorted_index(v, r)
}

/// There is a single sorted order of index entries.
pub proof fn lemma_sorted_index_unique(v: Seq<(Seq<char>, Seq<char>, usize)>, r: Seq<(Seq<char>, Seq<char>, usize)>)
    requires
        is_sorted_index(v, r),
    ensures
        r == sorted_index(v),
{
    let r2 = choose|x: Seq<(Seq<char>, Seq<char>, usize)>| is_sorted_index(v, x);
    let o1 = choose|o: Seq<usize>|
        #[trigger] is_alphabetical(view_keys(v), o) && r == o.map_values(|k: usize| v[k as int]);
    let o2 = choose|o: Seq<usize>|
        #[trigger] is_alphabetical(view_keys(v), o) && r2 == o.map_values(|k: usize| v[k as int]);
    lemma_alphabetical_unique(view_keys(v), o1, o2);
}

/// Each index entry's sort key in lowercase.
pub open spec fn index_keys(v: Seq<ArrowedWordsIndex>) -> Seq<Option<Seq<char>>> {
    v.map_values(|e: ArrowedWordsIndex| Some(lower_of(e.gloss_sort@)))
}

/// The index entries ordered by their sort key in lowercase; entries with
/// equal keys keep their order.
pub fn sort_index(entries: &Vec<ArrowedWordsIndex>) -> (r: Vec<ArrowedWordsIndex>)
    ensures
        exists|order: Seq<usize>|
            #[trigger] is_alphabetical(index_keys(entries@), order) && r@ == order.map_values(
                |k: usize| entries@[k as int],
            ),
        entries_view(r@) == sorted_index(entries_view(entries@)),
{
    let mut keys: Vec<Option<Vec<char>>> = Vec::new();
    let mut i: usize = 0;
    while i < entries.len()
        invariant
            i <= entries@.len(),
            keys@.len() == i,
            forall|k: int| 0 <= k < i ==> key_view(#[trigger] keys@[k]) == Some(lower_of(entries@[k].gloss_sort@)),
        decreases entries@.len() - i,
    {
        let low = lowercase(entries[i].gloss_sort.as_str());
        keys.push(Some(chars_of(low.as_str())));
        i += 1;
    }
    proof {
        assert(keys_view(keys@) =~= index_keys(entries@));
    }
    let order = alphabetical_order(&keys);
    let mut out: Vec<ArrowedWordsIndex> = Vec::new();
    let mut k: usize = 0;
    while k < order.len()
        invariant
            k <= order@.len(),
            is_alphabetical(index_keys(entries@), order@),
            index_keys(entries@).len() == entries@.len(),
            out@ == order@.take(k as int).map_values(|x: usize| entries@[x as int]),
        decreases order@.len() - k,
    {
        let x = order[k];
        out.push(entries[x].duplicate());
        proof {
            assert(order@.take(k + 1).map_values(|x: usize| entries@[x as int]) =~= order@.take(
                k as int,
            ).map_values(|x: usize| entries@[x as int]).push(entries@[x as int]));
        }
        k += 1;
    }
    proof {
        assert(order@.take(order@.len() as int) =~= order@);
        let ev = entries_view(entries@);
        assert(index_keys(entries@) =~= view_keys(ev));
        assert(entries_view(out@) =~= order@.map_values(|k: usize| ev[k as int]));
        assert(is_sorted_index(ev, entries_view(out@)));
        lemma_sorted_index_unique(ev, entries_view(out@));
    }
    out
}

/// The gloss list entries of a page, each with its gloss's lemma with
/// Greek accents normalised.
fn get_gloss_string<E: ExportDocument>(glosses: &[GlossOccurrance], export: &E) -> (r: String)
    ensures
        r@ == gloss_list_text(export, glosses@),
{
    let mut res = String::new();
    let mut i: usize = 0;
    proof {
        assert(glosses@.take(0) =~= Seq::<GlossOccurrance>::empty());
    }
    while i < glosses.len()
        invariant
            i <= glosses@.len(),
            res@ == gloss_list_text(export, glosses@.take(i as int)),
        decreases glosses@.len() - i,
    {
        proof {
            assert(glosses@.take(i + 1).drop_last() =~= glosses@.take(i as int));
        }
        let g = &glosses[i];
        let entry = match &g.gloss {
            Some(some_gloss) => {
                let lemma = sanitize_greek(some_gloss.lemma.as_str());
                export.gloss_entry(g, Some(lemma.as_str()))
            },
            None => export.gloss_entry(g, None),
        };
        res.append(entry.as_str());
        i += 1;
    }
    proof {
        assert(glosses@.take(glosses@.len() as int) =~= glosses@);
    }
    res
}

/// One page: its start, running text, gloss list and end; its index
/// entries are appended to `arrowed_words_index`.
fn make_page<E: ExportDocument>(
    gloss_occurrances: &[GlossOccurrance],
    appcrit_hash: &HashMap<WordUuid, String>,
    export: &E,
    title: &str,
    arrowed_words_index: &mut Vec<ArrowedWordsIndex>,
    page_number: usize,
    options: &GlossPageOptions,
) -> (page: String)
    ensures
        entries_view(final(arrowed_words_index)@) == entries_view(old(arrowed_words_index)@)
            + page_index_entries(gloss_occurrances@, page_number),
        page@ == page_markup(
            export,
            title@,
            page_number,
            export.text_markup(gloss_occurrances@, appcrit_hash@),
            gloss_list(gloss_occurrances@, *options),
        ),
{
    let mut page = export.page_start(title, page_number);
    let text = export.make_text(gloss_occurrances, appcrit_hash);
    page.append(text.as_str());
    let start = export.page_gloss_start();
    page.append(start.as_str());
    let v = filter_and_sort_glosses(gloss_occurrances, arrowed_words_index, page_number, options);
    let list = get_gloss_string(v.as_slice(), export);
    page.append(list.as_str());
    let end = export.page_end();
    page.append(end.as_str());
    proof {
        lemma_gloss_list_unique(gloss_occurrances@, *options, v@);
        assert(page@ =~= page_markup(export, title@, page_number, text@, v@));
    }
    page
}

/// Copies occurrences `start..end` of `occ`.
fn page_slice(occ: &Vec<GlossOccurrance>, start: usize, end: usize) -> (r: Vec<GlossOccurrance>)
    requires
        start <= end <= occ@.len(),
    ensures
        r@ == occ@.subrange(start as int, end as int),
{
    let mut r: Vec<GlossOccurrance> = Vec::new();
    let mut k: usize = start;
    while k < end
        invariant
            start <= k <= end,
            end <= occ@.len(),
            r@ == occ@.subrange(start as int, k as int),
        decreases end - k,
    {
        r.push(occ[k].duplicate());
        proof {
            assert(r@ =~= occ@.subrange(start as int, k + 1));
        }
        k += 1;
    }
    r
}

/// `m` with each note of `list` stored under its word id, later notes
/// replacing earlier ones.
pub open spec fn insert_notes(m: Map<WordUuid, String>, list: Seq<AppCrit>) -> Map<WordUuid, String>
    decreases list.len(),
{
    if list.len() == 0 {
        m
    } else {
        insert_notes(m, list.drop_last()).insert(list.last().word_uuid, list.last().entry)
    }
}

/// The apparatus notes of all texts by word id, a later note for the same
/// word replacing an earlier one.
pub open spec fn appcrit_map(texts: Seq<Text>) -> Map<WordUuid, String>
    decreases texts.len(),
{
    if texts.len() == 0 {
        Map::empty()
    } else {
        match texts.last().appcrits {
            Some(list) => insert_notes(appcrit_map(texts.drop_last()), list@),
            None => appcrit_map(texts.drop_last()),
        }
    }
}

/// The running title of a page: none on a text's first planned page, the
/// text's name on the others.
pub open spec fn page_title(s: Sequence, text: usize, titled: bool) -> Seq<char> {
    if titled {
        s.texts@[text as int].text_name@
    } else {
        ""@
    }
}

/// The markup of one laid-out page: a blank page, or the page markup of
/// occurrences `start..end` of its text, with its title, number, running
/// text (with apparatus notes `notes`) and gloss list.
pub open spec fn slot_markup<E: ExportDocument>(
    export: &E,
    s: Sequence,
    occ: Seq<Vec<GlossOccurrance>>,
    opts: GlossPageOptions,
    notes: Map<WordUuid, String>,
    slot: PageSlot,
) -> Seq<char> {
    match slot {
        PageSlot::Blank { .. } => export.blank_page_text(),
        PageSlot::Page { text: t, start, end, page_number, titled } => {
            let part = occ[t as int]@.subrange(start as int, end as int);
            page_markup(
                export,
                page_title(s, t, titled),
                page_number,
                export.text_markup(part, notes),
                gloss_list(part, opts),
            )
        },
    }
}

/// The markup of laid-out pages, in order.
pub open spec fn slots_markup<E: ExportDocument>(
    export: &E,
    s: Sequence,
    occ: Seq<Vec<GlossOccurrance>>,
    opts: GlossPageOptions,
    notes: Map<WordUuid, String>,
    slots: Seq<PageSlot>,
) -> Seq<char>
    decreases slots.len(),
{
    if slots.len() == 0 {
        Seq::empty()
    } else {
        slots_markup(export, s, occ, opts, notes, slots.drop_last()) + slot_markup(
            export,
            s,
            occ,
            opts,
            notes,
            slots.last(),
        )
    }
}

/// The index entries that laid-out pages contribute, page by page.
pub open spec fn slots_index(occ: Seq<Vec<GlossOccurrance>>, slots: Seq<PageSlot>) -> Seq<
    (Seq<char>, Seq<char>, usize),
>
    decreases slots.len(),
{
    if slots.len() == 0 {
        Seq::empty()
    } else {
        slots_index(occ, slots.drop_last()) + match slots.last() {
            PageSlot::Page { text, start, end, page_number, .. } => page_index_entries(
                occ[text as int]@.subrange(start as int, end as int),
                page_number,
            ),
            PageSlot::Blank { .. } => Seq::empty(),
        }
    }
}

/// The whole document for laid-out pages `slots`: the document start, the
/// markup of every page with the apparatus notes of all texts, the sorted
/// index when any page contributes to it, and the document end.
pub open spec fn document_markup<E: ExportDocument>(
    export: &E,
    s: Sequence,
    occ: Seq<Vec<GlossOccurrance>>,
    opts: GlossPageOptions,
    slots: Seq<PageSlot>,
) -> Seq<char> {
    let idx = slots_index(occ, slots);
    export.document_start_text(s.sequence_description.name@, s.sequence_description.start_page)
        + slots_markup(export, s, occ, opts, appcrit_map(s.texts@), slots) + if idx.len() > 0 {
        export.index_text(sorted_index(idx))
    } else {
        Seq::empty()
    } + export.document_end_text()
}

/// The first laid-out page numbered `n`, if any.
pub open spec fn page_numbered(slots: Seq<PageSlot>, n: usize) -> Option<int>
    decreases slots.len(),
{
    if slots.len() == 0 {
        None
    } else {
        match page_numbered(slots.drop_last(), n) {
            Some(k) => Some(k),
            None => if slots.last() matches PageSlot::Page { page_number, .. } && page_number == n {
                Some(slots.len() - 1)
            } else {
                None
            },
        }
    }
}

/// Whether `r` is the page numbered `n`, rendered alone, for the text
/// pages `tp` of corpus `s` laid out without blank pages: the page markup of
/// that page without apparatus notes, or nothing when no page has that
/// number.
pub open spec fn single_page_markup<E: ExportDocument>(
    export: &E,
    s: Sequence,
    occ: Seq<Vec<GlossOccurrance>>,
    opts: GlossPageOptions,
    n: usize,
    tp: Seq<TextPages>,
    r: Seq<char>,
) -> bool {
    let slots = book_pass(s.sequence_description.start_page as int, tp, false, tp.len()).0;
    &&& tp.len() == s.texts@.len()
    &&& forall|t: int| 0 <= t < tp.len() ==> pages_match(#[trigger] tp[t], s, occ, t)
    &&& match page_numbered(slots, n) {
        Some(k) => r == slot_markup(export, s, occ, opts, Map::empty(), slots[k]),
        None => r == Seq::<char>::empty(),
    }
}

proof fn lemma_page_numbered_stable(slots: Seq<PageSlot>, n: usize, k: int, m: int)
    requires
        0 <= k <= m <= slots.len(),
        page_numbered(slots.take(k), n) is Some,
    ensures
        page_numbered(slots.take(m), n) == page_numbered(slots.take(k), n),
    decreases m - k,
{
    if k < m {
        lemma_page_numbered_stable(slots, n, k, m - 1);
        assert(slots.take(m).drop_last() =~= slots.take(m - 1));
    }
}

impl Sequence {
    /// Whether the book's page numbers fit in a `usize`, as laying it out
    /// requires.
    pub fn page_numbers_fit(&self) -> (r: bool)
        ensures
            r == page_numbers_fit(*self),
    {
        let mut total: usize = 1;
        let mut t: usize = 0;
        let start = self.sequence_description.start_page;
        proof {
            assert(self.texts@.take(0) =~= Seq::<Text>::empty());
            lemma_plans_budget_prefix(self.texts@, 0);
        }
        if start == usize::MAX {
            return false;
        }
        while t < self.texts.len()
            invariant
                t <= self.texts@.len(),
                start == self.sequence_description.start_page,
                total == plans_budget(self.texts@.take(t as int)),
                start + total <= usize::MAX,
            decreases self.texts@.len() - t,
        {
            let plan = page_plan(self.texts[t].words_per_page.as_str());
            proof {
                assert(self.texts@.take(t + 1).drop_last() =~= self.texts@.take(t as int));
                lemma_plans_budget_prefix(self.texts@, t + 1);
            }
            let n = plan.len();
            if n > usize::MAX - 2 || n + 2 > usize::MAX - start || total > usize::MAX - start - (n
                + 2) {
                return false;
            }
            total = total + n + 2;
            t += 1;
        }
        proof {
            assert(self.texts@.take(self.texts@.len() as int) =~= self.texts@);
        }
        true
    }

    /// What pagination is given for each text.
    fn text_pages(&self, gloss_occurrances: &[Vec<GlossOccurrance>]) -> (r: Vec<TextPages>)
        requires
            occurrences_fit(*self, gloss_occurrances@),
        ensures
            r@.len() == self.texts@.len(),
            forall|t: int| 0 <= t < r@.len() ==> pages_match(#[trigger] r@[t], *self, gloss_occurrances@, t),
    {
        let mut r: Vec<TextPages> = Vec::new();
        let mut t: usize = 0;
        while t < self.texts.len()
            invariant
                t <= self.texts@.len(),
                occurrences_fit(*self, gloss_occurrances@),
                r@.len() == t,
                forall|k: int| 0 <= k < t ==> pages_match(#[trigger] r@[k], *self, gloss_occurrances@, k),
            decreases self.texts@.len() - t,
        {
            let tp = TextPages {
                display: self.sequence_description.texts[t].display,
                occurrences: gloss_occurrances[t].len(),
                plan: page_plan(self.texts[t].words_per_page.as_str()),
            };
            r.push(tp);
            t += 1;
        }
        r
    }

    /// The pages of the book for these occurrences, with separators: a blank
    /// page first when the starting page is even, then each shown text's
    /// planned pages, each followed by one or two blank pages so that the
    /// next text starts on an odd page. Planned pages that would need more
    /// occurrences than remain are skipped and listed in `skipped`.
    pub fn document_layout(&self, gloss_occurrances: &[Vec<GlossOccurrance>]) -> (r: DocumentLayout)
        requires
            occurrences_fit(*self, gloss_occurrances@),
            page_numbers_fit(*self),
        ensures
            exists|tp: Seq<TextPages>|
                tp.len() == self.texts@.len() && (forall|t: int|
                    0 <= t < tp.len() ==> pages_match(#[trigger] tp[t], *self, gloss_occurrances@, t))
                    && r.pages@ == book_pass(
                    self.sequence_description.start_page as int,
                    tp,
                    true,
                    tp.len(),
                ).0 && r.skipped@ == book_pass(
                    self.sequence_description.start_page as int,
                    tp,
                    true,
                    tp.len(),
                ).1,
    {
        self.layout_with(gloss_occurrances, true)
    }

    fn layout_with(&self, gloss_occurrances: &[Vec<GlossOccurrance>], separators: bool) -> (r: DocumentLayout)
        requires
            occurrences_fit(*self, gloss_occurrances@),
            page_numbers_fit(*self),
        ensures
            exists|tp: Seq<TextPages>|
                tp.len() == self.texts@.len() && (forall|t: int|
                    0 <= t < tp.len() ==> pages_match(#[trigger] tp[t], *self, gloss_occurrances@, t))
                    && r.pages@ == book_pass(
                    self.sequence_description.start_page as int,
                    tp,
                    separators,
                    tp.len(),
                ).0 && r.skipped@ == book_pass(
                    self.sequence_description.start_page as int,
                    tp,
                    separators,
                    tp.len(),
                ).1,
    {
        let tp = self.text_pages(gloss_occurrances);
        proof {
            lemma_budget_matches(tp@, *self, gloss_occurrances@, tp@.len() as int);
            assert(tp@.take(tp@.len() as int) =~= tp@);
            assert(self.texts@.take(self.texts@.len() as int) =~= self.texts@);
        }
        lay_out(self.sequence_description.start_page, &tp, separators)
    }

    /// The apparatus notes of every text, by word id.
    fn appcrits(&self) -> (h: HashMap<WordUuid, String>)
        ensures
            h@ == appcrit_map(self.texts@),
    {
        let mut h: HashMap<WordUuid, String> = HashMap::new();
        let mut t: usize = 0;
        proof {
            assert(self.texts@.take(0) =~= Seq::<Text>::empty());
        }
        while t < self.texts.len()
            invariant
                t <= self.texts@.len(),
                h@ == appcrit_map(self.texts@.take(t as int)),
            decreases self.texts@.len() - t,
        {
            proof {
                assert(self.texts@.take(t + 1).drop_last() =~= self.texts@.take(t as int));
            }
            let ghost before = h@;
            match &self.texts[t].appcrits {
                Some(list) => {
                    let mut k: usize = 0;
                    proof {
                        assert(list@.take(0) =~= Seq::<AppCrit>::empty());
                    }
                    while k < list.len()
                        invariant
                            k <= list@.len(),
                            h@ == insert_notes(before, list@.take(k as int)),
                        decreases list@.len() - k,
                    {
                        proof {
                            assert(list@.take(k + 1).drop_last() =~= list@.take(k as int));
                        }
                        h.insert(list[k].word_uuid, list[k].entry.clone());
                        k += 1;
                    }
                    proof {
                        assert(list@.take(list@.len() as int) =~= list@);
                    }
                },
                None => {},
            }
            t += 1;
        }
        proof {
            assert(self.texts@.take(self.texts@.len() as int) =~= self.texts@);
        }
        h
    }

    /// The whole document in the sink's format: its start, the pages that
    /// `document_layout` gives (each page's running text and gloss list, or
    /// a blank page), the index of arrowed words sorted as `sort_index` does
    /// when there is any, and its end.
    pub fn make_document<E: ExportDocument>(
        &self,
        gloss_occurrances: &[Vec<GlossOccurrance>],
        export: &E,
        options: &GlossPageOptions,
    ) -> (r: String)
        requires
            occurrences_fit(*self, gloss_occurrances@),
            page_numbers_fit(*self),
        ensures
            exists|tp: Seq<TextPages>|
                tp.len() == self.texts@.len() && (forall|t: int|
                    0 <= t < tp.len() ==> pages_match(#[trigger] tp[t], *self, gloss_occurrances@, t))
                    && r@ == #[trigger] document_markup(
                    export,
                    *self,
                    gloss_occurrances@,
                    *options,
                    book_pass(self.sequence_description.start_page as int, tp, true, tp.len()).0,
                ),
    {
        let appcrit_hash = self.appcrits();
        let mut arrowed_words_index: Vec<ArrowedWordsIndex> = Vec::new();
        let mut doc = export.document_start(
            self.sequence_description.name.as_str(),
            self.sequence_description.start_page,
        );
        let layout = self.document_layout(gloss_occurrances);
        let ghost tp = choose|tp: Seq<TextPages>|
            tp.len() == self.texts@.len() && (forall|t: int|
                0 <= t < tp.len() ==> pages_match(#[trigger] tp[t], *self, gloss_occurrances@, t))
                && layout.pages@ == book_pass(
                self.sequence_description.start_page as int,
                tp,
                true,
                tp.len(),
            ).0 && layout.skipped@ == book_pass(
                self.sequence_description.start_page as int,
                tp,
                true,
                tp.len(),
            ).1;
        let text_count = self.texts.len();
        proof {
            assert(tp.len() == text_count);
            lemma_book_pages_in_range(self.sequence_description.start_page as int, tp, true, tp.len());
        }
        let ghost slots = layout.pages@;
        let ghost head = export.document_start_text(
            self.sequence_description.name@,
            self.sequence_description.start_page,
        );
        let ghost notes = appcrit_map(self.texts@);
        let mut k: usize = 0;
        proof {
            assert(slots.take(0) =~= Seq::<PageSlot>::empty());
            assert(doc@ =~= head + slots_markup(export, *self, gloss_occurrances@, *options, notes, slots.take(0)));
            assert(entries_view(arrowed_words_index@) =~= slots_index(gloss_occurrances@, slots.take(0)));
        }
        while k < layout.pages.len()
            invariant
                occurrences_fit(*self, gloss_occurrances@),
                tp.len() == self.texts@.len(),
                forall|t: int|
                    0 <= t < tp.len() ==> pages_match(#[trigger] tp[t], *self, gloss_occurrances@, t),
                forall|x: int|
                    0 <= x < layout.pages@.len() ==> slot_in_range(#[trigger] layout.pages@[x], tp),
                slots == layout.pages@,
                k <= slots.len(),
                notes == appcrit_map(self.texts@),
                appcrit_hash@ == notes,
                doc@ == head + slots_markup(export, *self, gloss_occurrances@, *options, notes, slots.take(k as int)),
                entries_view(arrowed_words_index@) == slots_index(gloss_occurrances@, slots.take(k as int)),
            decreases layout.pages@.len() - k,
        {
            proof {
                assert(slot_in_range(layout.pages@[k as int], tp));
                assert(slots.take(k + 1).drop_last() =~= slots.take(k as int));
                assert(slots.take(k + 1).last() == slots[k as int]);
            }
            let ghost before = doc@;
            match layout.pages[k] {
                PageSlot::Blank { page_number } => {
                    let b = export.blank_page();
                    doc.append(b.as_str());
                    proof {
                        assert(doc@ =~= head + slots_markup(export, *self, gloss_occurrances@, *options, notes, slots.take(k + 1)));
                        assert(entries_view(arrowed_words_index@) =~= slots_index(gloss_occurrances@, slots.take(k + 1)));
                    }
                },
                PageSlot::Page { text, start, end, page_number, titled } => {
                    proof {
                        assert(pages_match(tp[text as int], *self, gloss_occurrances@, text as int));
                    }
                    let occ = page_slice(&gloss_occurrances[text], start, end);
                    let title: &str = if titled {
                        self.texts[text].text_name.as_str()
                    } else {
                        ""
                    };
                    assert(title@ == page_title(*self, text, titled));
                    let ghost idx_before = entries_view(arrowed_words_index@);
                    let page = make_page(
                        occ.as_slice(),
                        &appcrit_hash,
                        export,
                        title,
                        &mut arrowed_words_index,
                        page_number,
                        options,
                    );
                    doc.append(page.as_str());
                    proof {
                        assert(doc@ =~= head + slots_markup(export, *self, gloss_occurrances@, *options, notes, slots.take(k + 1)));
                        assert(entries_view(arrowed_words_index@) =~= slots_index(gloss_occurrances@, slots.take(k + 1)));
                    }
                },
            }
            k += 1;
        }
        proof {
            assert(slots.take(slots.len() as int) =~= slots);
        }
        if arrowed_words_index.len() > 0 {
            let sorted = sort_index(&arrowed_words_index);
            let index = export.make_index(sorted.as_slice());
            doc.append(index.as_str());
        }
        let end = export.document_end();
        doc.append(end.as_str());
        proof {
            assert(doc@ =~= document_markup(export, *self, gloss_occurrances@, *options, slots));
        }
        doc
    }

    /// The page numbered `selected_page_number` alone, as `make_document`
    /// would render it but with pages numbered without blank pages and
    /// without apparatus notes; empty when no page has that number.
    pub fn make_single_page<E: ExportDocument>(
        &self,
        gloss_occurrances: &[Vec<GlossOccurrance>],
        export: &E,
        options: &GlossPageOptions,
        selected_page_number: usize,
    ) -> (r: String)
        requires
            occurrences_fit(*self, gloss_occurrances@),
            page_numbers_fit(*self),
        ensures
            exists|tp: Seq<TextPages>|
                #[trigger] single_page_markup(
                    export,
                    *self,
                    gloss_occurrances@,
                    *options,
                    selected_page_number,
                    tp,
                    r@,
                ),
    {
        let appcrit_hash: HashMap<WordUuid, String> = HashMap::new();
        let mut arrowed_words_index: Vec<ArrowedWordsIndex> = Vec::new();
        let layout = self.layout_with(gloss_occurrances, false);
        let ghost tp = choose|tp: Seq<TextPages>|
            tp.len() == self.texts@.len() && (forall|t: int|
                0 <= t < tp.len() ==> pages_match(#[trigger] tp[t], *self, gloss_occurrances@, t))
                && layout.pages@ == book_pass(
                self.sequence_description.start_page as int,
                tp,
                false,
                tp.len(),
            ).0 && layout.skipped@ == book_pass(
                self.sequence_description.start_page as int,
                tp,
                false,
                tp.len(),
            ).1;
        let text_count = self.texts.len();
        proof {
            assert(tp.len() == text_count);
            lemma_book_pages_in_range(self.sequence_description.start_page as int, tp, false, tp.len());
        }
        let ghost slots = layout.pages@;
        let mut k: usize = 0;
        proof {
            assert(slots.take(0) =~= Seq::<PageSlot>::empty());
        }
        while k < layout.pages.len()
            invariant
                slots == layout.pages@,
                slots == book_pass(self.sequence_description.start_page as int, tp, false, tp.len()).0,
                appcrit_hash@ == Map::<WordUuid, String>::empty(),
                k <= slots.len(),
                page_numbered(slots.take(k as int), selected_page_number) is None,
                occurrences_fit(*self, gloss_occurrances@),
                tp.len() == self.texts@.len(),
                forall|t: int|
                    0 <= t < tp.len() ==> pages_match(#[trigger] tp[t], *self, gloss_occurrances@, t),
                forall|x: int|
                    0 <= x < layout.pages@.len() ==> slot_in_range(#[trigger] layout.pages@[x], tp),
            decreases layout.pages@.len() - k,
        {
            proof {
                assert(slot_in_range(layout.pages@[k as int], tp));
                assert(slots.take(k + 1).drop_last() =~= slots.take(k as int));
                assert(slots.take(k + 1).last() == slots[k as int]);
            }
            match layout.pages[k] {
                PageSlot::Page { text, start, end, page_number, titled } => {
                    if page_number == selected_page_number {
                        proof {
                            assert(pages_match(tp[text as int], *self, gloss_occurrances@, text as int));
                        }
                        let occ = page_slice(&gloss_occurrances[text], start, end);
                        let title: &str = if titled {
                            self.texts[text].text_name.as_str()
                        } else {
                            ""
                        };
                        assert(title@ == page_title(*self, text, titled));
                        let page = make_page(
                            occ.as_slice(),
                            &appcrit_hash,
                            export,
                            title,
                            &mut arrowed_words_index,
                            page_number,
                            options,
                        );
                        proof {
                            assert(page_numbered(slots.take(k + 1), selected_page_number) == Some(k as int));
                            lemma_page_numbered_stable(slots, selected_page_number, k + 1, slots.len() as int);
                            assert(slots.take(slots.len() as int) =~= slots);
                            assert(page@ == slot_markup(export, *self, gloss_occurrances@, *options, Map::empty(), slots[k as int]));
                            assert(single_page_markup(export, *self, gloss_occurrances@, *options, selected_page_number, tp, page@));
                        }
                        return page;
                    }
                },
                PageSlot::Blank { page_number } => {},
            }
            k += 1;
        }
        proof {
            assert(slots.take(slots.len() as int) =~= slots);
            assert(single_page_markup(export, *self, gloss_occurrances@, *options, selected_page_number, tp, Seq::empty()));
        }
        String::new()
    }
}

proof fn lemma_plans_budget_prefix(texts: Seq<Text>, n: int)
    requires
        0 <= n <= texts.len(),
    ensures
        plans_budget(texts.take(n)) <= plans_budget(texts),
    decreases texts.len(),
{
    if n == texts.len() {
        assert(texts.take(n) =~= texts);
    } else {
        assert(texts.take(n) =~= texts.drop_last().take(n));
        lemma_plans_budget_prefix(texts.drop_last(), n);
    }
}

} // verus!
