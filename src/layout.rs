//! Pagination of the book: which occurrences of which text go on which page,
//! where blank pages fall, and which planned pages had to be skipped.
use vstd::prelude::*;

verus! {

/// One printed page of the book.
#[derive(Clone, Copy, Debug, PartialEq, Eq, Structural)]
pub enum PageSlot {
    /// A page left blank.
    Blank { page_number: usize },
    /// Occurrences `start..end` of text `text`; `titled` is false on the
    /// first planned page of a text, which carries no running title.
    Page { text: usize, start: usize, end: usize, page_number: usize, titled: bool },
}

/// What pagination needs of one text: whether it is shown, how many
/// occurrences it has, and its page-size plan.
#[derive(Clone, Debug, PartialEq)]
pub struct TextPages {
    pub display: bool,
    pub occurrences: usize,
    pub plan: Vec<usize>,
}

/// The pages of a book in order, and each planned page that was skipped
/// because it would need more occurrences than remained, as (text index,
/// plan index).
#[derive(Clone, Debug, PartialEq)]
pub struct DocumentLayout {
    pub pages: Vec<PageSlot>,
    pub skipped: Vec<(usize, usize)>,
}

/// Pagination state inside a text: pages so far, skipped pages so far,
/// number of the next page, and index of the next occurrence.
pub type TextState = (Seq<PageSlot>, Seq<(usize, usize)>, int, int);

/// Pagination state between texts: pages so far, skipped pages so far, and
/// number of the next page.
pub type BookState = (Seq<PageSlot>, Seq<(usize, usize)>, int);

/// Planned page `i` of text `t`, which has `len` occurrences. The last
/// planned page takes every remaining occurrence; an earlier one takes its
/// planned count, or is skipped when fewer remain.
pub open spec fn plan_step(st: TextState, t: int, plan: Seq<usize>, len: int, i: int) -> TextState {
    let (items, skipped, page, index) = st;
    if i == plan.len() - 1 {
        (
            items.push(
                PageSlot::Page {
                    text: t as usize,
                    start: index as usize,
                    end: len as usize,
                    page_number: page as usize,
                    titled: i != 0,
                },
            ),
            skipped,
            page + 1,
            len,
        )
    } else if index + plan[i] > len {
        (items, skipped.push((t as usize, i as usize)), page, index)
    } else {
        (
            items.push(
                PageSlot::Page {
                    text: t as usize,
                    start: index as usize,
                    end: (index + plan[i]) as usize,
                    page_number: page as usize,
                    titled: i != 0,
                },
            ),
            skipped,
            page + 1,
            index + plan[i],
        )
    }
}

/// The state after the first `k` planned pages of text `t`.
pub open spec fn plan_pass(st: TextState, t: int, plan: Seq<usize>, len: int, k: nat) -> TextState
    decreases k,
{
    if k == 0 {
        st
    } else {
        plan_step(plan_pass(st, t, plan, len, (k - 1) as nat), t, plan, len, k - 1)
    }
}

/// Text `t` laid out after state `st`. A text that is not shown adds
/// nothing. With separators, a shown text is followed by one blank page, or
/// two when needed so that the next text starts on an odd page.
pub open spec fn text_block(st: BookState, t: int, text: TextPages, separators: bool) -> BookState {
    if !text.display {
        st
    } else {
        let r = plan_pass(
            (st.0, st.1, st.2, 0),
            t,
            text.plan@,
            text.occurrences as int,
            text.plan@.len(),
        );
        if !separators {
            (r.0, r.1, r.2)
        } else {
            let items1 = if r.2 % 2 == 1 {
                r.0.push(PageSlot::Blank { page_number: r.2 as usize })
            } else {
                r.0
            };
            let page1 = if r.2 % 2 == 1 {
                r.2 + 1
            } else {
                r.2
            };
            (items1.push(PageSlot::Blank { page_number: page1 as usize }), r.1, page1 + 1)
        }
    }
}

/// The book after its first `n` texts. With separators, an even starting
/// page is first left blank.
pub open spec fn book_pass(start: int, texts: Seq<TextPages>, separators: bool, n: nat) -> BookState
    decreases n,
{
    if n == 0 {
        if separators && start % 2 == 0 {
            (seq![PageSlot::Blank { page_number: start as usize }], Seq::empty(), start + 1)
        } else {
            (Seq::empty(), Seq::empty(), start)
        }
    } else {
        text_block(book_pass(start, texts, separators, (n - 1) as nat), n - 1, texts[n - 1], separators)
    }
}

/// How many page numbers a book of these texts can use at most.
pub open spec fn page_budget(texts: Seq<TextPages>) -> nat
    decreases texts.len(),
{
    if texts.len() == 0 {
        1
    } else {
        page_budget(texts.drop_last()) + texts.last().plan@.len() + 2
    }
}

/// The total of a page-size plan.
pub open spec fn plan_sum(plan: Seq<usize>) -> int
    decreases plan.len(),
{
    if plan.len() == 0 {
        0
    } else {
        plan_sum(plan.drop_last()) + plan.last()
    }
}

proof fn lemma_plan_pass_page(st: TextState, t: int, plan: Seq<usize>, len: int, k: nat)
    requires
        k <= plan.len(),
        0 <= st.3 <= len,
    ensures
        st.2 <= plan_pass(st, t, plan, len, k).2 <= st.2 + k,
        0 <= plan_pass(st, t, plan, len, k).3 <= len,
    decreases k,
{
    if k > 0 {
        lemma_plan_pass_page(st, t, plan, len, (k - 1) as nat);
    }
}

proof fn lemma_book_pass_page(start: int, texts: Seq<TextPages>, separators: bool, n: nat)
    requires
        n <= texts.len(),
    ensures
        start <= book_pass(start, texts, separators, n).2 <= start + page_budget(texts.take(n as int)),
    decreases n,
{
    assert(texts.take(0) =~= Seq::<TextPages>::empty());
    if n > 0 {
        lemma_book_pass_page(start, texts, separators, (n - 1) as nat);
        assert(texts.take(n as int).drop_last() =~= texts.take(n - 1));
        let st = book_pass(start, texts, separators, (n - 1) as nat);
        let text = texts[n - 1];
        if text.display {
            lemma_plan_pass_page(
                (st.0, st.1, st.2, 0),
                n - 1,
                text.plan@,
                text.occurrences as int,
                text.plan@.len(),
            );
        }
    }
}

proof fn lemma_page_budget_prefix(texts: Seq<TextPages>, n: int)
    requires
        0 <= n <= texts.len(),
    ensures
        page_budget(texts.take(n)) <= page_budget(texts),
    decreases texts.len(),
{
    if n == texts.len() {
        assert(texts.take(n) =~= texts);
    } else {
        assert(texts.take(n) =~= texts.drop_last().take(n));
        lemma_page_budget_prefix(texts.drop_last(), n);
    }
}

/// Lays out text `t` from book state `st`, which this updates.
fn lay_out_text(
    t: usize,
    text: &TextPages,
    separators: bool,
    pages: &mut Vec<PageSlot>,
    skipped: &mut Vec<(usize, usize)>,
    page: &mut usize,
)
    requires
        *old(page) + text.plan@.len() + 2 <= usize::MAX,
    ensures
        (final(pages)@, final(skipped)@, *final(page) as int) == text_block(
            (old(pages)@, old(skipped)@, *old(page) as int),
            t as int,
            *text,
            separators,
        ),
{
    if !text.display {
        return;
    }
    let ghost st0: TextState = (pages@, skipped@, *page as int, 0);
    let len = text.occurrences;
    let n = text.plan.len();
    let mut index: usize = 0;
    let mut i: usize = 0;
    while i < n
        invariant
            n == text.plan@.len(),
            len == text.occurrences,
            i <= n,
            st0.2 + n + 2 <= usize::MAX,
            (pages@, skipped@, *page as int, index as int) == plan_pass(st0, t as int, text.plan@, len as int, i as nat),
            *page <= st0.2 + i,
            index <= len,
        decreases n - i,
    {
        let w = text.plan[i];
        if i == n - 1 {
            pages.push(
                PageSlot::Page { text: t, start: index, end: len, page_number: *page, titled: i != 0 },
            );
            *page = *page + 1;
            index = len;
        } else if w > len - index {
            skipped.push((t, i));
        } else {
            pages.push(
                PageSlot::Page {
                    text: t,
                    start: index,
                    end: index + w,
                    page_number: *page,
                    titled: i != 0,
                },
            );
            *page = *page + 1;
            index = index + w;
        }
        i += 1;
    }
    if separators {
        if *page % 2 == 1 {
            pages.push(PageSlot::Blank { page_number: *page });
            *page = *page + 1;
        }
        pages.push(PageSlot::Blank { page_number: *page });
        *page = *page + 1;
    }
}

/// The pages of a book that starts at page `start_page`: for each shown
/// text in order, its planned pages, each numbered one past the previous
/// page; with `separators`, a blank page first when `start_page` is even
/// and one or two blank pages after each shown text so that every text
/// starts on an odd page.
pub fn lay_out(start_page: usize, texts: &Vec<TextPages>, separators: bool) -> (r: DocumentLayout)
    requires
        start_page + page_budget(texts@) <= usize::MAX,
    ensures
        r.pages@ == book_pass(start_page as int, texts@, separators, texts@.len()).0,
        r.skipped@ == book_pass(start_page as int, texts@, separators, texts@.len()).1,
{
    let mut pages: Vec<PageSlot> = Vec::new();
    let mut skipped: Vec<(usize, usize)> = Vec::new();
    let mut page = start_page;
    if separators && start_page % 2 == 0 {
        pages.push(PageSlot::Blank { page_number: start_page });
        page = start_page + 1;
    }
    proof {
        assert(pages@ =~= book_pass(start_page as int, texts@, separators, 0).0);
        assert(skipped@ =~= book_pass(start_page as int, texts@, separators, 0).1);
    }
    let mut t: usize = 0;
    while t < texts.len()
        invariant
            t <= texts@.len(),
            start_page + page_budget(texts@) <= usize::MAX,
            (pages@, skipped@, page as int) == book_pass(start_page as int, texts@, separators, t as nat),
        decreases texts@.len() - t,
    {
        proof {
            lemma_book_pass_page(start_page as int, texts@, separators, t as nat);
            lemma_page_budget_prefix(texts@, t + 1);
            assert(texts@.take(t + 1).drop_last() =~= texts@.take(t as int));
        }
        lay_out_text(t, &texts[t], separators, &mut pages, &mut skipped, &mut page);
        t += 1;
    }
    DocumentLayout { pages, skipped }
}

/// Whether `item` is a page of text `t`.
pub open spec fn is_page_of(item: PageSlot, t: int) -> bool {
    item matches PageSlot::Page { text, .. } && text == t
}

/// Pagination completeness. For a text whose plan is not empty and sums to
/// at most its number of occurrences, no planned page is skipped, and the
/// pages it gets cover its occurrences from the first to the last, each
/// starting where the previous one ended.
pub proof fn law_pagination_complete(
    before: Seq<PageSlot>,
    skipped: Seq<(usize, usize)>,
    page: int,
    t: int,
    plan: Seq<usize>,
    len: int,
)
    requires
        plan.len() > 0,
        plan_sum(plan) <= len,
        0 <= t <= usize::MAX,
        len <= usize::MAX,
    ensures
        ({
            let r = plan_pass((before, skipped, page, 0), t, plan, len, plan.len());
            let added = r.0.subrange(before.len() as int, r.0.len() as int);
            &&& r.1 == skipped
            &&& r.0.subrange(0, before.len() as int) == before
            &&& added.len() == plan.len()
            &&& forall|k: int| 0 <= k < added.len() ==> is_page_of(#[trigger] added[k], t)
            &&& added[0]->Page_start == 0
            &&& added[added.len() - 1]->Page_end == len
            &&& forall|k: int|
                0 <= k < added.len() - 1 ==> (#[trigger] added[k])->Page_end == added[k
                    + 1]->Page_start
            &&& forall|k: int|
                0 <= k < added.len() ==> (#[trigger] added[k])->Page_start <= added[k]->Page_end
        }),
{
    lemma_pass_contiguous(before, skipped, page, t, plan, len, plan.len());
}

/// The total of the first `k` planned counts.
pub open spec fn prefix_sum(plan: Seq<usize>, k: int) -> int {
    plan_sum(plan.take(k))
}

proof fn lemma_prefix_sum_bound(plan: Seq<usize>, k: int)
    requires
        0 <= k < plan.len(),
    ensures
        prefix_sum(plan, k) + plan[k] <= plan_sum(plan),
        prefix_sum(plan, k + 1) == prefix_sum(plan, k) + plan[k],
    decreases plan.len(),
{
    assert(plan.take(k + 1).drop_last() =~= plan.take(k));
    if k == plan.len() - 1 {
        assert(plan.take(k + 1) =~= plan);
    } else {
        lemma_prefix_sum_bound(plan.drop_last(), k);
        assert(plan.drop_last().take(k) =~= plan.take(k));
        assert(plan.drop_last().take(k + 1) =~= plan.take(k + 1));
        assert(plan_sum(plan.drop_last()) <= plan_sum(plan));
    }
}

#[verifier::rlimit(40)]
proof fn lemma_pass_contiguous(
    before: Seq<PageSlot>,
    skipped: Seq<(usize, usize)>,
    page: int,
    t: int,
    plan: Seq<usize>,
    len: int,
    k: nat,
)
    requires
        plan.len() > 0,
        plan_sum(plan) <= len,
        0 <= t <= usize::MAX,
        len <= usize::MAX,
        k <= plan.len(),
    ensures
        plan_pass((before, skipped, page, 0), t, plan, len, k).1 == skipped,
        plan_pass((before, skipped, page, 0), t, plan, len, k).0.len() == before.len() + k,
        plan_pass((before, skipped, page, 0), t, plan, len, k).0.subrange(0, before.len() as int)
            == before,
        plan_pass((before, skipped, page, 0), t, plan, len, k).3 == if k == plan.len() {
            len
        } else {
            prefix_sum(plan, k as int)
        },
        forall|x: int|
            before.len() <= x < before.len() + k ==> is_page_of(
                #[trigger] plan_pass((before, skipped, page, 0), t, plan, len, k).0[x],
                t,
            ),
        k > 0 ==> plan_pass((before, skipped, page, 0), t, plan, len, k).0[before.len()
            as int]->Page_start == 0,
        k > 0 ==> plan_pass((before, skipped, page, 0), t, plan, len, k).0[before.len() + k
            - 1]->Page_end == plan_pass((before, skipped, page, 0), t, plan, len, k).3,
        forall|x: int|
            before.len() <= x < before.len() + k - 1 ==> (#[trigger] plan_pass(
                (before, skipped, page, 0),
                t,
                plan,
                len,
                k,
            ).0[x])->Page_end == plan_pass((before, skipped, page, 0), t, plan, len, k).0[x
                + 1]->Page_start,
        forall|x: int|
            before.len() <= x < before.len() + k ==> (#[trigger] plan_pass(
                (before, skipped, page, 0),
                t,
                plan,
                len,
                k,
            ).0[x])->Page_start <= plan_pass((before, skipped, page, 0), t, plan, len, k).0[x]->Page_end,
    decreases k,
{
    if k == 0 {
        assert(plan.take(0) =~= Seq::<usize>::empty());
        assert(before.subrange(0, before.len() as int) =~= before);
    } else {
        lemma_pass_contiguous(before, skipped, page, t, plan, len, (k - 1) as nat);
        let prev = plan_pass((before, skipped, page, 0), t, plan, len, (k - 1) as nat);
        let r = plan_pass((before, skipped, page, 0), t, plan, len, k);
        let i = k - 1;
        lemma_prefix_sum_bound(plan, i);
        lemma_prefix_sum_bound(plan, plan.len() - 1);
        if i < plan.len() - 1 {
            assert(prev.3 == prefix_sum(plan, i));
            lemma_prefix_sum_mono(plan, k as int, plan.len() - 1);
            assert(prev.3 + plan[i] <= len);
            assert(r.3 == prefix_sum(plan, k as int));
        }
        let item = r.0.last();
        assert(r.0 == prev.0.push(item));
        assert(r.1 == prev.1);
        assert(forall|x: int| 0 <= x < prev.0.len() ==> r.0[x] == prev.0[x]);
        assert(r.0.subrange(0, before.len() as int) =~= prev.0.subrange(0, before.len() as int));
        if k == 1 {
            assert(prefix_sum(plan, 0) == 0) by {
                assert(plan.take(0) =~= Seq::<usize>::empty());
            }
        }
    }
}

proof fn lemma_prefix_sum_mono(plan: Seq<usize>, a: int, b: int)
    requires
        0 <= a <= b <= plan.len(),
    ensures
        prefix_sum(plan, a) <= prefix_sum(plan, b),
    decreases b - a,
{
    if a < b {
        lemma_prefix_sum_mono(plan, a, b - 1);
        lemma_prefix_sum_bound(plan, b - 1);
    }
}

/// Parity rule. With separators, every text starts when the next page
/// number is odd, so its first page is odd; and a shown text ends with a
/// blank page, placed after all of its own pages.
pub proof fn law_parity(start: int, texts: Seq<TextPages>, n: nat)
    requires
        n < texts.len(),
        0 <= start,
        start + page_budget(texts) <= usize::MAX,
        texts.len() <= usize::MAX,
    ensures
        ({
            let st = book_pass(start, texts, true, n);
            let next = book_pass(start, texts, true, (n + 1) as nat);
            &&& st.2 % 2 == 1
            &&& next.2 % 2 == 1
            &&& next.0.subrange(0, st.0.len() as int) == st.0
            &&& texts[n as int].display ==> next.0.len() > st.0.len() && next.0.last() is Blank
            &&& forall|k: int|
                st.0.len() <= k < next.0.len() && (#[trigger] next.0[k] is Page) ==> next.0[k]->Page_text
                    == n && next.0[k]->Page_page_number >= st.2
            &&& forall|k: int|
                st.0.len() <= k < next.0.len() && (#[trigger] next.0[k] is Page) && (forall|x: int|
                    st.0.len() <= x < k ==> !(next.0[x] is Page)) ==> next.0[k]->Page_page_number
                    == st.2
        }),
    decreases n,
{
    lemma_book_pass_odd(start, texts, n);
    lemma_book_pass_odd(start, texts, (n + 1) as nat);
    let st = book_pass(start, texts, true, n);
    let text = texts[n as int];
    lemma_book_pass_page(start, texts, true, n);
    lemma_page_budget_prefix(texts, (n + 1) as int);
    assert(texts.take((n + 1) as int).drop_last() =~= texts.take(n as int));
    if text.display {
        lemma_pass_pages(st.0, st.1, st.2, n as int, text.plan@, text.occurrences as int, text.plan@.len());
        let r = plan_pass((st.0, st.1, st.2, 0), n as int, text.plan@, text.occurrences as int, text.plan@.len());
        let next = book_pass(start, texts, true, (n + 1) as nat);
        assert(next.0.subrange(0, st.0.len() as int) =~= r.0.subrange(0, st.0.len() as int));
        assert forall|k: int|
            st.0.len() <= k < next.0.len() && (#[trigger] next.0[k] is Page) implies next.0[k]->Page_text
            == n && next.0[k]->Page_page_number >= st.2 by {
            assert(k < r.0.len());
            assert(next.0[k] == r.0[k]);
        }
        assert forall|k: int|
            st.0.len() <= k < next.0.len() && (#[trigger] next.0[k] is Page) && (forall|x: int|
                st.0.len() <= x < k ==> !(next.0[x] is Page)) implies next.0[k]->Page_page_number
            == st.2 by {
            assert(k < r.0.len());
            assert(next.0[k] == r.0[k]);
            if k > st.0.len() {
                assert(!(next.0[st.0.len() as int] is Page));
                assert(next.0[st.0.len() as int] == r.0[st.0.len() as int]);
            }
        }
    }
}

proof fn lemma_book_pass_odd(start: int, texts: Seq<TextPages>, n: nat)
    requires
        n <= texts.len(),
    ensures
        book_pass(start, texts, true, n).2 % 2 == 1,
    decreases n,
{
    if n > 0 {
        lemma_book_pass_odd(start, texts, (n - 1) as nat);
    }
}

/// Inside a text, every page added belongs to the text and is numbered from
/// the page number the text started at; the first one added has that
/// number.
proof fn lemma_pass_pages(
    before: Seq<PageSlot>,
    skipped: Seq<(usize, usize)>,
    page: int,
    t: int,
    plan: Seq<usize>,
    len: int,
    k: nat,
)
    requires
        k <= plan.len(),
        0 <= t <= usize::MAX,
        0 <= page,
        page + plan.len() <= usize::MAX,
    ensures
        ({
            let r = plan_pass((before, skipped, page, 0), t, plan, len, k);
            &&& before.len() <= r.0.len() <= before.len() + k
            &&& r.0.subrange(0, before.len() as int) == before
            &&& r.2 == page + (r.0.len() - before.len())
            &&& forall|x: int|
                before.len() <= x < r.0.len() ==> (#[trigger] r.0[x]) is Page && r.0[x]->Page_text
                    == t as usize && r.0[x]->Page_page_number == page + (x - before.len())
        }),
    decreases k,
{
    if k == 0 {
        assert(before.subrange(0, before.len() as int) =~= before);
    } else {
        lemma_pass_pages(before, skipped, page, t, plan, len, (k - 1) as nat);
        let prev = plan_pass((before, skipped, page, 0), t, plan, len, (k - 1) as nat);
        let r = plan_pass((before, skipped, page, 0), t, plan, len, k);
        assert(r.0.subrange(0, before.len() as int) =~= prev.0.subrange(0, before.len() as int));
        assert forall|x: int| before.len() <= x < r.0.len() implies (#[trigger] r.0[x]) is Page
            && r.0[x]->Page_text == t as usize && r.0[x]->Page_page_number == page + (x
            - before.len()) by {
            if x < prev.0.len() {
                assert(r.0[x] == prev.0[x]);
            }
        }
    }
}

/// Whether a page item names an existing text and a range of its
/// occurrences.
pub open spec fn slot_in_range(item: PageSlot, texts: Seq<TextPages>) -> bool {
    match item {
        PageSlot::Page { text, start, end, .. } => text < texts.len() && start <= end
            <= texts[text as int].occurrences,
        PageSlot::Blank { .. } => true,
    }
}

proof fn lemma_plan_pass_in_range(
    st: TextState,
    t: int,
    texts: Seq<TextPages>,
    k: nat,
)
    requires
        0 <= t < texts.len(),
        texts.len() <= usize::MAX,
        k <= texts[t].plan@.len(),
        0 <= st.3 <= texts[t].occurrences,
        forall|x: int| 0 <= x < st.0.len() ==> slot_in_range(#[trigger] st.0[x], texts),
    ensures
        ({
            let r = plan_pass(st, t, texts[t].plan@, texts[t].occurrences as int, k);
            &&& 0 <= r.3 <= texts[t].occurrences
            &&& forall|x: int| 0 <= x < r.0.len() ==> slot_in_range(#[trigger] r.0[x], texts)
        }),
    decreases k,
{
    if k > 0 {
        lemma_plan_pass_in_range(st, t, texts, (k - 1) as nat);
        let prev = plan_pass(st, t, texts[t].plan@, texts[t].occurrences as int, (k - 1) as nat);
        let r = plan_pass(st, t, texts[t].plan@, texts[t].occurrences as int, k);
        assert forall|x: int| 0 <= x < r.0.len() implies slot_in_range(#[trigger] r.0[x], texts) by {
            if x < prev.0.len() {
                assert(r.0[x] == prev.0[x]);
            }
        }
    }
}

/// Every page of a laid-out book names an existing text and a range of its
/// occurrences.
pub proof fn lemma_book_pages_in_range(start: int, texts: Seq<TextPages>, separators: bool, n: nat)
    requires
        n <= texts.len(),
        texts.len() <= usize::MAX,
    ensures
        forall|x: int|
            0 <= x < book_pass(start, texts, separators, n).0.len() ==> slot_in_range(
                #[trigger] book_pass(start, texts, separators, n).0[x],
                texts,
            ),
    decreases n,
{
    if n > 0 {
        lemma_book_pages_in_range(start, texts, separators, (n - 1) as nat);
        let st = book_pass(start, texts, separators, (n - 1) as nat);
        let text = texts[n - 1];
        if text.display {
            lemma_plan_pass_in_range((st.0, st.1, st.2, 0), n - 1, texts, text.plan@.len());
            let r = plan_pass(
                (st.0, st.1, st.2, 0),
                n - 1,
                text.plan@,
                text.occurrences as int,
                text.plan@.len(),
            );
            let next = book_pass(start, texts, separators, n);
            assert forall|x: int| 0 <= x < next.0.len() implies slot_in_range(#[trigger] next.0[x], texts) by {
                if x < r.0.len() {
                    assert(next.0[x] == r.0[x]);
                }
            }
        }
    } else {
        assert(forall|x: int| 0 <= x < book_pass(start, texts, separators, 0).0.len() ==> #[trigger] book_pass(start, texts, separators, 0).0[x] is Blank);
    }
}

} // verus!
