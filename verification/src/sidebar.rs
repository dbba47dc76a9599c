//! The explorer sidebar: four sections (categories, authors, series,
//! readers) that can each be sorted, collapsed, filtered and paged.
use vstd::prelude::*;

use crate::entities::{
    author_prefix, category_prefix, entity_link, reader_prefix, series_prefix, Author, Category, Reader,
    Series,
};
use crate::requests::{MetaRequest, MetaResponse};
use crate::text::{contains_str, contains_text, dec_nat, occurs_at, push_dec, push_str};

verus! {

/// How a section orders its entries.
#[derive(Clone, Copy, Debug, PartialEq, Eq, Structural)]
pub enum SortOrder {
    /// By name, A to Z.
    Alphabetical,
    /// By number of audiobooks (or subscribers), most first.
    ByCount,
}

/// The order the sort button switches to.
pub open spec fn other_order(s: SortOrder) -> SortOrder {
    match s {
        SortOrder::Alphabetical => SortOrder::ByCount,
        SortOrder::ByCount => SortOrder::Alphabetical,
    }
}

/// The sections of the sidebar.
#[derive(Clone, Copy, Debug, PartialEq, Eq, Structural)]
pub enum SectionKind {
    Categories,
    Authors,
    Series,
    Readers,
}

/// The page that sections ask for: the first.
pub open spec fn requested_page() -> u32 {
    0
}

/// The page size that sections ask for: large enough for every entry, since
/// the sidebar pages its entries itself.
pub open spec fn section_limit() -> u32 {
    100_000
}

/// The metadata request of a section in a given order.
pub open spec fn section_request_spec(kind: SectionKind, order: SortOrder) -> MetaRequest {
    let (p, l) = (requested_page(), section_limit());
    match (kind, order) {
        (SectionKind::Categories, SortOrder::Alphabetical) => MetaRequest::CategoriesAlphabetically(p, l),
        (SectionKind::Categories, SortOrder::ByCount) => MetaRequest::CategoriesByPublishedAudiobooks(p, l),
        (SectionKind::Authors, SortOrder::Alphabetical) => MetaRequest::AuthorsAlphabetically(p, l),
        (SectionKind::Authors, SortOrder::ByCount) => MetaRequest::AuthorsByPublishedAudiobooks(p, l),
        (SectionKind::Series, SortOrder::Alphabetical) => MetaRequest::SeriesAlphabetically(p, l),
        (SectionKind::Series, SortOrder::ByCount) => MetaRequest::SeriesBySubscriber(p, l),
        (SectionKind::Readers, SortOrder::Alphabetical) => MetaRequest::ReadersAlphabetically(p, l),
        (SectionKind::Readers, SortOrder::ByCount) => MetaRequest::ReaderByPublishedAudiobooks(p, l),
    }
}

/// Whether a metadata request asks for a list sorted by name.
pub open spec fn asks_alphabetical(r: MetaRequest) -> bool {
    match r {
        MetaRequest::CategoriesAlphabetically(_, _) | MetaRequest::AuthorsAlphabetically(_, _)
        | MetaRequest::SeriesAlphabetically(_, _) | MetaRequest::ReadersAlphabetically(_, _) => true,
        _ => false,
    }
}

/// Whether a metadata request asks for a list sorted by count (published
/// audiobooks, or subscribers for series).
pub open spec fn asks_by_count(r: MetaRequest) -> bool {
    match r {
        MetaRequest::CategoriesByPublishedAudiobooks(_, _) | MetaRequest::AuthorsByPublishedAudiobooks(_, _)
        | MetaRequest::SeriesBySubscriber(_, _) | MetaRequest::ReaderByPublishedAudiobooks(_, _) => true,
        _ => false,
    }
}

/// The kind of entity a list request asks for, if it asks for a list.
pub open spec fn requested_kind(r: MetaRequest) -> Option<SectionKind> {
    match r {
        MetaRequest::CategoriesAlphabetically(_, _) | MetaRequest::CategoriesByPublishedAudiobooks(_, _) => Some(
            SectionKind::Categories,
        ),
        MetaRequest::AuthorsAlphabetically(_, _) | MetaRequest::AuthorsByPublishedAudiobooks(_, _) => Some(
            SectionKind::Authors,
        ),
        MetaRequest::SeriesAlphabetically(_, _) | MetaRequest::SeriesBySubscriber(_, _) => Some(
            SectionKind::Series,
        ),
        MetaRequest::ReadersAlphabetically(_, _) | MetaRequest::ReaderByPublishedAudiobooks(_, _) => Some(
            SectionKind::Readers,
        ),
        _ => None,
    }
}

/// The page and page size a list request carries, if it asks for a list.
pub open spec fn requested_window(r: MetaRequest) -> Option<(u32, u32)> {
    match r {
        MetaRequest::CategoriesAlphabetically(p, l) => Some((p, l)),
        MetaRequest::CategoriesByPublishedAudiobooks(p, l) => Some((p, l)),
        MetaRequest::AuthorsAlphabetically(p, l) => Some((p, l)),
        MetaRequest::AuthorsByPublishedAudiobooks(p, l) => Some((p, l)),
        MetaRequest::SeriesAlphabetically(p, l) => Some((p, l)),
        MetaRequest::SeriesBySubscriber(p, l) => Some((p, l)),
        MetaRequest::ReadersAlphabetically(p, l) => Some((p, l)),
        MetaRequest::ReaderByPublishedAudiobooks(p, l) => Some((p, l)),
        _ => None,
    }
}

/// Each section asks for a list of its own kind of entity, sorted by name
/// exactly when the section is in alphabetical order and by count exactly
/// when it is in count order, always for the first page at the size that
/// holds every entry; so the two orders of one section send different
/// requests, and different sections never send the same request.
pub proof fn lemma_section_request_matches(kind: SectionKind, order: SortOrder, other: SectionKind)
    ensures
        requested_kind(section_request_spec(kind, order)) == Some(kind),
        asks_alphabetical(section_request_spec(kind, order)) <==> order == SortOrder::Alphabetical,
        asks_by_count(section_request_spec(kind, order)) <==> order == SortOrder::ByCount,
        requested_window(section_request_spec(kind, order)) == Some((requested_page() as u32, section_limit())),
        section_request_spec(kind, SortOrder::Alphabetical) != section_request_spec(kind, SortOrder::ByCount),
        other != kind ==> section_request_spec(kind, order) != section_request_spec(other, order),
{
}

/// The metadata request that a section sends for its entries.
pub fn section_request(kind: SectionKind, order: SortOrder) -> (r: MetaRequest)
    ensures
        r == section_request_spec(kind, order),
{
    let p: u32 = 0;
    let l: u32 = 100_000;
    match (kind, order) {
        (SectionKind::Categories, SortOrder::Alphabetical) => MetaRequest::CategoriesAlphabetically(p, l),
        (SectionKind::Categories, SortOrder::ByCount) => MetaRequest::CategoriesByPublishedAudiobooks(p, l),
        (SectionKind::Authors, SortOrder::Alphabetical) => MetaRequest::AuthorsAlphabetically(p, l),
        (SectionKind::Authors, SortOrder::ByCount) => MetaRequest::AuthorsByPublishedAudiobooks(p, l),
        (SectionKind::Series, SortOrder::Alphabetical) => MetaRequest::SeriesAlphabetically(p, l),
        (SectionKind::Series, SortOrder::ByCount) => MetaRequest::SeriesBySubscriber(p, l),
        (SectionKind::Readers, SortOrder::Alphabetical) => MetaRequest::ReadersAlphabetically(p, l),
        (SectionKind::Readers, SortOrder::ByCount) => MetaRequest::ReaderByPublishedAudiobooks(p, l),
    }
}

/// One entry of a section: where it leads and what it says.
pub struct SectionEntry {
    pub href: String,
    pub label: String,
}

/// The entries of a section from the server's answer: one per entity of the
/// section's kind, in the answer's order, each leading to the first page of
/// that entity's listing; no entries when the answer is of another kind.
pub fn section_entries(kind: SectionKind, response: &MetaResponse) -> (r: Vec<SectionEntry>)
    ensures
        match (kind, response) {
            (SectionKind::Categories, MetaResponse::Categories(list)) => r@.len() == list@.len()
                && forall|i: int|
                0 <= i < r@.len() ==> (#[trigger] r@[i]).href@ == entity_link(
                    category_prefix(),
                    list@[i].id,
                    list@[i].value@,
                ) && r@[i].label@ == list@[i].value@,
            (SectionKind::Authors, MetaResponse::Authors(list)) => r@.len() == list@.len() && forall|
                i: int,
            |
                0 <= i < r@.len() ==> (#[trigger] r@[i]).href@ == entity_link(
                    author_prefix(),
                    list@[i].id,
                    list@[i].name@,
                ) && r@[i].label@ == list@[i].name@,
            (SectionKind::Series, MetaResponse::Series(list)) => r@.len() == list@.len() && forall|
                i: int,
            |
                0 <= i < r@.len() ==> (#[trigger] r@[i]).href@ == entity_link(
                    series_prefix(),
                    list@[i].id,
                    list@[i].title@,
                ) && r@[i].label@ == list@[i].title@,
            (SectionKind::Readers, MetaResponse::Readers(list)) => r@.len() == list@.len() && forall|
                i: int,
            |
                0 <= i < r@.len() ==> (#[trigger] r@[i]).href@ == entity_link(
                    reader_prefix(),
                    list@[i].id,
                    list@[i].name@,
                ) && r@[i].label@ == list@[i].name@,
            _ => r@.len() == 0,
        },
{
    let mut out: Vec<SectionEntry> = Vec::new();
    match (kind, response) {
        (SectionKind::Categories, MetaResponse::Categories(list)) => {
            let mut i: usize = 0;
            while i < list.len()
                invariant
                    i <= list@.len(),
                    out@.len() == i,
                    forall|k: int|
                        0 <= k < i ==> (#[trigger] out@[k]).href@ == entity_link(
                            category_prefix(),
                            list@[k].id,
                            list@[k].value@,
                        ) && out@[k].label@ == list@[k].value@,
                decreases list@.len() - i,
            {
                out.push(SectionEntry { href: list[i].link(), label: list[i].value.clone() });
                i = i + 1;
            }
        },
        (SectionKind::Authors, MetaResponse::Authors(list)) => {
            let mut i: usize = 0;
            while i < list.len()
                invariant
                    i <= list@.len(),
                    out@.len() == i,
                    forall|k: int|
                        0 <= k < i ==> (#[trigger] out@[k]).href@ == entity_link(
                            author_prefix(),
                            list@[k].id,
                            list@[k].name@,
                        ) && out@[k].label@ == list@[k].name@,
                decreases list@.len() - i,
            {
                out.push(SectionEntry { href: list[i].link(), label: list[i].name.clone() });
                i = i + 1;
            }
        },
        (SectionKind::Series, MetaResponse::Series(list)) => {
            let mut i: usize = 0;
            while i < list.len()
                invariant
                    i <= list@.len(),
                    out@.len() == i,
                    forall|k: int|
                        0 <= k < i ==> (#[trigger] out@[k]).href@ == entity_link(
                            series_prefix(),
                            list@[k].id,
                            list@[k].title@,
                        ) && out@[k].label@ == list@[k].title@,
                decreases list@.len() - i,
            {
                out.push(SectionEntry { href: list[i].link(), label: list[i].title.clone() });
                i = i + 1;
            }
        },
        (SectionKind::Readers, MetaResponse::Readers(list)) => {
            let mut i: usize = 0;
            while i < list.len()
                invariant
                    i <= list@.len(),
                    out@.len() == i,
                    forall|k: int|
                        0 <= k < i ==> (#[trigger] out@[k]).href@ == entity_link(
                            reader_prefix(),
                            list@[k].id,
                            list@[k].name@,
                        ) && out@[k].label@ == list@[k].name@,
                decreases list@.len() - i,
            {
                out.push(SectionEntry { href: list[i].link(), label: list[i].name.clone() });
                i = i + 1;
            }
        },
        _ => {},
    }
    out
}

/// The lower-case form of a text, as `str::to_lowercase` gives it (Unicode
/// case mapping, independent of any locale).
pub uninterp spec fn lowercase(s: Seq<char>) -> Seq<char>;

/// `str::to_lowercase`: the text with each character replaced by its
/// Unicode lower-case mapping. Claimed here: the result is `lowercase` of
/// the argument, a function of the argument alone, and the empty text stays
/// empty; nothing more is stated.
#[verifier::external_body]
fn to_lowercase(s: &str) -> (r: String)
    ensures
        r@ == lowercase(s@),
        s@.len() == 0 ==> r@.len() == 0,
{
    s.to_lowercase()
}

/// Whether an entry whose lower-cased label is `lowered_label` passes a
/// filter whose lower-cased text is `lowered_query`: the query occurs in the
/// label (an empty query lets every entry pass).
pub fn label_matches(lowered_label: &str, lowered_query: &str) -> (r: bool)
    ensures
        r == contains_text(lowered_label@, lowered_query@),
{
    contains_str(lowered_label, lowered_query)
}

/// Whether an entry with label `label` passes the filter `query`, ignoring
/// case.
pub open spec fn passes_filter(label: Seq<char>, query: Seq<char>) -> bool {
    contains_text(lowercase(label), lowercase(query))
}

/// An entry passes the filter exactly when the lower-cased filter occurs
/// somewhere in its lower-cased label, at the start, in the middle or at
/// the end.
pub proof fn lemma_filter_matches_anywhere(label: Seq<char>, query: Seq<char>, i: int)
    ensures
        occurs_at(lowercase(label), lowercase(query), i) ==> passes_filter(label, query),
        passes_filter(label, query) ==> exists|k: int|
            0 <= k <= lowercase(label).len() - lowercase(query).len() && occurs_at(
                lowercase(label),
                lowercase(query),
                k,
            ),
{
}

/// Whether an entry passes the filter `query`.
pub open spec fn entry_passes(query: Seq<char>) -> spec_fn(SectionEntry) -> bool {
    |e: SectionEntry| passes_filter(e.label@, query)
}

/// The entries that pass the filter `query`, in their order.
pub open spec fn filtered(entries: Seq<SectionEntry>, query: Seq<char>) -> Seq<SectionEntry> {
    entries.filter(entry_passes(query))
}

/// The filter keeps, in their order, exactly the entries in whose
/// lower-cased label the lower-cased filter occurs somewhere: each kept
/// entry passes, and an entry whose label holds the filter at any position
/// is kept.
pub proof fn lemma_filtered_keeps_matches(entries: Seq<SectionEntry>, query: Seq<char>, k: int, i: int)
    ensures
        forall|j: int|
            0 <= j < filtered(entries, query).len() ==> passes_filter(
                (#[trigger] filtered(entries, query)[j]).label@,
                query,
            ) && entries.contains(filtered(entries, query)[j]),
        0 <= k < entries.len() && occurs_at(lowercase(entries[k].label@), lowercase(query), i)
            ==> filtered(entries, query).contains(entries[k]),
{
    let p = entry_passes(query);
    let f = filtered(entries, query);
    assert forall|j: int| 0 <= j < f.len() implies passes_filter((#[trigger] f[j]).label@, query)
        && entries.contains(f[j]) by {
        entries.lemma_filter_pred(p, j);
        assert(f.contains(f[j]));
        entries.lemma_filter_contains_rev(p, f[j]);
    }
    if 0 <= k < entries.len() && occurs_at(lowercase(entries[k].label@), lowercase(query), i) {
        entries.lemma_filter_contains(p, k);
    }
}

/// A filter whose lower-cased text is empty lets every entry pass.
proof fn lemma_empty_filter_keeps_all(entries: Seq<SectionEntry>, query: Seq<char>)
    requires
        lowercase(query).len() == 0,
    ensures
        filtered(entries, query) == entries,
    decreases entries.len(),
{
    reveal_with_fuel(Seq::filter, 1);
    if entries.len() > 0 {
        lemma_empty_filter_keeps_all(entries.drop_last(), query);
        let l = lowercase(entries.last().label@);
        assert(l.subrange(0, 0) =~= lowercase(query));
        assert(occurs_at(l, lowercase(query), 0));
        assert(passes_filter(entries.last().label@, query));
        assert(entries.drop_last().push(entries.last()) =~= entries);
    }
}

/// The entries that pass the section's filter, in their order; all of them
/// when the lower-cased filter is empty.
pub fn filter_entries(entries: &Vec<SectionEntry>, query: &str) -> (r: Vec<SectionEntry>)
    ensures
        r@ == filtered(entries@, query@),
        lowercase(query@).len() == 0 ==> r@ == entries@,
        query@.len() == 0 ==> r@ == entries@,
{
    let lowered_query = to_lowercase(query);
    if lowered_query.as_str().is_empty() {
        let mut all: Vec<SectionEntry> = Vec::new();
        let mut k: usize = 0;
        while k < entries.len()
            invariant
                k <= entries@.len(),
                all@ == entries@.take(k as int),
            decreases entries@.len() - k,
        {
            let e = SectionEntry { href: entries[k].href.clone(), label: entries[k].label.clone() };
            assert(e == entries@[k as int]);
            all.push(e);
            k = k + 1;
            assert(all@ =~= entries@.take(k as int));
        }
        assert(entries@.take(k as int) =~= entries@);
        proof {
            lemma_empty_filter_keeps_all(entries@, query@);
        }
        return all;
    }
    let mut out: Vec<SectionEntry> = Vec::new();
    let mut i: usize = 0;
    assert(entries@.take(0) =~= Seq::<SectionEntry>::empty());
    proof {
        reveal_with_fuel(Seq::filter, 1);
    }
    while i < entries.len()
        invariant
            i <= entries@.len(),
            lowered_query@ == lowercase(query@),
            out@ == filtered(entries@.take(i as int), query@),
        decreases entries@.len() - i,
    {
        proof {
            assert(entries@.take(i + 1).drop_last() =~= entries@.take(i as int));
            assert(entries@.take(i + 1).last() == entries@[i as int]);
            reveal_with_fuel(Seq::filter, 1);
        }
        let lowered_label = to_lowercase(entries[i].label.as_str());
        if label_matches(lowered_label.as_str(), lowered_query.as_str()) {
            let e = SectionEntry { href: entries[i].href.clone(), label: entries[i].label.clone() };
            assert(e == entries@[i as int]);
            out.push(e);
        }
        i = i + 1;
    }
    assert(entries@.take(i as int) =~= entries@);
    out
}

/// How many entries a section shows at once.
pub open spec fn entries_per_page() -> int {
    15
}

/// The last page of a section with `n` entries (pages count from 0).
pub open spec fn last_page_of(n: int) -> int {
    if n > 0 {
        (n - 1) / entries_per_page()
    } else {
        0
    }
}

/// The page a section shows when asked for page `current`: no page beyond
/// the last.
pub open spec fn shown_page(current: int, n: int) -> int {
    if current < last_page_of(n) {
        current
    } else {
        last_page_of(n)
    }
}

/// The smaller of two positions.
pub open spec fn min_pos(a: int, b: int) -> int {
    if a < b {
        a
    } else {
        b
    }
}

/// The position indicator under a paged section: `{page + 1}/{last + 1}`.
pub open spec fn position_text(page: nat, last: nat) -> Seq<char> {
    dec_nat(page + 1) + seq!['/'] + dec_nat(last + 1)
}

/// One page of a section.
pub struct SectionPage {
    /// The entries on the page, in order.
    pub entries: Vec<SectionEntry>,
    /// The page shown, counted from 0.
    pub page: usize,
    /// The last page, counted from 0.
    pub last_page: usize,
    /// Whether the page buttons are shown: only when one page cannot hold
    /// every entry.
    pub show_pager: bool,
    pub prev_disabled: bool,
    pub next_disabled: bool,
    /// The position indicator between the page buttons.
    pub position: String,
}

proof fn lemma_page_start(page: int, n: int)
    by (nonlinear_arith)
    requires
        n > 0,
        0 <= page <= (n - 1) / 15,
    ensures
        0 <= page * 15 <= n - 1,
{
}

/// The page of a section's (filtered) entries to show when page `current`
/// is asked for.
pub fn section_page(entries: &Vec<SectionEntry>, current: usize) -> (r: SectionPage)
    ensures
        r.last_page == last_page_of(entries@.len() as int),
        r.page == shown_page(current as int, entries@.len() as int),
        r.entries@ == entries@.subrange(
            r.page * entries_per_page(),
            min_pos(r.page * entries_per_page() + entries_per_page(), entries@.len() as int),
        ),
        r.show_pager == (entries@.len() > entries_per_page()),
        r.prev_disabled == (r.page == 0),
        r.next_disabled == (r.page >= r.last_page),
        r.position@ == position_text(r.page as nat, r.last_page as nat),
{
    let page_size: usize = 15;
    let total = entries.len();
    let last_page: usize = if total > 0 {
        (total - 1) / page_size
    } else {
        0
    };
    let page: usize = if current < last_page {
        current
    } else {
        last_page
    };
    proof {
        if total > 0 {
            lemma_page_start(page as int, total as int);
        }
    }
    let start: usize = page * page_size;
    let end: usize = if total - start < page_size {
        total
    } else {
        start + page_size
    };
    let mut out: Vec<SectionEntry> = Vec::new();
    let mut i: usize = start;
    while i < end
        invariant
            start <= i <= end <= total,
            total == entries@.len(),
            out@ == entries@.subrange(start as int, i as int),
        decreases end - i,
    {
        let e = SectionEntry { href: entries[i].href.clone(), label: entries[i].label.clone() };
        out.push(e);
        i = i + 1;
        assert(out@ =~= entries@.subrange(start as int, i as int));
    }
    let mut position = String::new();
    push_dec(&mut position, (page as u64) + 1);
    position.push('/');
    push_dec(&mut position, (last_page as u64) + 1);
    assert(position@ =~= position_text(page as nat, last_page as nat));
    SectionPage {
        entries: out,
        page,
        last_page,
        show_pager: total > page_size,
        prev_disabled: page == 0,
        next_disabled: page >= last_page,
        position,
    }
}

/// The pages of a section split its entries: entry `k` is on page
/// `k / entries_per_page()`, which is never beyond the last page, and each
/// page holds the entries from `page * entries_per_page()` on, at most
/// `entries_per_page()` of them.
pub proof fn lemma_pages_split_entries(n: int, k: int)
    requires
        0 <= k < n,
    ensures
        0 <= k / entries_per_page() <= last_page_of(n),
        (k / entries_per_page()) * entries_per_page() <= k < (k / entries_per_page()) * entries_per_page()
            + entries_per_page(),
{
    assert(0 <= k / 15 <= (n - 1) / 15) by (nonlinear_arith)
        requires
            0 <= k < n,
    ;
    assert((k / 15) * 15 <= k < (k / 15) * 15 + 15) by (nonlinear_arith)
        requires
            0 <= k,
    ;
}

/// The state of one section of the sidebar.
#[derive(Clone, Debug, PartialEq, Eq)]
pub struct SectionState {
    pub sort_order: SortOrder,
    pub collapsed: bool,
    pub search_visible: bool,
    pub query: String,
    pub page: usize,
}

/// What the user does to a section.
#[derive(Clone, Debug, PartialEq, Eq)]
pub enum SectionEvent {
    /// Press the search button.
    ToggleSearch,
    /// Press the sort button.
    ToggleSort,
    /// Press the collapse button.
    ToggleCollapse,
    /// Type into the filter.
    SetQuery(String),
    /// Press the previous page button.
    PreviousPage,
    /// Press the next page button.
    NextPage,
}

/// A section as it first appears: alphabetical, expanded, no filter, first
/// page.
pub fn initial_section_state() -> (r: SectionState)
    ensures
        r.sort_order == SortOrder::Alphabetical,
        !r.collapsed,
        !r.search_visible,
        r.query@.len() == 0,
        r.page == 0,
{
    SectionState {
        sort_order: SortOrder::Alphabetical,
        collapsed: false,
        search_visible: false,
        query: String::new(),
        page: 0,
    }
}

/// The section's state after `event`. Changing the filter or the order
/// goes back to the first page; hiding the search field clears the filter.
pub fn section_step(state: SectionState, event: SectionEvent) -> (r: SectionState)
    requires
        event is NextPage ==> state.page < usize::MAX,
    ensures
        match event {
            SectionEvent::ToggleSearch => {
                &&& r.search_visible == !state.search_visible
                &&& r.sort_order == state.sort_order && r.collapsed == state.collapsed
                &&& if state.search_visible {
                    r.query@.len() == 0 && r.page == 0
                } else {
                    r.query@ == state.query@ && r.page == state.page
                }
            },
            SectionEvent::ToggleSort => {
                &&& r.sort_order == other_order(state.sort_order)
                &&& r.page == 0
                &&& r.collapsed == state.collapsed && r.search_visible == state.search_visible
                &&& r.query@ == state.query@
            },
            SectionEvent::ToggleCollapse => {
                &&& r.collapsed == !state.collapsed
                &&& r.sort_order == state.sort_order && r.search_visible == state.search_visible
                &&& r.query@ == state.query@ && r.page == state.page
            },
            SectionEvent::SetQuery(q) => {
                &&& r.query@ == q@ && r.page == 0
                &&& r.sort_order == state.sort_order && r.collapsed == state.collapsed
                &&& r.search_visible == state.search_visible
            },
            SectionEvent::PreviousPage => {
                &&& r.page == (if state.page > 0 {
                    state.page - 1
                } else {
                    0
                })
                &&& r.sort_order == state.sort_order && r.collapsed == state.collapsed
                &&& r.search_visible == state.search_visible && r.query@ == state.query@
            },
            SectionEvent::NextPage => {
                &&& r.page == state.page + 1
                &&& r.sort_order == state.sort_order && r.collapsed == state.collapsed
                &&& r.search_visible == state.search_visible && r.query@ == state.query@
            },
        },
{
    let SectionState { sort_order, collapsed, search_visible, query, page } = state;
    match event {
        SectionEvent::ToggleSearch => {
            if search_visible {
                SectionState { sort_order, collapsed, search_visible: false, query: String::new(), page: 0 }
            } else {
                SectionState { sort_order, collapsed, search_visible: true, query, page }
            }
        },
        SectionEvent::ToggleSort => {
            let next = match sort_order {
                SortOrder::Alphabetical => SortOrder::ByCount,
                SortOrder::ByCount => SortOrder::Alphabetical,
            };
            SectionState { sort_order: next, collapsed, search_visible, query, page: 0 }
        },
        SectionEvent::ToggleCollapse => {
            SectionState { sort_order, collapsed: !collapsed, search_visible, query, page }
        },
        SectionEvent::SetQuery(q) => {
            SectionState { sort_order, collapsed, search_visible, query: q, page: 0 }
        },
        SectionEvent::PreviousPage => {
            let p = if page > 0 {
                page - 1
            } else {
                0
            };
            SectionState { sort_order, collapsed, search_visible, query, page: p }
        },
        SectionEvent::NextPage => {
            SectionState { sort_order, collapsed, search_visible, query, page: page + 1 }
        },
    }
}

/// Pressing the sort button twice restores the order, and each press goes
/// back to the first page.
pub proof fn lemma_sort_twice(s: SortOrder)
    ensures
        other_order(other_order(s)) == s,
        other_order(s) != s,
{
}

} // verus!
