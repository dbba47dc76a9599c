//! Page counts of the listings and the paginator shown above and below them.
use vstd::prelude::*;

use crate::entities::{entity_link, entity_path, entity_template};
use crate::text::{
    contains_text, dec_int, dec_nat, lemma_dec_int_no_brace, lemma_replace_all_pattern,
    lemma_replace_all_untouched_prefix, occurs_at, replace_all, replace_text, u64_to_text,
};

verus! {

/// The number of pages that the entity listings (author, series, category,
/// keyword, reader) announce for `amount` audiobooks: whole pages only.
pub fn full_pages(amount: u32, per_page: u32) -> (r: u32)
    requires
        per_page > 0,
    ensures
        r == amount / per_page,
{
    amount / per_page
}

/// The number of pages that the most recent listing announces: enough pages
/// to hold `amount` audiobooks, `per_page` on each; `0` when `per_page` is `0`.
pub fn pages_for(amount: u32, per_page: u32) -> (r: u32)
    ensures
        per_page == 0 ==> r == 0,
        per_page > 0 ==> r as int == (amount as int + per_page as int - 1) / per_page as int,
{
    if per_page > 0 {
        let q = amount / per_page;
        let rem = amount % per_page;
        proof {
            lemma_ceil_div(amount as int, per_page as int, q as int, rem as int);
        }
        if rem != 0 {
            q + 1
        } else {
            q
        }
    } else {
        0
    }
}

proof fn lemma_ceil_div(a: int, d: int, q: int, r: int)
    by (nonlinear_arith)
    requires
        d > 0,
        a >= 0,
        q == a / d,
        r == a % d,
    ensures
        r != 0 ==> q + 1 == (a + d - 1) / d,
        r == 0 ==> q == (a + d - 1) / d,
        r != 0 ==> q + 1 <= a,
{
    assert(a == q * d + r);
    assert(0 <= r < d);
    if r != 0 {
        assert(a + d - 1 == (q + 1) * d + (r - 1));
    } else {
        assert(a + d - 1 == q * d + (d - 1));
    }
}

/// Page counts cover every audiobook and waste no page: with `n` pages of
/// `per_page` each, `amount` fits, and `n - 1` pages would not hold it.
pub proof fn lemma_pages_for_covers(amount: nat, per_page: nat, n: nat)
    by (nonlinear_arith)
    requires
        per_page > 0,
        n as int == (amount as int + per_page as int - 1) / per_page as int,
    ensures
        n * per_page >= amount,
        n * per_page < amount + per_page,
{
}

/// The paginator link to page `page`: the route template with every `{}`
/// replaced by the page number.
pub open spec fn page_href(template: Seq<char>, page: nat) -> Seq<char> {
    replace_all(template, seq!['{', '}'], dec_nat(page))
}

fn placeholder() -> (s: &'static str)
    ensures
        s@ == seq!['{', '}'],
{
    let s = "{}";
    proof {
        reveal_strlit("{}");
    }
    assert(s@ =~= seq!['{', '}']);
    s
}

/// The link to page `page` of the listing whose route template is `template`.
pub fn page_link(template: &str, page: u32) -> (r: String)
    ensures
        r@ == page_href(template@, page as nat),
{
    let n = u64_to_text(page as u64);
    replace_text(template, placeholder(), n.as_str())
}

/// How many page numbers the paginator shows on each side of the current one.
pub open spec fn radius() -> int {
    2
}

/// The first page number of the paginator's middle window.
pub open spec fn window_start(current: int) -> int {
    if current > radius() + 1 {
        current - radius()
    } else {
        2
    }
}

/// The last page number of the paginator's middle window.
pub open spec fn window_end(current: int, total: int) -> int {
    if current + radius() < total {
        current + radius()
    } else {
        total - 1
    }
}

/// One numbered link of the paginator.
pub struct PageLinkView {
    pub page: u32,
    pub href: String,
    pub is_current: bool,
}

/// Everything the paginator shows for one state of the listing.
pub struct PaginatorView {
    /// Target of the "previous" button: `#` when disabled.
    pub prev_href: String,
    /// Target of the "next" button: `#` when disabled.
    pub next_href: String,
    pub prev_disabled: bool,
    pub next_disabled: bool,
    pub prev_label: String,
    pub next_label: String,
    /// Whether the numbered list is shown (it is hidden on narrow screens).
    pub show_list: bool,
    /// The link to page 1, always present in the list.
    pub first: PageLinkView,
    pub show_left_ellipsis: bool,
    /// The numbered links between the first and the last page.
    pub middle: Vec<PageLinkView>,
    pub show_right_ellipsis: bool,
    /// The link to the last page, when there is more than one page.
    pub last: Option<PageLinkView>,
}

fn text_of(s: &str) -> (r: String)
    ensures
        r@ == s@,
{
    s.to_string()
}

fn disabled_href() -> (r: String)
    ensures
        r@ == seq!['#'],
{
    let s = "#";
    proof {
        reveal_strlit("#");
    }
    assert(s@ =~= seq!['#']);
    text_of(s)
}

/// The label of the "previous" button.
pub open spec fn prev_label_text(is_mobile: bool) -> Seq<char> {
    if is_mobile {
        seq!['P', 'r', 'e', 'v']
    } else {
        seq!['P', 'r', 'e', 'v', 'i', 'o', 'u', 's']
    }
}

/// The label of the "next" button.
pub open spec fn next_label_text(is_mobile: bool) -> Seq<char> {
    if is_mobile {
        seq!['N', 'e', 'x', 't']
    } else {
        seq!['N', 'e', 'x', 't', ' ', 'p', 'a', 'g', 'e']
    }
}

fn prev_label(is_mobile: bool) -> (r: String)
    ensures
        r@ == prev_label_text(is_mobile),
{
    if is_mobile {
        let s = "Prev";
        proof {
            reveal_strlit("Prev");
        }
        assert(s@ =~= prev_label_text(is_mobile));
        text_of(s)
    } else {
        let s = "Previous";
        proof {
            reveal_strlit("Previous");
        }
        assert(s@ =~= prev_label_text(is_mobile));
        text_of(s)
    }
}

fn next_label(is_mobile: bool) -> (r: String)
    ensures
        r@ == next_label_text(is_mobile),
{
    if is_mobile {
        let s = "Next";
        proof {
            reveal_strlit("Next");
        }
        assert(s@ =~= next_label_text(is_mobile));
        text_of(s)
    } else {
        let s = "Next page";
        proof {
            reveal_strlit("Next page");
        }
        assert(s@ =~= next_label_text(is_mobile));
        text_of(s)
    }
}

/// The numbered links of the middle window, from `window_start` to
/// `window_end` included.
pub fn middle_pages(template: &str, current: u32, total: u32) -> (r: Vec<PageLinkView>)
    requires
        total >= 1,
        current + radius() <= u32::MAX,
    ensures
        r@.len() == if window_start(current as int) <= window_end(current as int, total as int) {
            window_end(current as int, total as int) - window_start(current as int) + 1
        } else {
            0
        },
        forall|i: int|
            0 <= i < r@.len() ==> {
                &&& (#[trigger] r@[i]).page == window_start(current as int) + i
                &&& r@[i].href@ == page_href(template@, r@[i].page as nat)
                &&& r@[i].is_current == (r@[i].page == current)
            },
{
    let start: u32 = if current > 3 {
        current - 2
    } else {
        2
    };
    let end: u32 = if current + 2 < total {
        current + 2
    } else {
        total - 1
    };
    let mut out: Vec<PageLinkView> = Vec::new();
    if start > end {
        return out;
    }
    let mut p: u32 = start;
    while p <= end
        invariant
            start <= p <= end + 1,
            end < total,
            start == window_start(current as int),
            end == window_end(current as int, total as int),
            out@.len() == p - start,
            forall|i: int|
                0 <= i < out@.len() ==> {
                    &&& (#[trigger] out@[i]).page == start + i
                    &&& out@[i].href@ == page_href(template@, out@[i].page as nat)
                    &&& out@[i].is_current == (out@[i].page == current)
                },
        decreases end + 1 - p,
    {
        let href = page_link(template, p);
        out.push(PageLinkView { page: p, href, is_current: p == current });
        p = p + 1;
    }
    out
}

/// What the paginator shows, given the current page, the number of pages
/// (`None` while it is unknown) and the route template of the listing.
/// Nothing is shown unless the number of pages is known and positive.
pub fn paginator_view(current: u32, n_pages: Option<u32>, template: &str, is_mobile: bool) -> (r:
    Option<PaginatorView>)
    requires
        n_pages matches Some(n) && n > 0 ==> current + radius() + 1 <= u32::MAX,
    ensures
        r is Some <==> (n_pages matches Some(n) && n > 0),
        r matches Some(v) ==> {
            let total = n_pages->0;
            &&& v.prev_disabled == (current <= 1)
            &&& v.next_disabled == (current >= total)
            &&& v.prev_href@ == (if current <= 1 {
                seq!['#']
            } else {
                page_href(template@, (current - 1) as nat)
            })
            &&& v.next_href@ == (if current >= total {
                seq!['#']
            } else {
                page_href(template@, (current + 1) as nat)
            })
            &&& v.prev_label@ == prev_label_text(is_mobile)
            &&& v.next_label@ == next_label_text(is_mobile)
            &&& v.show_list == !is_mobile
            &&& v.first.page == 1 && v.first.href@ == page_href(template@, 1)
            &&& v.first.is_current == (current == 1)
            &&& v.show_left_ellipsis == (current > radius() + 2)
            &&& v.show_right_ellipsis == (current + radius() + 1 < total)
            &&& v.middle@.len() == if window_start(current as int) <= window_end(
                current as int,
                total as int,
            ) {
                window_end(current as int, total as int) - window_start(current as int) + 1
            } else {
                0
            }
            &&& forall|i: int|
                0 <= i < v.middle@.len() ==> {
                    &&& (#[trigger] v.middle@[i]).page == window_start(current as int) + i
                    &&& v.middle@[i].href@ == page_href(template@, v.middle@[i].page as nat)
                    &&& v.middle@[i].is_current == (v.middle@[i].page == current)
                }
            &&& v.last is Some <==> total > 1
            &&& v.last matches Some(l) ==> l.page == total && l.href@ == page_href(
                template@,
                total as nat,
            ) && l.is_current == (current == total)
        },
{
    let total = match n_pages {
        Some(n) => {
            if n == 0 {
                return None;
            }
            n
        },
        None => {
            return None;
        },
    };
    let prev_disabled = current <= 1;
    let next_disabled = current >= total;
    let prev_href = if prev_disabled {
        disabled_href()
    } else {
        page_link(template, current - 1)
    };
    let next_href = if next_disabled {
        disabled_href()
    } else {
        page_link(template, current + 1)
    };
    let first = PageLinkView { page: 1, href: page_link(template, 1), is_current: current == 1 };
    let middle = middle_pages(template, current, total);
    let last = if total > 1 {
        Some(PageLinkView { page: total, href: page_link(template, total), is_current: current == total })
    } else {
        None
    };
    Some(
        PaginatorView {
            prev_href,
            next_href,
            prev_disabled,
            next_disabled,
            prev_label: prev_label(is_mobile),
            next_label: next_label(is_mobile),
            show_list: !is_mobile,
            first,
            show_left_ellipsis: current > 4,
            middle,
            show_right_ellipsis: current + 3 < total,
            last,
        },
    )
}

/// The middle window of the paginator lies strictly between the first and
/// the last page, holds at most `2 * radius() + 1` pages, and holds the
/// current page whenever that page is neither the first nor the last.
pub proof fn lemma_window_shape(current: int, total: int)
    requires
        total >= 1,
        current >= 0,
    ensures
        1 < window_start(current),
        window_end(current, total) < total,
        window_end(current, total) - window_start(current) + 1 <= 2 * radius() + 1,
        1 < current < total ==> window_start(current) <= current <= window_end(current, total),
{
}

/// The numbered links leave no page out that no ellipsis stands for. Without
/// the left ellipsis (`current <= radius() + 2`) the middle window starts
/// right after the first page, at page 2; with it, the window starts
/// `radius()` pages before the current one. Without the right ellipsis
/// (`current + radius() + 1 >= total`) the window ends right before the last
/// page; with it, `radius()` pages after the current one. In all cases the
/// window starts at `max(2, current - radius())` and ends at
/// `min(total - 1, current + radius())`.
pub proof fn lemma_window_leaves_no_gap(current: int, total: int)
    requires
        current >= 1,
        total >= 1,
    ensures
        current <= radius() + 2 ==> window_start(current) == 2,
        current > radius() + 2 ==> window_start(current) == current - radius(),
        window_start(current) >= 2 && window_start(current) >= current - radius(),
        window_start(current) == 2 || window_start(current) == current - radius(),
        !(current + radius() + 1 < total) ==> window_end(current, total) == total - 1,
        current + radius() + 1 < total ==> window_end(current, total) == current + radius(),
        window_end(current, total) <= total - 1 && window_end(current, total) <= current + radius(),
        window_end(current, total) == total - 1 || window_end(current, total) == current + radius(),
{
}

/// The paginator of an entity's listing leads to the entity's pages: its
/// link to page `page` is the entity's path ending in that page number, and
/// its link to page 1 is the entity's own link, provided the entity's label
/// holds no `{}` (which the paginator would take for the page number).
pub proof fn lemma_entity_page_links(prefix: Seq<char>, id: i64, label: Seq<char>, page: nat)
    requires
        forall|k: int| 0 <= k < prefix.len() ==> #[trigger] prefix[k] != '{',
        !contains_text(label, seq!['{', '}']),
    ensures
        page_href(entity_template(prefix, id, label), page) == entity_path(prefix, id, label, dec_nat(page)),
        page_href(entity_template(prefix, id, label), 1) == entity_link(prefix, id, label),
{
    let pat = seq!['{', '}'];
    let d = dec_int(id as int);
    let p = prefix + d + seq!['/'];
    let a = p + label + seq!['/'];
    let full = a + pat;
    assert(entity_template(prefix, id, label) =~= full);
    lemma_dec_int_no_brace(id as int);
    assert forall|i: int| 0 <= i < a.len() implies !occurs_at(full, pat, i) by {
        if occurs_at(full, pat, i) {
            assert(full.subrange(i, i + 2) == pat);
            assert(full[i] == full.subrange(i, i + 2)[0]);
            assert(full[i + 1] == full.subrange(i, i + 2)[1]);
            assert(full[i] == '{' && full[i + 1] == '}');
            if i < prefix.len() {
                assert(full[i] == prefix[i]);
            } else if i < prefix.len() + d.len() {
                assert(full[i] == d[i - prefix.len()]);
            } else if i < p.len() {
                assert(full[i] == '/');
            } else if i + 1 < p.len() + label.len() {
                let j = i - p.len();
                assert(full[i] == label[j]);
                assert(full[i + 1] == label[j + 1]);
                assert(label.subrange(j, j + 2) =~= pat);
                assert(occurs_at(label, pat, j));
            } else if i < p.len() + label.len() {
                assert(full[i + 1] == '/');
            } else {
                assert(full[i] == '/');
            }
        }
    }
    lemma_replace_all_untouched_prefix(a, pat, pat, dec_nat(page));
    lemma_replace_all_pattern(pat, dec_nat(page));
    assert(entity_path(prefix, id, label, dec_nat(page)) =~= a + dec_nat(page));
    lemma_replace_all_untouched_prefix(a, pat, pat, dec_nat(1));
    lemma_replace_all_pattern(pat, dec_nat(1));
    assert(dec_nat(1) == seq!['1']);
    assert(entity_link(prefix, id, label) =~= a + dec_nat(1));
}

} // verus!
