//! The links that an audiobook's card shows: its authors, its readers (up
//! to a limit), its categories and keywords (up to a limit), its series and
//! the audiobook's own page.
use vstd::prelude::*;

use crate::entities::{
    author_prefix, category_prefix, entity_link, keyword_prefix, reader_prefix, series_prefix, Author,
    Category, Keyword, Reader, Series,
};
use crate::text::{dec_int, push_dec_signed, push_str};

verus! {

/// One link of a comma-separated list of names.
pub struct NameLink {
    pub href: String,
    pub label: String,
    /// What follows the link: `", "` before another link, else nothing.
    pub separator: String,
}

/// The separator after link `i` of `n` shown links.
pub open spec fn separator_after(i: int, n: int) -> Seq<char> {
    if i < n - 1 {
        seq![',', ' ']
    } else {
        seq![]
    }
}

fn separator(i: usize, n: usize) -> (r: String)
    requires
        i < n,
    ensures
        r@ == separator_after(i as int, n as int),
{
    if i + 1 < n {
        let s = ", ";
        proof {
            reveal_strlit(", ");
        }
        assert(s@ =~= seq![',', ' ']);
        s.to_string()
    } else {
        String::new()
    }
}

/// The links to every author of an audiobook, in order.
pub fn author_links(authors: &Vec<Author>) -> (r: Vec<NameLink>)
    ensures
        r@.len() == authors@.len(),
        forall|i: int|
            0 <= i < r@.len() ==> {
                &&& (#[trigger] r@[i]).href@ == entity_link(author_prefix(), authors@[i].id, authors@[i].name@)
                &&& r@[i].label@ == authors@[i].name@
                &&& r@[i].separator@ == separator_after(i, authors@.len() as int)
            },
{
    let n = authors.len();
    let mut out: Vec<NameLink> = Vec::new();
    let mut i: usize = 0;
    while i < n
        invariant
            n == authors@.len(),
            i <= n,
            out@.len() == i,
            forall|k: int|
                0 <= k < i ==> {
                    &&& (#[trigger] out@[k]).href@ == entity_link(author_prefix(), authors@[k].id, authors@[k].name@)
                    &&& out@[k].label@ == authors@[k].name@
                    &&& out@[k].separator@ == separator_after(k, n as int)
                },
        decreases n - i,
    {
        let a = &authors[i];
        out.push(NameLink { href: a.link(), label: a.name.clone(), separator: separator(i, n) });
        i = i + 1;
    }
    out
}

/// The reader links of an audiobook's card.
pub struct ReaderLinks {
    /// The first readers, up to the limit, in order.
    pub links: Vec<NameLink>,
    /// Whether readers beyond the limit were left out (shown as "...").
    pub has_more: bool,
}

/// The smaller of two counts.
pub open spec fn min_count(a: int, b: int) -> int {
    if a < b {
        a
    } else {
        b
    }
}

/// The links to the first `limit` readers of an audiobook.
pub fn reader_links(readers: &Vec<Reader>, limit: u8) -> (r: ReaderLinks)
    ensures
        r.links@.len() == min_count(readers@.len() as int, limit as int),
        r.has_more == (readers@.len() > limit),
        forall|i: int|
            0 <= i < r.links@.len() ==> {
                &&& (#[trigger] r.links@[i]).href@ == entity_link(reader_prefix(), readers@[i].id, readers@[i].name@)
                &&& r.links@[i].label@ == readers@[i].name@
                &&& r.links@[i].separator@ == separator_after(i, r.links@.len() as int)
            },
{
    let count = readers.len();
    let limit = limit as usize;
    let shown = if count < limit {
        count
    } else {
        limit
    };
    let mut out: Vec<NameLink> = Vec::new();
    let mut i: usize = 0;
    while i < shown
        invariant
            count == readers@.len(),
            shown <= count,
            shown as int == min_count(count as int, limit as int),
            i <= shown,
            out@.len() == i,
            forall|k: int|
                0 <= k < i ==> {
                    &&& (#[trigger] out@[k]).href@ == entity_link(reader_prefix(), readers@[k].id, readers@[k].name@)
                    &&& out@[k].label@ == readers@[k].name@
                    &&& out@[k].separator@ == separator_after(k, shown as int)
                },
        decreases shown - i,
    {
        let a = &readers[i];
        out.push(NameLink { href: a.link(), label: a.name.clone(), separator: separator(i, shown) });
        i = i + 1;
    }
    ReaderLinks { links: out, has_more: count > limit }
}

/// A tag of an audiobook's card: where it leads and what it says.
pub struct Tag {
    pub href: String,
    pub label: String,
}

/// The tags of an audiobook's card.
pub struct TagList {
    /// The first tags, up to the limit, in order.
    pub tags: Vec<Tag>,
    /// Whether tags beyond the limit were left out (shown as "...").
    pub has_more: bool,
}

/// The first `limit` category tags of an audiobook.
pub fn category_tags(categories: &Vec<Category>, limit: u8) -> (r: TagList)
    ensures
        r.tags@.len() == min_count(categories@.len() as int, limit as int),
        r.has_more == (categories@.len() > limit),
        forall|i: int|
            0 <= i < r.tags@.len() ==> {
                &&& (#[trigger] r.tags@[i]).href@ == entity_link(category_prefix(), categories@[i].id, categories@[i].value@)
                &&& r.tags@[i].label@ == categories@[i].value@
            },
{
    let count = categories.len();
    let limit = limit as usize;
    let shown = if count < limit {
        count
    } else {
        limit
    };
    let mut out: Vec<Tag> = Vec::new();
    let mut i: usize = 0;
    while i < shown
        invariant
            count == categories@.len(),
            shown <= count,
            i <= shown,
            out@.len() == i,
            forall|k: int|
                0 <= k < i ==> {
                    &&& (#[trigger] out@[k]).href@ == entity_link(category_prefix(), categories@[k].id, categories@[k].value@)
                    &&& out@[k].label@ == categories@[k].value@
                },
        decreases shown - i,
    {
        let c = &categories[i];
        out.push(Tag { href: c.link(), label: c.value.clone() });
        i = i + 1;
    }
    TagList { tags: out, has_more: count > limit }
}

/// The first `limit` keyword tags of an audiobook.
pub fn keyword_tags(keywords: &Vec<Keyword>, limit: u8) -> (r: TagList)
    ensures
        r.tags@.len() == min_count(keywords@.len() as int, limit as int),
        r.has_more == (keywords@.len() > limit),
        forall|i: int|
            0 <= i < r.tags@.len() ==> {
                &&& (#[trigger] r.tags@[i]).href@ == entity_link(keyword_prefix(), keywords@[i].id, keywords@[i].value@)
                &&& r.tags@[i].label@ == keywords@[i].value@
            },
{
    let count = keywords.len();
    let limit = limit as usize;
    let shown = if count < limit {
        count
    } else {
        limit
    };
    let mut out: Vec<Tag> = Vec::new();
    let mut i: usize = 0;
    while i < shown
        invariant
            count == keywords@.len(),
            shown <= count,
            i <= shown,
            out@.len() == i,
            forall|k: int|
                0 <= k < i ==> {
                    &&& (#[trigger] out@[k]).href@ == entity_link(keyword_prefix(), keywords@[k].id, keywords@[k].value@)
                    &&& out@[k].label@ == keywords@[k].value@
                },
        decreases shown - i,
    {
        let c = &keywords[i];
        out.push(Tag { href: c.link(), label: c.value.clone() });
        i = i + 1;
    }
    TagList { tags: out, has_more: count > limit }
}

/// The link to the series an audiobook belongs to, if any.
pub fn series_link(maybe_series: &Option<Series>) -> (r: Option<Tag>)
    ensures
        r is Some <==> maybe_series is Some,
        r matches Some(t) ==> t.href@ == entity_link(series_prefix(), maybe_series->0.id, maybe_series->0.title@)
            && t.label@ == maybe_series->0.title@,
{
    match maybe_series {
        Some(s) => Some(Tag { href: s.link(), label: s.title.clone() }),
        None => None,
    }
}

/// The page of one audiobook: `/audiobook/{id}`.
pub open spec fn audiobook_path(id: i64) -> Seq<char> {
    "/audiobook/"@ + dec_int(id as int)
}

/// The link to an audiobook's own page.
pub fn audiobook_href(id: i64) -> (r: String)
    ensures
        r@ == audiobook_path(id),
{
    let mut s = String::new();
    push_str(&mut s, "/audiobook/");
    push_dec_signed(&mut s, id);
    s
}

} // verus!
