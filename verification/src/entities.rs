//! The catalogue entities that pages and links are built from (authors,
//! series, categories, keywords and readers), the links that lead to them,
//! and the titles of their pages.
use vstd::prelude::*;

use crate::text::{dec_int, push_dec_signed, push_str};

verus! {

/// A person who wrote an audiobook.
#[derive(Clone, Debug, PartialEq, Eq)]
pub struct Author {
    pub id: i64,
    pub name: String,
}

/// A series that audiobooks belong to.
#[derive(Clone, Debug, PartialEq, Eq)]
pub struct Series {
    pub id: i64,
    pub title: String,
}

/// A category (genre) of audiobooks.
#[derive(Clone, Debug, PartialEq, Eq)]
pub struct Category {
    pub id: i64,
    pub value: String,
}

/// A keyword attached to audiobooks.
#[derive(Clone, Debug, PartialEq, Eq)]
pub struct Keyword {
    pub id: i64,
    pub value: String,
}

/// A person who narrates audiobooks.
#[derive(Clone, Debug, PartialEq, Eq)]
pub struct Reader {
    pub id: i64,
    pub name: String,
}

/// The path `{prefix}{id}/{label}/{tail}` under which an entity's pages live.
pub open spec fn entity_path(prefix: Seq<char>, id: i64, label: Seq<char>, tail: Seq<char>) -> Seq<char> {
    prefix + dec_int(id as int) + seq!['/'] + label + seq!['/'] + tail
}

/// Builds `{prefix}{id}/{label}/{tail}`.
pub fn build_entity_path(prefix: &str, id: i64, label: &str, tail: &str) -> (r: String)
    ensures
        r@ == entity_path(prefix@, id, label@, tail@),
{
    let mut s = String::new();
    push_str(&mut s, prefix);
    push_dec_signed(&mut s, id);
    s.push('/');
    push_str(&mut s, label);
    s.push('/');
    push_str(&mut s, tail);
    assert(s@ =~= entity_path(prefix@, id, label@, tail@));
    s
}

/// The first page of an entity's listing: `{prefix}{id}/{label}/1`.
pub open spec fn entity_link(prefix: Seq<char>, id: i64, label: Seq<char>) -> Seq<char> {
    entity_path(prefix, id, label, seq!['1'])
}

/// The paginator template of an entity's listing: `{prefix}{id}/{label}/{}`,
/// where `{}` stands for the page number.
pub open spec fn entity_template(prefix: Seq<char>, id: i64, label: Seq<char>) -> Seq<char> {
    entity_path(prefix, id, label, seq!['{', '}'])
}

/// Route prefix of author pages.
pub open spec fn author_prefix() -> Seq<char> {
    seq!['/', 'a', 'u', 't', 'h', 'o', 'r', '/']
}

/// Route prefix of series pages.
pub open spec fn series_prefix() -> Seq<char> {
    seq!['/', 's', 'e', 'r', 'i', 'e', 's', '/']
}

/// Route prefix of category pages.
pub open spec fn category_prefix() -> Seq<char> {
    seq!['/', 'c', 'a', 't', 'e', 'g', 'o', 'r', 'y', '/']
}

/// Route prefix of keyword pages.
pub open spec fn keyword_prefix() -> Seq<char> {
    seq!['/', 'k', 'e', 'y', 'w', 'o', 'r', 'd', '/']
}

/// Route prefix of reader pages.
pub open spec fn reader_prefix() -> Seq<char> {
    seq!['/', 'r', 'e', 'a', 'd', 'e', 'r', '/']
}

fn author_prefix_str() -> (s: &'static str)
    ensures
        s@ == author_prefix(),
{
    let s = "/author/";
    proof {
        reveal_strlit("/author/");
    }
    assert(s@ =~= author_prefix());
    s
}

fn series_prefix_str() -> (s: &'static str)
    ensures
        s@ == series_prefix(),
{
    let s = "/series/";
    proof {
        reveal_strlit("/series/");
    }
    assert(s@ =~= series_prefix());
    s
}

fn category_prefix_str() -> (s: &'static str)
    ensures
        s@ == category_prefix(),
{
    let s = "/category/";
    proof {
        reveal_strlit("/category/");
    }
    assert(s@ =~= category_prefix());
    s
}

fn keyword_prefix_str() -> (s: &'static str)
    ensures
        s@ == keyword_prefix(),
{
    let s = "/keyword/";
    proof {
        reveal_strlit("/keyword/");
    }
    assert(s@ =~= keyword_prefix());
    s
}

fn reader_prefix_str() -> (s: &'static str)
    ensures
        s@ == reader_prefix(),
{
    let s = "/reader/";
    proof {
        reveal_strlit("/reader/");
    }
    assert(s@ =~= reader_prefix());
    s
}

fn first_page_str() -> (s: &'static str)
    ensures
        s@ == seq!['1'],
{
    let s = "1";
    proof {
        reveal_strlit("1");
    }
    assert(s@ =~= seq!['1']);
    s
}

fn placeholder_str() -> (s: &'static str)
    ensures
        s@ == seq!['{', '}'],
{
    let s = "{}";
    proof {
        reveal_strlit("{}");
    }
    assert(s@ =~= seq!['{', '}']);
    s
}

impl Author {
    /// Link to the first page of this author's audiobooks.
    pub fn link(&self) -> (r: String)
        ensures
            r@ == entity_link(author_prefix(), self.id, self.name@),
    {
        build_entity_path(author_prefix_str(), self.id, self.name.as_str(), first_page_str())
    }

    /// Paginator template of this author's audiobooks.
    pub fn page_template(&self) -> (r: String)
        ensures
            r@ == entity_template(author_prefix(), self.id, self.name@),
    {
        build_entity_path(author_prefix_str(), self.id, self.name.as_str(), placeholder_str())
    }
}

impl Series {
    /// Link to the first page of this series' audiobooks.
    pub fn link(&self) -> (r: String)
        ensures
            r@ == entity_link(series_prefix(), self.id, self.title@),
    {
        build_entity_path(series_prefix_str(), self.id, self.title.as_str(), first_page_str())
    }

    /// Paginator template of this series' audiobooks.
    pub fn page_template(&self) -> (r: String)
        ensures
            r@ == entity_template(series_prefix(), self.id, self.title@),
    {
        build_entity_path(series_prefix_str(), self.id, self.title.as_str(), placeholder_str())
    }
}

impl Category {
    /// Link to the first page of this category's audiobooks.
    pub fn link(&self) -> (r: String)
        ensures
            r@ == entity_link(category_prefix(), self.id, self.value@),
    {
        build_entity_path(category_prefix_str(), self.id, self.value.as_str(), first_page_str())
    }

    /// Paginator template of this category's audiobooks.
    pub fn page_template(&self) -> (r: String)
        ensures
            r@ == entity_template(category_prefix(), self.id, self.value@),
    {
        build_entity_path(category_prefix_str(), self.id, self.value.as_str(), placeholder_str())
    }
}

impl Keyword {
    /// Link to the first page of this keyword's audiobooks.
    pub fn link(&self) -> (r: String)
        ensures
            r@ == entity_link(keyword_prefix(), self.id, self.value@),
    {
        build_entity_path(keyword_prefix_str(), self.id, self.value.as_str(), first_page_str())
    }

    /// Paginator template of this keyword's audiobooks.
    pub fn page_template(&self) -> (r: String)
        ensures
            r@ == entity_template(keyword_prefix(), self.id, self.value@),
    {
        build_entity_path(keyword_prefix_str(), self.id, self.value.as_str(), placeholder_str())
    }
}

impl Reader {
    /// Link to the first page of this reader's audiobooks.
    pub fn link(&self) -> (r: String)
        ensures
            r@ == entity_link(reader_prefix(), self.id, self.name@),
    {
        build_entity_path(reader_prefix_str(), self.id, self.name.as_str(), first_page_str())
    }

    /// Paginator template of this reader's audiobooks.
    pub fn page_template(&self) -> (r: String)
        ensures
            r@ == entity_template(reader_prefix(), self.id, self.name@),
    {
        build_entity_path(reader_prefix_str(), self.id, self.name.as_str(), placeholder_str())
    }
}

fn titled(prefix: &str, label: &str) -> (r: String)
    ensures
        r@ == prefix@ + label@,
{
    let mut s = String::new();
    push_str(&mut s, prefix);
    push_str(&mut s, label);
    s
}

/// The title of an author's listing: `Audiobooks by {name}`.
pub fn author_title(a: &Author) -> (r: String)
    ensures
        r@ == "Audiobooks by "@ + a.name@,
{
    titled("Audiobooks by ", a.name.as_str())
}

/// The title of a series' listing: `Audiobooks of series: {title}`.
pub fn series_title(s: &Series) -> (r: String)
    ensures
        r@ == "Audiobooks of series: "@ + s.title@,
{
    titled("Audiobooks of series: ", s.title.as_str())
}

/// The title of a category's listing: `Audiobooks with category {value}`.
pub fn category_title(c: &Category) -> (r: String)
    ensures
        r@ == "Audiobooks with category "@ + c.value@,
{
    titled("Audiobooks with category ", c.value.as_str())
}

/// The title of a keyword's listing: `Audiobooks with keyword {value}`.
pub fn keyword_title(k: &Keyword) -> (r: String)
    ensures
        r@ == "Audiobooks with keyword "@ + k.value@,
{
    titled("Audiobooks with keyword ", k.value.as_str())
}

/// The title of a reader's listing: `Audiobooks read by {name}`.
pub fn reader_title(r: &Reader) -> (t: String)
    ensures
        t@ == "Audiobooks read by "@ + r.name@,
{
    titled("Audiobooks read by ", r.name.as_str())
}

/// The title of the search page: `Search results: {query}`.
pub fn search_page_title(query: &str) -> (r: String)
    ensures
        r@ == "Search results: "@ + query@,
{
    titled("Search results: ", query)
}

/// The title of the search results: `Search results for query: {query}`.
pub fn search_results_title(query: &str) -> (r: String)
    ensures
        r@ == "Search results for query: "@ + query@,
{
    titled("Search results for query: ", query)
}

} // verus!
