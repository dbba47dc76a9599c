//! Route parameters of the listing pages and what each page derives from
//! them: the entity that is listed and the page number that is shown.
use vstd::prelude::*;

use crate::entities::{Author, Category, Keyword, Reader, Series};

verus! {

/// Parameters of `/author/:author_id/:author_name/:page`.
#[derive(Clone, Debug, PartialEq, Eq)]
pub struct AuthorParam {
    pub author_id: Option<i64>,
    pub author_name: Option<String>,
    pub page: Option<u32>,
}

/// Parameters of `/series/:series_id/:series_title/:page`.
#[derive(Clone, Debug, PartialEq, Eq)]
pub struct SeriesParam {
    pub series_id: Option<i64>,
    pub series_title: Option<String>,
    pub page: Option<u32>,
}

/// Parameters of `/category/:category_id/:category_name/:page`.
#[derive(Clone, Debug, PartialEq, Eq)]
pub struct CategoryParam {
    pub category_id: Option<i64>,
    pub category_name: Option<String>,
    pub page: Option<u32>,
}

/// Parameters of `/keyword/:keyword_id/:keyword_name/:page`.
#[derive(Clone, Debug, PartialEq, Eq)]
pub struct KeywordParam {
    pub keyword_id: Option<i64>,
    pub keyword_name: Option<String>,
    pub page: Option<u32>,
}

/// Parameters of `/reader/:reader_id/:reader_name/:page`.
#[derive(Clone, Debug, PartialEq, Eq)]
pub struct ReaderParam {
    pub reader_id: Option<i64>,
    pub reader_name: Option<String>,
    pub page: Option<u32>,
}

/// Parameters of `/most-recent/:page`.
#[derive(Clone, Copy, Debug, PartialEq, Eq)]
pub struct MostRecentParam {
    pub page: Option<u32>,
}

/// The page number of a listing route, `0` when the route gives none.
pub open spec fn page_or_zero(page: Option<u32>) -> u32 {
    match page {
        Some(p) => p,
        None => 0,
    }
}

fn unwrap_page(page: Option<u32>, default: u32) -> (r: u32)
    ensures
        r == (match page {
            Some(p) => p,
            None => default,
        }),
{
    match page {
        Some(p) => p,
        None => default,
    }
}

/// The label of an entity that a route did not name.
pub open spec fn unknown_label() -> Seq<char> {
    seq!['u', 'n', 'k', 'n', 'o', 'w', 'n']
}

fn unknown_label_string() -> (s: String)
    ensures
        s@ == unknown_label(),
{
    let s = "unknown";
    proof {
        reveal_strlit("unknown");
    }
    assert(s@ =~= unknown_label());
    s.to_string()
}

impl TryFrom<&AuthorParam> for Author {
    type Error = ();

    /// The author named by the route: both its id and its name are needed.
    fn try_from(value: &AuthorParam) -> (r: Result<Self, ()>)
        ensures
            r is Ok <==> (value.author_id is Some && value.author_name is Some),
            r matches Ok(e) ==> e.id == value.author_id->0 && e.name@ == value.author_name->0@,
    {
        match (value.author_id, &value.author_name) {
            (Some(id), Some(name)) => Ok(Author { id, name: name.clone() }),
            _ => Err(()),
        }
    }
}

impl vstd::std_specs::convert::TryFromSpecImpl<&AuthorParam> for Author {
    open spec fn obeys_try_from_spec() -> bool {
        true
    }

    open spec fn try_from_spec(value: &AuthorParam) -> Result<Self, ()> {
        match (value.author_id, value.author_name) {
            (Some(id), Some(name)) => Ok(Author { id, name }),
            _ => Err(()),
        }
    }
}

/// What the author page lists: the author named by the route and the page
/// number (`0` when the route gives none). When the route's parameters could
/// not be read at all, the placeholder author `1`, `"unknown"` on page
/// `0`.
pub fn author_page_data(params: Option<&AuthorParam>) -> (r: (Author, u32))
    requires
        params matches Some(p) ==> p.author_id is Some && p.author_name is Some,
    ensures
        params is None ==> r.0.id == 1 && r.0.name@ == unknown_label() && r.1 == 0,
        params matches Some(p) ==> r.0.id == p.author_id->0 && r.0.name@ == p.author_name->0@
            && r.1 == page_or_zero(p.page),
{
    match params {
        None => (Author { id: 1, name: unknown_label_string() }, 0),
        Some(p) => {
            let e = match Author::try_from(p) {
                Ok(e) => e,
                Err(()) => {
                    assert(false);
                    Author { id: 1, name: unknown_label_string() }
                },
            };
            (e, unwrap_page(p.page, 0))
        },
    }
}

impl TryFrom<&SeriesParam> for Series {
    type Error = ();

    /// The series named by the route: both its id and its title are needed.
    fn try_from(value: &SeriesParam) -> (r: Result<Self, ()>)
        ensures
            r is Ok <==> (value.series_id is Some && value.series_title is Some),
            r matches Ok(e) ==> e.id == value.series_id->0 && e.title@ == value.series_title->0@,
    {
        match (value.series_id, &value.series_title) {
            (Some(id), Some(title)) => Ok(Series { id, title: title.clone() }),
            _ => Err(()),
        }
    }
}

impl vstd::std_specs::convert::TryFromSpecImpl<&SeriesParam> for Series {
    open spec fn obeys_try_from_spec() -> bool {
        true
    }

    open spec fn try_from_spec(value: &SeriesParam) -> Result<Self, ()> {
        match (value.series_id, value.series_title) {
            (Some(id), Some(title)) => Ok(Series { id, title }),
            _ => Err(()),
        }
    }
}

/// What the series page lists: the series named by the route and the page
/// number (`0` when the route gives none). When the route's parameters could
/// not be read at all, the placeholder series `1`, `"unknown"` on page
/// `0`.
pub fn series_page_data(params: Option<&SeriesParam>) -> (r: (Series, u32))
    requires
        params matches Some(p) ==> p.series_id is Some && p.series_title is Some,
    ensures
        params is None ==> r.0.id == 1 && r.0.title@ == unknown_label() && r.1 == 0,
        params matches Some(p) ==> r.0.id == p.series_id->0 && r.0.title@ == p.series_title->0@
            && r.1 == page_or_zero(p.page),
{
    match params {
        None => (Series { id: 1, title: unknown_label_string() }, 0),
        Some(p) => {
            let e = match Series::try_from(p) {
                Ok(e) => e,
                Err(()) => {
                    assert(false);
                    Series { id: 1, title: unknown_label_string() }
                },
            };
            (e, unwrap_page(p.page, 0))
        },
    }
}

impl TryFrom<&CategoryParam> for Category {
    type Error = ();

    /// The category named by the route: both its id and its value are needed.
    fn try_from(value: &CategoryParam) -> (r: Result<Self, ()>)
        ensures
            r is Ok <==> (value.category_id is Some && value.category_name is Some),
            r matches Ok(e) ==> e.id == value.category_id->0 && e.value@ == value.category_name->0@,
    {
        match (value.category_id, &value.category_name) {
            (Some(id), Some(value)) => Ok(Category { id, value: value.clone() }),
            _ => Err(()),
        }
    }
}

impl vstd::std_specs::convert::TryFromSpecImpl<&CategoryParam> for Category {
    open spec fn obeys_try_from_spec() -> bool {
        true
    }

    open spec fn try_from_spec(value: &CategoryParam) -> Result<Self, ()> {
        match (value.category_id, value.category_name) {
            (Some(id), Some(value)) => Ok(Category { id, value }),
            _ => Err(()),
        }
    }
}

/// What the category page lists: the category named by the route and the page
/// number (`0` when the route gives none). When the route's parameters could
/// not be read at all, the placeholder category `1`, `"unknown"` on page
/// `1`.
pub fn category_page_data(params: Option<&CategoryParam>) -> (r: (Category, u32))
    requires
        params matches Some(p) ==> p.category_id is Some && p.category_name is Some,
    ensures
        params is None ==> r.0.id == 1 && r.0.value@ == unknown_label() && r.1 == 1,
        params matches Some(p) ==> r.0.id == p.category_id->0 && r.0.value@ == p.category_name->0@
            && r.1 == page_or_zero(p.page),
{
    match params {
        None => (Category { id: 1, value: unknown_label_string() }, 1),
        Some(p) => {
            let e = match Category::try_from(p) {
                Ok(e) => e,
                Err(()) => {
                    assert(false);
                    Category { id: 1, value: unknown_label_string() }
                },
            };
            (e, unwrap_page(p.page, 0))
        },
    }
}

impl TryFrom<&KeywordParam> for Keyword {
    type Error = ();

    /// The keyword named by the route: both its id and its value are needed.
    fn try_from(value: &KeywordParam) -> (r: Result<Self, ()>)
        ensures
            r is Ok <==> (value.keyword_id is Some && value.keyword_name is Some),
            r matches Ok(e) ==> e.id == value.keyword_id->0 && e.value@ == value.keyword_name->0@,
    {
        match (value.keyword_id, &value.keyword_name) {
            (Some(id), Some(value)) => Ok(Keyword { id, value: value.clone() }),
            _ => Err(()),
        }
    }
}

impl vstd::std_specs::convert::TryFromSpecImpl<&KeywordParam> for Keyword {
    open spec fn obeys_try_from_spec() -> bool {
        true
    }

    open spec fn try_from_spec(value: &KeywordParam) -> Result<Self, ()> {
        match (value.keyword_id, value.keyword_name) {
            (Some(id), Some(value)) => Ok(Keyword { id, value }),
            _ => Err(()),
        }
    }
}

/// What the keyword page lists: the keyword named by the route and the page
/// number (`0` when the route gives none). When the route's parameters could
/// not be read at all, the placeholder keyword `1`, `"unknown"` on page
/// `0`.
pub fn keyword_page_data(params: Option<&KeywordParam>) -> (r: (Keyword, u32))
    requires
        params matches Some(p) ==> p.keyword_id is Some && p.keyword_name is Some,
    ensures
        params is None ==> r.0.id == 1 && r.0.value@ == unknown_label() && r.1 == 0,
        params matches Some(p) ==> r.0.id == p.keyword_id->0 && r.0.value@ == p.keyword_name->0@
            && r.1 == page_or_zero(p.page),
{
    match params {
        None => (Keyword { id: 1, value: unknown_label_string() }, 0),
        Some(p) => {
            let e = match Keyword::try_from(p) {
                Ok(e) => e,
                Err(()) => {
                    assert(false);
                    Keyword { id: 1, value: unknown_label_string() }
                },
            };
            (e, unwrap_page(p.page, 0))
        },
    }
}

impl TryFrom<&ReaderParam> for Reader {
    type Error = ();

    /// The reader named by the route: both its id and its name are needed.
    fn try_from(value: &ReaderParam) -> (r: Result<Self, ()>)
        ensures
            r is Ok <==> (value.reader_id is Some && value.reader_name is Some),
            r matches Ok(e) ==> e.id == value.reader_id->0 && e.name@ == value.reader_name->0@,
    {
        match (value.reader_id, &value.reader_name) {
            (Some(id), Some(name)) => Ok(Reader { id, name: name.clone() }),
            _ => Err(()),
        }
    }
}

impl vstd::std_specs::convert::TryFromSpecImpl<&ReaderParam> for Reader {
    open spec fn obeys_try_from_spec() -> bool {
        true
    }

    open spec fn try_from_spec(value: &ReaderParam) -> Result<Self, ()> {
        match (value.reader_id, value.reader_name) {
            (Some(id), Some(name)) => Ok(Reader { id, name }),
            _ => Err(()),
        }
    }
}

/// What the reader page lists: the reader named by the route and the page
/// number (`0` when the route gives none). When the route's parameters could
/// not be read at all, the placeholder reader `1`, `"unknown"` on page
/// `0`.
pub fn reader_page_data(params: Option<&ReaderParam>) -> (r: (Reader, u32))
    requires
        params matches Some(p) ==> p.reader_id is Some && p.reader_name is Some,
    ensures
        params is None ==> r.0.id == 1 && r.0.name@ == unknown_label() && r.1 == 0,
        params matches Some(p) ==> r.0.id == p.reader_id->0 && r.0.name@ == p.reader_name->0@
            && r.1 == page_or_zero(p.page),
{
    match params {
        None => (Reader { id: 1, name: unknown_label_string() }, 0),
        Some(p) => {
            let e = match Reader::try_from(p) {
                Ok(e) => e,
                Err(()) => {
                    assert(false);
                    Reader { id: 1, name: unknown_label_string() }
                },
            };
            (e, unwrap_page(p.page, 0))
        },
    }
}

impl From<&MostRecentParam> for u32 {
    /// The page of the most recent listing: the route's page, else `1`.
    fn from(value: &MostRecentParam) -> (r: u32)
        ensures
            r == (match value.page {
                Some(p) => p,
                None => 1u32,
            }),
    {
        unwrap_page(value.page, 1)
    }
}

impl vstd::std_specs::convert::FromSpecImpl<&MostRecentParam> for u32 {
    open spec fn obeys_from_spec() -> bool {
        true
    }

    open spec fn from_spec(value: &MostRecentParam) -> u32 {
        match value.page {
            Some(p) => p,
            None => 1u32,
        }
    }
}

/// The page that the most recent listing shows: the route's page, `1` when
/// the route gives none or its parameters could not be read.
pub fn most_recent_page(params: Option<&MostRecentParam>) -> (r: u32)
    ensures
        r == (match params {
            Some(p) => match p.page {
                Some(n) => n,
                None => 1u32,
            },
            None => 1u32,
        }),
{
    match params {
        Some(v) => u32::from(v),
        None => 1,
    }
}

} // verus!
