//! The requests that pages send to the server for metadata and audiobooks,
//! and what pages make of the answers.
use vstd::prelude::*;

use crate::entities::{Author, Category, Keyword, Reader, Series};
use crate::settings::ShareableArgsValues;

verus! {

/// A request for metadata: counts of audiobooks, or lists of entities
/// (a page number and a page size go with each list).
#[derive(Clone, Debug, PartialEq, Eq)]
pub enum MetaRequest {
    CountAllAudiobooks,
    CountAudiobooksForAuthor(Author),
    CountAudiobooksInSeries(Series),
    CountAudiobooksForCategory(Category),
    CountAudiobooksForKeyword(Keyword),
    CountAudiobooksForReader(Reader),
    CategoriesAlphabetically(u32, u32),
    CategoriesByPublishedAudiobooks(u32, u32),
    AuthorsAlphabetically(u32, u32),
    AuthorsByPublishedAudiobooks(u32, u32),
    SeriesAlphabetically(u32, u32),
    SeriesBySubscriber(u32, u32),
    ReadersAlphabetically(u32, u32),
    ReaderByPublishedAudiobooks(u32, u32),
}

/// The server's answer to a metadata request.
#[derive(Clone, Debug, PartialEq, Eq)]
pub enum MetaResponse {
    Count(u32),
    Categories(Vec<Category>),
    Authors(Vec<Author>),
    Series(Vec<Series>),
    Readers(Vec<Reader>),
}

/// A request for audiobooks; listings carry the page they show.
#[derive(Clone, Debug, PartialEq, Eq)]
pub enum GetAudioBookRequestType {
    ById(String),
    ByIdList(Vec<i64>),
    MostRecent(u32),
    ByAuthor(Author, u32),
    BySeries(Series, u32),
    ByCategory(Category, u32),
    ByKeyword(Keyword, u32),
    ByReader(Reader, u32),
}

/// The number of pages an entity listing announces after its count request
/// was answered: whole pages of the guest page size, once both the count
/// and the shared settings are known; nothing otherwise.
pub fn announced_pages(response: Option<&MetaResponse>, args: Option<&ShareableArgsValues>) -> (r:
    Option<u32>)
    requires
        response matches Some(MetaResponse::Count(_)) && args matches Some(a)
            ==> a.guest_user_audiobooks_per_homepage > 0,
    ensures
        r is Some <==> (response matches Some(MetaResponse::Count(_)) && args is Some),
        r matches Some(p) ==> p == (response->0)->Count_0 / args->0.guest_user_audiobooks_per_homepage,
{
    match (response, args) {
        (Some(MetaResponse::Count(amount)), Some(a)) => Some(*amount / a.guest_user_audiobooks_per_homepage),
        _ => None,
    }
}

/// The number of pages the most recent listing announces after its count
/// request was answered: enough pages for every audiobook (none when the
/// page size is `0`), once both the count and the settings are known.
pub fn announced_recent_pages(response: Option<&MetaResponse>, args: Option<&ShareableArgsValues>) -> (r:
    Option<u32>)
    ensures
        r is Some <==> (response matches Some(MetaResponse::Count(_)) && args is Some),
        r matches Some(p) ==> {
            let per = args->0.guest_user_audiobooks_per_homepage;
            let amount = (response->0)->Count_0;
            &&& per == 0 ==> p == 0
            &&& per > 0 ==> p as int == (amount as int + per as int - 1) / per as int
        },
{
    match (response, args) {
        (Some(MetaResponse::Count(amount)), Some(a)) => Some(
            crate::pagination::pages_for(*amount, a.guest_user_audiobooks_per_homepage),
        ),
        _ => None,
    }
}

} // verus!
