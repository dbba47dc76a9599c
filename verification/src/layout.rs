//! Page layout decisions: whether the explorer sidebar is shown, how its
//! column is styled, how collection cards react to hovering, and where a
//! search leads.
use vstd::prelude::*;

use crate::text::push_str;

verus! {

/// How many mounted pages currently ask for the sidebar to be hidden; the
/// sidebar shows only when none does.
#[derive(Clone, Copy, Debug, PartialEq, Eq, Structural)]
pub struct SidebarVisible {
    pub hidden_by: i32,
}

/// The visibility once one more page asks for the sidebar to be hidden.
pub open spec fn after_request(v: SidebarVisible) -> SidebarVisible {
    SidebarVisible { hidden_by: (v.hidden_by + 1) as i32 }
}

/// The visibility once one page that asked to hide the sidebar is gone.
pub open spec fn after_release(v: SidebarVisible) -> SidebarVisible {
    SidebarVisible { hidden_by: (v.hidden_by - 1) as i32 }
}

impl SidebarVisible {
    /// No page asks for the sidebar to be hidden.
    pub fn new() -> (r: SidebarVisible)
        ensures
            r.hidden_by == 0,
    {
        SidebarVisible { hidden_by: 0 }
    }

    /// A page that hides the sidebar was mounted.
    pub fn request_hidden(&mut self)
        requires
            old(self).hidden_by < i32::MAX,
        ensures
            *final(self) == after_request(*old(self)),
    {
        self.hidden_by = self.hidden_by + 1;
    }

    /// A page that hid the sidebar was cleaned up.
    pub fn release_hidden(&mut self)
        requires
            old(self).hidden_by > i32::MIN,
        ensures
            *final(self) == after_release(*old(self)),
    {
        self.hidden_by = self.hidden_by - 1;
    }

    /// Whether the sidebar is shown.
    pub fn is_visible(&self) -> (r: bool)
        ensures
            r == (self.hidden_by == 0),
    {
        self.hidden_by == 0
    }
}

/// Mounting a page that hides the sidebar and cleaning it up leaves the
/// sidebar as it was; while such a page is mounted over a shown sidebar,
/// the sidebar is hidden.
pub proof fn lemma_hide_release(v: SidebarVisible)
    requires
        v.hidden_by < i32::MAX,
    ensures
        after_release(after_request(v)) == v,
        v.hidden_by == 0 ==> after_request(v).hidden_by != 0,
{
}

/// The class of the sidebar column: wide when the sidebar is open, narrow
/// when it is folded.
pub open spec fn sidebar_column_class_text(open: bool) -> Seq<char> {
    if open {
        "column is-3-desktop is-2-widescreen sidebar-column"@
    } else {
        "column is-narrow sidebar-column"@
    }
}

/// The class of the sidebar column.
pub fn sidebar_column_class(open: bool) -> (r: String)
    ensures
        r@ == sidebar_column_class_text(open),
{
    if open {
        "column is-3-desktop is-2-widescreen sidebar-column".to_string()
    } else {
        "column is-narrow sidebar-column".to_string()
    }
}

/// Whether a collection's cards overflow after the pointer enters or leaves
/// them: only a logged-in user's pointer toggles it.
pub fn hover_after_pointer(hovering: bool, logged_in: bool) -> (r: bool)
    ensures
        r == (if logged_in {
            !hovering
        } else {
            hovering
        }),
{
    if logged_in {
        !hovering
    } else {
        hovering
    }
}

/// Whether a collection's cards overflow after a touch starts or is
/// cancelled: any touch toggles it.
pub fn hover_after_touch(hovering: bool) -> (r: bool)
    ensures
        r == !hovering,
{
    !hovering
}

/// The page of the results of a search for `text`: `/search/{text}`.
pub open spec fn search_path_text(text: Seq<char>) -> Seq<char> {
    "/search/"@ + text
}

/// Where the search bar leads.
pub fn search_path(text: &str) -> (r: String)
    ensures
        r@ == search_path_text(text@),
{
    let mut s = String::new();
    push_str(&mut s, "/search/");
    push_str(&mut s, text);
    s
}

/// What the search page shows.
#[derive(Clone, Debug, PartialEq, Eq)]
pub enum SearchResultsView {
    /// The search has not answered yet (or failed).
    Loading,
    /// The search found nothing.
    NoResults,
    /// The audiobooks found, by identifier, in the search's order.
    Results(Vec<i64>),
}

/// What the search page shows for the search's answer so far.
pub fn search_results_view(ids: Option<Vec<i64>>) -> (r: SearchResultsView)
    ensures
        ids is None ==> r == SearchResultsView::Loading,
        ids matches Some(v) ==> (if v@.len() == 0 {
            r == SearchResultsView::NoResults
        } else {
            r == SearchResultsView::Results(v)
        }),
{
    match ids {
        None => SearchResultsView::Loading,
        Some(v) => {
            if v.len() == 0 {
                SearchResultsView::NoResults
            } else {
                SearchResultsView::Results(v)
            }
        },
    }
}

} // verus!
