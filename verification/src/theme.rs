//! The colour theme and the display mode of audiobook collections, which the
//! navigation bar toggles and keeps in the browser's local storage.
use vstd::prelude::*;

use crate::text::same_text;

verus! {

/// The colour theme of the site.
#[derive(Clone, Copy, PartialEq, Eq, Debug, Structural)]
pub enum Theme {
    Light,
    Dark,
}

/// The text under which a theme is stored and set on the document.
pub open spec fn theme_text(t: Theme) -> Seq<char> {
    match t {
        Theme::Light => seq!['l', 'i', 'g', 'h', 't'],
        Theme::Dark => seq!['d', 'a', 'r', 'k'],
    }
}

/// The theme that a stored text stands for: `Dark` for `"dark"`, `Light`
/// for anything else and for nothing stored.
pub open spec fn theme_from_text(s: Option<Seq<char>>) -> Theme {
    match s {
        Some(t) => if t == seq!['d', 'a', 'r', 'k'] {
            Theme::Dark
        } else {
            Theme::Light
        },
        None => Theme::Light,
    }
}

/// The other theme.
pub open spec fn toggled(t: Theme) -> Theme {
    match t {
        Theme::Light => Theme::Dark,
        Theme::Dark => Theme::Light,
    }
}

impl Theme {
    /// The text under which this theme is stored: `"light"` or `"dark"`.
    pub fn to_string(&self) -> (r: String)
        ensures
            r@ == theme_text(*self),
    {
        match self {
            Theme::Light => {
                let s = "light";
                proof {
                    reveal_strlit("light");
                }
                assert(s@ =~= theme_text(*self));
                s.to_string()
            },
            Theme::Dark => {
                let s = "dark";
                proof {
                    reveal_strlit("dark");
                }
                assert(s@ =~= theme_text(*self));
                s.to_string()
            },
        }
    }

    /// The theme that a stored value stands for; `Light` unless it is
    /// exactly `"dark"`.
    pub fn from_string(s: Option<String>) -> (r: Theme)
        ensures
            r == theme_from_text(
                match s {
                    Some(t) => Some(t@),
                    None => None,
                },
            ),
    {
        match s {
            Some(t) => {
                let dark = "dark";
                proof {
                    reveal_strlit("dark");
                }
                assert(dark@ =~= seq!['d', 'a', 'r', 'k']);
                if same_text(t.as_str(), dark) {
                    Theme::Dark
                } else {
                    Theme::Light
                }
            },
            None => Theme::Light,
        }
    }

    /// The theme that the toggle button switches to.
    pub fn toggle(self) -> (r: Theme)
        ensures
            r == toggled(self),
    {
        match self {
            Theme::Light => Theme::Dark,
            Theme::Dark => Theme::Light,
        }
    }
}

/// Toggling the theme twice gives back the theme one started from.
pub proof fn lemma_toggle_twice(t: Theme)
    ensures
        toggled(toggled(t)) == t,
{
}

/// Toggling always changes the theme.
pub proof fn lemma_toggle_changes(t: Theme)
    ensures
        toggled(t) != t,
{
}

/// A theme that was stored is read back as the same theme.
pub proof fn lemma_theme_round_trip(t: Theme)
    ensures
        theme_from_text(Some(theme_text(t))) == t,
{
    if t == Theme::Light {
        assert(theme_text(t) != seq!['d', 'a', 'r', 'k']) by {
            assert(theme_text(t).len() != 4);
        }
    }
}

/// How audiobook collections are laid out.
#[derive(Clone, Copy, PartialEq, Eq, Debug, Structural)]
pub enum AudiobookDisplayMode {
    TableLike,
    ListLike,
    GridLike,
}

/// The mode that follows `m` when the display mode button is pressed.
pub open spec fn next_mode(m: AudiobookDisplayMode) -> AudiobookDisplayMode {
    match m {
        AudiobookDisplayMode::TableLike => AudiobookDisplayMode::ListLike,
        AudiobookDisplayMode::ListLike => AudiobookDisplayMode::GridLike,
        AudiobookDisplayMode::GridLike => AudiobookDisplayMode::TableLike,
    }
}

impl AudiobookDisplayMode {
    /// The mode that the display mode button switches to: table, then list,
    /// then grid, then table again.
    pub fn cycle(self) -> (r: AudiobookDisplayMode)
        ensures
            r == next_mode(self),
    {
        match self {
            AudiobookDisplayMode::TableLike => AudiobookDisplayMode::ListLike,
            AudiobookDisplayMode::ListLike => AudiobookDisplayMode::GridLike,
            AudiobookDisplayMode::GridLike => AudiobookDisplayMode::TableLike,
        }
    }
}

/// Pressing the display mode button three times comes back to the start,
/// and one or two presses never do.
pub proof fn lemma_cycle_period(m: AudiobookDisplayMode)
    ensures
        next_mode(next_mode(next_mode(m))) == m,
        next_mode(m) != m,
        next_mode(next_mode(m)) != m,
{
}

} // verus!
