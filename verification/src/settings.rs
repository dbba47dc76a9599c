//! The settings that the server shares with every page, and what the pages
//! derive from them: mirror links of an audiobook and page counts.
use vstd::prelude::*;

use crate::pagination::full_pages;
use crate::text::{dec_nat, first_occurrence, occurs_at, find_text, push_dec, push_str, suffix_from};

verus! {

/// Settings shared by the server with every page.
#[derive(Clone, Debug, PartialEq, Eq)]
pub struct ShareableArgsValues {
    /// Audiobooks per page for guests (and the page size of listings).
    pub guest_user_audiobooks_per_homepage: u32,
    /// Audiobooks per section for logged-in users.
    pub user_audiobooks_per_homepage_section: u32,
    /// Upper bound of search results.
    pub max_search_results: u32,
    /// Domain of the mirrors that host the audiobooks' pages.
    pub audiobookbay_domain: String,
    /// Top-level domains under which the mirrors answer.
    pub audiobookbay_extensions: Vec<String>,
}

/// The number of pages that an entity listing announces once the shared
/// settings are known: whole pages of the guest page size.
pub fn listing_pages(amount: u32, args: &ShareableArgsValues) -> (r: u32)
    requires
        args.guest_user_audiobooks_per_homepage > 0,
    ensures
        r == amount / args.guest_user_audiobooks_per_homepage,
{
    full_pages(amount, args.guest_user_audiobooks_per_homepage)
}

/// The part of an audiobook's source link that follows its host: from the
/// first `/` after `://` on (`/` when there is none); the whole link when it
/// has no `://`.
pub open spec fn mirror_suffix(path: Seq<char>) -> Seq<char> {
    match first_occurrence(path, seq![':', '/', '/']) {
        Some(i) => {
            let rest = path.skip(i + 3);
            match first_occurrence(rest, seq!['/']) {
                Some(j) => rest.skip(j),
                None => seq!['/'],
            }
        },
        None => path,
    }
}

/// The part of `path` that the mirror links keep.
pub fn path_suffix(path: &str) -> (r: String)
    ensures
        r@ == mirror_suffix(path@),
{
    let sep = "://";
    proof {
        reveal_strlit("://");
    }
    assert(sep@ =~= seq![':', '/', '/']);
    match find_text(path, sep) {
        Some(i) => {
            let rest = suffix_from(path, i + 3);
            let slash = "/";
            proof {
                reveal_strlit("/");
            }
            assert(slash@ =~= seq!['/']);
            match find_text(rest.as_str(), slash) {
                Some(j) => suffix_from(rest.as_str(), j),
                None => slash.to_string(),
            }
        },
        None => path.to_string(),
    }
}

/// A link to one mirror of an audiobook's source page.
pub struct Mirror {
    pub label: String,
    pub url: String,
    pub class_name: String,
}

/// The label of mirror `i` (counted from 0): `Mirror {i + 1}`.
pub open spec fn mirror_label(i: nat) -> Seq<char> {
    "Mirror "@ + dec_nat(i + 1)
}

/// The style of mirror `i`: the first one stands out.
pub open spec fn mirror_class(i: nat) -> Seq<char> {
    if i == 0 {
        "button is-primary"@
    } else {
        "button is-light"@
    }
}

/// The address of a mirror: `https://{domain}.{extension}{suffix}`.
pub open spec fn mirror_url(domain: Seq<char>, extension: Seq<char>, suffix: Seq<char>) -> Seq<char> {
    "https://"@ + domain + seq!['.'] + extension + suffix
}

fn label_of(i: usize) -> (r: String)
    requires
        i < usize::MAX,
    ensures
        r@ == mirror_label(i as nat),
{
    let mut s = String::new();
    push_str(&mut s, "Mirror ");
    push_dec(&mut s, (i + 1) as u64);
    s
}

fn class_of(i: usize) -> (r: String)
    ensures
        r@ == mirror_class(i as nat),
{
    if i == 0 {
        "button is-primary".to_string()
    } else {
        "button is-light".to_string()
    }
}

/// The mirror links of an audiobook whose source page is `path`: one per
/// extension of the shared settings, in order, once the settings are known;
/// before that, the source page itself as the single mirror.
pub fn mirrors(args: Option<&ShareableArgsValues>, path: &str) -> (r: Vec<Mirror>)
    ensures
        args is None ==> r@.len() == 1 && r@[0].label@ == mirror_label(0) && r@[0].url@ == path@
            && r@[0].class_name@ == mirror_class(0),
        args matches Some(a) ==> {
            &&& r@.len() == a.audiobookbay_extensions@.len()
            &&& forall|i: int|
                0 <= i < r@.len() ==> {
                    &&& (#[trigger] r@[i]).label@ == mirror_label(i as nat)
                    &&& r@[i].url@ == mirror_url(
                        a.audiobookbay_domain@,
                        a.audiobookbay_extensions@[i]@,
                        mirror_suffix(path@),
                    )
                    &&& r@[i].class_name@ == mirror_class(i as nat)
                }
        },
{
    match args {
        None => {
            let mut out: Vec<Mirror> = Vec::new();
            out.push(Mirror { label: label_of(0), url: path.to_string(), class_name: class_of(0) });
            out
        },
        Some(a) => {
            let suffix = path_suffix(path);
            let n = a.audiobookbay_extensions.len();
            let mut out: Vec<Mirror> = Vec::new();
            let mut i: usize = 0;
            while i < n
                invariant
                    n == a.audiobookbay_extensions@.len(),
                    suffix@ == mirror_suffix(path@),
                    i <= n,
                    out@.len() == i,
                    forall|k: int|
                        0 <= k < i ==> {
                            &&& (#[trigger] out@[k]).label@ == mirror_label(k as nat)
                            &&& out@[k].url@ == mirror_url(
                                a.audiobookbay_domain@,
                                a.audiobookbay_extensions@[k]@,
                                mirror_suffix(path@),
                            )
                            &&& out@[k].class_name@ == mirror_class(k as nat)
                        },
                decreases n - i,
            {
                let mut url = String::new();
                push_str(&mut url, "https://");
                push_str(&mut url, a.audiobookbay_domain.as_str());
                url.push('.');
                push_str(&mut url, a.audiobookbay_extensions[i].as_str());
                push_str(&mut url, suffix.as_str());
                assert(url@ =~= mirror_url(
                    a.audiobookbay_domain@,
                    a.audiobookbay_extensions@[i as int]@,
                    mirror_suffix(path@),
                ));
                out.push(Mirror { label: label_of(i), url, class_name: class_of(i) });
                i = i + 1;
            }
            out
        },
    }
}

/// With the settings known, there is one mirror per extension, and exactly
/// the first one is styled as the primary link.
pub proof fn lemma_first_mirror_primary(i: nat)
    ensures
        (mirror_class(i) == "button is-primary"@) <==> i == 0,
{
    if i != 0 {
        reveal_strlit("button is-primary");
        reveal_strlit("button is-light");
        assert("button is-primary"@.len() != "button is-light"@.len());
    }
}

} // verus!
