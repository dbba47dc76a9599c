use voxlume::entities::{Author, Category, Keyword, Reader, Series};
use voxlume::links::{
    audiobook_href, author_links, category_tags, keyword_tags, reader_links, series_link,
};
use voxlume::pagination::{full_pages, middle_pages, page_link, paginator_view, pages_for};
use voxlume::requests::{announced_pages, announced_recent_pages, MetaResponse};
use voxlume::settings::{listing_pages, mirrors, path_suffix, ShareableArgsValues};

fn args(per_page: u32, exts: &[&str]) -> ShareableArgsValues {
    ShareableArgsValues {
        guest_user_audiobooks_per_homepage: per_page,
        user_audiobooks_per_homepage_section: 30,
        max_search_results: 50,
        audiobookbay_domain: "audiobookbay".to_string(),
        audiobookbay_extensions: exts.iter().map(|e| e.to_string()).collect(),
    }
}

#[test]
fn page_counts() {
    assert_eq!(full_pages(45, 20), 2);
    assert_eq!(full_pages(40, 20), 2);
    assert_eq!(full_pages(0, 20), 0);
    assert_eq!(pages_for(45, 20), 3);
    assert_eq!(pages_for(40, 20), 2);
    assert_eq!(pages_for(0, 20), 0);
    assert_eq!(pages_for(1, 20), 1);
    assert_eq!(pages_for(45, 0), 0);
    assert_eq!(pages_for(u32::MAX, 1), u32::MAX);
    assert_eq!(pages_for(u32::MAX, 2), 2147483648);
    assert_eq!(listing_pages(61, &args(20, &[])), 3);
}

#[test]
fn page_count_covers_all_books() {
    for amount in 0u32..200 {
        for per in 1u32..12 {
            let n = pages_for(amount, per);
            assert!(n * per >= amount);
            assert!(n * per < amount + per);
        }
    }
}

#[test]
fn announced_page_counts() {
    let a = args(20, &[]);
    assert_eq!(announced_pages(Some(&MetaResponse::Count(45)), Some(&a)), Some(2));
    assert_eq!(announced_pages(Some(&MetaResponse::Count(45)), None), None);
    assert_eq!(announced_pages(None, Some(&a)), None);
    let unset = args(0, &[]);
    assert_eq!(announced_pages(None, Some(&unset)), None);
    assert_eq!(announced_pages(Some(&MetaResponse::Authors(vec![])), Some(&unset)), None);
    assert_eq!(announced_pages(Some(&MetaResponse::Authors(vec![])), Some(&a)), None);
    assert_eq!(announced_recent_pages(Some(&MetaResponse::Count(45)), Some(&a)), Some(3));
    assert_eq!(announced_recent_pages(Some(&MetaResponse::Count(45)), Some(&args(0, &[]))), Some(0));
    assert_eq!(announced_recent_pages(None, Some(&a)), None);
}

#[test]
fn page_links_fill_the_template() {
    assert_eq!(page_link("/most-recent/{}", 4), "/most-recent/4");
    assert_eq!(page_link("/author/3/Ann/{}", 12), "/author/3/Ann/12");
    let a = Author { id: 3, name: "Ann".into() };
    assert_eq!(page_link(&a.page_template(), 1), a.link());
    let s = Series { id: 8, title: "Long {name} saga".into() };
    assert_eq!(page_link(&s.page_template(), 1), s.link());
}

#[test]
fn middle_window() {
    let pages: Vec<u32> = middle_pages("/p/{}", 1, 10).iter().map(|p| p.page).collect();
    assert_eq!(pages, vec![2, 3]);
    let pages: Vec<u32> = middle_pages("/p/{}", 5, 10).iter().map(|p| p.page).collect();
    assert_eq!(pages, vec![3, 4, 5, 6, 7]);
    let pages: Vec<u32> = middle_pages("/p/{}", 10, 10).iter().map(|p| p.page).collect();
    assert_eq!(pages, vec![8, 9]);
    assert!(middle_pages("/p/{}", 1, 1).is_empty());
    assert!(middle_pages("/p/{}", 1, 2).is_empty());
    let m = middle_pages("/p/{}", 4, 10);
    assert_eq!(m[2].page, 4);
    assert!(m[2].is_current);
    assert_eq!(m[0].href, "/p/2");
}

#[test]
fn paginator_shown_only_with_pages() {
    assert!(paginator_view(u32::MAX, None, "/p/{}", false).is_none());
    assert!(paginator_view(u32::MAX, Some(0), "/p/{}", true).is_none());
    assert!(paginator_view(1, None, "/p/{}", false).is_none());
    assert!(paginator_view(1, Some(0), "/p/{}", false).is_none());
    assert!(paginator_view(1, Some(1), "/p/{}", false).is_some());
}

#[test]
fn paginator_first_page() {
    let v = paginator_view(1, Some(10), "/most-recent/{}", false).unwrap();
    assert!(v.prev_disabled);
    assert_eq!(v.prev_href, "#");
    assert!(!v.next_disabled);
    assert_eq!(v.next_href, "/most-recent/2");
    assert_eq!(v.prev_label, "Previous");
    assert_eq!(v.next_label, "Next page");
    assert!(v.show_list);
    assert!(v.first.is_current);
    assert_eq!(v.first.href, "/most-recent/1");
    assert!(!v.show_left_ellipsis);
    assert!(v.show_right_ellipsis);
    let last = v.last.unwrap();
    assert_eq!(last.page, 10);
    assert_eq!(last.href, "/most-recent/10");
    assert!(!last.is_current);
}

#[test]
fn paginator_middle_and_last_page() {
    let v = paginator_view(6, Some(10), "/x/{}", true).unwrap();
    assert!(v.show_left_ellipsis);
    assert!(v.show_right_ellipsis);
    assert_eq!(v.prev_href, "/x/5");
    assert_eq!(v.next_href, "/x/7");
    assert_eq!(v.prev_label, "Prev");
    assert_eq!(v.next_label, "Next");
    assert!(!v.show_list);
    let v = paginator_view(7, Some(10), "/x/{}", false).unwrap();
    assert!(!v.show_right_ellipsis);
    let v = paginator_view(10, Some(10), "/x/{}", false).unwrap();
    assert!(v.next_disabled);
    assert_eq!(v.next_href, "#");
    assert!(v.last.unwrap().is_current);
    let single = paginator_view(1, Some(1), "/x/{}", false).unwrap();
    assert!(single.last.is_none());
    assert!(single.middle.is_empty());
    let zero = paginator_view(0, Some(3), "/x/{}", false).unwrap();
    assert!(zero.prev_disabled);
    assert_eq!(zero.prev_href, "#");
    assert_eq!(zero.next_href, "/x/1");
}

#[test]
fn author_link_list() {
    let authors = vec![
        Author { id: 1, name: "A".into() },
        Author { id: 2, name: "B".into() },
        Author { id: 3, name: "C".into() },
    ];
    let links = author_links(&authors);
    assert_eq!(links.len(), 3);
    assert_eq!(links[0].href, "/author/1/A/1");
    assert_eq!(links[0].separator, ", ");
    assert_eq!(links[1].separator, ", ");
    assert_eq!(links[2].separator, "");
    assert_eq!(links[2].label, "C");
    assert!(author_links(&vec![]).is_empty());
}

#[test]
fn reader_link_list_with_limit() {
    let readers: Vec<Reader> = (1..=5).map(|i| Reader { id: i, name: format!("R{i}") }).collect();
    let r = reader_links(&readers, 3);
    assert_eq!(r.links.len(), 3);
    assert!(r.has_more);
    assert_eq!(r.links[2].separator, "");
    assert_eq!(r.links[1].href, "/reader/2/R2/1");
    let r = reader_links(&readers, 5);
    assert!(!r.has_more);
    assert_eq!(r.links.len(), 5);
    let r = reader_links(&readers, 0);
    assert!(r.links.is_empty());
    assert!(r.has_more);
}

#[test]
fn tag_lists_with_limit() {
    let cats: Vec<Category> = (1..=7).map(|i| Category { id: i, value: format!("c{i}") }).collect();
    let t = category_tags(&cats, 5);
    assert_eq!(t.tags.len(), 5);
    assert!(t.has_more);
    assert_eq!(t.tags[4].href, "/category/5/c5/1");
    let kws: Vec<Keyword> = (1..=2).map(|i| Keyword { id: i, value: format!("k{i}") }).collect();
    let t = keyword_tags(&kws, 10);
    assert_eq!(t.tags.len(), 2);
    assert!(!t.has_more);
    assert_eq!(t.tags[1].label, "k2");
    assert_eq!(t.tags[0].href, "/keyword/1/k1/1");
}

#[test]
fn series_and_audiobook_links() {
    let s = series_link(&Some(Series { id: 4, title: "Foundation".into() })).unwrap();
    assert_eq!(s.href, "/series/4/Foundation/1");
    assert_eq!(s.label, "Foundation");
    assert!(series_link(&None).is_none());
    assert_eq!(audiobook_href(123), "/audiobook/123");
}

#[test]
fn mirror_suffixes() {
    assert_eq!(path_suffix("https://audiobookbay.lu/abss/some-book/"), "/abss/some-book/");
    assert_eq!(path_suffix("http://host"), "/");
    assert_eq!(path_suffix("/abss/relative"), "/abss/relative");
    assert_eq!(path_suffix("a://b://c/d"), "//c/d");
}

#[test]
fn mirror_links() {
    let a = args(20, &["lu", "is", "fi"]);
    let m = mirrors(Some(&a), "https://audiobookbay.lu/abss/book/");
    assert_eq!(m.len(), 3);
    assert_eq!(m[0].label, "Mirror 1");
    assert_eq!(m[0].url, "https://audiobookbay.lu/abss/book/");
    assert_eq!(m[0].class_name, "button is-primary");
    assert_eq!(m[2].label, "Mirror 3");
    assert_eq!(m[2].url, "https://audiobookbay.fi/abss/book/");
    assert_eq!(m[2].class_name, "button is-light");
    let fallback = mirrors(None, "https://x.org/p");
    assert_eq!(fallback.len(), 1);
    assert_eq!(fallback[0].url, "https://x.org/p");
    assert_eq!(fallback[0].label, "Mirror 1");
    assert_eq!(fallback[0].class_name, "button is-primary");
    assert!(mirrors(Some(&args(20, &[])), "https://x.org/p").is_empty());
}
