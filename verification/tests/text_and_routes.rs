use voxlume::entities::{
    author_title, category_title, keyword_title, reader_title, search_page_title, search_results_title,
    series_title, Author, Category, Keyword, Reader, Series,
};
use voxlume::routes::{
    author_page_data, category_page_data, keyword_page_data, most_recent_page, reader_page_data,
    series_page_data, AuthorParam, CategoryParam, KeywordParam, MostRecentParam, ReaderParam,
    SeriesParam,
};
use voxlume::text::{
    contains_str, find_text, i64_to_text, replace_text, same_text, suffix_from, u64_to_text,
};

#[test]
fn decimal_text_matches_to_string() {
    for n in [0u64, 7, 10, 42, 1000, 987654321, u64::MAX] {
        assert_eq!(u64_to_text(n), n.to_string());
    }
    for n in [0i64, -1, 15, -1234, i64::MIN, i64::MAX] {
        assert_eq!(i64_to_text(n), n.to_string());
    }
}

#[test]
fn find_and_contains() {
    assert_eq!(find_text("https://x.org/a", "://"), Some(5));
    assert_eq!(find_text("abcabc", "c"), Some(2));
    assert_eq!(find_text("abc", "zz"), None);
    assert_eq!(find_text("abc", ""), Some(0));
    assert!(contains_str("/register", "register"));
    assert!(!contains_str("/login", "register"));
    assert!(contains_str("", ""));
}

#[test]
fn replace_matches_str_replace() {
    let cases = [
        ("/author/1/x/{}", "{}", "5"),
        ("{}{}", "{}", "12"),
        ("{{}}", "{}", "-"),
        ("no placeholder", "{}", "3"),
        ("aaa", "aa", "b"),
        ("Server Fn Error: boom", "Server Fn Error: ", ""),
    ];
    for (s, p, r) in cases {
        assert_eq!(replace_text(s, p, r), s.replace(p, r));
    }
}

#[test]
fn suffix_and_equality() {
    assert_eq!(suffix_from("héllo", 1), "éllo");
    assert_eq!(suffix_from("abc", 3), "");
    assert!(same_text("dark", "dark"));
    assert!(!same_text("dark", "Dark"));
    assert!(!same_text("dark", "darker"));
}

#[test]
fn entity_links_and_templates() {
    let a = Author { id: 12, name: "Jane Doe".to_string() };
    assert_eq!(a.link(), "/author/12/Jane Doe/1");
    assert_eq!(a.page_template(), "/author/12/Jane Doe/{}");
    let s = Series { id: -3, title: "Saga".to_string() };
    assert_eq!(s.link(), "/series/-3/Saga/1");
    assert_eq!(s.page_template(), "/series/-3/Saga/{}");
    let c = Category { id: 5, value: "Sci-Fi".to_string() };
    assert_eq!(c.link(), "/category/5/Sci-Fi/1");
    assert_eq!(c.page_template(), "/category/5/Sci-Fi/{}");
    let k = Keyword { id: 9, value: "space".to_string() };
    assert_eq!(k.link(), "/keyword/9/space/1");
    assert_eq!(k.page_template(), "/keyword/9/space/{}");
    let r = Reader { id: 100, name: "Bob".to_string() };
    assert_eq!(r.link(), "/reader/100/Bob/1");
    assert_eq!(r.page_template(), "/reader/100/Bob/{}");
}

#[test]
fn listing_titles() {
    assert_eq!(author_title(&Author { id: 1, name: "Ann".into() }), "Audiobooks by Ann");
    assert_eq!(series_title(&Series { id: 1, title: "Dune".into() }), "Audiobooks of series: Dune");
    assert_eq!(category_title(&Category { id: 1, value: "Horror".into() }), "Audiobooks with category Horror");
    assert_eq!(keyword_title(&Keyword { id: 1, value: "ai".into() }), "Audiobooks with keyword ai");
    assert_eq!(reader_title(&Reader { id: 1, name: "Ray".into() }), "Audiobooks read by Ray");
    assert_eq!(search_page_title("mars"), "Search results: mars");
    assert_eq!(search_results_title("mars"), "Search results for query: mars");
}

#[test]
fn entity_try_from_route_params() {
    let p = AuthorParam { author_id: Some(4), author_name: Some("Ann".into()), page: Some(2) };
    assert_eq!(Author::try_from(&p), Ok(Author { id: 4, name: "Ann".into() }));
    let missing_name = AuthorParam { author_id: Some(4), author_name: None, page: None };
    assert_eq!(Author::try_from(&missing_name), Err(()));
    let missing_id = SeriesParam { series_id: None, series_title: Some("S".into()), page: None };
    assert_eq!(Series::try_from(&missing_id), Err(()));
    let c = CategoryParam { category_id: Some(1), category_name: Some("Drama".into()), page: None };
    assert_eq!(Category::try_from(&c), Ok(Category { id: 1, value: "Drama".into() }));
    let k = KeywordParam { keyword_id: Some(2), keyword_name: None, page: None };
    assert_eq!(Keyword::try_from(&k), Err(()));
    let r = ReaderParam { reader_id: Some(3), reader_name: Some("Rita".into()), page: Some(9) };
    assert_eq!(Reader::try_from(&r), Ok(Reader { id: 3, name: "Rita".into() }));
}

#[test]
fn page_data_defaults() {
    let unknown = "unknown".to_string();
    assert_eq!(author_page_data(None), (Author { id: 1, name: unknown.clone() }, 0));
    assert_eq!(series_page_data(None), (Series { id: 1, title: unknown.clone() }, 0));
    assert_eq!(category_page_data(None), (Category { id: 1, value: unknown.clone() }, 1));
    assert_eq!(keyword_page_data(None), (Keyword { id: 1, value: unknown.clone() }, 0));
    assert_eq!(reader_page_data(None), (Reader { id: 1, name: unknown }, 0));
}

#[test]
fn page_data_from_params() {
    let p = AuthorParam { author_id: Some(8), author_name: Some("Zed".into()), page: Some(3) };
    assert_eq!(author_page_data(Some(&p)), (Author { id: 8, name: "Zed".into() }, 3));
    let c = CategoryParam { category_id: Some(2), category_name: Some("Sci".into()), page: None };
    assert_eq!(category_page_data(Some(&c)), (Category { id: 2, value: "Sci".into() }, 0));
    let s = SeriesParam { series_id: Some(5), series_title: Some("T".into()), page: Some(4) };
    assert_eq!(series_page_data(Some(&s)), (Series { id: 5, title: "T".into() }, 4));
    let k = KeywordParam { keyword_id: Some(6), keyword_name: Some("k".into()), page: Some(1) };
    assert_eq!(keyword_page_data(Some(&k)), (Keyword { id: 6, value: "k".into() }, 1));
    let r = ReaderParam { reader_id: Some(7), reader_name: Some("r".into()), page: None };
    assert_eq!(reader_page_data(Some(&r)), (Reader { id: 7, name: "r".into() }, 0));
}

#[test]
fn most_recent_page_number() {
    assert_eq!(u32::from(&MostRecentParam { page: Some(7) }), 7);
    assert_eq!(u32::from(&MostRecentParam { page: None }), 1);
    assert_eq!(most_recent_page(Some(&MostRecentParam { page: Some(3) })), 3);
    assert_eq!(most_recent_page(Some(&MostRecentParam { page: None })), 1);
    assert_eq!(most_recent_page(None), 1);
}
