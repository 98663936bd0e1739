use concmd::{
    get_created_on_list, get_name_list, get_page_preview, load_page_list_for_space, load_space_list,
    map_saved_pages, retain_matching, sort_pages, title_matches_folded, Api, Attr, Method, Page,
    PageState, PageVersion, SaveStates, SortDirection, SortType, Space, StoreError,
};

fn api(label: Option<&str>) -> Api {
    Api {
        confluence_domain: "example.atlassian.net".to_string(),
        username: "me".to_string(),
        token: "SECRET-REDACTED".to_string(),
        label: label.map(|l| l.to_string()),
    }
}

fn page(id: &str, title: &str, created: Option<&str>) -> Page {
    let mut p = Page::new(title.to_string(), "S1".to_string());
    p.id = id.to_string();
    p.created_at = created.map(|c| c.to_string());
    p
}

#[test]
fn new_page_defaults() {
    let p = Page::new("Draft".to_string(), "S9".to_string());
    assert_eq!(p.id, "");
    assert_eq!(p.title, "Draft");
    assert_eq!(p.status, "current");
    assert!(p.version.is_none());
    assert_eq!(p.get_space_id(), Some("S9".to_string()));
    assert_eq!(p.get_body(), "");
    assert_eq!(p.body.storage.representation, "storage");
    assert_eq!(p.get_date_created(), "");
}

#[test]
fn body_and_preview() {
    let mut p = page("P1", "T", None);
    p.set_body("<p>h\u{e9}llo world</p>".to_string());
    assert_eq!(p.get_body(), "<p>h\u{e9}llo world</p>");
    assert_eq!(get_page_preview(&p, 5), "<p>h\u{e9}");
    assert_eq!(get_page_preview(&p, 100), "<p>h\u{e9}llo world</p>");
}

#[test]
fn date_created_is_first_ten_characters() {
    assert_eq!(page("a", "t", Some("2024-03-01T10:00:00Z")).get_date_created(), "2024-03-01");
    assert_eq!(page("a", "t", Some("2024")).get_date_created(), "2024");
}

#[test]
fn name_and_date_lists() {
    let pages = vec![page("a", "One", Some("2024-03-01T10:00")), page("b", "Two", None)];
    assert_eq!(get_name_list(&pages), vec!["One", "Two"]);
    assert_eq!(get_created_on_list(&pages), vec!["2024-03-01", ""]);
    let spaces = vec![Space { id: "S1".to_string(), key: "ENG".to_string(), name: "Eng".to_string() }];
    assert_eq!(get_name_list(&spaces), vec!["Eng"]);
    assert_eq!(spaces[0].get_id(), "S1");
}

#[test]
fn saved_marks() {
    let pages = vec![page("a", "One", None), page("b", "Two", None), page("c", "Three", None)];
    let mut states = SaveStates::new();
    states.insert("a".to_string(), PageState::NotSaved);
    states.insert("b".to_string(), PageState::Saved);
    states.insert("a".to_string(), PageState::Saved);
    states.remove("b");
    assert_eq!(states.get("a"), Some(PageState::Saved));
    assert_eq!(states.get("b"), None);
    assert_eq!(map_saved_pages(&pages, &states), vec!["\u{2713} One", "  Two", "  Three"]);
}

#[test]
fn sorting_is_stable_and_by_code_point() {
    let pages = vec![
        page("1", "beta", Some("2024-01-02")),
        page("2", "Alpha", Some("2024-01-01")),
        page("3", "alpha", Some("2024-01-02")),
    ];
    let by_title = sort_pages(pages, SortType::Title, SortDirection::Asc);
    let ids: Vec<&str> = by_title.iter().map(|p| p.id.as_str()).collect();
    assert_eq!(ids, vec!["2", "3", "1"]);
    let by_date = sort_pages(by_title, SortType::CreatedOn, SortDirection::Desc);
    let ids: Vec<&str> = by_date.iter().map(|p| p.id.as_str()).collect();
    assert_eq!(ids, vec!["3", "1", "2"]);
}

#[test]
fn search_matches_lowercased_titles() {
    assert!(title_matches_folded("release notes", "notes"));
    assert!(!title_matches_folded("release notes", "Notes"));
    assert!(title_matches_folded("abc", ""));
    let pages = vec![page("1", "Release NOTES", None), page("2", "Roadmap", None)];
    let kept = retain_matching(pages, "notes");
    assert_eq!(kept.len(), 1);
    assert_eq!(kept[0].id, "1");
}

#[test]
fn store_requests() {
    let a = api(None);
    let r = load_space_list(&a);
    assert_eq!(r.method, Method::Get);
    assert_eq!(r.url, "https://example.atlassian.net/wiki/api/v2/spaces?limit=250&type=global");
    let r = load_space_list(&api(Some("docs")));
    assert_eq!(r.url, "https://example.atlassian.net/wiki/api/v2/spaces?limit=250&labels=docs");
    let r = load_page_list_for_space(&a, "S1");
    assert_eq!(
        r.url,
        "https://example.atlassian.net/wiki/api/v2/pages?space-id=S1&body-format=storage&limit=250"
    );
    let r = concmd::get_page_by_id(&a, "42");
    assert_eq!(r.url, "https://example.atlassian.net/wiki/api/v2/pages/42?body-format=storage");
    let p = page("42", "T", None);
    let r = concmd::delete_page(&a, &p);
    assert_eq!(r.method, Method::Delete);
    assert_eq!(r.url, "https://example.atlassian.net/wiki/api/v2/pages/42");
    let r = p.update_title(&a);
    assert_eq!(r.url, "https://example.atlassian.net/wiki/api/v2/pages/42/title");
    let r = Page::create(&a);
    assert_eq!(r.method, Method::Post);
    let ids = vec!["1".to_string(), "2".to_string()];
    let r = Space::get_spaces_by_ids(&a, &ids);
    assert_eq!(r.url, "https://example.atlassian.net/wiki/api/v2/spaces?limit=250&type=global&ids=1,2");
    let r = Page::get_pages_by_title(&a, "Draft");
    assert_eq!(r.url, "https://example.atlassian.net/wiki/api/v2/pages?title=Draft&body-format=storage");
}

#[test]
fn update_bumps_version() {
    let a = api(None);
    let mut p = page("42", "T", None);
    assert_eq!(p.update(&a).err(), Some(StoreError::NoVersion));
    p.version = Some(PageVersion { number: 3, message: None });
    let r = p.update(&a).ok().unwrap();
    assert_eq!(r.method, Method::Put);
    assert_eq!(r.url, "https://example.atlassian.net/wiki/api/v2/pages/42");
    assert_eq!(p.version.as_ref().unwrap().number, 4);
    p.version = Some(PageVersion { number: usize::MAX, message: None });
    assert_eq!(p.update(&a).err(), Some(StoreError::VersionOverflow));
}

#[test]
fn store_answers() {
    assert_eq!(Page::delete_outcome(204), Ok(()));
    assert_eq!(Page::delete_outcome(401), Err(StoreError::Unauthorized));
    assert_eq!(Page::delete_outcome(404), Err(StoreError::NotFound));
    assert_eq!(Page::delete_outcome(500), Err(StoreError::Malformed));
    assert_eq!(Page::fetch_outcome(200, ""), Ok(()));
    assert_eq!(Page::fetch_outcome(404, "NOT_FOUND"), Err(StoreError::NotFound));
    assert_eq!(Page::fetch_outcome(500, "OTHER"), Err(StoreError::Failed));
    assert_eq!(Page::search_outcome(400), Err(StoreError::Malformed));
    assert_eq!(Page::search_outcome(401), Err(StoreError::Unauthorized));
    assert_eq!(Page::search_outcome(503), Err(StoreError::Failed));
}

#[test]
fn new_page_upload_request() {
    let a = api(None);
    let s = Space { id: "S7".to_string(), key: "K".to_string(), name: "Docs".to_string() };
    let (p, r) = concmd::upload_new_page(&a, &s, "Draft".to_string());
    assert_eq!(p.title, "Draft");
    assert_eq!(p.get_space_id(), Some("S7".to_string()));
    assert_eq!(p.id, "");
    assert_eq!(r.method, Method::Post);
    assert_eq!(r.url, "https://example.atlassian.net/wiki/api/v2/pages");
}
