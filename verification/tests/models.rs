use bookmark_panel::models::account::{find_account, same_id, Account};
use bookmark_panel::models::bookmarks::{Bookmark, BookmarksApiResponse, DetailedResponse};

fn account(id: Option<i64>, name: &str) -> Account {
    Account { id, display_name: name.to_string(), enable_sharing: true }
}

fn linkding_bookmark() -> Bookmark {
    Bookmark::new(
        Some(7),
        Some(42),
        "https://www.rust-lang.org".to_string(),
        "Rust".to_string(),
        "A language".to_string(),
        "Rust Programming Language".to_string(),
        "A language empowering everyone".to_string(),
        "read the book".to_string(),
        "https://web.archive.org/web/rust".to_string(),
        "https://www.rust-lang.org/favicon.ico".to_string(),
        "https://www.rust-lang.org/preview.png".to_string(),
        true,
        false,
        true,
        vec!["rust".to_string(), "lang".to_string()],
        Some("2024-01-15T10:30:00Z".to_string()),
        Some("2024-02-01T08:00:00Z".to_string()),
    )
}

#[test]
fn new_bookmark_has_no_local_id() {
    assert_eq!(linkding_bookmark().id, None);
}

#[test]
fn new_bookmark_keeps_what_linkding_gave() {
    let bookmark = linkding_bookmark();
    assert_eq!(bookmark.user_account_id, Some(7));
    assert_eq!(bookmark.linkding_internal_id, Some(42));
    assert_eq!(bookmark.url, "https://www.rust-lang.org");
    assert_eq!(bookmark.title, "Rust");
    assert_eq!(bookmark.description, "A language");
    assert_eq!(bookmark.notes, "read the book");
    assert_eq!(bookmark.web_archive_snapshot_url, "https://web.archive.org/web/rust");
    assert!(bookmark.is_archived);
    assert!(!bookmark.unread);
    assert!(bookmark.shared);
    assert_eq!(bookmark.tag_names, vec!["rust".to_string(), "lang".to_string()]);
    assert_eq!(bookmark.date_added, Some("2024-01-15T10:30:00Z".to_string()));
    assert_eq!(bookmark.date_modified, Some("2024-02-01T08:00:00Z".to_string()));
}

#[test]
fn new_bookmark_wraps_the_site_fields() {
    let bookmark = linkding_bookmark();
    assert_eq!(bookmark.website_title, Some("Rust Programming Language".to_string()));
    assert_eq!(
        bookmark.website_description,
        Some("A language empowering everyone".to_string())
    );
    assert_eq!(bookmark.favicon_url, Some("https://www.rust-lang.org/favicon.ico".to_string()));
    assert_eq!(
        bookmark.preview_image_url,
        Some("https://www.rust-lang.org/preview.png".to_string())
    );
}

#[test]
fn new_bookmark_wraps_empty_site_fields_too() {
    let bookmark = Bookmark::new(
        None,
        None,
        "https://example.org".to_string(),
        "Example".to_string(),
        String::new(),
        String::new(),
        String::new(),
        String::new(),
        String::new(),
        String::new(),
        String::new(),
        false,
        false,
        false,
        Vec::new(),
        None,
        None,
    );
    assert_eq!(bookmark.website_title, Some(String::new()));
    assert_eq!(bookmark.website_description, Some(String::new()));
    assert_eq!(bookmark.favicon_url, Some(String::new()));
    assert_eq!(bookmark.preview_image_url, Some(String::new()));
    assert_eq!(bookmark.user_account_id, None);
    assert_eq!(bookmark.date_added, None);
    assert_eq!(bookmark.date_modified, None);
    assert!(bookmark.tag_names.is_empty());
}

#[test]
fn bookmark_clone_is_equal_field_for_field() {
    let bookmark = linkding_bookmark();
    let copy = bookmark.clone();
    assert_eq!(copy, bookmark);
    assert_eq!(copy.tag_names, bookmark.tag_names);
    assert_eq!(copy.website_title, bookmark.website_title);
}

#[test]
fn bookmarks_differ_when_one_field_differs() {
    let bookmark = linkding_bookmark();
    let mut other = bookmark.clone();
    other.unread = true;
    assert_ne!(other, bookmark);
}

#[test]
fn account_clone_is_equal() {
    let home = account(Some(3), "home");
    assert_eq!(home.clone(), home);
}

#[test]
fn detailed_response_keeps_its_parts() {
    let response = DetailedResponse::new(
        account(Some(1), "home"),
        1_700_000_000,
        true,
        Some(vec![linkding_bookmark()]),
    );
    assert_eq!(response.account, account(Some(1), "home"));
    assert_eq!(response.timestamp, 1_700_000_000);
    assert!(response.successful);
    assert_eq!(response.bookmarks, Some(vec![linkding_bookmark()]));
}

#[test]
fn detailed_response_of_a_failed_fetch() {
    let response = DetailedResponse::new(account(Some(1), "home"), -5, false, None);
    assert_eq!(response.timestamp, -5);
    assert!(!response.successful);
    assert_eq!(response.bookmarks, None);
}

#[test]
fn detailed_response_clone_keeps_the_bookmarks() {
    let response = DetailedResponse::new(
        account(Some(1), "home"),
        9,
        true,
        Some(vec![linkding_bookmark(), linkding_bookmark()]),
    );
    let copy = response.clone();
    assert_eq!(copy.account, response.account);
    assert_eq!(copy.timestamp, 9);
    assert_eq!(copy.successful, true);
    assert_eq!(copy.bookmarks, response.bookmarks);
}

#[test]
fn api_response_clone_keeps_the_page() {
    let page = BookmarksApiResponse {
        count: 2,
        next: Some("https://linkding.example/api/bookmarks/?offset=100".to_string()),
        previous: None,
        results: vec![linkding_bookmark()],
    };
    let copy = page.clone();
    assert_eq!(copy.count, 2);
    assert_eq!(copy.next, page.next);
    assert_eq!(copy.previous, None);
    assert_eq!(copy.results, page.results);
}

#[test]
fn find_account_gives_the_position_of_the_owner() {
    let accounts = vec![account(Some(1), "a"), account(Some(2), "b"), account(Some(3), "c")];
    assert_eq!(find_account(&accounts, Some(1)), Some(0));
    assert_eq!(find_account(&accounts, Some(2)), Some(1));
    assert_eq!(find_account(&accounts, Some(3)), Some(2));
}

#[test]
fn find_account_gives_the_first_of_two_with_one_id() {
    let accounts = vec![account(Some(5), "a"), account(Some(9), "b"), account(Some(9), "c")];
    assert_eq!(find_account(&accounts, Some(9)), Some(1));
}

#[test]
fn find_account_finds_nothing_for_an_unknown_id() {
    let accounts = vec![account(Some(1), "a"), account(Some(2), "b")];
    assert_eq!(find_account(&accounts, Some(3)), None);
    assert_eq!(find_account(&accounts, None), None);
    assert_eq!(find_account(&[], Some(1)), None);
}

#[test]
fn find_account_takes_an_absent_id_as_an_id() {
    let accounts = vec![account(Some(1), "a"), account(None, "b")];
    assert_eq!(find_account(&accounts, None), Some(1));
}

#[test]
fn same_id_compares_optional_ids() {
    assert!(same_id(Some(4), Some(4)));
    assert!(same_id(None, None));
    assert!(!same_id(Some(4), Some(5)));
    assert!(!same_id(Some(0), None));
    assert!(!same_id(None, Some(0)));
    assert!(same_id(Some(i64::MIN), Some(i64::MIN)));
}
