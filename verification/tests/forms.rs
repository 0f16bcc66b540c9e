use bookmark_panel::application::Message;
use bookmark_panel::models::account::Account;
use bookmark_panel::models::bookmarks::Bookmark;
use bookmark_panel::pages::bookmarks::{edit_bookmark, new_bookmark, view_notes};
use bookmark_panel::pages::form::{
    account_chosen, text_entered, toggled, AccountInput, BookmarkForm, NotesPanel, SharedToggle,
    TextField, Toggle,
};

fn accounts() -> Vec<Account> {
    vec![
        Account { id: Some(1), display_name: "home".to_string(), enable_sharing: false },
        Account { id: Some(2), display_name: "work".to_string(), enable_sharing: true },
    ]
}

fn draft(account_id: Option<i64>) -> Bookmark {
    Bookmark {
        id: None,
        user_account_id: account_id,
        linkding_internal_id: None,
        url: "https://example.org".to_string(),
        title: "Example".to_string(),
        description: "An example".to_string(),
        website_title: None,
        website_description: None,
        notes: "some notes".to_string(),
        web_archive_snapshot_url: String::new(),
        favicon_url: None,
        preview_image_url: None,
        is_archived: true,
        unread: false,
        shared: true,
        tag_names: vec!["rust".to_string(), "gui".to_string()],
        date_added: None,
        date_modified: None,
    }
}

#[test]
fn new_form_holds_what_the_bookmark_holds() {
    let form = new_bookmark(draft(None), &accounts(), 1).unwrap();
    assert_eq!(
        form,
        BookmarkForm {
            account: AccountInput::Choice {
                options: vec!["home".to_string(), "work".to_string()],
                selected: 1,
            },
            url: "https://example.org".to_string(),
            title: "Example".to_string(),
            description: "An example".to_string(),
            notes: "some notes".to_string(),
            tags: "rust gui".to_string(),
            archived: true,
            unread: false,
            shared: SharedToggle::Enabled { checked: true },
            save: Message::AddBookmark(accounts()[1].clone(), draft(None)),
        }
    );
}

#[test]
fn new_form_cannot_share_where_the_account_does_not() {
    let form = new_bookmark(draft(None), &accounts(), 0).unwrap();
    assert_eq!(form.shared, SharedToggle::Disabled);
    assert_eq!(
        form.account,
        AccountInput::Choice { options: vec!["home".to_string(), "work".to_string()], selected: 0 }
    );
    assert_eq!(form.save, Message::AddBookmark(accounts()[0].clone(), draft(None)));
}

#[test]
fn new_form_shows_an_unshared_bookmark_unchecked() {
    let mut bookmark = draft(None);
    bookmark.shared = false;
    let form = new_bookmark(bookmark, &accounts(), 1).unwrap();
    assert_eq!(form.shared, SharedToggle::Enabled { checked: false });
}

#[test]
fn new_form_needs_the_chosen_account() {
    assert_eq!(new_bookmark(draft(None), &accounts(), 2), None);
    assert_eq!(new_bookmark(draft(None), &accounts(), usize::MAX), None);
    assert_eq!(new_bookmark(draft(None), &[], 0), None);
}

#[test]
fn new_form_of_an_empty_bookmark_is_empty() {
    let mut bookmark = draft(None);
    bookmark.url = String::new();
    bookmark.title = String::new();
    bookmark.description = String::new();
    bookmark.notes = String::new();
    bookmark.tag_names = Vec::new();
    bookmark.is_archived = false;
    let form = new_bookmark(bookmark, &accounts(), 0).unwrap();
    assert_eq!(form.url, "");
    assert_eq!(form.title, "");
    assert_eq!(form.description, "");
    assert_eq!(form.notes, "");
    assert_eq!(form.tags, "");
    assert!(!form.archived);
}

#[test]
fn edit_form_fixes_the_account() {
    let form = edit_bookmark(draft(Some(2)), &accounts()).unwrap();
    assert_eq!(
        form,
        BookmarkForm {
            account: AccountInput::Fixed { display_name: "work".to_string() },
            url: "https://example.org".to_string(),
            title: "Example".to_string(),
            description: "An example".to_string(),
            notes: "some notes".to_string(),
            tags: "rust gui".to_string(),
            archived: true,
            unread: false,
            shared: SharedToggle::Enabled { checked: true },
            save: Message::UpdateBookmark(accounts()[1].clone(), draft(Some(2))),
        }
    );
}

#[test]
fn edit_form_cannot_share_where_the_account_does_not() {
    let form = edit_bookmark(draft(Some(1)), &accounts()).unwrap();
    assert_eq!(form.shared, SharedToggle::Disabled);
    assert_eq!(form.account, AccountInput::Fixed { display_name: "home".to_string() });
    assert_eq!(form.save, Message::UpdateBookmark(accounts()[0].clone(), draft(Some(1))));
}

#[test]
fn edit_form_needs_the_account_of_the_bookmark() {
    assert_eq!(edit_bookmark(draft(Some(3)), &accounts()), None);
    assert_eq!(edit_bookmark(draft(None), &accounts()), None);
    assert_eq!(edit_bookmark(draft(Some(1)), &[]), None);
}

#[test]
fn edit_form_takes_the_first_account_with_the_id() {
    let twice = vec![
        Account { id: Some(2), display_name: "first".to_string(), enable_sharing: false },
        Account { id: Some(2), display_name: "second".to_string(), enable_sharing: true },
    ];
    let form = edit_bookmark(draft(Some(2)), &twice).unwrap();
    assert_eq!(form.account, AccountInput::Fixed { display_name: "first".to_string() });
    assert_eq!(form.shared, SharedToggle::Disabled);
}

#[test]
fn form_joins_a_tag_with_a_space_as_it_is() {
    let mut bookmark = draft(Some(1));
    bookmark.tag_names = vec!["two words".to_string(), "x".to_string()];
    assert_eq!(edit_bookmark(bookmark, &accounts()).unwrap().tags, "two words x");
}

#[test]
fn text_fields_tell_the_application() {
    let text = "value".to_string();
    assert_eq!(text_entered(TextField::Url, text.clone()), Message::SetBookmarkURL(text.clone()));
    assert_eq!(
        text_entered(TextField::Title, text.clone()),
        Message::SetBookmarkTitle(text.clone())
    );
    assert_eq!(
        text_entered(TextField::Description, text.clone()),
        Message::SetBookmarkDescription(text.clone())
    );
    assert_eq!(
        text_entered(TextField::Notes, text.clone()),
        Message::SetBookmarkNotes(text.clone())
    );
    assert_eq!(text_entered(TextField::Tags, text.clone()), Message::SetBookmarkTags(text));
}

#[test]
fn boxes_tell_the_application() {
    assert_eq!(toggled(Toggle::Archived, true), Message::SetBookmarkArchived(true));
    assert_eq!(toggled(Toggle::Archived, false), Message::SetBookmarkArchived(false));
    assert_eq!(toggled(Toggle::Unread, true), Message::SetBookmarkUnread(true));
    assert_eq!(toggled(Toggle::Shared, false), Message::SetBookmarkShared(false));
}

#[test]
fn account_choice_tells_the_application() {
    assert_eq!(account_chosen(0), Message::AddBookmarkFormAccountIndex(0));
    assert_eq!(account_chosen(7), Message::AddBookmarkFormAccountIndex(7));
}

#[test]
fn notes_panel_holds_the_notes() {
    assert_eq!(view_notes(draft(None)), NotesPanel { body: "some notes".to_string() });
    let mut bookmark = draft(None);
    bookmark.notes = String::new();
    assert_eq!(view_notes(bookmark), NotesPanel { body: String::new() });
}

#[test]
fn new_form_lists_the_accounts_in_their_order() {
    let many = vec![
        Account { id: Some(3), display_name: "zeta".to_string(), enable_sharing: false },
        Account { id: Some(1), display_name: "alpha".to_string(), enable_sharing: true },
        Account { id: Some(2), display_name: "alpha".to_string(), enable_sharing: false },
        Account { id: None, display_name: String::new(), enable_sharing: false },
    ];
    for selected in 0..many.len() {
        let form = new_bookmark(draft(None), &many, selected).unwrap();
        assert_eq!(
            form.account,
            AccountInput::Choice {
                options: vec![
                    "zeta".to_string(),
                    "alpha".to_string(),
                    "alpha".to_string(),
                    String::new()
                ],
                selected,
            }
        );
        assert_eq!(form.save, Message::AddBookmark(many[selected].clone(), draft(None)));
    }
}

#[test]
fn new_form_of_one_account_offers_that_account() {
    let one = vec![Account { id: Some(1), display_name: "only".to_string(), enable_sharing: true }];
    let form = new_bookmark(draft(None), &one, 0).unwrap();
    assert_eq!(
        form.account,
        AccountInput::Choice { options: vec!["only".to_string()], selected: 0 }
    );
}
