//! The bookmark page: the cards of the list, the two forms, and the messages
//! that the page takes and passes on.

use crate::application::{ApplicationState, Message, MessageModel};
use crate::clock::{date_added_text, is_date_text, reads_as_date, shows_moment_of};
use crate::models::account::{find_account, owner_position, Account, AccountModel};
use crate::models::bookmarks::{Bookmark, BookmarkModel};
use crate::models::{optional_model, seq_model};
use crate::pages::card::{
    bookmark_card, card_model, press_unless_refreshing, unless_refreshing, BookmarkCard,
    BookmarkCardModel,
};
use crate::pages::form::{
    add_form, display_names, edit_form, AccountInput, BookmarkForm, NotesPanel, NotesPanelModel,
    SharedToggle,
};
use crate::text::tag_entry_line;
use vstd::prelude::*;

verus! {

/// A message of the bookmark page.
#[derive(Debug, PartialEq, Eq)]
pub enum AppBookmarksMessage {
    ClearSearch,
    DeleteBookmark(Account, Bookmark),
    EditBookmark(Account, Bookmark),
    AddBookmark,
    OpenAccountsPage,
    OpenExternalURL(String),
    RefreshBookmarks,
    SearchBookmarks(String),
    ViewNotes(Bookmark),
    EmptyMessage,
}

/// What an [`AppBookmarksMessage`] holds, as mathematical values.
pub enum AppBookmarksMessageModel {
    ClearSearch,
    DeleteBookmark(AccountModel, BookmarkModel),
    EditBookmark(AccountModel, BookmarkModel),
    AddBookmark,
    OpenAccountsPage,
    OpenExternalURL(Seq<char>),
    RefreshBookmarks,
    SearchBookmarks(Seq<char>),
    ViewNotes(BookmarkModel),
    EmptyMessage,
}

impl View for AppBookmarksMessage {
    type V = AppBookmarksMessageModel;

    open spec fn view(&self) -> AppBookmarksMessageModel {
        match self {
            AppBookmarksMessage::ClearSearch => AppBookmarksMessageModel::ClearSearch,
            AppBookmarksMessage::DeleteBookmark(account, bookmark) => {
                AppBookmarksMessageModel::DeleteBookmark(account@, bookmark@)
            },
            AppBookmarksMessage::EditBookmark(account, bookmark) => {
                AppBookmarksMessageModel::EditBookmark(account@, bookmark@)
            },
            AppBookmarksMessage::AddBookmark => AppBookmarksMessageModel::AddBookmark,
            AppBookmarksMessage::OpenAccountsPage => AppBookmarksMessageModel::OpenAccountsPage,
            AppBookmarksMessage::OpenExternalURL(url) => AppBookmarksMessageModel::OpenExternalURL(
                url@,
            ),
            AppBookmarksMessage::RefreshBookmarks => AppBookmarksMessageModel::RefreshBookmarks,
            AppBookmarksMessage::SearchBookmarks(query) => {
                AppBookmarksMessageModel::SearchBookmarks(query@)
            },
            AppBookmarksMessage::ViewNotes(bookmark) => AppBookmarksMessageModel::ViewNotes(
                bookmark@,
            ),
            AppBookmarksMessage::EmptyMessage => AppBookmarksMessageModel::EmptyMessage,
        }
    }
}

impl Clone for AppBookmarksMessage {
    fn clone(&self) -> (copy: Self)
        ensures
            copy@ == self@,
    {
        match self {
            AppBookmarksMessage::ClearSearch => AppBookmarksMessage::ClearSearch,
            AppBookmarksMessage::DeleteBookmark(account, bookmark) => {
                AppBookmarksMessage::DeleteBookmark(account.clone(), bookmark.clone())
            },
            AppBookmarksMessage::EditBookmark(account, bookmark) => {
                AppBookmarksMessage::EditBookmark(account.clone(), bookmark.clone())
            },
            AppBookmarksMessage::AddBookmark => AppBookmarksMessage::AddBookmark,
            AppBookmarksMessage::OpenAccountsPage => AppBookmarksMessage::OpenAccountsPage,
            AppBookmarksMessage::OpenExternalURL(url) => AppBookmarksMessage::OpenExternalURL(
                url.clone(),
            ),
            AppBookmarksMessage::RefreshBookmarks => AppBookmarksMessage::RefreshBookmarks,
            AppBookmarksMessage::SearchBookmarks(query) => AppBookmarksMessage::SearchBookmarks(
                query.clone(),
            ),
            AppBookmarksMessage::ViewNotes(bookmark) => AppBookmarksMessage::ViewNotes(
                bookmark.clone(),
            ),
            AppBookmarksMessage::EmptyMessage => AppBookmarksMessage::EmptyMessage,
        }
    }
}

/// The bookmark page: the accounts and bookmarks it lists, what it last
/// handed to the edit form, and the text of its search field.
#[derive(Debug)]
pub struct PageBookmarksView {
    pub accounts: Vec<Account>,
    pub bookmarks: Vec<Bookmark>,
    pub account_placeholder: Option<Account>,
    pub bookmark_placeholder: Option<Bookmark>,
    pub query_placeholder: String,
}

/// What a [`PageBookmarksView`] holds, as mathematical values.
pub struct PageModel {
    pub accounts: Seq<AccountModel>,
    pub bookmarks: Seq<BookmarkModel>,
    pub account_placeholder: Option<AccountModel>,
    pub bookmark_placeholder: Option<BookmarkModel>,
    pub query: Seq<char>,
}

/// Why a bookmark has no card.
#[derive(Debug, Clone, Copy, PartialEq, Eq, Structural)]
pub enum CardFault {
    /// None of the accounts has the account id that the bookmark carries.
    UnknownAccount,
    /// The bookmark does not say when it was added.
    MissingDate,
    /// What the bookmark gives as the day it was added is no date and time.
    MalformedDate,
}

/// A row of the list: the card of a bookmark, or, for a bookmark that has
/// none, its title and what is wrong with it.
#[derive(Debug, PartialEq, Eq)]
pub enum ListRow {
    Card(BookmarkCard),
    Placeholder { title: String, fault: CardFault },
}

/// What a [`ListRow`] holds, as mathematical values.
pub enum ListRowModel {
    Card(BookmarkCardModel),
    Placeholder { title: Seq<char>, fault: CardFault },
}

impl View for ListRow {
    type V = ListRowModel;

    open spec fn view(&self) -> ListRowModel {
        match self {
            ListRow::Card(card) => ListRowModel::Card(card@),
            ListRow::Placeholder { title, fault } => ListRowModel::Placeholder {
                title: title@,
                fault: *fault,
            },
        }
    }
}

/// The list of the page: the number of bookmarks, the search field, the
/// refresh and add buttons, each of which can be pressed where it holds a
/// message, and one row for each bookmark.
#[derive(Debug, PartialEq, Eq)]
pub struct BookmarkList {
    pub count: usize,
    pub query: String,
    pub refresh: Option<AppBookmarksMessage>,
    pub add: Option<AppBookmarksMessage>,
    pub rows: Vec<ListRow>,
}

/// What a [`BookmarkList`] holds, as mathematical values.
pub struct BookmarkListModel {
    pub count: nat,
    pub query: Seq<char>,
    pub refresh: Option<AppBookmarksMessageModel>,
    pub add: Option<AppBookmarksMessageModel>,
    pub rows: Seq<ListRowModel>,
}

impl View for BookmarkList {
    type V = BookmarkListModel;

    open spec fn view(&self) -> BookmarkListModel {
        BookmarkListModel {
            count: self.count as nat,
            query: self.query@,
            refresh: optional_model(self.refresh),
            add: optional_model(self.add),
            rows: seq_model(self.rows@),
        }
    }
}

/// What the page shows: a pointer to the accounts page while there is no
/// account, the list otherwise.
#[derive(Debug, PartialEq, Eq)]
pub enum BookmarksPage {
    NoAccounts { open_accounts: AppBookmarksMessage },
    List(BookmarkList),
}

/// What a [`BookmarksPage`] holds, as mathematical values.
pub enum BookmarksPageModel {
    NoAccounts { open_accounts: AppBookmarksMessageModel },
    List(BookmarkListModel),
}

impl View for BookmarksPage {
    type V = BookmarksPageModel;

    open spec fn view(&self) -> BookmarksPageModel {
        match self {
            BookmarksPage::NoAccounts { open_accounts } => BookmarksPageModel::NoAccounts {
                open_accounts: open_accounts@,
            },
            BookmarksPage::List(list) => BookmarksPageModel::List(list@),
        }
    }
}

/// Why the bookmark has no card among `accounts`, if it has none: its
/// account is looked for first, then its date.
pub open spec fn card_fault(bookmark: BookmarkModel, accounts: Seq<AccountModel>) -> Option<
    CardFault,
> {
    if owner_position(accounts, bookmark.user_account_id) is None {
        Some(CardFault::UnknownAccount)
    } else {
        match bookmark.date_added {
            None => Some(CardFault::MissingDate),
            Some(text) => if reads_as_date(text) {
                None
            } else {
                Some(CardFault::MalformedDate)
            },
        }
    }
}

/// The account among `accounts` that the bookmark belongs to.
pub open spec fn owner(bookmark: BookmarkModel, accounts: Seq<AccountModel>) -> AccountModel {
    accounts[owner_position(accounts, bookmark.user_account_id).unwrap()]
}

/// The refresh button of the list: it can be pressed while nothing is
/// searched for, the list is not empty and no sync is under way.
pub open spec fn refresh_button(page: PageModel, state: ApplicationState) -> Option<
    AppBookmarksMessageModel,
> {
    if page.query.len() > 0 || page.bookmarks.len() == 0 || state
        == ApplicationState::Refreshing {
        None
    } else {
        Some(AppBookmarksMessageModel::RefreshBookmarks)
    }
}

/// The row of `bookmark` in a list for `accounts`: its card, with
/// `date_added` as the day on it, or a placeholder where it has no card.
pub open spec fn row_model(
    bookmark: BookmarkModel,
    accounts: Seq<AccountModel>,
    state: ApplicationState,
    date_added: Seq<char>,
) -> ListRowModel {
    match card_fault(bookmark, accounts) {
        Some(fault) => ListRowModel::Placeholder { title: bookmark.title, fault },
        None => ListRowModel::Card(
            card_model(bookmark, owner(bookmark, accounts), state, date_added),
        ),
    }
}

/// The list that the page shows in `state`, with `dates[i]` as the day that
/// the card of the bookmark at `i` shows: one row for each bookmark, in the
/// order of the bookmarks.
pub open spec fn list_model(
    page: PageModel,
    state: ApplicationState,
    dates: Seq<Seq<char>>,
) -> BookmarkListModel {
    BookmarkListModel {
        count: page.bookmarks.len(),
        query: page.query,
        refresh: refresh_button(page, state),
        add: unless_refreshing(state, AppBookmarksMessageModel::AddBookmark),
        rows: Seq::new(
            page.bookmarks.len(),
            |i: int| row_model(page.bookmarks[i], page.accounts, state, dates[i]),
        ),
    }
}

/// What the page shows in `state`, with `dates[i]` as the day that the card
/// of the bookmark at `i` shows.
pub open spec fn page_model(
    page: PageModel,
    state: ApplicationState,
    dates: Seq<Seq<char>>,
) -> BookmarksPageModel {
    if page.accounts.len() == 0 {
        BookmarksPageModel::NoAccounts { open_accounts: AppBookmarksMessageModel::OpenAccountsPage }
    } else {
        BookmarksPageModel::List(list_model(page, state, dates))
    }
}

/// The day on a row: what its card shows, and nothing for a placeholder.
pub open spec fn row_date(row: ListRowModel) -> Seq<char> {
    match row {
        ListRowModel::Card(card) => card.date_added,
        ListRowModel::Placeholder { .. } => Seq::empty(),
    }
}

/// The days that the rows of a page show, in the order of the rows.
pub open spec fn shown_dates(shown: BookmarksPageModel) -> Seq<Seq<char>> {
    match shown {
        BookmarksPageModel::NoAccounts { .. } => Seq::empty(),
        BookmarksPageModel::List(list) => Seq::new(
            list.rows.len(),
            |i: int| row_date(list.rows[i]),
        ),
    }
}

/// Whether the day on a row is the day of its bookmark: where the row is a
/// card, the day on it is written as a day and time and shows the moment the
/// bookmark was added.
pub open spec fn row_shows_its_date(row: ListRowModel, bookmark: BookmarkModel) -> bool {
    match (row, bookmark.date_added) {
        (ListRowModel::Card(card), Some(text)) => is_date_text(card.date_added)
            && shows_moment_of(card.date_added, text),
        (ListRowModel::Card(_), None) => false,
        (ListRowModel::Placeholder { .. }, _) => true,
    }
}

/// Whether every card of the page shows the day of its bookmark.
pub open spec fn dates_are_written(shown: BookmarksPageModel, page: PageModel) -> bool {
    shown matches BookmarksPageModel::List(list) ==> forall|i: int|
        0 <= i < list.rows.len() ==> row_shows_its_date(#[trigger] list.rows[i], page.bookmarks[i])
}

/// A bookmark that has a card keeps it whatever is wrong with the others,
/// and one that has none gets a placeholder that names it and its fault:
/// either way the row stands where the bookmark stands.
pub proof fn law_each_bookmark_has_its_row(
    page: PageModel,
    state: ApplicationState,
    dates: Seq<Seq<char>>,
    index: int,
)
    requires
        0 <= index < page.bookmarks.len(),
    ensures
        list_model(page, state, dates).rows.len() == page.bookmarks.len(),
        card_fault(page.bookmarks[index], page.accounts) is None ==> list_model(
            page,
            state,
            dates,
        ).rows[index] == ListRowModel::Card(
            card_model(
                page.bookmarks[index],
                owner(page.bookmarks[index], page.accounts),
                state,
                dates[index],
            ),
        ),
        card_fault(page.bookmarks[index], page.accounts) matches Some(fault) ==> list_model(
            page,
            state,
            dates,
        ).rows[index] == (ListRowModel::Placeholder { title: page.bookmarks[index].title, fault }),
{
}

/// While a sync is under way nothing on the list that starts an action can
/// be pressed: not the refresh button, not the add button, and no button of
/// any card's action row.
pub proof fn law_refreshing_disables_actions(page: PageModel, dates: Seq<Seq<char>>)
    ensures
        list_model(page, ApplicationState::Refreshing, dates).refresh is None,
        list_model(page, ApplicationState::Refreshing, dates).add is None,
        forall|i: int, j: int|
            #![trigger list_model(page, ApplicationState::Refreshing, dates).rows[i]->Card_0.actions[j]]
            0 <= i < page.bookmarks.len() && list_model(
                page,
                ApplicationState::Refreshing,
                dates,
            ).rows[i] is Card && 0 <= j < list_model(
                page,
                ApplicationState::Refreshing,
                dates,
            ).rows[i]->Card_0.actions.len() ==> list_model(
                page,
                ApplicationState::Refreshing,
                dates,
            ).rows[i]->Card_0.actions[j].on_press is None,
{
}

/// While no sync is under way a bookmark can be added, and the list can be
/// refreshed where it is not empty and nothing is searched for.
pub proof fn law_idle_enables_toolbar(page: PageModel, dates: Seq<Seq<char>>)
    ensures
        list_model(page, ApplicationState::Normal, dates).add == Some(
            AppBookmarksMessageModel::AddBookmark,
        ),
        list_model(page, ApplicationState::Normal, dates).refresh is Some <==> page.query.len()
            == 0 && page.bookmarks.len() > 0,
{
}

/// No message changes the accounts or the bookmarks of the page.
pub proof fn law_update_keeps_the_lists(page: PageModel, message: AppBookmarksMessageModel)
    ensures
        updated(page, message).accounts == page.accounts,
        updated(page, message).bookmarks == page.bookmarks,
{
}

/// A search that is cleared leaves the search field as it was before
/// anything was searched for.
pub proof fn law_clear_undoes_search(page: PageModel, query: Seq<char>)
    requires
        page.query.len() == 0,
    ensures
        updated(
            updated(page, AppBookmarksMessageModel::SearchBookmarks(query)),
            AppBookmarksMessageModel::ClearSearch,
        ) == page,
{
    assert(page.query =~= Seq::<char>::empty());
}

impl PageBookmarksView {
    /// What the page holds, as mathematical values.
    pub open spec fn model(&self) -> PageModel {
        PageModel {
            accounts: seq_model(self.accounts@),
            bookmarks: seq_model(self.bookmarks@),
            account_placeholder: optional_model(self.account_placeholder),
            bookmark_placeholder: optional_model(self.bookmark_placeholder),
            query: self.query_placeholder@,
        }
    }

    /// What the page shows while the application is in `app_state`.
    ///
    /// Without accounts the page points to the accounts page. With accounts
    /// it lists the bookmarks, one row each: the card of the bookmark, or a
    /// placeholder where the bookmark belongs to none of the accounts or
    /// carries no date that can be read. The day on a card shows the moment
    /// the bookmark was added, written for the machine's time zone in the
    /// shape of `is_date_text`; everything else on the page is as
    /// `page_model` says.
    pub fn view(&self, app_state: ApplicationState) -> (page: BookmarksPage)
        ensures
            page@ == page_model(self.model(), app_state, shown_dates(page@)),
            dates_are_written(page@, self.model()),
    {
        if self.accounts.is_empty() {
            return BookmarksPage::NoAccounts { open_accounts: AppBookmarksMessage::OpenAccountsPage };
        }
        let ghost accounts = self.model().accounts;
        let ghost bookmarks = self.model().bookmarks;
        let mut rows: Vec<ListRow> = Vec::new();
        let mut i: usize = 0;
        while i < self.bookmarks.len()
            invariant
                i <= self.bookmarks.len(),
                rows.len() == i,
                accounts == seq_model(self.accounts@),
                bookmarks == seq_model(self.bookmarks@),
                forall|j: int|
                    0 <= j < i ==> (#[trigger] rows[j])@ == row_model(
                        bookmarks[j],
                        accounts,
                        app_state,
                        row_date(rows[j]@),
                    ),
                forall|j: int|
                    0 <= j < i ==> row_shows_its_date((#[trigger] rows[j])@, bookmarks[j]),
            decreases self.bookmarks.len() - i,
        {
            let row = self.row(&self.bookmarks[i], app_state);
            rows.push(row);
            i += 1;
        }
        let refresh = if !self.query_placeholder.as_str().is_empty() || self.bookmarks.is_empty() {
            None
        } else {
            press_unless_refreshing(app_state, AppBookmarksMessage::RefreshBookmarks)
        };
        let list = BookmarkList {
            count: self.bookmarks.len(),
            query: self.query_placeholder.clone(),
            refresh,
            add: press_unless_refreshing(app_state, AppBookmarksMessage::AddBookmark),
            rows,
        };
        assert(list@.rows =~= list_model(
            self.model(),
            app_state,
            shown_dates(BookmarksPageModel::List(list@)),
        ).rows);
        BookmarksPage::List(list)
    }

    /// The row of `bookmark` in the list of this page: its account is looked
    /// for first, then its date is read.
    pub fn row(&self, bookmark: &Bookmark, app_state: ApplicationState) -> (row: ListRow)
        ensures
            row@ == row_model(bookmark@, self.model().accounts, app_state, row_date(row@)),
            row_shows_its_date(row@, bookmark@),
    {
        let position = match find_account(self.accounts.as_slice(), bookmark.user_account_id) {
            Some(position) => position,
            None => {
                return ListRow::Placeholder {
                    title: bookmark.title.clone(),
                    fault: CardFault::UnknownAccount,
                };
            },
        };
        let added = match &bookmark.date_added {
            Some(added) => added,
            None => {
                return ListRow::Placeholder {
                    title: bookmark.title.clone(),
                    fault: CardFault::MissingDate,
                };
            },
        };
        match date_added_text(added.as_str()) {
            Some(date_text) => ListRow::Card(
                bookmark_card(bookmark, &self.accounts[position], app_state, date_text),
            ),
            None => ListRow::Placeholder {
                title: bookmark.title.clone(),
                fault: CardFault::MalformedDate,
            },
        }
    }
}

/// What the page is told when `text` was entered in the search field.
pub fn search_entered(text: String) -> (message: AppBookmarksMessage)
    ensures
        message@ == AppBookmarksMessageModel::SearchBookmarks(text@),
{
    AppBookmarksMessage::SearchBookmarks(text)
}

/// What the page is told when the search field was cleared.
pub fn search_cleared() -> (message: AppBookmarksMessage)
    ensures
        message@ == AppBookmarksMessageModel::ClearSearch,
{
    AppBookmarksMessage::ClearSearch
}

/// The page after it has taken `message`: a search keeps its text in the
/// search field, clearing the search empties the field, and a request to edit
/// keeps the account and the bookmark; nothing else changes.
pub open spec fn updated(page: PageModel, message: AppBookmarksMessageModel) -> PageModel {
    match message {
        AppBookmarksMessageModel::EditBookmark(account, bookmark) => PageModel {
            account_placeholder: Some(account),
            bookmark_placeholder: Some(bookmark),
            ..page
        },
        AppBookmarksMessageModel::SearchBookmarks(query) => PageModel { query, ..page },
        AppBookmarksMessageModel::ClearSearch => PageModel { query: Seq::empty(), ..page },
        _ => page,
    }
}

/// The message that the page passes on to the application for `message`.
pub open spec fn forwarded(message: AppBookmarksMessageModel) -> MessageModel {
    match message {
        AppBookmarksMessageModel::OpenAccountsPage => MessageModel::OpenAccountsPage,
        AppBookmarksMessageModel::RefreshBookmarks => {
            MessageModel::StartRefreshBookmarksForAllAccounts
        },
        AppBookmarksMessageModel::AddBookmark => MessageModel::AddBookmarkForm,
        AppBookmarksMessageModel::DeleteBookmark(account, bookmark) => {
            MessageModel::OpenRemoveBookmarkDialog(account, bookmark)
        },
        AppBookmarksMessageModel::EditBookmark(account, bookmark) => MessageModel::EditBookmark(
            account,
            bookmark,
        ),
        AppBookmarksMessageModel::SearchBookmarks(query) => MessageModel::SearchBookmarks(query),
        AppBookmarksMessageModel::ClearSearch => MessageModel::LoadBookmarks,
        AppBookmarksMessageModel::OpenExternalURL(url) => MessageModel::OpenExternalUrl(url),
        AppBookmarksMessageModel::ViewNotes(bookmark) => MessageModel::ViewBookmarkNotes(bookmark),
        AppBookmarksMessageModel::EmptyMessage => MessageModel::Empty,
    }
}

impl PageBookmarksView {
    /// Takes a message of the page and gives the one to pass on to the
    /// application.
    pub fn update(&mut self, message: AppBookmarksMessage) -> (passed_on: Message)
        ensures
            final(self).model() == updated(old(self).model(), message@),
            passed_on@ == forwarded(message@),
    {
        match message {
            AppBookmarksMessage::OpenAccountsPage => Message::OpenAccountsPage,
            AppBookmarksMessage::RefreshBookmarks => Message::StartRefreshBookmarksForAllAccounts,
            AppBookmarksMessage::AddBookmark => Message::AddBookmarkForm,
            AppBookmarksMessage::DeleteBookmark(account, bookmark) => {
                Message::OpenRemoveBookmarkDialog(account, bookmark)
            },
            AppBookmarksMessage::EditBookmark(account, bookmark) => {
                self.account_placeholder = Some(account.clone());
                self.bookmark_placeholder = Some(bookmark.clone());
                Message::EditBookmark(account, bookmark)
            },
            AppBookmarksMessage::SearchBookmarks(query) => {
                self.query_placeholder = query.clone();
                Message::SearchBookmarks(query)
            },
            AppBookmarksMessage::ClearSearch => {
                self.query_placeholder = String::new();
                Message::LoadBookmarks
            },
            AppBookmarksMessage::OpenExternalURL(url) => Message::OpenExternalUrl(url),
            AppBookmarksMessage::ViewNotes(bookmark) => Message::ViewBookmarkNotes(bookmark),
            AppBookmarksMessage::EmptyMessage => Message::Empty,
        }
    }
}

impl Default for PageBookmarksView {
    /// The page before anything was loaded.
    fn default() -> (page: Self)
        ensures
            page.model() == (PageModel {
                accounts: Seq::empty(),
                bookmarks: Seq::empty(),
                account_placeholder: None,
                bookmark_placeholder: None,
                query: Seq::empty(),
            }),
    {
        let page = PageBookmarksView {
            accounts: Vec::new(),
            bookmarks: Vec::new(),
            account_placeholder: None,
            bookmark_placeholder: None,
            query_placeholder: String::new(),
        };
        assert(page.model().accounts =~= Seq::empty());
        assert(page.model().bookmarks =~= Seq::empty());
        page
    }
}

impl Clone for PageBookmarksView {
    fn clone(&self) -> (copy: Self)
        ensures
            copy.model() == self.model(),
    {
        let accounts = self.accounts.clone();
        assert(seq_model(accounts@) =~= seq_model(self.accounts@));
        let bookmarks = self.bookmarks.clone();
        assert(seq_model(bookmarks@) =~= seq_model(self.bookmarks@));
        PageBookmarksView {
            accounts,
            bookmarks,
            account_placeholder: self.account_placeholder.clone(),
            bookmark_placeholder: self.bookmark_placeholder.clone(),
            query_placeholder: self.query_placeholder.clone(),
        }
    }
}

/// Fills a form with what `bookmark` holds.
fn filled_form(bookmark: Bookmark, account: &Account, input: AccountInput, save: Message) -> (form:
    BookmarkForm)
    ensures
        form@ == crate::pages::form::form_model(bookmark@, account@, input@, save@),
{
    let tags = tag_entry_line(&bookmark.tag_names);
    let shared = if account.enable_sharing {
        SharedToggle::Enabled { checked: bookmark.shared }
    } else {
        SharedToggle::Disabled
    };
    BookmarkForm {
        account: input,
        url: bookmark.url,
        title: bookmark.title,
        description: bookmark.description,
        notes: bookmark.notes,
        tags,
        archived: bookmark.is_archived,
        unread: bookmark.unread,
        shared,
        save,
    }
}

/// The form for a new bookmark, with the account at `selected_account_index`
/// chosen. There is none where `accounts` has no account at that index.
pub fn new_bookmark(bookmark: Bookmark, accounts: &[Account], selected_account_index: usize) -> (form:
    Option<BookmarkForm>)
    ensures
        form is Some <==> selected_account_index < accounts.len(),
        form matches Some(shown) ==> shown@ == add_form(
            bookmark@,
            seq_model(accounts@),
            selected_account_index,
        ),
{
    if selected_account_index >= accounts.len() {
        return None;
    }
    let account = &accounts[selected_account_index];
    let save = Message::AddBookmark(account.clone(), bookmark.clone());
    let mut options: Vec<String> = Vec::new();
    let mut i: usize = 0;
    while i < accounts.len()
        invariant
            i <= accounts.len(),
            options.len() == i,
            forall|k: int| 0 <= k < i ==> (#[trigger] options[k])@ == accounts[k]@.display_name,
        decreases accounts.len() - i,
    {
        options.push(accounts[i].display_name.clone());
        i += 1;
    }
    assert(options.deep_view() =~= display_names(seq_model(accounts@)));
    Some(
        filled_form(
            bookmark,
            account,
            AccountInput::Choice { options, selected: selected_account_index },
            save,
        ),
    )
}

/// The form for `bookmark`, which is one of an account in `accounts`. There
/// is none where no account has the account id that the bookmark carries.
pub fn edit_bookmark(bookmark: Bookmark, accounts: &[Account]) -> (form: Option<BookmarkForm>)
    ensures
        form is Some <==> owner_position(seq_model(accounts@), bookmark@.user_account_id)
            is Some,
        form matches Some(shown) ==> shown@ == edit_form(
            bookmark@,
            owner(bookmark@, seq_model(accounts@)),
        ),
{
    let position = match find_account(accounts, bookmark.user_account_id) {
        Some(position) => position,
        None => {
            return None;
        },
    };
    let account = &accounts[position];
    let save = Message::UpdateBookmark(account.clone(), bookmark.clone());
    Some(
        filled_form(
            bookmark,
            account,
            AccountInput::Fixed { display_name: account.display_name.clone() },
            save,
        ),
    )
}

/// The notes of `bookmark`, to be shown on their own.
pub fn view_notes(bookmark: Bookmark) -> (panel: NotesPanel)
    ensures
        panel@ == (NotesPanelModel { body: bookmark@.notes }),
{
    NotesPanel { body: bookmark.notes }
}

} // verus!
