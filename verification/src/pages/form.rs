//! The forms for a new bookmark and for one that exists, and the notes of a
//! bookmark.

use crate::application::{Message, MessageModel};
use crate::models::account::AccountModel;
use crate::models::bookmarks::BookmarkModel;
use crate::text::tag_entry;
use vstd::prelude::*;

verus! {

/// How a form shows the account of its bookmark.
#[derive(Debug, PartialEq, Eq)]
pub enum AccountInput {
    /// A choice among the accounts: `options` holds their names, in their
    /// order, and the one at `selected` is chosen.
    Choice { options: Vec<String>, selected: usize },
    /// The name of the account, which cannot be changed.
    Fixed { display_name: String },
}

/// What an [`AccountInput`] holds, as mathematical values.
pub enum AccountInputModel {
    Choice { options: Seq<Seq<char>>, selected: usize },
    Fixed { display_name: Seq<char> },
}

impl View for AccountInput {
    type V = AccountInputModel;

    open spec fn view(&self) -> AccountInputModel {
        match self {
            AccountInput::Choice { options, selected } => AccountInputModel::Choice {
                options: options.deep_view(),
                selected: *selected,
            },
            AccountInput::Fixed { display_name } => AccountInputModel::Fixed {
                display_name: display_name@,
            },
        }
    }
}

/// The box for sharing a bookmark.
#[derive(Debug, Clone, Copy, PartialEq, Eq, Structural)]
pub enum SharedToggle {
    /// The account shares bookmarks: the box can be toggled.
    Enabled { checked: bool },
    /// The account does not share bookmarks: the box is unchecked and stays so.
    Disabled,
}

/// A form for one bookmark: the account, the five text fields, the three
/// boxes, and the message of the save button.
#[derive(Debug, PartialEq, Eq)]
pub struct BookmarkForm {
    pub account: AccountInput,
    pub url: String,
    pub title: String,
    pub description: String,
    pub notes: String,
    pub tags: String,
    pub archived: bool,
    pub unread: bool,
    pub shared: SharedToggle,
    pub save: Message,
}

/// What a [`BookmarkForm`] holds, as mathematical values.
pub struct BookmarkFormModel {
    pub account: AccountInputModel,
    pub url: Seq<char>,
    pub title: Seq<char>,
    pub description: Seq<char>,
    pub notes: Seq<char>,
    pub tags: Seq<char>,
    pub archived: bool,
    pub unread: bool,
    pub shared: SharedToggle,
    pub save: MessageModel,
}

impl View for BookmarkForm {
    type V = BookmarkFormModel;

    open spec fn view(&self) -> BookmarkFormModel {
        BookmarkFormModel {
            account: self.account@,
            url: self.url@,
            title: self.title@,
            description: self.description@,
            notes: self.notes@,
            tags: self.tags@,
            archived: self.archived,
            unread: self.unread,
            shared: self.shared,
            save: self.save@,
        }
    }
}

/// The box for sharing `bookmark` in a form for `account`.
pub open spec fn shared_toggle(bookmark: BookmarkModel, account: AccountModel) -> SharedToggle {
    if account.enable_sharing {
        SharedToggle::Enabled { checked: bookmark.shared }
    } else {
        SharedToggle::Disabled
    }
}

/// The form for `bookmark` under `account`, with `input` for the account and
/// `save` for the save button: the fields hold what the bookmark holds, the
/// tags as names with a space between neighbours.
pub open spec fn form_model(
    bookmark: BookmarkModel,
    account: AccountModel,
    input: AccountInputModel,
    save: MessageModel,
) -> BookmarkFormModel {
    BookmarkFormModel {
        account: input,
        url: bookmark.url,
        title: bookmark.title,
        description: bookmark.description,
        notes: bookmark.notes,
        tags: tag_entry(bookmark.tag_names),
        archived: bookmark.is_archived,
        unread: bookmark.unread,
        shared: shared_toggle(bookmark, account),
        save,
    }
}

/// The names of the accounts, in the order of the accounts.
pub open spec fn display_names(accounts: Seq<AccountModel>) -> Seq<Seq<char>> {
    Seq::new(accounts.len(), |i: int| accounts[i].display_name)
}

/// The form for a new bookmark while the account at `selected` is chosen:
/// every account can be chosen, by its name and in the order of the
/// accounts, and saving adds the bookmark to the chosen one.
pub open spec fn add_form(
    bookmark: BookmarkModel,
    accounts: Seq<AccountModel>,
    selected: usize,
) -> BookmarkFormModel {
    form_model(
        bookmark,
        accounts[selected as int],
        AccountInputModel::Choice { options: display_names(accounts), selected },
        MessageModel::AddBookmark(accounts[selected as int], bookmark),
    )
}

/// The form for a bookmark of `account`: the account is fixed, and saving
/// updates the bookmark.
pub open spec fn edit_form(bookmark: BookmarkModel, account: AccountModel) -> BookmarkFormModel {
    form_model(
        bookmark,
        account,
        AccountInputModel::Fixed { display_name: account.display_name },
        MessageModel::UpdateBookmark(account, bookmark),
    )
}

/// The form for a new bookmark offers every account, by its name and in the
/// order of the accounts, and shows as chosen the one that was asked for.
pub proof fn law_add_form_lists_accounts(
    bookmark: BookmarkModel,
    accounts: Seq<AccountModel>,
    selected: usize,
)
    ensures
        add_form(bookmark, accounts, selected).account matches AccountInputModel::Choice {
            options,
            selected: chosen,
        } && chosen == selected && options.len() == accounts.len() && forall|i: int|
            0 <= i < accounts.len() ==> #[trigger] options[i] == accounts[i].display_name,
{
}

/// A form's box for sharing can be toggled where the account shares
/// bookmarks, and only there; it then shows whether the bookmark is shared.
pub proof fn law_sharing_follows_account(
    bookmark: BookmarkModel,
    account: AccountModel,
    input: AccountInputModel,
    save: MessageModel,
)
    ensures
        form_model(bookmark, account, input, save).shared is Enabled <==> account.enable_sharing,
        account.enable_sharing ==> form_model(bookmark, account, input, save).shared == (
        SharedToggle::Enabled { checked: bookmark.shared }),
{
}

/// A text field of a form.
#[derive(Debug, Clone, Copy, PartialEq, Eq, Structural)]
pub enum TextField {
    Url,
    Title,
    Description,
    Notes,
    Tags,
}

/// A box of a form.
#[derive(Debug, Clone, Copy, PartialEq, Eq, Structural)]
pub enum Toggle {
    Archived,
    Unread,
    Shared,
}

/// The message for `text` in the text field `field`.
pub open spec fn text_message(field: TextField, text: Seq<char>) -> MessageModel {
    match field {
        TextField::Url => MessageModel::SetBookmarkURL(text),
        TextField::Title => MessageModel::SetBookmarkTitle(text),
        TextField::Description => MessageModel::SetBookmarkDescription(text),
        TextField::Notes => MessageModel::SetBookmarkNotes(text),
        TextField::Tags => MessageModel::SetBookmarkTags(text),
    }
}

/// The message for the new state `value` of the box `toggle`.
pub open spec fn toggle_message(toggle: Toggle, value: bool) -> MessageModel {
    match toggle {
        Toggle::Archived => MessageModel::SetBookmarkArchived(value),
        Toggle::Unread => MessageModel::SetBookmarkUnread(value),
        Toggle::Shared => MessageModel::SetBookmarkShared(value),
    }
}

/// What the application is told when `text` was entered in `field`.
pub fn text_entered(field: TextField, text: String) -> (message: Message)
    ensures
        message@ == text_message(field, text@),
{
    match field {
        TextField::Url => Message::SetBookmarkURL(text),
        TextField::Title => Message::SetBookmarkTitle(text),
        TextField::Description => Message::SetBookmarkDescription(text),
        TextField::Notes => Message::SetBookmarkNotes(text),
        TextField::Tags => Message::SetBookmarkTags(text),
    }
}

/// What the application is told when the box `toggle` was set to `value`.
pub fn toggled(toggle: Toggle, value: bool) -> (message: Message)
    ensures
        message@ == toggle_message(toggle, value),
{
    match toggle {
        Toggle::Archived => Message::SetBookmarkArchived(value),
        Toggle::Unread => Message::SetBookmarkUnread(value),
        Toggle::Shared => Message::SetBookmarkShared(value),
    }
}

/// What the application is told when the account at `index` was chosen in the
/// form for a new bookmark.
pub fn account_chosen(index: usize) -> (message: Message)
    ensures
        message@ == MessageModel::AddBookmarkFormAccountIndex(index),
{
    Message::AddBookmarkFormAccountIndex(index)
}

/// The notes of a bookmark, as they are shown on their own.
#[derive(Debug, PartialEq, Eq)]
pub struct NotesPanel {
    pub body: String,
}

/// What a [`NotesPanel`] holds, as mathematical values.
pub struct NotesPanelModel {
    pub body: Seq<char>,
}

impl View for NotesPanel {
    type V = NotesPanelModel;

    open spec fn view(&self) -> NotesPanelModel {
        NotesPanelModel { body: self.body@ }
    }
}

} // verus!
