//! What the panel shares with the application around it: the state the
//! application is in, and the messages it takes.

use crate::models::account::{Account, AccountModel};
use crate::models::bookmarks::{Bookmark, BookmarkModel};
use vstd::prelude::*;

verus! {

/// Whether a sync is under way.
#[derive(Debug, Clone, Copy, PartialEq, Eq, Structural)]
pub enum ApplicationState {
    Normal,
    Refreshing,
}

/// A message to the application.
#[derive(Debug, PartialEq, Eq)]
pub enum Message {
    OpenAccountsPage,
    StartRefreshBookmarksForAllAccounts,
    AddBookmarkForm,
    AddBookmarkFormAccountIndex(usize),
    OpenRemoveBookmarkDialog(Account, Bookmark),
    EditBookmark(Account, Bookmark),
    SearchBookmarks(String),
    LoadBookmarks,
    OpenExternalUrl(String),
    ViewBookmarkNotes(Bookmark),
    AddBookmark(Account, Bookmark),
    UpdateBookmark(Account, Bookmark),
    SetBookmarkURL(String),
    SetBookmarkTitle(String),
    SetBookmarkDescription(String),
    SetBookmarkNotes(String),
    SetBookmarkTags(String),
    SetBookmarkArchived(bool),
    SetBookmarkUnread(bool),
    SetBookmarkShared(bool),
    Empty,
}

/// What a [`Message`] holds, as mathematical values.
pub enum MessageModel {
    OpenAccountsPage,
    StartRefreshBookmarksForAllAccounts,
    AddBookmarkForm,
    AddBookmarkFormAccountIndex(usize),
    OpenRemoveBookmarkDialog(AccountModel, BookmarkModel),
    EditBookmark(AccountModel, BookmarkModel),
    SearchBookmarks(Seq<char>),
    LoadBookmarks,
    OpenExternalUrl(Seq<char>),
    ViewBookmarkNotes(BookmarkModel),
    AddBookmark(AccountModel, BookmarkModel),
    UpdateBookmark(AccountModel, BookmarkModel),
    SetBookmarkURL(Seq<char>),
    SetBookmarkTitle(Seq<char>),
    SetBookmarkDescription(Seq<char>),
    SetBookmarkNotes(Seq<char>),
    SetBookmarkTags(Seq<char>),
    SetBookmarkArchived(bool),
    SetBookmarkUnread(bool),
    SetBookmarkShared(bool),
    Empty,
}

impl View for Message {
    type V = MessageModel;

    open spec fn view(&self) -> MessageModel {
        match self {
            Message::OpenAccountsPage => MessageModel::OpenAccountsPage,
            Message::StartRefreshBookmarksForAllAccounts => {
                MessageModel::StartRefreshBookmarksForAllAccounts
            },
            Message::AddBookmarkForm => MessageModel::AddBookmarkForm,
            Message::AddBookmarkFormAccountIndex(index) => {
                MessageModel::AddBookmarkFormAccountIndex(*index)
            },
            Message::OpenRemoveBookmarkDialog(account, bookmark) => {
                MessageModel::OpenRemoveBookmarkDialog(account@, bookmark@)
            },
            Message::EditBookmark(account, bookmark) => MessageModel::EditBookmark(
                account@,
                bookmark@,
            ),
            Message::SearchBookmarks(query) => MessageModel::SearchBookmarks(query@),
            Message::LoadBookmarks => MessageModel::LoadBookmarks,
            Message::OpenExternalUrl(url) => MessageModel::OpenExternalUrl(url@),
            Message::ViewBookmarkNotes(bookmark) => MessageModel::ViewBookmarkNotes(bookmark@),
            Message::AddBookmark(account, bookmark) => MessageModel::AddBookmark(
                account@,
                bookmark@,
            ),
            Message::UpdateBookmark(account, bookmark) => MessageModel::UpdateBookmark(
                account@,
                bookmark@,
            ),
            Message::SetBookmarkURL(text) => MessageModel::SetBookmarkURL(text@),
            Message::SetBookmarkTitle(text) => MessageModel::SetBookmarkTitle(text@),
            Message::SetBookmarkDescription(text) => MessageModel::SetBookmarkDescription(text@),
            Message::SetBookmarkNotes(text) => MessageModel::SetBookmarkNotes(text@),
            Message::SetBookmarkTags(text) => MessageModel::SetBookmarkTags(text@),
            Message::SetBookmarkArchived(value) => MessageModel::SetBookmarkArchived(*value),
            Message::SetBookmarkUnread(value) => MessageModel::SetBookmarkUnread(*value),
            Message::SetBookmarkShared(value) => MessageModel::SetBookmarkShared(*value),
            Message::Empty => MessageModel::Empty,
        }
    }
}

impl Clone for Message {
    fn clone(&self) -> (copy: Self)
        ensures
            copy@ == self@,
    {
        match self {
            Message::OpenAccountsPage => Message::OpenAccountsPage,
            Message::StartRefreshBookmarksForAllAccounts => {
                Message::StartRefreshBookmarksForAllAccounts
            },
            Message::AddBookmarkForm => Message::AddBookmarkForm,
            Message::AddBookmarkFormAccountIndex(index) => Message::AddBookmarkFormAccountIndex(
                *index,
            ),
            Message::OpenRemoveBookmarkDialog(account, bookmark) => {
                Message::OpenRemoveBookmarkDialog(account.clone(), bookmark.clone())
            },
            Message::EditBookmark(account, bookmark) => Message::EditBookmark(
                account.clone(),
                bookmark.clone(),
            ),
            Message::SearchBookmarks(query) => Message::SearchBookmarks(query.clone()),
            Message::LoadBookmarks => Message::LoadBookmarks,
            Message::OpenExternalUrl(url) => Message::OpenExternalUrl(url.clone()),
            Message::ViewBookmarkNotes(bookmark) => Message::ViewBookmarkNotes(bookmark.clone()),
            Message::AddBookmark(account, bookmark) => Message::AddBookmark(
                account.clone(),
                bookmark.clone(),
            ),
            Message::UpdateBookmark(account, bookmark) => Message::UpdateBookmark(
                account.clone(),
                bookmark.clone(),
            ),
            Message::SetBookmarkURL(text) => Message::SetBookmarkURL(text.clone()),
            Message::SetBookmarkTitle(text) => Message::SetBookmarkTitle(text.clone()),
            Message::SetBookmarkDescription(text) => Message::SetBookmarkDescription(text.clone()),
            Message::SetBookmarkNotes(text) => Message::SetBookmarkNotes(text.clone()),
            Message::SetBookmarkTags(text) => Message::SetBookmarkTags(text.clone()),
            Message::SetBookmarkArchived(value) => Message::SetBookmarkArchived(*value),
            Message::SetBookmarkUnread(value) => Message::SetBookmarkUnread(*value),
            Message::SetBookmarkShared(value) => Message::SetBookmarkShared(*value),
            Message::Empty => Message::Empty,
        }
    }
}

} // verus!
