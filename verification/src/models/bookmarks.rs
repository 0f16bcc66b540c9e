use crate::models::account::{Account, AccountModel};
use crate::models::{optional_model, seq_model};
use vstd::prelude::*;

verus! {

/// One bookmark as a linkding account delivers it.
///
/// `url` and `title` are always there; the fields that a later sync may still
/// fill are optional.
#[derive(Debug, PartialEq, Eq)]
pub struct Bookmark {
    pub id: Option<i64>,
    pub user_account_id: Option<i64>,
    pub linkding_internal_id: Option<i64>,
    pub url: String,
    pub title: String,
    pub description: String,
    pub website_title: Option<String>,
    pub website_description: Option<String>,
    pub notes: String,
    pub web_archive_snapshot_url: String,
    pub favicon_url: Option<String>,
    pub preview_image_url: Option<String>,
    pub is_archived: bool,
    pub unread: bool,
    pub shared: bool,
    pub tag_names: Vec<String>,
    pub date_added: Option<String>,
    pub date_modified: Option<String>,
}

/// What a [`Bookmark`] holds, as mathematical values.
pub struct BookmarkModel {
    pub id: Option<i64>,
    pub user_account_id: Option<i64>,
    pub linkding_internal_id: Option<i64>,
    pub url: Seq<char>,
    pub title: Seq<char>,
    pub description: Seq<char>,
    pub website_title: Option<Seq<char>>,
    pub website_description: Option<Seq<char>>,
    pub notes: Seq<char>,
    pub web_archive_snapshot_url: Seq<char>,
    pub favicon_url: Option<Seq<char>>,
    pub preview_image_url: Option<Seq<char>>,
    pub is_archived: bool,
    pub unread: bool,
    pub shared: bool,
    pub tag_names: Seq<Seq<char>>,
    pub date_added: Option<Seq<char>>,
    pub date_modified: Option<Seq<char>>,
}

impl View for Bookmark {
    type V = BookmarkModel;

    open spec fn view(&self) -> BookmarkModel {
        BookmarkModel {
            id: self.id,
            user_account_id: self.user_account_id,
            linkding_internal_id: self.linkding_internal_id,
            url: self.url@,
            title: self.title@,
            description: self.description@,
            website_title: optional_model(self.website_title),
            website_description: optional_model(self.website_description),
            notes: self.notes@,
            web_archive_snapshot_url: self.web_archive_snapshot_url@,
            favicon_url: optional_model(self.favicon_url),
            preview_image_url: optional_model(self.preview_image_url),
            is_archived: self.is_archived,
            unread: self.unread,
            shared: self.shared,
            tag_names: self.tag_names.deep_view(),
            date_added: optional_model(self.date_added),
            date_modified: optional_model(self.date_modified),
        }
    }
}

impl Bookmark {
    /// The bookmark for one entry of a linkding response.
    ///
    /// It has no local id yet. The site's title and description and the two
    /// image addresses are taken as given, also where they are empty.
    pub fn new(
        account_id: Option<i64>,
        linkding_id: Option<i64>,
        linkding_url: String,
        linkding_title: String,
        linkding_description: String,
        linkding_website_title: String,
        linkding_website_description: String,
        linkding_notes: String,
        linkding_web_archive_snapshot_url: String,
        linkding_favicon_url: String,
        linkding_preview_image_url: String,
        linkding_is_archived: bool,
        linkding_unread: bool,
        linkding_shared: bool,
        linkding_tag_names: Vec<String>,
        linkding_date_added: Option<String>,
        linkding_date_modified: Option<String>,
    ) -> (bookmark: Self)
        ensures
            bookmark@ == (BookmarkModel {
                id: None,
                user_account_id: account_id,
                linkding_internal_id: linkding_id,
                url: linkding_url@,
                title: linkding_title@,
                description: linkding_description@,
                website_title: Some(linkding_website_title@),
                website_description: Some(linkding_website_description@),
                notes: linkding_notes@,
                web_archive_snapshot_url: linkding_web_archive_snapshot_url@,
                favicon_url: Some(linkding_favicon_url@),
                preview_image_url: Some(linkding_preview_image_url@),
                is_archived: linkding_is_archived,
                unread: linkding_unread,
                shared: linkding_shared,
                tag_names: linkding_tag_names.deep_view(),
                date_added: optional_model(linkding_date_added),
                date_modified: optional_model(linkding_date_modified),
            }),
    {
        Self {
            id: None,
            user_account_id: account_id,
            linkding_internal_id: linkding_id,
            url: linkding_url,
            title: linkding_title,
            description: linkding_description,
            website_title: Some(linkding_website_title),
            website_description: Some(linkding_website_description),
            notes: linkding_notes,
            web_archive_snapshot_url: linkding_web_archive_snapshot_url,
            favicon_url: Some(linkding_favicon_url),
            preview_image_url: Some(linkding_preview_image_url),
            is_archived: linkding_is_archived,
            unread: linkding_unread,
            shared: linkding_shared,
            tag_names: linkding_tag_names,
            date_added: linkding_date_added,
            date_modified: linkding_date_modified,
        }
    }
}

impl Clone for Bookmark {
    fn clone(&self) -> (copy: Self)
        ensures
            copy@ == self@,
    {
        let tag_names = self.tag_names.clone();
        Bookmark {
            id: self.id,
            user_account_id: self.user_account_id,
            linkding_internal_id: self.linkding_internal_id,
            url: self.url.clone(),
            title: self.title.clone(),
            description: self.description.clone(),
            website_title: self.website_title.clone(),
            website_description: self.website_description.clone(),
            notes: self.notes.clone(),
            web_archive_snapshot_url: self.web_archive_snapshot_url.clone(),
            favicon_url: self.favicon_url.clone(),
            preview_image_url: self.preview_image_url.clone(),
            is_archived: self.is_archived,
            unread: self.unread,
            shared: self.shared,
            tag_names,
            date_added: self.date_added.clone(),
            date_modified: self.date_modified.clone(),
        }
    }
}

/// One page of a linkding bookmark listing.
#[derive(Debug)]
pub struct BookmarksApiResponse {
    pub count: u64,
    pub next: Option<String>,
    pub previous: Option<String>,
    pub results: Vec<Bookmark>,
}

/// What a [`BookmarksApiResponse`] holds, as mathematical values.
pub struct BookmarksApiResponseModel {
    pub count: u64,
    pub next: Option<Seq<char>>,
    pub previous: Option<Seq<char>>,
    pub results: Seq<BookmarkModel>,
}

impl View for BookmarksApiResponse {
    type V = BookmarksApiResponseModel;

    open spec fn view(&self) -> BookmarksApiResponseModel {
        BookmarksApiResponseModel {
            count: self.count,
            next: optional_model(self.next),
            previous: optional_model(self.previous),
            results: seq_model(self.results@),
        }
    }
}

impl Clone for BookmarksApiResponse {
    fn clone(&self) -> (copy: Self)
        ensures
            copy@ == self@,
    {
        let results = self.results.clone();
        assert(seq_model(results@) =~= seq_model(self.results@));
        BookmarksApiResponse {
            count: self.count,
            next: self.next.clone(),
            previous: self.previous.clone(),
            results,
        }
    }
}

/// The outcome of fetching one account's bookmarks.
#[derive(Debug)]
pub struct DetailedResponse {
    pub account: Account,
    pub timestamp: i64,
    pub successful: bool,
    pub bookmarks: Option<Vec<Bookmark>>,
}

/// What a [`DetailedResponse`] holds, as mathematical values.
pub struct DetailedResponseModel {
    pub account: AccountModel,
    pub timestamp: i64,
    pub successful: bool,
    pub bookmarks: Option<Seq<BookmarkModel>>,
}

/// The models of an optional list of bookmarks.
pub open spec fn optional_seq_model(bookmarks: Option<Vec<Bookmark>>) -> Option<
    Seq<BookmarkModel>,
> {
    match bookmarks {
        Some(list) => Some(seq_model(list@)),
        None => None,
    }
}

impl View for DetailedResponse {
    type V = DetailedResponseModel;

    open spec fn view(&self) -> DetailedResponseModel {
        DetailedResponseModel {
            account: self.account@,
            timestamp: self.timestamp,
            successful: self.successful,
            bookmarks: optional_seq_model(self.bookmarks),
        }
    }
}

impl DetailedResponse {
    /// Pairs an account with what fetching its bookmarks gave.
    pub fn new(
        response_account: Account,
        response_timestamp: i64,
        response_successful: bool,
        response_bookmarks: Option<Vec<Bookmark>>,
    ) -> (response: Self)
        ensures
            response@ == (DetailedResponseModel {
                account: response_account@,
                timestamp: response_timestamp,
                successful: response_successful,
                bookmarks: optional_seq_model(response_bookmarks),
            }),
    {
        Self {
            account: response_account,
            timestamp: response_timestamp,
            successful: response_successful,
            bookmarks: response_bookmarks,
        }
    }
}

impl Clone for DetailedResponse {
    fn clone(&self) -> (copy: Self)
        ensures
            copy@ == self@,
    {
        let bookmarks = match &self.bookmarks {
            Some(list) => {
                let copies = list.clone();
                assert(seq_model(copies@) =~= seq_model(list@));
                Some(copies)
            },
            None => None,
        };
        DetailedResponse {
            account: self.account.clone(),
            timestamp: self.timestamp,
            successful: self.successful,
            bookmarks,
        }
    }
}

} // verus!
