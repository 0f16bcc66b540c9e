//! The card that the list shows for one bookmark.

use crate::application::ApplicationState;
use crate::models::account::{Account, AccountModel};
use crate::models::bookmarks::{Bookmark, BookmarkModel};
use crate::models::{optional_model, seq_model};
use crate::pages::bookmarks::{AppBookmarksMessage, AppBookmarksMessageModel};
use crate::text::{hash_tag_line, tag_line};
use vstd::prelude::*;

verus! {

/// A step of the theme's spacing scale, as far as the rows of a card use it.
#[derive(Debug, Clone, Copy, PartialEq, Eq, Structural)]
pub enum Spacing {
    Zero,
    Xxxs,
    Xxs,
}

/// The room around a row.
#[derive(Debug, Clone, Copy, PartialEq, Eq, Structural)]
pub struct Padding {
    pub top: Spacing,
    pub right: Spacing,
    pub bottom: Spacing,
    pub left: Spacing,
}

/// The link that a card's first row shows: the bookmark's title, which opens
/// the bookmark's address. It can be pressed whatever the application does.
#[derive(Debug, PartialEq, Eq)]
pub struct TitleLink {
    pub label: String,
    pub tooltip: String,
    pub on_press: AppBookmarksMessage,
}

/// What a [`TitleLink`] holds, as mathematical values.
pub struct TitleLinkModel {
    pub label: Seq<char>,
    pub tooltip: Seq<char>,
    pub on_press: AppBookmarksMessageModel,
}

impl View for TitleLink {
    type V = TitleLinkModel;

    open spec fn view(&self) -> TitleLinkModel {
        TitleLinkModel { label: self.label@, tooltip: self.tooltip@, on_press: self.on_press@ }
    }
}

/// A row of a card that holds one text.
#[derive(Debug, PartialEq, Eq)]
pub struct TextRow {
    pub text: String,
    pub padding: Padding,
}

/// What a [`TextRow`] holds, as mathematical values.
pub struct TextRowModel {
    pub text: Seq<char>,
    pub padding: Padding,
}

impl View for TextRow {
    type V = TextRowModel;

    open spec fn view(&self) -> TextRowModel {
        TextRowModel { text: self.text@, padding: self.padding }
    }
}

/// What a button of a card's action row does.
#[derive(Debug, Clone, Copy, PartialEq, Eq, Structural)]
pub enum CardAction {
    Edit,
    Remove,
    Notes,
    Snapshot,
}

/// A button of a card's action row. It can be pressed where `on_press` holds
/// a message.
#[derive(Debug, PartialEq, Eq)]
pub struct ActionButton {
    pub action: CardAction,
    pub tooltip: Option<String>,
    pub on_press: Option<AppBookmarksMessage>,
}

/// What an [`ActionButton`] holds, as mathematical values.
pub struct ActionButtonModel {
    pub action: CardAction,
    pub tooltip: Option<Seq<char>>,
    pub on_press: Option<AppBookmarksMessageModel>,
}

impl View for ActionButton {
    type V = ActionButtonModel;

    open spec fn view(&self) -> ActionButtonModel {
        ActionButtonModel {
            action: self.action,
            tooltip: optional_model(self.tooltip),
            on_press: optional_model(self.on_press),
        }
    }
}

/// A mark in a card's last row.
#[derive(Debug, Clone, Copy, PartialEq, Eq, Structural)]
pub enum Indicator {
    Archived,
    Unread,
    Shared,
}

/// The card of one bookmark: the title row, the description and the tags
/// where the bookmark has them, the action row, and the details row with the
/// day it was added, its marks and the name of its account.
#[derive(Debug, PartialEq, Eq)]
pub struct BookmarkCard {
    pub title: TitleLink,
    pub description: Option<TextRow>,
    pub tags: Option<TextRow>,
    pub actions: Vec<ActionButton>,
    pub date_added: String,
    pub indicators: Vec<Indicator>,
    pub account_name: String,
}

/// What a [`BookmarkCard`] holds, as mathematical values.
pub struct BookmarkCardModel {
    pub title: TitleLinkModel,
    pub description: Option<TextRowModel>,
    pub tags: Option<TextRowModel>,
    pub actions: Seq<ActionButtonModel>,
    pub date_added: Seq<char>,
    pub indicators: Seq<Indicator>,
    pub account_name: Seq<char>,
}

impl View for BookmarkCard {
    type V = BookmarkCardModel;

    open spec fn view(&self) -> BookmarkCardModel {
        BookmarkCardModel {
            title: self.title@,
            description: optional_model(self.description),
            tags: optional_model(self.tags),
            actions: seq_model(self.actions@),
            date_added: self.date_added@,
            indicators: self.indicators@,
            account_name: self.account_name@,
        }
    }
}

/// The message of a button that can be pressed only while no sync is under way.
pub open spec fn unless_refreshing(
    state: ApplicationState,
    message: AppBookmarksMessageModel,
) -> Option<AppBookmarksMessageModel> {
    if state == ApplicationState::Refreshing {
        None
    } else {
        Some(message)
    }
}

/// The description row of a bookmark's card: there is one where the
/// description is not empty. It closes up to the tag row where one follows.
pub open spec fn description_row(bookmark: BookmarkModel) -> Option<TextRowModel> {
    if bookmark.description.len() == 0 {
        None
    } else {
        Some(
            TextRowModel {
                text: bookmark.description,
                padding: Padding {
                    top: Spacing::Xxxs,
                    right: Spacing::Xxs,
                    bottom: if bookmark.tag_names.len() == 0 {
                        Spacing::Xxxs
                    } else {
                        Spacing::Zero
                    },
                    left: Spacing::Xxxs,
                },
            },
        )
    }
}

/// The tag row of a bookmark's card: there is one where the bookmark has
/// tags, and it holds their tag line. It keeps more room above where a
/// description row stands before it.
pub open spec fn tag_row(bookmark: BookmarkModel) -> Option<TextRowModel> {
    if bookmark.tag_names.len() == 0 {
        None
    } else {
        Some(
            TextRowModel {
                text: tag_line(bookmark.tag_names),
                padding: Padding {
                    top: if bookmark.description.len() == 0 {
                        Spacing::Xxxs
                    } else {
                        Spacing::Xxs
                    },
                    right: Spacing::Xxs,
                    bottom: Spacing::Xxxs,
                    left: Spacing::Xxxs,
                },
            },
        )
    }
}

/// The button that opens the edit form for the bookmark.
pub open spec fn edit_button(
    bookmark: BookmarkModel,
    account: AccountModel,
    state: ApplicationState,
) -> ActionButtonModel {
    ActionButtonModel {
        action: CardAction::Edit,
        tooltip: None,
        on_press: unless_refreshing(
            state,
            AppBookmarksMessageModel::EditBookmark(account, bookmark),
        ),
    }
}

/// The button that asks to remove the bookmark.
pub open spec fn remove_button(
    bookmark: BookmarkModel,
    account: AccountModel,
    state: ApplicationState,
) -> ActionButtonModel {
    ActionButtonModel {
        action: CardAction::Remove,
        tooltip: None,
        on_press: unless_refreshing(
            state,
            AppBookmarksMessageModel::DeleteBookmark(account, bookmark),
        ),
    }
}

/// The button that shows the bookmark's notes.
pub open spec fn notes_button(bookmark: BookmarkModel, state: ApplicationState) -> ActionButtonModel {
    ActionButtonModel {
        action: CardAction::Notes,
        tooltip: None,
        on_press: unless_refreshing(state, AppBookmarksMessageModel::ViewNotes(bookmark)),
    }
}

/// The button that opens the bookmark's archived snapshot.
pub open spec fn snapshot_button(
    bookmark: BookmarkModel,
    state: ApplicationState,
) -> ActionButtonModel {
    ActionButtonModel {
        action: CardAction::Snapshot,
        tooltip: Some(bookmark.web_archive_snapshot_url),
        on_press: unless_refreshing(
            state,
            AppBookmarksMessageModel::OpenExternalURL(bookmark.web_archive_snapshot_url),
        ),
    }
}

/// The action row of a bookmark's card: edit and remove, then notes where
/// the bookmark has notes, then the snapshot where it has one.
pub open spec fn action_row(
    bookmark: BookmarkModel,
    account: AccountModel,
    state: ApplicationState,
) -> Seq<ActionButtonModel> {
    seq![edit_button(bookmark, account, state), remove_button(bookmark, account, state)] + (
    if bookmark.notes.len() == 0 {
        Seq::empty()
    } else {
        seq![notes_button(bookmark, state)]
    }) + (if bookmark.web_archive_snapshot_url.len() == 0 {
        Seq::empty()
    } else {
        seq![snapshot_button(bookmark, state)]
    })
}

/// The marks of a bookmark's card: archived, unread and shared, each where
/// the bookmark is so, in this order.
pub open spec fn indicator_row(bookmark: BookmarkModel) -> Seq<Indicator> {
    (if bookmark.is_archived {
        seq![Indicator::Archived]
    } else {
        Seq::empty()
    }) + (if bookmark.unread {
        seq![Indicator::Unread]
    } else {
        Seq::empty()
    }) + (if bookmark.shared {
        seq![Indicator::Shared]
    } else {
        Seq::empty()
    })
}

/// The card of `bookmark`, which belongs to `account`, while the application
/// is in `state`; `date_added` is the day and time as the card shows them.
pub open spec fn card_model(
    bookmark: BookmarkModel,
    account: AccountModel,
    state: ApplicationState,
    date_added: Seq<char>,
) -> BookmarkCardModel {
    BookmarkCardModel {
        title: TitleLinkModel {
            label: bookmark.title,
            tooltip: bookmark.url,
            on_press: AppBookmarksMessageModel::OpenExternalURL(bookmark.url),
        },
        description: description_row(bookmark),
        tags: tag_row(bookmark),
        actions: action_row(bookmark, account, state),
        date_added,
        indicators: indicator_row(bookmark),
        account_name: account.display_name,
    }
}

/// Whether a row of buttons holds one for `action`.
pub open spec fn has_action(buttons: Seq<ActionButtonModel>, action: CardAction) -> bool {
    exists|i: int| 0 <= i < buttons.len() && (#[trigger] buttons[i]).action == action
}

/// A card has a description row where the bookmark's description is not
/// empty, and only there; the row holds the description.
pub proof fn law_description_row(
    bookmark: BookmarkModel,
    account: AccountModel,
    state: ApplicationState,
    date_added: Seq<char>,
)
    ensures
        card_model(bookmark, account, state, date_added).description is Some
            <==> bookmark.description.len() > 0,
        bookmark.description.len() > 0 ==> card_model(
            bookmark,
            account,
            state,
            date_added,
        ).description->0.text == bookmark.description,
{
}

/// A card has a tag row where the bookmark has tags, and only there; the row
/// holds the bookmark's tag line.
pub proof fn law_tag_row(
    bookmark: BookmarkModel,
    account: AccountModel,
    state: ApplicationState,
    date_added: Seq<char>,
)
    ensures
        card_model(bookmark, account, state, date_added).tags is Some
            <==> bookmark.tag_names.len() > 0,
        bookmark.tag_names.len() > 0 ==> card_model(
            bookmark,
            account,
            state,
            date_added,
        ).tags->0.text == tag_line(bookmark.tag_names),
{
}

/// A card offers the notes where the bookmark has notes, and only there.
pub proof fn law_notes_action(
    bookmark: BookmarkModel,
    account: AccountModel,
    state: ApplicationState,
    date_added: Seq<char>,
)
    ensures
        has_action(card_model(bookmark, account, state, date_added).actions, CardAction::Notes)
            <==> bookmark.notes.len() > 0,
{
    let actions = action_row(bookmark, account, state);
    if bookmark.notes.len() > 0 {
        assert(actions[2].action == CardAction::Notes);
    }
}

/// A card offers the snapshot where the bookmark has one, and only there.
pub proof fn law_snapshot_action(
    bookmark: BookmarkModel,
    account: AccountModel,
    state: ApplicationState,
    date_added: Seq<char>,
)
    ensures
        has_action(
            card_model(bookmark, account, state, date_added).actions,
            CardAction::Snapshot,
        ) <==> bookmark.web_archive_snapshot_url.len() > 0,
{
    let actions = action_row(bookmark, account, state);
    if bookmark.web_archive_snapshot_url.len() > 0 {
        assert(actions[actions.len() - 1].action == CardAction::Snapshot);
    }
}

/// Every card offers to edit and to remove its bookmark.
pub proof fn law_edit_and_remove_actions(
    bookmark: BookmarkModel,
    account: AccountModel,
    state: ApplicationState,
    date_added: Seq<char>,
)
    ensures
        has_action(card_model(bookmark, account, state, date_added).actions, CardAction::Edit),
        has_action(card_model(bookmark, account, state, date_added).actions, CardAction::Remove),
{
    let actions = action_row(bookmark, account, state);
    assert(actions[0].action == CardAction::Edit);
    assert(actions[1].action == CardAction::Remove);
}

/// While a sync is under way no button of a card's action row can be
/// pressed; otherwise each of them can.
pub proof fn law_actions_wait_for_refresh(
    bookmark: BookmarkModel,
    account: AccountModel,
    state: ApplicationState,
    date_added: Seq<char>,
)
    ensures
        forall|i: int|
            0 <= i < card_model(bookmark, account, state, date_added).actions.len() ==> ((
            #[trigger] card_model(bookmark, account, state, date_added).actions[i]).on_press
                is None <==> state == ApplicationState::Refreshing),
{
}

/// Keeps `message` for a button unless a sync is under way.
pub fn press_unless_refreshing(
    app_state: ApplicationState,
    message: AppBookmarksMessage,
) -> (on_press: Option<AppBookmarksMessage>)
    ensures
        optional_model(on_press) == unless_refreshing(app_state, message@),
{
    match app_state {
        ApplicationState::Refreshing => None,
        ApplicationState::Normal => Some(message),
    }
}

/// Builds the card of `bookmark`, which belongs to `account`.
pub fn bookmark_card(
    bookmark: &Bookmark,
    account: &Account,
    app_state: ApplicationState,
    date_added: String,
) -> (card: BookmarkCard)
    ensures
        card@ == card_model(bookmark@, account@, app_state, date_added@),
{
    let has_description = !bookmark.description.as_str().is_empty();
    let has_tags = !bookmark.tag_names.is_empty();
    let title = TitleLink {
        label: bookmark.title.clone(),
        tooltip: bookmark.url.clone(),
        on_press: AppBookmarksMessage::OpenExternalURL(bookmark.url.clone()),
    };
    let description = if has_description {
        Some(
            TextRow {
                text: bookmark.description.clone(),
                padding: Padding {
                    top: Spacing::Xxxs,
                    right: Spacing::Xxs,
                    bottom: if has_tags {
                        Spacing::Zero
                    } else {
                        Spacing::Xxxs
                    },
                    left: Spacing::Xxxs,
                },
            },
        )
    } else {
        None
    };
    let tags = if has_tags {
        Some(
            TextRow {
                text: hash_tag_line(&bookmark.tag_names),
                padding: Padding {
                    top: if has_description {
                        Spacing::Xxs
                    } else {
                        Spacing::Xxxs
                    },
                    right: Spacing::Xxs,
                    bottom: Spacing::Xxxs,
                    left: Spacing::Xxxs,
                },
            },
        )
    } else {
        None
    };
    let mut actions: Vec<ActionButton> = Vec::new();
    actions.push(
        ActionButton {
            action: CardAction::Edit,
            tooltip: None,
            on_press: press_unless_refreshing(
                app_state,
                AppBookmarksMessage::EditBookmark(account.clone(), bookmark.clone()),
            ),
        },
    );
    actions.push(
        ActionButton {
            action: CardAction::Remove,
            tooltip: None,
            on_press: press_unless_refreshing(
                app_state,
                AppBookmarksMessage::DeleteBookmark(account.clone(), bookmark.clone()),
            ),
        },
    );
    if !bookmark.notes.as_str().is_empty() {
        actions.push(
            ActionButton {
                action: CardAction::Notes,
                tooltip: None,
                on_press: press_unless_refreshing(
                    app_state,
                    AppBookmarksMessage::ViewNotes(bookmark.clone()),
                ),
            },
        );
    }
    if !bookmark.web_archive_snapshot_url.as_str().is_empty() {
        actions.push(
            ActionButton {
                action: CardAction::Snapshot,
                tooltip: Some(bookmark.web_archive_snapshot_url.clone()),
                on_press: press_unless_refreshing(
                    app_state,
                    AppBookmarksMessage::OpenExternalURL(
                        bookmark.web_archive_snapshot_url.clone(),
                    ),
                ),
            },
        );
    }
    assert(seq_model(actions@) =~= action_row(bookmark@, account@, app_state));
    let mut indicators: Vec<Indicator> = Vec::new();
    if bookmark.is_archived {
        indicators.push(Indicator::Archived);
    }
    if bookmark.unread {
        indicators.push(Indicator::Unread);
    }
    if bookmark.shared {
        indicators.push(Indicator::Shared);
    }
    assert(indicators@ =~= indicator_row(bookmark@));
    BookmarkCard {
        title,
        description,
        tags,
        actions,
        date_added,
        indicators,
        account_name: account.display_name.clone(),
    }
}

} // verus!
