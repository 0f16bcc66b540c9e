//! What the panel shows.

pub mod bookmarks;
pub mod card;
pub mod form;
