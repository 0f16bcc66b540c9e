//! View model of a bookmark panel for linkding accounts: the records that a
//! sync delivers, and what the panel shows for them.

pub mod application;
pub mod clock;
pub mod models;
pub mod pages;
pub mod text;
