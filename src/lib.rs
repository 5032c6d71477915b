//! A CardDAV client core: discovery of a user's addressbook collection,
//! addressing and outcome rules for contact resources, and the typed shape
//! of WebDAV multistatus replies; beside it, the mailbox and configuration
//! types of the mail client that hosts it.
use vstd::prelude::*;

pub mod card;
pub mod config;
pub mod discovery;
pub mod http;
pub mod mbox;
pub mod multistatus;
pub mod repository;
pub mod tui_args;

verus! {

} // verus!
