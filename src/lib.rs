//! Primitive types and traits of the Nimbus consensus framework.
//!
//! The framework decides whether a candidate author may produce the block of a
//! slot. Eligibility policies are plugged in through [`CanAuthor`], can be
//! layered by composition, and can be queried ahead of block execution through
//! [`AuthorFilterAPI`].
pub mod author;
pub mod ids;

pub use author::{note_if_eligible, AuthorFilterAPI, CanAuthor, Either, EventHandler, Precheck, SlotBeacon};
pub use ids::{nimbus_key_id, ENGINE_ID, NIMBUS_KEY_TYPE};
