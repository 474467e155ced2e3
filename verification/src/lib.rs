//! Data access for a single entity, the contact, kept in a relational table.
//!
//! The crate holds the decisions of a fetch by identifier: which statement is
//! sent, and what the answer of the database means. Sending the statement is
//! left to the caller, who hands the answer back as plain values.

pub mod contact;
pub mod decimal;
pub mod error;
pub mod repository;

pub use contact::{Contact, ContactRow};
pub use error::Error;
pub use repository::{
    contact_from_reply, contact_from_rows, not_found_message, select_by_id, Query, SELECT_BY_ID,
};
