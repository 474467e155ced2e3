//! The fetch of one contact by its identifier.
//!
//! A fetch takes two steps. [`select_by_id`] says what is sent to the
//! database. The database answers with the rows that match, or the driver
//! with an error; [`contact_from_reply`] says what that answer means.

use crate::contact::{row_view, Contact, ContactRow};
use crate::decimal::{decimal, decimal_string, lemma_decimal_injective};
use crate::error::Error;
use tokio_postgres::Error as PgError;
use vstd::prelude::*;

verus! {

/// The statement of a fetch: all five columns of the rows of `contact` whose
/// id is the statement's one parameter.
pub const SELECT_BY_ID: &'static str =
    "SELECT id, firstname, lastname, phone, email FROM contact WHERE id = $1";

/// A statement with one positional parameter, and the value bound to it.
#[derive(Debug, Clone, Copy)]
pub struct Query {
    pub text: &'static str,
    pub id: i32,
}

/// The text of the error for an identifier that no row has.
pub open spec fn not_found_text(id: int) -> Seq<char> {
    "no record with id "@ + decimal(id)
}

/// The message for a missing row names the identifier: two identifiers with
/// the same message are the same.
pub proof fn lemma_not_found_text_names_id(a: int, b: int)
    requires
        not_found_text(a) == not_found_text(b),
    ensures
        a == b,
{
    let prefix = "no record with id "@;
    let n = prefix.len() as int;
    assert(not_found_text(a).subrange(n, not_found_text(a).len() as int) == decimal(a));
    assert(not_found_text(b).subrange(n, not_found_text(b).len() as int) == decimal(b));
    lemma_decimal_injective(a, b);
}

/// What is sent to fetch the contact `id`: the one statement of this crate,
/// with `id` as its parameter.
pub fn select_by_id(id: i32) -> (query: Query)
    ensures
        query.text@ == SELECT_BY_ID@,
        query.id == id,
{
    Query { text: SELECT_BY_ID, id }
}

/// The message of the error for an identifier that no row has.
pub fn not_found_message(id: i32) -> (message: String)
    ensures
        message@ == not_found_text(id as int),
{
    let mut message = String::from_str("no record with id ");
    let number = decimal_string(id);
    message.append(number.as_str());
    message
}

/// Picks the contact out of the rows that matched `id`.
///
/// No row is an error that names `id`. Otherwise the first row is the
/// contact, whatever follows it: where the identifier is a key of the table,
/// nothing does.
pub fn contact_from_rows(id: i32, rows: Vec<ContactRow>) -> (found: Result<Contact, Error>)
    ensures
        rows@.len() == 0 ==> (found matches Err(Error::Intern(message)) && message@
            == not_found_text(id as int)),
        rows@.len() > 0 ==> (found matches Ok(contact) && contact@ == row_view(rows@[0])),
{
    let mut rows = rows;
    if rows.len() == 0 {
        Err(Error::Intern(not_found_message(id)))
    } else {
        let first = rows.swap_remove(0);
        Ok(Contact::from_row(first))
    }
}

/// What the answer to the statement of `id` means.
///
/// A failure of the driver is handed on as it is. Rows are read by
/// [`contact_from_rows`].
pub fn contact_from_reply(id: i32, reply: Result<Vec<ContactRow>, PgError>) -> (found: Result<
    Contact,
    Error,
>)
    ensures
        match reply {
            Err(failure) => found == Err::<Contact, Error>(Error::Db(failure)),
            Ok(rows) => {
                &&& rows@.len() == 0 ==> (found matches Err(Error::Intern(message)) && message@
                    == not_found_text(id as int))
                &&& rows@.len() > 0 ==> (found matches Ok(contact) && contact@ == row_view(
                    rows@[0],
                ))
            },
        },
{
    match reply {
        Err(failure) => Err(Error::from(failure)),
        Ok(rows) => contact_from_rows(id, rows),
    }
}

} // verus!
