//! The contact record and the table row it is read from.

use vstd::prelude::*;

verus! {

/// One row of the `contact` table as a query hands it over, the columns by
/// position: id, firstname, lastname, phone, email.
pub type ContactRow = (i32, String, String, String, String);

/// A contact as the contracts see it: an integer and four texts.
pub struct ContactView {
    pub id: int,
    pub firstname: Seq<char>,
    pub lastname: Seq<char>,
    pub phone: Seq<char>,
    pub email: Seq<char>,
}

/// A contact. A plain record: any five values make one.
#[derive(Debug, Clone, PartialEq, Eq)]
pub struct Contact {
    pub id: i32,
    pub firstname: String,
    pub lastname: String,
    pub phone: String,
    pub email: String,
}

impl View for Contact {
    type V = ContactView;

    open spec fn view(&self) -> ContactView {
        ContactView {
            id: self.id as int,
            firstname: self.firstname@,
            lastname: self.lastname@,
            phone: self.phone@,
            email: self.email@,
        }
    }
}

/// The contact that a row stands for: column `k` of the row is field `k` of
/// the contact.
pub open spec fn row_view(row: ContactRow) -> ContactView {
    ContactView {
        id: row.0 as int,
        firstname: row.1@,
        lastname: row.2@,
        phone: row.3@,
        email: row.4@,
    }
}

impl Contact {
    /// Maps a row to a contact, column by column.
    pub fn from_row(row: ContactRow) -> (contact: Contact)
        ensures
            contact@ == row_view(row),
            contact.id == row.0,
            contact.firstname@ == row.1@,
            contact.lastname@ == row.2@,
            contact.phone@ == row.3@,
            contact.email@ == row.4@,
    {
        Contact { id: row.0, firstname: row.1, lastname: row.2, phone: row.3, email: row.4 }
    }
}

} // verus!
