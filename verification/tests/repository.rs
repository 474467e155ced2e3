use contact_repository::{
    contact_from_reply, contact_from_rows, not_found_message, select_by_id, Contact, ContactRow,
    Error, SELECT_BY_ID,
};

fn row(id: i32, firstname: &str, lastname: &str, phone: &str, email: &str) -> ContactRow {
    (
        id,
        firstname.to_string(),
        lastname.to_string(),
        phone.to_string(),
        email.to_string(),
    )
}

fn jane() -> ContactRow {
    row(7, "Jane", "Doe", "555-1234", "jane@x.com")
}

fn driver_failure() -> tokio_postgres::Error {
    match "port=none".parse::<tokio_postgres::Config>() {
        Ok(_) => panic!("a port that is no number must not parse"),
        Err(failure) => failure,
    }
}

fn intern_message(found: Result<Contact, Error>) -> String {
    match found {
        Err(Error::Intern(message)) => message,
        Err(Error::Db(failure)) => panic!("driver error where a message was due: {}", failure),
        Ok(contact) => panic!("contact where an error was due: {:?}", contact),
    }
}

#[test]
fn get_contact_no_contact() {
    let reply: Result<Vec<ContactRow>, tokio_postgres::Error> = Ok(Vec::new());
    assert!(contact_from_reply(12, reply).is_err(), "no results should be found")
}

#[test]
fn missing_row_twelve_names_twelve() {
    let message = intern_message(contact_from_reply(12, Ok(Vec::new())));
    assert!(message.contains("12"));
    assert_eq!(message, "no record with id 12");
}

#[test]
fn row_of_jane_gives_jane() {
    let contact = match contact_from_reply(7, Ok(vec![jane()])) {
        Ok(contact) => contact,
        Err(error) => panic!("one row must give a contact: {:?}", error),
    };
    assert_eq!(contact.id, 7);
    assert_eq!(contact.firstname, "Jane");
    assert_eq!(contact.lastname, "Doe");
    assert_eq!(contact.phone, "555-1234");
    assert_eq!(contact.email, "jane@x.com");
}

#[test]
fn no_row_is_never_a_contact() {
    for id in [i32::MIN, -40, -1, 0, 1, 12, 999, i32::MAX] {
        let found = contact_from_rows(id, Vec::new());
        assert!(matches!(found, Err(Error::Intern(_))));
        assert_eq!(intern_message(found), format!("no record with id {}", id));
    }
}

#[test]
fn one_row_maps_column_by_column() {
    let found = contact_from_rows(3, vec![row(3, "a", "b", "c", "d")]);
    let expected = Contact {
        id: 3,
        firstname: "a".to_string(),
        lastname: "b".to_string(),
        phone: "c".to_string(),
        email: "d".to_string(),
    };
    assert_eq!(found.ok(), Some(expected));
}

#[test]
fn row_is_taken_as_it_is() {
    // The identifier asked for plays no part once a row is there.
    let found = contact_from_rows(1, vec![row(2, "", "O'Neil", "+49 30 1234", "ö@x.de")]);
    let contact = found.ok().expect("one row must give a contact");
    assert_eq!(contact.id, 2);
    assert_eq!(contact.firstname, "");
    assert_eq!(contact.lastname, "O'Neil");
    assert_eq!(contact.phone, "+49 30 1234");
    assert_eq!(contact.email, "ö@x.de");
}

#[test]
fn first_of_several_rows_wins() {
    let rows = vec![jane(), row(7, "John", "Roe", "555-9999", "john@x.com"), row(8, "x", "y", "z", "w")];
    let contact = contact_from_rows(7, rows).ok().expect("rows must give a contact");
    assert_eq!(contact, Contact::from_row(jane()));
}

#[test]
fn driver_failure_is_handed_on() {
    let shown = driver_failure().to_string();
    match contact_from_reply(7, Err(driver_failure())) {
        Err(Error::Db(failure)) => assert_eq!(failure.to_string(), shown),
        Err(Error::Intern(message)) => panic!("message where the driver failed: {}", message),
        Ok(contact) => panic!("contact where the driver failed: {:?}", contact),
    }
}

#[test]
fn from_row_keeps_the_order_of_the_columns() {
    let contact = Contact::from_row(row(-5, "first", "last", "phone", "email"));
    assert_eq!(contact.id, -5);
    assert_eq!(contact.firstname, "first");
    assert_eq!(contact.lastname, "last");
    assert_eq!(contact.phone, "phone");
    assert_eq!(contact.email, "email");
}

#[test]
fn statement_selects_five_columns_by_id() {
    let query = select_by_id(12);
    assert_eq!(query.id, 12);
    assert_eq!(
        query.text,
        "SELECT id, firstname, lastname, phone, email FROM contact WHERE id = $1"
    );
    assert_eq!(query.text, SELECT_BY_ID);
    assert_eq!(select_by_id(i32::MIN).id, i32::MIN);
    assert_eq!(select_by_id(-1).text, query.text);
}

#[test]
fn not_found_message_is_exact() {
    assert_eq!(not_found_message(0), "no record with id 0");
    assert_eq!(not_found_message(12), "no record with id 12");
    assert_eq!(not_found_message(-3), "no record with id -3");
    assert_eq!(not_found_message(i32::MAX), "no record with id 2147483647");
    assert_eq!(not_found_message(i32::MIN), "no record with id -2147483648");
}

#[test]
fn messages_of_different_ids_differ() {
    let ids: [i32; 9] = [i32::MIN, -121, -12, -1, 0, 1, 12, 121, i32::MAX];
    for a in ids {
        for b in ids {
            assert_eq!(not_found_message(a) == not_found_message(b), a == b);
        }
    }
}

#[test]
fn error_from_message_is_intern() {
    match Error::from("gone".to_string()) {
        Error::Intern(message) => assert_eq!(message, "gone"),
        Error::Db(failure) => panic!("driver error from a message: {}", failure),
    }
}

#[test]
fn error_from_driver_is_db() {
    let shown = driver_failure().to_string();
    match Error::from(driver_failure()) {
        Error::Db(failure) => assert_eq!(failure.to_string(), shown),
        Error::Intern(message) => panic!("message from a driver error: {}", message),
    }
}
