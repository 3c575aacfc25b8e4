use invoice_cli::crud::{
    config_query, config_upsert, list_query, read_query, selected_id, selection_options, Crud,
};
use invoice_cli::descriptors::{DeleteCompany, DeleteInvoice, EntityDeleter};
use invoice_cli::hydrate::{config_from_row, DbError};
use invoice_cli::models::{Company, Config, Models, ShortList};
use invoice_cli::prepare::CompileError;
use invoice_cli::value::SqlValue;

#[test]
fn crud_statements_have_their_shapes() {
    let create = Crud::Create {
        table: Models::Items,
        columns: vec!["name".to_string(), "rate".to_string()],
        values: vec![SqlValue::Text("W".to_string()), SqlValue::Integer(100)],
    };
    assert_eq!(create.to_query(), Ok("INSERT INTO items (name, rate) VALUES (?, ?)".to_string()));
    assert_eq!(create.params(), vec![SqlValue::Text("W".to_string()), SqlValue::Integer(100)]);
    let update = Crud::Update {
        table: Models::Terms,
        id: 4,
        columns: vec!["due".to_string()],
        values: vec![SqlValue::Integer(15)],
    };
    assert_eq!(update.to_query(), Ok("UPDATE terms SET due = ? WHERE id = ?".to_string()));
    assert_eq!(update.params(), vec![SqlValue::Integer(15), SqlValue::Integer(4)]);
    assert_eq!(Crud::ListAll { table: Models::Client }.to_query(), Ok("SELECT * FROM client ORDER BY id".to_string()));
    let read = Crud::Read { table: Models::Methods, id: 2 };
    assert_eq!(read.to_query(), Ok("SELECT * FROM methods WHERE id = ? ORDER BY id".to_string()));
    assert_eq!(read.params(), vec![SqlValue::Integer(2)]);
    let del = Crud::Delete { table: Models::Templates, id: 3 };
    assert_eq!(del.to_query(), Ok("DELETE FROM templates WHERE id = ?".to_string()));
    let empty = Crud::Create { table: Models::Items, columns: vec![], values: vec![] };
    assert_eq!(empty.to_query(), Err(CompileError::EmptyFieldList));
    let uneven = Crud::Update {
        table: Models::Items,
        id: 1,
        columns: vec!["name".to_string()],
        values: vec![],
    };
    assert_eq!(uneven.to_query(), Err(CompileError::EmptyFieldList));
    let mismatched = Crud::Create {
        table: Models::Items,
        columns: vec!["name".to_string(), "rate".to_string()],
        values: vec![SqlValue::Integer(1)],
    };
    assert_eq!(mismatched.to_query(), Err(CompileError::ArityMismatch));
}

#[test]
fn picker_labels_are_dates_for_invoices_and_names_elsewhere() {
    assert_eq!(list_query(Models::Invoices), "SELECT id, date FROM invoices");
    assert_eq!(list_query(Models::Company), "SELECT id, name FROM company");
    assert_eq!(read_query(Models::Items), "SELECT * FROM items WHERE id = ? ORDER BY id");
    assert_eq!(Models::Templates.table_name(), "templates");
    assert_eq!(Models::Config.table_name(), "email_config");
}

#[test]
fn entities_give_the_request_that_deletes_them() {
    let mut c = Company::new();
    c.id = 17;
    let d: DeleteCompany = c.delete();
    assert_eq!(d, DeleteCompany { id: 17 });
    assert_eq!(DeleteInvoice { id: 2 }.id, 2);
}

#[test]
fn mail_settings_store_as_one_row_and_read_back() {
    let c = Config::default();
    assert_eq!(c.smtp_server, "smtp.example.com");
    assert_eq!(c.port, 587);
    let stmt = config_upsert(&c);
    assert_eq!(
        stmt.query,
        "INSERT OR REPLACE INTO email_config (id, smtp_server, port, tls, username, password, fromname) VALUES (0, ?, ?, ?, ?, ?, ?)"
    );
    assert_eq!(stmt.params[1], SqlValue::Integer(587));
    assert_eq!(config_query(), "SELECT * FROM email_config WHERE id = 0");
    let row = vec![
        SqlValue::Integer(0),
        SqlValue::Text("smtp.test".to_string()),
        SqlValue::Integer(465),
        SqlValue::Integer(1),
        SqlValue::Text("me".to_string()),
        SqlValue::Text("SECRET-REDACTED".to_string()),
        SqlValue::Text("Me".to_string()),
    ];
    let read = config_from_row(Some(row.clone())).unwrap().unwrap();
    assert_eq!(read.port, 465);
    assert!(read.tls);
    assert_eq!(config_from_row(None), Ok(None));
    let mut bad = row;
    bad[2] = SqlValue::Integer(70000);
    assert_eq!(config_from_row(Some(bad)), Err(DbError::Corrupt { table: Models::Config }));
}

#[test]
fn picker_labels_map_back_to_their_ids() {


    let list = vec![
        ShortList { id: 3, name: "Acme".to_string() },
        ShortList { id: 12, name: "Acme - East".to_string() },
    ];
    let labels = selection_options(&list);
    assert_eq!(labels, vec!["3 - Acme".to_string(), "12 - Acme - East".to_string()]);
    assert_eq!(selected_id(&list, "12 - Acme - East"), Some(12));
    assert_eq!(selected_id(&list, "3 - Acme"), Some(3));
    assert_eq!(selected_id(&list, "4 - Acme"), None);
}
