use invoice_cli::crud::{list_query, read_query};
use invoice_cli::descriptors::{
    CreateClient, CreateCompany, CreateInvoice, CreateItem, CreateMethod, CreateTemplate,
    CreateTerms,
};
use invoice_cli::hydrate::{
    client_from_row, company_from_row, decode_short, invoice_from_row, item_from_row,
    method_from_row, template_from_row, terms_from_row,
};
use invoice_cli::migrate::{ledger_after_run, plan_open, plan_statements, Step, TxOutcome};
use invoice_cli::models::{Contact, InvoiceAttrs, InvoiceItem, InvoiceStage, Models, PaidStatus};
use invoice_cli::money::Decimal;
use invoice_cli::prepare::{compile_insert, CachedStmt};
use invoice_cli::value::SqlValue;
use rusqlite::types::Value;
use rusqlite::Connection;

fn to_sql(v: &SqlValue) -> Value {
    match v {
        SqlValue::Null => Value::Null,
        SqlValue::Integer(n) => Value::Integer(*n),
        SqlValue::Text(s) => Value::Text(s.clone()),
        SqlValue::Blob(b) => Value::Blob(b.clone()),
    }
}

fn from_sql(v: Value) -> SqlValue {
    match v {
        Value::Null => SqlValue::Null,
        Value::Integer(n) => SqlValue::Integer(n),
        Value::Text(s) => SqlValue::Text(s),
        Value::Blob(b) => SqlValue::Blob(b),
        Value::Real(_) => panic!("unexpected REAL column"),
    }
}

fn run(conn: &Connection, stmt: &CachedStmt) -> i64 {
    let params: Vec<Value> = stmt.params.iter().map(to_sql).collect();
    conn.execute(&stmt.query, rusqlite::params_from_iter(params)).unwrap();
    conn.last_insert_rowid()
}

fn fetch(conn: &Connection, table: Models, id: i64) -> Option<Vec<SqlValue>> {
    let mut stmt = conn.prepare(&read_query(table)).unwrap();
    let n = stmt.column_count();
    let mut rows = stmt.query([id]).unwrap();
    rows.next().unwrap().map(|r| (0..n).map(|i| from_sql(r.get::<_, Value>(i).unwrap())).collect())
}

fn apply(conn: &mut Connection, plan: &Vec<Step>) -> TxOutcome {
    let tx = conn.transaction().unwrap();
    for sql in plan_statements(plan) {
        if tx.execute(&sql, []).is_err() {
            return TxOutcome::RolledBack;
        }
    }
    tx.commit().unwrap();
    TxOutcome::Committed
}

fn ledger(conn: &Connection) -> Option<i64> {
    let has: i64 = conn
        .query_row("SELECT COUNT(*) FROM sqlite_master WHERE type = 'table' AND name = 'migrations'", [], |r| r.get(0))
        .unwrap();
    if has == 0 {
        return None;
    }
    conn.query_row("SELECT MAX(version) FROM migrations", [], |r| r.get::<_, Option<i64>>(0)).unwrap()
}

fn tables(conn: &Connection) -> Vec<String> {
    let mut stmt = conn
        .prepare("SELECT name FROM sqlite_master WHERE type = 'table' AND name NOT LIKE 'sqlite_%' ORDER BY name")
        .unwrap();
    let names = stmt.query_map([], |r| r.get::<_, String>(0)).unwrap();
    names.map(|n| n.unwrap()).collect()
}

fn fresh() -> Connection {
    let mut conn = Connection::open_in_memory().unwrap();
    let plan = plan_open(false, None, 2).unwrap();
    assert_eq!(apply(&mut conn, &plan), TxOutcome::Committed);
    conn
}

#[test]
fn new_store_gets_every_table_and_a_ledger_at_the_target() {
    let plan = plan_open(false, None, 2).unwrap();
    assert_eq!(plan, vec![Step::CreateSchema, Step::SetLedger(2)]);
    let conn = fresh();
    assert_eq!(
        tables(&conn),
        vec!["client", "company", "email_config", "invoices", "items", "methods", "migrations", "templates", "terms"]
    );
    assert_eq!(ledger(&conn), Some(2));
    assert_eq!(ledger_after_run(None, &plan, TxOutcome::Committed), Some(2));
    let rows: i64 = conn.query_row("SELECT COUNT(*) FROM migrations", [], |r| r.get(0)).unwrap();
    assert_eq!(rows, 1);
}

#[test]
fn up_to_date_store_runs_no_statement() {
    let plan = plan_open(true, Some(2), 2).unwrap();
    assert!(plan.is_empty());
    assert!(plan_statements(&plan).is_empty());
    assert!(plan_open(true, Some(5), 2).unwrap().is_empty());
}

#[test]
fn store_without_ledger_gets_every_migration() {
    let mut conn = Connection::open_in_memory().unwrap();
    conn.execute_batch(
        "CREATE TABLE templates (id INTEGER PRIMARY KEY AUTOINCREMENT, name TEXT);
         CREATE TABLE invoices (id INTEGER PRIMARY KEY AUTOINCREMENT, template_id INTEGER NOT NULL, date TEXT NOT NULL, items_json TEXT NOT NULL);
         INSERT INTO templates (name) VALUES ('t');
         INSERT INTO invoices (template_id, date, items_json) VALUES (1, '20240115', '[]');",
    )
    .unwrap();
    let plan = plan_open(true, ledger(&conn), 2).unwrap();
    assert_eq!(plan, vec![Step::Migrate(1), Step::Migrate(2), Step::SetLedger(2)]);
    assert_eq!(apply(&mut conn, &plan), TxOutcome::Committed);
    assert_eq!(ledger(&conn), Some(2));
    let inv = invoice_from_row(1, fetch(&conn, Models::Invoices, 1)).unwrap();
    assert_eq!(inv.attributes.stage, InvoiceStage::Invoice);
    assert_eq!(inv.attributes.status, PaidStatus::Waiting);
    assert!(inv.attributes.show_methods);
    assert!(tables(&conn).contains(&"email_config".to_string()));
}

#[test]
fn failed_migration_leaves_the_ledger_unchanged() {
    let mut conn = Connection::open_in_memory().unwrap();
    conn.execute_batch(
        "CREATE TABLE migrations (version INTEGER PRIMARY KEY); INSERT INTO migrations (version) VALUES (0);",
    )
    .unwrap();
    let plan = plan_open(true, ledger(&conn), 2).unwrap();
    assert_eq!(plan[0], Step::Migrate(1));
    let outcome = apply(&mut conn, &plan);
    assert_eq!(outcome, TxOutcome::RolledBack);
    assert_eq!(ledger(&conn), Some(0));
    assert_eq!(ledger_after_run(Some(0), &plan, outcome), Some(0));
    assert!(!tables(&conn).contains(&"email_config".to_string()));
}

#[test]
fn unknown_target_version_is_refused() {
    assert!(plan_open(true, None, 3).is_err());
    assert!(plan_open(true, None, 0).is_err());
}

#[test]
fn inserted_entities_read_back_with_their_fields() {
    let conn = fresh();
    let mut company = CreateCompany::new("Acme".to_string());
    company.logo = Some(vec![0x89, 0x50]);
    let mut contact = Contact::default();
    contact.email = Some("a@acme.test".to_string());
    contact.city = Some("Springfield".to_string());
    company.contact = Some(contact);
    let company_id = run(&conn, &compile_insert(&company).unwrap());
    let c = company_from_row(company_id, fetch(&conn, Models::Company, company_id)).unwrap();
    assert_eq!(c.name, "Acme");
    assert_eq!(c.logo, Some(vec![0x89, 0x50]));
    assert_eq!(c.contact.email, Some("a@acme.test".to_string()));
    assert_eq!(c.contact.city, Some("Springfield".to_string()));
    assert_eq!(c.contact.phone, None);
    assert_eq!(c.contact.zip, None);

    let client_id = run(&conn, &compile_insert(&CreateClient::new("Bob".to_string())).unwrap());
    let cl = client_from_row(client_id, fetch(&conn, Models::Client, client_id)).unwrap();
    assert_eq!(cl.name, "Bob");
    assert_eq!(cl.contact, Contact::default());

    let terms_id = run(&conn, &compile_insert(&CreateTerms::new("Net 30".to_string(), 30)).unwrap());
    let t = terms_from_row(terms_id, fetch(&conn, Models::Terms, terms_id)).unwrap();
    assert_eq!((t.name.as_str(), t.due), ("Net 30", 30));

    let mut method = CreateMethod::new("Wire".to_string());
    method.link = Some("https://pay.test".to_string());
    let method_id = run(&conn, &compile_insert(&method).unwrap());
    let m = method_from_row(method_id, fetch(&conn, Models::Methods, method_id)).unwrap();
    assert_eq!(m.link, Some("https://pay.test".to_string()));
    assert_eq!(m.qr, None);

    let item = CreateItem::new("Widget".to_string(), Decimal { mantissa: 314, scale: 2 }).unwrap();
    let item_id = run(&conn, &compile_insert(&item).unwrap());
    let it = item_from_row(item_id, fetch(&conn, Models::Items, item_id)).unwrap();
    assert_eq!(it.rate, Decimal { mantissa: 314, scale: 2 });

    let tpl = CreateTemplate::new("Monthly".to_string(), company_id, client_id, terms_id, vec![method_id]);
    let tpl_id = run(&conn, &compile_insert(&tpl).unwrap());
    let tr = template_from_row(tpl_id, fetch(&conn, Models::Templates, tpl_id)).unwrap();
    assert_eq!(tr.methods, vec![method_id]);
    assert_eq!((tr.company_id, tr.client_id, tr.terms_id), (company_id, client_id, terms_id));

    let attrs = InvoiceAttrs {
        show_methods: false,
        show_notes: true,
        stage: InvoiceStage::Quote,
        status: PaidStatus::Paid { date: "20240120".to_string(), check: Some("101".to_string()) },
    };
    let inv = CreateInvoice::new(
        tpl_id,
        "20240115".to_string(),
        attrs.clone(),
        Some("Thanks".to_string()),
        vec![InvoiceItem { item: item_id, quantity: 4 }],
    );
    let inv_id = run(&conn, &compile_insert(&inv).unwrap());
    let ir = invoice_from_row(inv_id, fetch(&conn, Models::Invoices, inv_id)).unwrap();
    assert_eq!(ir.attributes, attrs);
    assert_eq!(ir.notes, Some("Thanks".to_string()));
    assert_eq!(ir.items, vec![InvoiceItem { item: item_id, quantity: 4 }]);
    assert_eq!(ir.date, "20240115");

    let mut stmt = conn.prepare(&list_query(Models::Invoices)).unwrap();
    let labels: Vec<Vec<SqlValue>> = stmt
        .query_map([], |r| Ok(vec![from_sql(r.get(0)?), from_sql(r.get(1)?)]))
        .unwrap()
        .map(|r| r.unwrap())
        .collect();
    let short = decode_short(&labels[0]).unwrap();
    assert_eq!((short.id, short.name.as_str()), (inv_id, "20240115"));
}

#[test]
fn missing_entity_is_not_found() {
    let conn = fresh();
    assert!(matches!(
        company_from_row(77, fetch(&conn, Models::Company, 77)),
        Err(invoice_cli::hydrate::DbError::NotFound { table: Models::Company, id: 77 })
    ));
}
