use invoice_cli::hydrate::{
    assemble_invoice, assemble_template, company_from_row, invoice_from_row, item_from_row,
    stage_from_str, status_from_parts, template_from_row, terms_from_row, DbError,
};
use invoice_cli::models::{
    Client, Company, Contact, InvoiceAttrs, InvoiceItem, InvoiceStage, Items, Methods, Models,
    PaidStatus, Template, Terms,
};
use invoice_cli::money::Decimal;
use invoice_cli::value::SqlValue;

fn text(s: &str) -> SqlValue {
    SqlValue::Text(s.to_string())
}

fn item(id: i64, name: &str, cents: i64) -> Items {
    Items { table: Models::Items, id, name: name.to_string(), rate: Decimal { mantissa: cents as i128, scale: 2 } }
}

fn template(id: i64) -> Template {
    Template {
        id,
        name: "T".to_string(),
        company: Company::new(),
        client: Client { id: 2, name: "C".to_string(), contact: Contact::default() },
        terms: Terms { id: 3, name: "Net 30".to_string(), due: 30 },
        methods: vec![],
    }
}

fn invoice_row(items_json: &str) -> Vec<SqlValue> {
    vec![
        SqlValue::Integer(5),
        SqlValue::Integer(1),
        text("20240115"),
        SqlValue::Integer(1),
        SqlValue::Integer(0),
        text("Invoice"),
        text("Paid"),
        text("20240120"),
        SqlValue::Null,
        SqlValue::Null,
        text(items_json),
    ]
}

#[test]
fn invoice_with_two_items_maps_each_quantity() {
    let row = invoice_from_row(5, Some(invoice_row("[{\"item\":1,\"quantity\":2},{\"item\":2,\"quantity\":1}]"))).unwrap();
    assert_eq!(row.items, vec![InvoiceItem { item: 1, quantity: 2 }, InvoiceItem { item: 2, quantity: 1 }]);
    let inv = assemble_invoice(row, template(1), vec![item(1, "A", 1000), item(2, "B", 500)]).unwrap();
    assert_eq!(inv.items.len(), 2);
    assert_eq!(inv.items[0].0.id, 1);
    assert_eq!(inv.items[0].1, 2);
    assert_eq!(inv.items[1].0.id, 2);
    assert_eq!(inv.items[1].1, 1);
}

#[test]
fn duplicate_item_lines_collapse_and_the_last_quantity_wins() {
    let row = invoice_from_row(5, Some(invoice_row("[{\"item\":1,\"quantity\":2},{\"item\":1,\"quantity\":5}]"))).unwrap();
    let inv = assemble_invoice(row, template(1), vec![item(1, "A", 1000), item(1, "A", 1000)]).unwrap();
    assert_eq!(inv.items.len(), 1);
    assert_eq!(inv.items[0].0.id, 1);
    assert_eq!(inv.items[0].1, 5);
}

#[test]
fn invoice_row_decodes_attributes_and_status() {
    let row = invoice_from_row(5, Some(invoice_row("[]"))).unwrap();
    assert_eq!(row.template_id, 1);
    assert_eq!(row.date, "20240115");
    assert_eq!(
        row.attributes,
        InvoiceAttrs {
            show_methods: true,
            show_notes: false,
            stage: InvoiceStage::Invoice,
            status: PaidStatus::Paid { date: "20240120".to_string(), check: None },
        }
    );
    assert_eq!(row.notes, None);
}

#[test]
fn missing_row_is_not_found_and_bad_rows_are_corrupt() {
    assert_eq!(invoice_from_row(5, None).unwrap_err(), DbError::NotFound { table: Models::Invoices, id: 5 });
    let corrupt = DbError::Corrupt { table: Models::Invoices };
    assert_eq!(invoice_from_row(5, Some(invoice_row("not json"))).unwrap_err(), corrupt);
    assert_eq!(invoice_from_row(5, Some(invoice_row("[{\"item\":1}]"))).unwrap_err(), corrupt);
    let mut bad_stage = invoice_row("[]");
    bad_stage[5] = text("Draft");
    assert_eq!(invoice_from_row(5, Some(bad_stage)).unwrap_err(), corrupt);
    let mut bad_status = invoice_row("[]");
    bad_status[6] = text("Lost");
    assert_eq!(invoice_from_row(5, Some(bad_status)).unwrap_err(), corrupt);
    let mut bad_flag = invoice_row("[]");
    bad_flag[3] = SqlValue::Integer(2);
    assert_eq!(invoice_from_row(5, Some(bad_flag)).unwrap_err(), corrupt);
    assert_eq!(invoice_from_row(6, Some(invoice_row("[]"))).unwrap_err(), corrupt);
}

#[test]
fn dangling_item_reference_is_corrupt() {
    let row = invoice_from_row(5, Some(invoice_row("[{\"item\":1,\"quantity\":2}]"))).unwrap();
    assert_eq!(
        assemble_invoice(row, template(1), vec![item(9, "Z", 1)]).unwrap_err(),
        DbError::Corrupt { table: Models::Invoices }
    );
}

#[test]
fn status_discriminants_decode_with_their_companions() {
    assert_eq!(status_from_parts("Waiting", None, None), Some(PaidStatus::Waiting));
    assert_eq!(status_from_parts("Past Due", None, None), Some(PaidStatus::PastDue));
    assert_eq!(
        status_from_parts("Paid", Some("20240101".to_string()), Some("77".to_string())),
        Some(PaidStatus::Paid { date: "20240101".to_string(), check: Some("77".to_string()) })
    );
    assert_eq!(
        status_from_parts("Refunded", None, None),
        Some(PaidStatus::Refunded { date: "Unknown".to_string() })
    );
    assert_eq!(status_from_parts("paid", None, None), None);
    assert_eq!(stage_from_str("Quote"), Some(InvoiceStage::Quote));
    assert_eq!(stage_from_str("Invoice"), Some(InvoiceStage::Invoice));
    assert_eq!(stage_from_str("invoice"), None);
}

#[test]
fn company_row_decodes_contact_columns() {
    let row = vec![
        SqlValue::Integer(3),
        text("Acme"),
        SqlValue::Blob(vec![1, 2]),
        text("555"),
        SqlValue::Null,
        text("1 Main St"),
        SqlValue::Null,
        text("Springfield"),
        SqlValue::Null,
        text("12345"),
    ];
    let c = company_from_row(3, Some(row.clone())).unwrap();
    assert_eq!(c.name, "Acme");
    assert_eq!(c.logo, Some(vec![1, 2]));
    assert_eq!(c.contact.phone, Some("555".to_string()));
    assert_eq!(c.contact.email, None);
    assert_eq!(c.contact.zip, Some("12345".to_string()));
    let mut wrong = row;
    wrong[4] = SqlValue::Integer(1);
    assert_eq!(company_from_row(3, Some(wrong)).unwrap_err(), DbError::Corrupt { table: Models::Company });
}

#[test]
fn item_rate_is_cents_over_one_hundred() {
    let it = item_from_row(2, Some(vec![SqlValue::Integer(2), text("Widget"), SqlValue::Integer(1999)])).unwrap();
    assert_eq!(it.rate, Decimal { mantissa: 1999, scale: 2 });
    assert_eq!(terms_from_row(1, Some(vec![SqlValue::Integer(1), text("Net"), text("30")])).unwrap_err(),
        DbError::Corrupt { table: Models::Terms });
}

#[test]
fn template_resolves_its_method_list() {
    let row = vec![
        SqlValue::Integer(8),
        text("Monthly"),
        SqlValue::Integer(1),
        SqlValue::Integer(2),
        SqlValue::Integer(3),
        text("[4,6]"),
    ];
    let t = template_from_row(8, Some(row)).unwrap();
    assert_eq!(t.methods, vec![4, 6]);
    let methods = vec![
        Methods { id: 4, name: "Wire".to_string(), link: None, qr: None },
        Methods { id: 6, name: "Cash".to_string(), link: None, qr: None },
    ];
    let mut company = Company::new();
    company.id = 1;
    let client = Client { id: 2, name: "C".to_string(), contact: Contact::default() };
    let terms = Terms { id: 3, name: "Net".to_string(), due: 30 };
    let tp = assemble_template(t.clone(), company, client, terms, methods).unwrap();
    assert_eq!(tp.methods.len(), 2);
    assert_eq!(tp.name, "Monthly");
    let mut company2 = Company::new();
    company2.id = 9;
    let client2 = Client { id: 2, name: "C".to_string(), contact: Contact::default() };
    let terms2 = Terms { id: 3, name: "Net".to_string(), due: 30 };
    assert_eq!(
        assemble_template(t, company2, client2, terms2, vec![]).unwrap_err(),
        DbError::Corrupt { table: Models::Templates }
    );
}

#[test]
fn template_with_malformed_method_json_is_corrupt() {
    let row = vec![
        SqlValue::Integer(8),
        text("Monthly"),
        SqlValue::Integer(1),
        SqlValue::Integer(2),
        SqlValue::Integer(3),
        text("[4,"),
    ];
    assert_eq!(template_from_row(8, Some(row)).unwrap_err(), DbError::Corrupt { table: Models::Templates });
}
