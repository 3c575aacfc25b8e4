use invoice_cli::descriptors::{
    CreateClient, CreateCompany, CreateInvoice, CreateItem, CreateMethod, CreateTemplate,
    CreateTerms, DeleteCompany, DeleteInvoice, EditClient, EditCompany, EditInvoice, EditItem,
    EditMethod, EditTemplate, EditTerms,
};
use invoice_cli::models::{Contact, InvoiceAttrs, InvoiceItem, InvoiceStage, PaidStatus};
use invoice_cli::money::Decimal;
use invoice_cli::prepare::{
    compile_delete, compile_insert, compile_update, CompileError, PrepFields, PrepValues,
    TableName,
};
use invoice_cli::value::SqlValue;

fn contact_with(phone: bool, city: bool, zip: bool) -> Contact {
    let mut c = Contact::default();
    if phone {
        c.phone = Some("555-0100".to_string());
    }
    if city {
        c.city = Some("Springfield".to_string());
    }
    if zip {
        c.zip = Some("12345".to_string());
    }
    c
}

fn attrs(status: PaidStatus) -> InvoiceAttrs {
    InvoiceAttrs { show_methods: true, show_notes: false, stage: InvoiceStage::Invoice, status }
}

fn statuses() -> Vec<PaidStatus> {
    vec![
        PaidStatus::Waiting,
        PaidStatus::PastDue,
        PaidStatus::Paid { date: "20240201".to_string(), check: Some("1042".to_string()) },
        PaidStatus::Paid { date: "20240201".to_string(), check: None },
        PaidStatus::Failed { date: "20240202".to_string() },
        PaidStatus::Refunded { date: "20240203".to_string() },
    ]
}

#[test]
fn create_company_fields_and_values_align_for_every_option_subset() {
    for mask in 0..16u32 {
        let mut c = CreateCompany::new("Acme".to_string());
        if mask & 1 != 0 {
            c.logo = Some(vec![1, 2, 3]);
        }
        if mask & 2 != 0 {
            c.contact = Some(contact_with(mask & 4 != 0, mask & 8 != 0, true));
        }
        assert_eq!(c.fields().len(), c.values().len(), "mask {}", mask);
        assert_eq!(c.fields()[0], "name");
    }
}

#[test]
fn create_descriptors_align_for_other_entities() {
    for mask in 0..8u32 {
        let client = CreateClient {
            name: "Bob".to_string(),
            contact: if mask & 1 != 0 { Some(contact_with(mask & 2 != 0, mask & 4 != 0, false)) } else { None },
        };
        assert_eq!(client.fields().len(), client.values().len());
        let method = CreateMethod {
            name: "Wire".to_string(),
            link: if mask & 1 != 0 { Some("https://pay.example".to_string()) } else { None },
            qr: if mask & 2 != 0 { Some(vec![9, 9]) } else { None },
        };
        assert_eq!(method.fields().len(), method.values().len());
    }
    let terms = CreateTerms::new("Net 30".to_string(), 30);
    assert_eq!(terms.fields(), vec!["name", "due"]);
    assert_eq!(terms.values(), vec![SqlValue::Text("Net 30".to_string()), SqlValue::Integer(30)]);
    let item = CreateItem::new("Widget".to_string(), Decimal { mantissa: 1050, scale: 2 }).unwrap();
    assert_eq!(item.values(), vec![SqlValue::Text("Widget".to_string()), SqlValue::Integer(1050)]);
    let template = CreateTemplate::new("Monthly".to_string(), 1, 2, 3, vec![4, 5]);
    assert_eq!(template.fields(), vec!["name", "company_id", "client_id", "terms_id", "methods_json"]);
    assert_eq!(template.values()[4], SqlValue::Text("[4,5]".to_string()));
}

#[test]
fn create_invoice_aligns_for_every_status_and_notes() {
    for status in statuses() {
        for notes in [None, Some("Thanks".to_string())] {
            let inv = CreateInvoice::new(
                1,
                "20240115".to_string(),
                attrs(status.clone()),
                notes,
                vec![InvoiceItem { item: 1, quantity: 2 }],
            );
            assert_eq!(inv.fields().len(), inv.values().len());
            assert_eq!(inv.fields().last().unwrap(), "items_json");
        }
    }
}

#[test]
fn create_invoice_values_frame_items_as_json() {
    let inv = CreateInvoice::new(
        7,
        "20240115".to_string(),
        attrs(PaidStatus::Paid { date: "20240201".to_string(), check: Some("1042".to_string()) }),
        None,
        vec![InvoiceItem { item: 1, quantity: 2 }, InvoiceItem { item: 2, quantity: 1 }],
    );
    assert_eq!(
        inv.fields(),
        vec![
            "template_id", "date", "show_methods", "show_notes", "stage", "status", "status_date",
            "status_check", "items_json",
        ]
    );
    assert_eq!(
        inv.values(),
        vec![
            SqlValue::Integer(7),
            SqlValue::Text("20240115".to_string()),
            SqlValue::Integer(1),
            SqlValue::Integer(0),
            SqlValue::Text("Invoice".to_string()),
            SqlValue::Text("Paid".to_string()),
            SqlValue::Text("20240201".to_string()),
            SqlValue::Text("1042".to_string()),
            SqlValue::Text("[{\"item\":1,\"quantity\":2},{\"item\":2,\"quantity\":1}]".to_string()),
        ]
    );
}

#[test]
fn update_descriptors_put_the_id_first_and_align_the_rest() {
    for mask in 0..32u32 {
        let e = EditCompany {
            id: 12,
            name: if mask & 1 != 0 { Some("New".to_string()) } else { None },
            logo: if mask & 2 != 0 { Some(vec![1]) } else { None },
            contact: contact_with(mask & 4 != 0, mask & 8 != 0, mask & 16 != 0),
        };
        let f = e.fields();
        assert_eq!(f[0], "12");
        assert_eq!(f.len() - 1, e.values().len());
        let c = EditClient { id: 3, name: None, contact: contact_with(mask & 1 != 0, false, mask & 2 != 0) };
        assert_eq!(c.fields().len() - 1, c.values().len());
        let t = EditTerms { id: 3, name: None, due: if mask & 1 != 0 { Some(15) } else { None } };
        assert_eq!(t.fields().len() - 1, t.values().len());
        let m = EditMethod {
            id: 3,
            name: None,
            link: if mask & 1 != 0 { Some("l".to_string()) } else { None },
            qr: if mask & 2 != 0 { Some(vec![2]) } else { None },
        };
        assert_eq!(m.fields().len() - 1, m.values().len());
        let i = EditItem { id: 3, name: Some("n".to_string()), rate_cents: if mask & 1 != 0 { Some(5) } else { None } };
        assert_eq!(i.fields().len() - 1, i.values().len());
        let tp = EditTemplate {
            id: 3,
            name: None,
            company: if mask & 1 != 0 { Some(1) } else { None },
            client: if mask & 2 != 0 { Some(2) } else { None },
            terms: if mask & 4 != 0 { Some(3) } else { None },
            methods: if mask & 8 != 0 { Some(vec![1, 2]) } else { None },
        };
        assert_eq!(tp.fields().len() - 1, tp.values().len());
    }
    for status in statuses() {
        let e = EditInvoice {
            id: 4,
            show_methods: Some(false),
            show_notes: None,
            stage: Some(InvoiceStage::Quote),
            status: Some(status),
            notes: Some("n".to_string()),
        };
        assert_eq!(e.fields().len() - 1, e.values().len());
    }
}

#[test]
fn update_parameters_never_hold_the_row_id() {
    let e = EditTerms { id: 987654, name: Some("Net 15".to_string()), due: Some(15) };
    let stmt = compile_update(&e).unwrap();
    assert_eq!(stmt.query, "UPDATE terms SET name = ?, due = ? WHERE id = 987654");
    assert_eq!(stmt.params, vec![SqlValue::Text("Net 15".to_string()), SqlValue::Integer(15)]);
    assert!(!stmt.params.contains(&SqlValue::Integer(987654)));
    assert!(!stmt.params.contains(&SqlValue::Text("987654".to_string())));
    assert_eq!(stmt.table, "terms");
}

#[test]
fn update_writes_the_negative_id_text() {
    let e = EditItem::new(-3, None, Some(Decimal { mantissa: 25, scale: 1 })).unwrap();
    let stmt = compile_update(&e).unwrap();
    assert_eq!(stmt.query, "UPDATE items SET rate = ? WHERE id = -3");
    assert_eq!(stmt.params, vec![SqlValue::Integer(250)]);
}

#[test]
fn update_with_no_change_is_refused() {
    let e = EditClient { id: 1, name: None, contact: Contact::default() };
    assert_eq!(compile_update(&e).unwrap_err(), CompileError::EmptyFieldList);
}

fn status_edit(status: PaidStatus) -> EditInvoice {
    EditInvoice { id: 9, show_methods: None, show_notes: None, stage: None, status: Some(status), notes: None }
}

#[test]
fn update_of_a_status_writes_its_companion_columns() {
    let stmt = compile_update(&status_edit(PaidStatus::Failed { date: "20240301".to_string() })).unwrap();
    assert_eq!(stmt.query, "UPDATE invoices SET status = ?, status_date = ? WHERE id = 9");
    assert_eq!(
        stmt.params,
        vec![SqlValue::Text("Failed".to_string()), SqlValue::Text("20240301".to_string())]
    );
    let refunded = status_edit(PaidStatus::Refunded { date: "20240302".to_string() });
    assert_eq!(refunded.fields(), vec!["9", "status", "status_date"]);
}

#[test]
fn update_to_waiting_or_past_due_writes_the_status_alone() {
    for (status, text) in [(PaidStatus::Waiting, "Waiting"), (PaidStatus::PastDue, "Past Due")] {
        let e = status_edit(status);
        assert_eq!(e.fields(), vec!["9", "status"]);
        assert_eq!(e.values(), vec![SqlValue::Text(text.to_string())]);
        let stmt = compile_update(&e).unwrap();
        assert_eq!(stmt.query, "UPDATE invoices SET status = ? WHERE id = 9");
    }
}

#[test]
fn update_to_paid_writes_date_and_check_with_null_for_no_check() {
    let e = status_edit(PaidStatus::Paid { date: "20240401".to_string(), check: None });
    assert_eq!(e.fields(), vec!["9", "status", "status_date", "status_check"]);
    assert_eq!(
        e.values(),
        vec![SqlValue::Text("Paid".to_string()), SqlValue::Text("20240401".to_string()), SqlValue::Null]
    );
    let e = status_edit(PaidStatus::Paid { date: "20240401".to_string(), check: Some("88".to_string()) });
    assert_eq!(e.values()[2], SqlValue::Text("88".to_string()));
}

#[test]
fn insert_statement_has_one_placeholder_per_field() {
    let mut c = CreateCompany::new("Acme".to_string());
    c.contact = Some(contact_with(true, false, true));
    let stmt = compile_insert(&c).unwrap();
    assert_eq!(stmt.query, "INSERT INTO company (name, phone, zip) VALUES (?, ?, ?)");
    assert_eq!(
        stmt.params,
        vec![
            SqlValue::Text("Acme".to_string()),
            SqlValue::Text("555-0100".to_string()),
            SqlValue::Text("12345".to_string()),
        ]
    );
    assert_eq!(c.table_name(), "company");
}

#[test]
fn delete_binds_the_id() {
    let stmt = compile_delete(&DeleteInvoice { id: 42 });
    assert_eq!(stmt.query, "DELETE FROM invoices WHERE id = ?");
    assert_eq!(stmt.params, vec![SqlValue::Integer(42)]);
    assert_eq!(compile_delete(&DeleteCompany { id: 1 }).table, "company");
}
