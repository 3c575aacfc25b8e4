use chrono::{Datelike, NaiveDate};
use invoice_cli::calc::{due_date, issue_date, long_date, names_le};
use invoice_cli::hydrate::DbError;
use invoice_cli::models::{
    Client, Company, Contact, Invoice, InvoiceAttrs, InvoiceStage, Items, Models, PaidStatus,
    Template, Terms,
};
use invoice_cli::money::{decimal_text, Decimal, MoneyError};
use invoice_cli::render::{mail_subject, summarize, RenderError};

fn day(y: i32, m: u32, d: u32) -> i32 {
    NaiveDate::from_ymd_opt(y, m, d).unwrap().num_days_from_ce()
}

fn item(id: i64, name: &str, cents: i64) -> Items {
    Items { table: Models::Items, id, name: name.to_string(), rate: Decimal { mantissa: cents as i128, scale: 2 } }
}

fn invoice(date: &str, due: i64, items: Vec<(Items, i64)>, notes: Option<String>) -> Invoice {
    Invoice {
        id: 1,
        template: Template {
            id: 1,
            name: "T".to_string(),
            company: Company::new(),
            client: Client { id: 2, name: "C".to_string(), contact: Contact::default() },
            terms: Terms { id: 3, name: "Net".to_string(), due },
            methods: vec![],
        },
        attributes: InvoiceAttrs {
            show_methods: false,
            show_notes: true,
            stage: InvoiceStage::Quote,
            status: PaidStatus::Waiting,
        },
        date: date.to_string(),
        notes,
        items,
    }
}

#[test]
fn issue_date_reads_compact_dates_and_due_date_adds_terms() {
    assert_eq!(issue_date("20240115"), Ok(day(2024, 1, 15)));
    let inv = invoice("20240115", 30, vec![], None);
    assert_eq!(inv.issue_date(), Ok(day(2024, 1, 15)));
    assert_eq!(inv.due_date(), Ok(day(2024, 2, 14)));
    assert_eq!(due_date(day(2024, 1, 15), 30), Some(day(2024, 2, 14)));
}

#[test]
fn malformed_dates_are_corrupt_not_a_crash() {
    assert_eq!(issue_date("2024-01-15"), Err(DbError::Corrupt { table: Models::Invoices }));
    assert_eq!(issue_date("20241301"), Err(DbError::Corrupt { table: Models::Invoices }));
    assert_eq!(due_date(i32::MAX, 1), None);
}

#[test]
fn long_dates_are_written_for_rendering() {
    assert_eq!(long_date(day(2024, 2, 14)), Some("February 14, 2024".to_string()));
}

#[test]
fn total_of_two_lines_is_thirty_five_dollars_with_a_before_b() {
    let inv = invoice("20240115", 30, vec![(item(2, "B", 500), 3), (item(1, "A", 1000), 2)], None);
    let lines = inv.calculate_subtotals().unwrap();
    assert_eq!(lines[0].name, "A");
    assert_eq!(lines[0].subtotal, Decimal { mantissa: 2000, scale: 2 });
    assert_eq!(lines[1].name, "B");
    assert_eq!(lines[1].subtotal, Decimal { mantissa: 1500, scale: 2 });
    assert_eq!(inv.calculate_total(), Ok(Decimal { mantissa: 3500, scale: 2 }));
}

#[test]
fn empty_invoice_totals_zero_and_overflow_is_reported() {
    let inv = invoice("20240115", 30, vec![], None);
    assert_eq!(inv.calculate_total(), Ok(Decimal { mantissa: 0, scale: 0 }));
    let mut huge = item(1, "H", 0);
    huge.rate = Decimal { mantissa: 79228162514264337593543950335, scale: 2 };
    let inv = invoice("20240115", 30, vec![(huge, 2)], None);
    assert_eq!(inv.calculate_total(), Err(MoneyError::Overflow));
}

#[test]
fn names_sort_by_bytes() {
    assert!(names_le("A", "B"));
    assert!(!names_le("b", "B"));
    assert!(names_le("Ab", "Abc"));
    assert!(names_le("", "a"));
    assert!(names_le("same", "same"));
}

#[test]
fn summary_shows_dates_total_stage_and_html_notes() {
    let inv = invoice(
        "20240115",
        30,
        vec![(item(1, "A", 1000), 2), (item(2, "B", 500), 3)],
        Some("*hi*".to_string()),
    );
    let s = summarize(&inv).unwrap();
    assert_eq!(s.date, "January 15, 2024");
    assert_eq!(s.due_date, "February 14, 2024");
    assert_eq!(s.total, Decimal { mantissa: 3500, scale: 2 });
    assert_eq!(s.stage, "Quote");
    assert_eq!(s.notes, Some("<p><em>hi</em></p>\n".to_string()));
    let bad = invoice("not a date", 30, vec![], None);
    assert_eq!(summarize(&bad).unwrap_err(), RenderError::BadDate);
}

#[test]
fn mail_subject_names_status_stage_id_and_date() {
    let mut inv = invoice("20240115", 30, vec![], None);
    assert_eq!(mail_subject(&inv), Ok("Quote 1 - 2024-01-15".to_string()));
    inv.attributes.status = PaidStatus::PastDue;
    inv.attributes.stage = InvoiceStage::Invoice;
    assert_eq!(mail_subject(&inv), Ok("PAST DUE:Invoice 1 - 2024-01-15".to_string()));
    inv.attributes.status = PaidStatus::Paid { date: "20240120".to_string(), check: None };
    assert_eq!(mail_subject(&inv), Ok("PAID:Invoice 1 - 20240120".to_string()));
    let bad = invoice("bad", 30, vec![], None);
    assert_eq!(mail_subject(&bad), Err(RenderError::BadDate));
}

#[test]
fn summary_reports_money_overflow() {
    let mut huge = item(1, "H", 0);
    huge.rate = Decimal { mantissa: 79228162514264337593543950335, scale: 2 };
    let inv = invoice("20240115", 30, vec![(huge, 3)], None);
    assert_eq!(summarize(&inv).unwrap_err(), RenderError::Money(MoneyError::Overflow));
}

#[test]
fn decimals_are_written_at_their_scale() {

    assert_eq!(decimal_text(Decimal { mantissa: 3500, scale: 2 }), "35.00");
    assert_eq!(decimal_text(Decimal { mantissa: 5, scale: 3 }), "0.005");
    assert_eq!(decimal_text(Decimal { mantissa: -1999, scale: 2 }), "-19.99");
    assert_eq!(decimal_text(Decimal { mantissa: 42, scale: 0 }), "42");
    assert_eq!(decimal_text(Decimal { mantissa: 0, scale: 2 }), "0.00");
    let v = rust_decimal::Decimal::from_i128_with_scale(-1234567, 4);
    assert_eq!(decimal_text(Decimal { mantissa: -1234567, scale: 4 }), v.to_string());
}

#[test]
fn invoice_text_lists_lines_by_name_with_total_and_due_date() {
    let inv = invoice(
        "20240115",
        30,
        vec![(item(2, "B", 500), 3), (item(1, "A", 1000), 2)],
        Some("Thanks".to_string()),
    );
    let text = inv.show();
    assert!(text.starts_with("ID:\t\t1\nDate:\t\t20240115\n\nTemplate Information:\nID:\t\t1\nName:\t\tT\n"));
    assert!(text.contains("Stage:\t\tQuote\nPayment status:\tWaiting for payment\nNotes:\nThanks\n\n"));
    assert!(text.contains("A\t| $10.00\t| 2\t\t| $20.00\nB\t| $5.00\t| 3\t\t| $15.00\n"));
    assert!(text.contains("\t\t\t\t\tTotal:\t  $35.00\n"));
    assert!(text.ends_with("Due Date: February 14, 2024"));
    assert_eq!(
        invoice_cli::show::show_terms(&Terms { id: 3, name: "Net".to_string(), due: -30 }),
        "ID: 3 - Name: Net, Due: -30"
    );
}
