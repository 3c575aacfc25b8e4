use vstd::prelude::*;
use vstd::string::*;

use crate::calc::{formatted_day, is_rendering, long_date, parsed_day, subtotals_of, sum_decimals, ItemDetail};
use crate::descriptors::{stage_str, stage_text};
use crate::models::{Client, Company, Contact, Invoice, Items, Methods, PaidStatus, Template, Terms};
use crate::money::{decimal_string, decimal_text};
use crate::text::{decimal_text as int_string, int_text};

verus! {

/// `true` or `false`.
pub open spec fn bool_text(b: bool) -> Seq<char> {
    if b { "true"@ } else { "false"@ }
}

/// `<label><value>\n` where a value is present, else nothing.
pub open spec fn opt_line(label: Seq<char>, o: Option<String>) -> Seq<char> {
    match o {
        Some(v) => label + v@ + "\n"@,
        None => Seq::empty(),
    }
}

/// The contact details that are present, one per line.
pub open spec fn contact_text(c: Contact) -> Seq<char> {
    opt_line("Phone:\t\t"@, c.phone) + opt_line("Email:\t\t"@, c.email) + opt_line(
        "Addr1:\t\t"@,
        c.addr1,
    ) + opt_line("Addr2:\t\t"@, c.addr2) + opt_line("City:\t\t"@, c.city) + opt_line(
        "State:\t\t"@,
        c.state,
    ) + opt_line("Zip:\t\t"@, c.zip)
}

pub open spec fn company_text(c: Company) -> Seq<char> {
    "ID:\t\t"@ + int_string(c.id as int) + "\nName:\t\t"@ + c.name@ + "\nHas Logo:\t"@ + bool_text(
        c.logo is Some,
    ) + "\nContact Information:\n"@ + contact_text(c.contact)
}

pub open spec fn client_text(c: Client) -> Seq<char> {
    "ID:\t\t"@ + int_string(c.id as int) + "\nName:\t\t"@ + c.name@ + "\nContact Information:\n"@
        + contact_text(c.contact)
}

pub open spec fn terms_text(t: Terms) -> Seq<char> {
    "ID: "@ + int_string(t.id as int) + " - Name: "@ + t.name@ + ", Due: "@ + int_string(t.due as int)
}

pub open spec fn method_text(m: Methods) -> Seq<char> {
    "ID:\t\t"@ + int_string(m.id as int) + "\nName:\t\t"@ + m.name@ + "\nLink:\t\t"@ + match m.link {
        Some(l) => l@,
        None => "None"@,
    } + "\nHas QR:\t\t"@ + bool_text(m.qr is Some)
}

pub open spec fn item_text(i: Items) -> Seq<char> {
    i.name@ + " (Rate: "@ + decimal_string(i.rate) + ")"@
}

/// Each method's text followed by a line break.
pub open spec fn methods_text(ms: Seq<Methods>) -> Seq<char>
    decreases ms.len(),
{
    if ms.len() == 0 {
        Seq::empty()
    } else {
        methods_text(ms.drop_last()) + method_text(ms.last()) + "\n"@
    }
}

pub open spec fn template_text(t: Template) -> Seq<char> {
    "ID:\t\t"@ + int_string(t.id as int) + "\nName:\t\t"@ + t.name@ + "\n\nCompany Information:\n"@
        + company_text(t.company) + "\nClient Information:\n"@ + client_text(t.client)
        + "\nTerms:\n"@ + terms_text(t.terms) + "\nPayment Methods:\n"@ + methods_text(t.methods@)
}

pub open spec fn status_lines(s: PaidStatus) -> Seq<char> {
    match s {
        PaidStatus::Waiting => "Waiting for payment\n"@,
        PaidStatus::PastDue => "Payment is past due\n"@,
        PaidStatus::Paid { date, check } => "Paid\nDate:\t\t"@ + date@ + "\n"@ + match check {
            Some(c) => "Check:\t\t"@ + c@ + "\n\n"@,
            None => Seq::empty(),
        },
        PaidStatus::Failed { date } => "Failed\nDate:\t\t"@ + date@ + "\n"@,
        PaidStatus::Refunded { date } => "Refunded\nDate:\t\t"@ + date@ + "\n"@,
    }
}

/// One rendered line in the item table.
pub open spec fn detail_line(d: ItemDetail) -> Seq<char> {
    d.name@ + "\t| $"@ + decimal_string(d.rate) + "\t| "@ + int_string(d.quantity as int)
        + "\t\t| $"@ + decimal_string(d.subtotal) + "\n"@
}

pub open spec fn detail_lines(v: Seq<ItemDetail>) -> Seq<char>
    decreases v.len(),
{
    if v.len() == 0 {
        Seq::empty()
    } else {
        detail_lines(v.drop_last()) + detail_line(v.last())
    }
}

/// The item table's rows and total for rendered lines `v`.
pub open spec fn table_text(v: Seq<ItemDetail>) -> Seq<char> {
    detail_lines(v) + match sum_decimals(subtotals_of(v)) {
        Some(t) => "\t\t\t\t\tTotal:\t  $"@ + decimal_string(t) + "\n"@,
        None => "Total unavailable\n"@,
    }
}

/// The due date as shown: written long, or `unknown`.
pub open spec fn due_text(inv: Invoice) -> Seq<char> {
    match parsed_day(inv.date@, "%Y%m%d"@) {
        Some(d) => if i32::MIN <= d + inv.template.terms.due <= i32::MAX {
            match formatted_day((d + inv.template.terms.due) as i32, "%B %d, %Y"@) {
                Some(t) => t,
                None => "unknown"@,
            }
        } else {
            "unknown"@
        },
        None => "unknown"@,
    }
}

/// Everything of an invoice before its item rows.
pub open spec fn invoice_head(inv: Invoice) -> Seq<char> {
    "ID:\t\t"@ + int_string(inv.id as int) + "\nDate:\t\t"@ + inv.date@
        + "\n\nTemplate Information:\n"@ + template_text(inv.template) + "\nStage:\t\t"@
        + stage_text(inv.attributes.stage) + "\nPayment status:\t"@ + status_lines(
        inv.attributes.status,
    ) + match inv.notes {
        Some(n) => "Notes:\n"@ + n@ + "\n\n"@,
        None => Seq::empty(),
    } + "Invoice attributes:\nShow notes:\t\t"@ + bool_text(inv.attributes.show_notes)
        + "\nShow payment methods:\t"@ + bool_text(inv.attributes.show_methods)
        + "\n\nInvoice Items:\nItem\t\t\t| Rate\t| Quantity\t| Subtotal\n"@
}

fn bool_str(b: bool) -> (r: &'static str)
    ensures
        r@ == bool_text(b),
{
    if b { "true" } else { "false" }
}

fn push_opt_line(out: &mut String, label: &str, o: &Option<String>)
    ensures
        final(out)@ == old(out)@ + opt_line(label@, *o),
{
    match o {
        Some(v) => {
            out.append(label);
            out.append(v.as_str());
            out.append("\n");
        },
        None => {},
    }
    assert(final(out)@ =~= old(out)@ + opt_line(label@, *o));
}

fn push_contact(out: &mut String, c: &Contact)
    ensures
        final(out)@ == old(out)@ + contact_text(*c),
{
    let mut t = String::new();
    push_opt_line(&mut t, "Phone:\t\t", &c.phone);
    assert(t@ =~= opt_line("Phone:\t\t"@, c.phone));
    push_opt_line(&mut t, "Email:\t\t", &c.email);
    push_opt_line(&mut t, "Addr1:\t\t", &c.addr1);
    push_opt_line(&mut t, "Addr2:\t\t", &c.addr2);
    push_opt_line(&mut t, "City:\t\t", &c.city);
    push_opt_line(&mut t, "State:\t\t", &c.state);
    push_opt_line(&mut t, "Zip:\t\t", &c.zip);
    out.append(t.as_str());
}

/// The contact details that are present, one per line.
pub fn show_contact(c: &Contact) -> (r: String)
    ensures
        r@ == contact_text(*c),
{
    let mut r = String::new();
    push_contact(&mut r, c);
    assert(r@ =~= contact_text(*c));
    r
}

/// A company as shown in the terminal.
pub fn show_company(c: &Company) -> (r: String)
    ensures
        r@ == company_text(*c),
{
    let mut r = String::from_str("ID:\t\t");
    r.append(int_text(c.id).as_str());
    r.append("\nName:\t\t");
    r.append(c.name.as_str());
    r.append("\nHas Logo:\t");
    r.append(bool_str(c.logo.is_some()));
    r.append("\nContact Information:\n");
    r.append(show_contact(&c.contact).as_str());
    r
}

/// A client as shown in the terminal.
pub fn show_client(c: &Client) -> (r: String)
    ensures
        r@ == client_text(*c),
{
    let mut r = String::from_str("ID:\t\t");
    r.append(int_text(c.id).as_str());
    r.append("\nName:\t\t");
    r.append(c.name.as_str());
    r.append("\nContact Information:\n");
    r.append(show_contact(&c.contact).as_str());
    r
}

/// Payment terms as shown in the terminal.
pub fn show_terms(t: &Terms) -> (r: String)
    ensures
        r@ == terms_text(*t),
{
    let mut r = String::from_str("ID: ");
    r.append(int_text(t.id).as_str());
    r.append(" - Name: ");
    r.append(t.name.as_str());
    r.append(", Due: ");
    r.append(int_text(t.due).as_str());
    r
}

/// A payment method as shown in the terminal.
pub fn show_method(m: &Methods) -> (r: String)
    ensures
        r@ == method_text(*m),
{
    let mut r = String::from_str("ID:\t\t");
    r.append(int_text(m.id).as_str());
    r.append("\nName:\t\t");
    r.append(m.name.as_str());
    r.append("\nLink:\t\t");
    match &m.link {
        Some(l) => r.append(l.as_str()),
        None => r.append("None"),
    }
    r.append("\nHas QR:\t\t");
    r.append(bool_str(m.qr.is_some()));
    r
}

/// An item as shown in the terminal.
pub fn show_item(i: &Items) -> (r: String)
    ensures
        r@ == item_text(*i),
{
    let mut r = i.name.clone();
    r.append(" (Rate: ");
    r.append(decimal_text(i.rate).as_str());
    r.append(")");
    r
}

/// A template, with its company, client, terms and methods, as shown in the
/// terminal.
pub fn show_template(t: &Template) -> (r: String)
    ensures
        r@ == template_text(*t),
{
    let mut r = String::from_str("ID:\t\t");
    r.append(int_text(t.id).as_str());
    r.append("\nName:\t\t");
    r.append(t.name.as_str());
    r.append("\n\nCompany Information:\n");
    r.append(show_company(&t.company).as_str());
    r.append("\nClient Information:\n");
    r.append(show_client(&t.client).as_str());
    r.append("\nTerms:\n");
    r.append(show_terms(&t.terms).as_str());
    r.append("\nPayment Methods:\n");
    let mut ms = String::new();
    let mut i: usize = 0;
    while i < t.methods.len()
        invariant
            i <= t.methods.len(),
            ms@ == methods_text(t.methods@.subrange(0, i as int)),
        decreases t.methods.len() - i,
    {
        assert(t.methods@.subrange(0, i as int + 1).drop_last() =~= t.methods@.subrange(0, i as int));
        ms.append(show_method(&t.methods[i]).as_str());
        ms.append("\n");
        i = i + 1;
    }
    assert(t.methods@.subrange(0, t.methods@.len() as int) =~= t.methods@);
    r.append(ms.as_str());
    r
}

fn status_text_lines(s: &PaidStatus) -> (r: String)
    ensures
        r@ == status_lines(*s),
{
    match s {
        PaidStatus::Waiting => String::from_str("Waiting for payment\n"),
        PaidStatus::PastDue => String::from_str("Payment is past due\n"),
        PaidStatus::Paid { date, check } => {
            let mut r = String::from_str("Paid\nDate:\t\t");
            r.append(date.as_str());
            r.append("\n");
            match check {
                Some(c) => {
                    let mut t = String::from_str("Check:\t\t");
                    t.append(c.as_str());
                    t.append("\n\n");
                    r.append(t.as_str());
                },
                None => {
                    assert(r@ =~= r@ + Seq::<char>::empty());
                },
            }
            r
        },
        PaidStatus::Failed { date } => {
            let mut r = String::from_str("Failed\nDate:\t\t");
            r.append(date.as_str());
            r.append("\n");
            r
        },
        PaidStatus::Refunded { date } => {
            let mut r = String::from_str("Refunded\nDate:\t\t");
            r.append(date.as_str());
            r.append("\n");
            r
        },
    }
}

fn detail_text(d: &ItemDetail) -> (r: String)
    ensures
        r@ == detail_line(*d),
{
    let mut r = d.name.clone();
    r.append("\t| $");
    r.append(decimal_text(d.rate).as_str());
    r.append("\t| ");
    r.append(int_text(d.quantity).as_str());
    r.append("\t\t| $");
    r.append(decimal_text(d.subtotal).as_str());
    r.append("\n");
    r
}

/// The item rows and total of rendered lines.
pub fn show_table(v: &Vec<ItemDetail>) -> (r: String)
    ensures
        r@ == table_text(v@),
{
    let mut r = String::new();
    let mut i: usize = 0;
    while i < v.len()
        invariant
            i <= v.len(),
            r@ == detail_lines(v@.subrange(0, i as int)),
        decreases v.len() - i,
    {
        assert(v@.subrange(0, i as int + 1).drop_last() =~= v@.subrange(0, i as int));
        r.append(detail_text(&v[i]).as_str());
        i = i + 1;
    }
    assert(v@.subrange(0, v@.len() as int) =~= v@);
    match crate::calc::total_of(v) {
        Ok(t) => {
            r.append("\t\t\t\t\tTotal:\t  $");
            r.append(decimal_text(t).as_str());
            r.append("\n");
        },
        Err(_) => r.append("Total unavailable\n"),
    }
    r
}

/// The due date as shown: written long, or `unknown`.
fn show_due(inv: &Invoice) -> (r: String)
    ensures
        r@ == due_text(*inv),
{
    let day = match inv.due_date() {
        Ok(d) => d,
        Err(_) => { return String::from_str("unknown"); },
    };
    match long_date(day) {
        Some(t) => t,
        None => String::from_str("unknown"),
    }
}

fn show_head(inv: &Invoice) -> (r: String)
    ensures
        r@ == invoice_head(*inv),
{
    let mut r = String::from_str("ID:\t\t");
    r.append(int_text(inv.id).as_str());
    r.append("\nDate:\t\t");
    r.append(inv.date.as_str());
    r.append("\n\nTemplate Information:\n");
    r.append(show_template(&inv.template).as_str());
    r.append("\nStage:\t\t");
    r.append(stage_str(&inv.attributes.stage));
    r.append("\nPayment status:\t");
    r.append(status_text_lines(&inv.attributes.status).as_str());
    match &inv.notes {
        Some(n) => {
            let mut t = String::from_str("Notes:\n");
            t.append(n.as_str());
            t.append("\n\n");
            r.append(t.as_str());
        },
        None => {
            assert(r@ =~= r@ + Seq::<char>::empty());
        },
    }
    r.append("Invoice attributes:\nShow notes:\t\t");
    r.append(bool_str(inv.attributes.show_notes));
    r.append("\nShow payment methods:\t");
    r.append(bool_str(inv.attributes.show_methods));
    r.append("\n\nInvoice Items:\nItem\t\t\t| Rate\t| Quantity\t| Subtotal\n");
    r
}

impl Invoice {
    /// The invoice as shown in the terminal: its fields, its template, its
    /// lines by name with their total, and the due date.
    pub fn show(&self) -> (r: String)
        ensures
            (forall|i: int| 0 <= i < self.items@.len() ==> #[trigger] crate::calc::line_ok(self.items@[i]))
                ==> exists|v: Seq<ItemDetail>|
                #[trigger] is_rendering(self.items@, v) && r@ == invoice_head(*self) + table_text(v)
                    + "Due Date: "@ + due_text(*self),
            !(forall|i: int| 0 <= i < self.items@.len() ==> #[trigger] crate::calc::line_ok(self.items@[i]))
                ==> r@ == invoice_head(*self) + "Lines unavailable\n"@ + "Due Date: "@ + due_text(*self),
    {
        let mut r = show_head(self);
        match self.calculate_subtotals() {
            Ok(v) => {
                assert(is_rendering(self.items@, v@));
                r.append(show_table(&v).as_str());
            },
            Err(_) => r.append("Lines unavailable\n"),
        }
        r.append("Due Date: ");
        r.append(show_due(self).as_str());
        r
    }
}

} // verus!
