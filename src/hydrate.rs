use vstd::prelude::*;
use vstd::string::*;

use crate::json::{decode_ids, decode_items, items_of_json, json_int_list};
use crate::models::{
    Client, Column, Company, Contact, InvoiceAttrs, InvoiceItem, InvoiceStage, Items, Methods,
    Models, PaidStatus, ShortList, Template, Terms,
};
use crate::money::cents_to_decimal;
use crate::descriptors::{stage_text, status_text};
use crate::value::{flag_val, opt_blob_val, opt_text_val, value_views, SqlVal, SqlValue};

verus! {

/// Why a read gives no entity.
#[derive(Debug, Clone, Copy, PartialEq, Eq, Structural)]
pub enum DbError {
    /// No row has the id asked for.
    NotFound { table: Models, id: i64 },
    /// A stored row breaks what the schema promises: a value of the wrong
    /// kind, an unknown discriminant, malformed JSON, an unparsable date, or
    /// a reference that resolved to another row.
    Corrupt { table: Models },
}

// ---------------------------------------------------------------- columns

pub open spec fn is_int(v: SqlVal) -> bool {
    v is Integer
}

pub open spec fn is_text(v: SqlVal) -> bool {
    v is Text
}

pub open spec fn is_opt_text(v: SqlVal) -> bool {
    v is Null || v is Text
}

pub open spec fn is_opt_blob(v: SqlVal) -> bool {
    v is Null || v is Blob
}

pub open spec fn is_flag(v: SqlVal) -> bool {
    v == SqlVal::Integer(0) || v == SqlVal::Integer(1)
}

/// The columns of each table, as `SELECT *` returns them.
pub open spec fn table_columns(m: Models) -> Seq<Column> {
    match m {
        Models::Company => seq![
            Column::Id,
            Column::Name,
            Column::Logo,
            Column::Phone,
            Column::Email,
            Column::Addr1,
            Column::Addr2,
            Column::City,
            Column::State,
            Column::Zip,
        ],
        Models::Client => seq![
            Column::Id,
            Column::Name,
            Column::Phone,
            Column::Email,
            Column::Addr1,
            Column::Addr2,
            Column::City,
            Column::State,
            Column::Zip,
        ],
        Models::Terms => seq![Column::Id, Column::Name, Column::Due],
        Models::Methods => seq![Column::Id, Column::Name, Column::Link, Column::Qr],
        Models::Items => seq![Column::Id, Column::Name, Column::Rate],
        Models::Templates => seq![
            Column::Id,
            Column::Name,
            Column::CompanyId,
            Column::ClientId,
            Column::TermsId,
            Column::MethodsJson,
        ],
        Models::Invoices => seq![
            Column::Id,
            Column::TemplateId,
            Column::Date,
            Column::ShowMethods,
            Column::ShowNotes,
            Column::Stage,
            Column::Status,
            Column::StatusDate,
            Column::StatusCheck,
            Column::Notes,
            Column::ItemsJson,
        ],
        Models::Config => Seq::empty(),
    }
}

fn int_col(row: &Vec<SqlValue>, i: usize) -> (r: Option<i64>)
    requires
        i < row.len(),
    ensures
        match r {
            Some(n) => row@[i as int]@ == SqlVal::Integer(n as int),
            None => !is_int(row@[i as int]@),
        },
{
    match &row[i] {
        SqlValue::Integer(n) => Some(*n),
        _ => None,
    }
}

fn text_col(row: &Vec<SqlValue>, i: usize) -> (r: Option<String>)
    requires
        i < row.len(),
    ensures
        match r {
            Some(s) => row@[i as int]@ == SqlVal::Text(s@),
            None => !is_text(row@[i as int]@),
        },
{
    match &row[i] {
        SqlValue::Text(s) => Some(s.clone()),
        _ => None,
    }
}

fn opt_text_col(row: &Vec<SqlValue>, i: usize) -> (r: Option<Option<String>>)
    requires
        i < row.len(),
    ensures
        match r {
            Some(o) => row@[i as int]@ == opt_text_val(o),
            None => !is_opt_text(row@[i as int]@),
        },
{
    match &row[i] {
        SqlValue::Null => Some(None),
        SqlValue::Text(s) => Some(Some(s.clone())),
        _ => None,
    }
}

fn opt_blob_col(row: &Vec<SqlValue>, i: usize) -> (r: Option<Option<Vec<u8>>>)
    requires
        i < row.len(),
    ensures
        match r {
            Some(o) => row@[i as int]@ == opt_blob_val(o),
            None => !is_opt_blob(row@[i as int]@),
        },
{
    match &row[i] {
        SqlValue::Null => Some(None),
        SqlValue::Blob(b) => Some(Some(crate::value::copy_bytes(b))),
        _ => None,
    }
}

fn flag_col(row: &Vec<SqlValue>, i: usize) -> (r: Option<bool>)
    requires
        i < row.len(),
    ensures
        match r {
            Some(b) => row@[i as int]@ == flag_val(b),
            None => !is_flag(row@[i as int]@),
        },
{
    match &row[i] {
        SqlValue::Integer(n) => {
            if *n == 0 {
                Some(false)
            } else if *n == 1 {
                Some(true)
            } else {
                None
            }
        },
        _ => None,
    }
}

// ---------------------------------------------------------------- contact

/// The seven stored values of a contact, `NULL` where a detail is absent.
pub open spec fn contact_vals(c: Contact) -> Seq<SqlVal> {
    seq![
        opt_text_val(c.phone),
        opt_text_val(c.email),
        opt_text_val(c.addr1),
        opt_text_val(c.addr2),
        opt_text_val(c.city),
        opt_text_val(c.state),
        opt_text_val(c.zip),
    ]
}

/// Seven optional texts from `start` on.
pub open spec fn contact_cols_ok(row: Seq<SqlVal>, start: int) -> bool {
    forall|k: int| start <= k < start + 7 ==> is_opt_text(#[trigger] row[k])
}

fn decode_contact(row: &Vec<SqlValue>, start: usize) -> (r: Option<Contact>)
    requires
        start + 7 <= row.len(),
    ensures
        r is Some <==> contact_cols_ok(value_views(row@), start as int),
        r matches Some(c) ==> contact_vals(c) == value_views(row@).subrange(
            start as int,
            start + 7,
        ),
{
    let ghost rv = value_views(row@);
    let phone = opt_text_col(row, start);
    let email = opt_text_col(row, start + 1);
    let addr1 = opt_text_col(row, start + 2);
    let addr2 = opt_text_col(row, start + 3);
    let city = opt_text_col(row, start + 4);
    let state = opt_text_col(row, start + 5);
    let zip = opt_text_col(row, start + 6);
    match (phone, email, addr1, addr2, city, state, zip) {
        (Some(phone), Some(email), Some(addr1), Some(addr2), Some(city), Some(state), Some(zip)) => {
            let c = Contact { phone, email, addr1, addr2, city, state, zip };
            assert(contact_vals(c) =~= rv.subrange(start as int, start + 7));
            assert forall|k: int| start <= k < start + 7 implies is_opt_text(#[trigger] rv[k]) by {
                assert(rv[k] == contact_vals(c)[k - start]);
            }
            Some(c)
        },
        _ => {
            assert(!contact_cols_ok(rv, start as int)) by {
                if contact_cols_ok(rv, start as int) {
                    assert(is_opt_text(rv[start as int]));
                    assert(is_opt_text(rv[start + 1]));
                    assert(is_opt_text(rv[start + 2]));
                    assert(is_opt_text(rv[start + 3]));
                    assert(is_opt_text(rv[start + 4]));
                    assert(is_opt_text(rv[start + 5]));
                    assert(is_opt_text(rv[start + 6]));
                }
            }
            None
        },
    }
}

// ---------------------------------------------------------------- entities

/// The stored row of a company.
pub open spec fn company_row(c: Company) -> Seq<SqlVal> {
    seq![SqlVal::Integer(c.id as int), SqlVal::Text(c.name@), opt_blob_val(c.logo)] + contact_vals(
        c.contact,
    )
}

/// A row a company decodes from.
pub open spec fn is_company_row(row: Seq<SqlVal>) -> bool {
    &&& row.len() == 10
    &&& is_int(row[0])
    &&& is_text(row[1])
    &&& is_opt_blob(row[2])
    &&& contact_cols_ok(row, 3)
}

/// Decodes a company row; fails where the row is not one.
pub fn decode_company(row: &Vec<SqlValue>) -> (r: Option<Company>)
    ensures
        r is Some <==> is_company_row(value_views(row@)),
        r matches Some(c) ==> company_row(c) == value_views(row@) && c.table == Models::Company,
{
    let ghost rv = value_views(row@);
    if row.len() != 10 {
        return None;
    }
    let id = int_col(row, 0);
    let name = text_col(row, 1);
    let logo = opt_blob_col(row, 2);
    let contact = decode_contact(row, 3);
    match (id, name, logo, contact) {
        (Some(id), Some(name), Some(logo), Some(contact)) => {
            let c = Company { table: Models::Company, id, name, logo, contact };
            assert(company_row(c) =~= rv);
            Some(c)
        },
        _ => None,
    }
}

/// The stored row of a client.
pub open spec fn client_row(c: Client) -> Seq<SqlVal> {
    seq![SqlVal::Integer(c.id as int), SqlVal::Text(c.name@)] + contact_vals(c.contact)
}

pub open spec fn is_client_row(row: Seq<SqlVal>) -> bool {
    &&& row.len() == 9
    &&& is_int(row[0])
    &&& is_text(row[1])
    &&& contact_cols_ok(row, 2)
}

/// Decodes a client row; fails where the row is not one.
pub fn decode_client(row: &Vec<SqlValue>) -> (r: Option<Client>)
    ensures
        r is Some <==> is_client_row(value_views(row@)),
        r matches Some(c) ==> client_row(c) == value_views(row@),
{
    let ghost rv = value_views(row@);
    if row.len() != 9 {
        return None;
    }
    let id = int_col(row, 0);
    let name = text_col(row, 1);
    let contact = decode_contact(row, 2);
    match (id, name, contact) {
        (Some(id), Some(name), Some(contact)) => {
            let c = Client { id, name, contact };
            assert(client_row(c) =~= rv);
            Some(c)
        },
        _ => None,
    }
}

/// The stored row of payment terms.
pub open spec fn terms_row(t: Terms) -> Seq<SqlVal> {
    seq![SqlVal::Integer(t.id as int), SqlVal::Text(t.name@), SqlVal::Integer(t.due as int)]
}

pub open spec fn is_terms_row(row: Seq<SqlVal>) -> bool {
    &&& row.len() == 3
    &&& is_int(row[0])
    &&& is_text(row[1])
    &&& is_int(row[2])
}

/// Decodes a terms row; fails where the row is not one.
pub fn decode_terms(row: &Vec<SqlValue>) -> (r: Option<Terms>)
    ensures
        r is Some <==> is_terms_row(value_views(row@)),
        r matches Some(t) ==> terms_row(t) == value_views(row@),
{
    let ghost rv = value_views(row@);
    if row.len() != 3 {
        return None;
    }
    match (int_col(row, 0), text_col(row, 1), int_col(row, 2)) {
        (Some(id), Some(name), Some(due)) => {
            let t = Terms { id, name, due };
            assert(terms_row(t) =~= rv);
            Some(t)
        },
        _ => None,
    }
}

/// The stored row of a payment method.
pub open spec fn method_row(m: Methods) -> Seq<SqlVal> {
    seq![
        SqlVal::Integer(m.id as int),
        SqlVal::Text(m.name@),
        opt_text_val(m.link),
        opt_blob_val(m.qr),
    ]
}

pub open spec fn is_method_row(row: Seq<SqlVal>) -> bool {
    &&& row.len() == 4
    &&& is_int(row[0])
    &&& is_text(row[1])
    &&& is_opt_text(row[2])
    &&& is_opt_blob(row[3])
}

/// Decodes a payment-method row; fails where the row is not one.
pub fn decode_method(row: &Vec<SqlValue>) -> (r: Option<Methods>)
    ensures
        r is Some <==> is_method_row(value_views(row@)),
        r matches Some(m) ==> method_row(m) == value_views(row@),
{
    let ghost rv = value_views(row@);
    if row.len() != 4 {
        return None;
    }
    match (int_col(row, 0), text_col(row, 1), opt_text_col(row, 2), opt_blob_col(row, 3)) {
        (Some(id), Some(name), Some(link), Some(qr)) => {
            let m = Methods { id, name, link, qr };
            assert(method_row(m) =~= rv);
            Some(m)
        },
        _ => None,
    }
}

/// The stored row of an item, its rate as cents: the rate must be a whole
/// number of cents (two decimal places).
pub open spec fn item_row(it: Items) -> Seq<SqlVal> {
    seq![SqlVal::Integer(it.id as int), SqlVal::Text(it.name@), SqlVal::Integer(it.rate.mantissa as int)]
}

pub open spec fn is_item_row(row: Seq<SqlVal>) -> bool {
    &&& row.len() == 3
    &&& is_int(row[0])
    &&& is_text(row[1])
    &&& is_int(row[2])
}

/// Decodes an item row; the stored cents become a rate of `cents / 100`.
pub fn decode_item(row: &Vec<SqlValue>) -> (r: Option<Items>)
    ensures
        r is Some <==> is_item_row(value_views(row@)),
        r matches Some(it) ==> item_row(it) == value_views(row@) && it.rate.scale == 2
            && it.rate.wf() && it.table == Models::Items,
{
    let ghost rv = value_views(row@);
    if row.len() != 3 {
        return None;
    }
    match (int_col(row, 0), text_col(row, 1), int_col(row, 2)) {
        (Some(id), Some(name), Some(cents)) => {
            let it = Items { table: Models::Items, id, name, rate: cents_to_decimal(cents) };
            assert(item_row(it) =~= rv);
            Some(it)
        },
        _ => None,
    }
}

/// An id and a label, as a picker lists them.
pub open spec fn is_short_row(row: Seq<SqlVal>) -> bool {
    &&& row.len() == 2
    &&& is_int(row[0])
    &&& is_text(row[1])
}

/// Decodes an (id, label) row.
pub fn decode_short(row: &Vec<SqlValue>) -> (r: Option<ShortList>)
    ensures
        r is Some <==> is_short_row(value_views(row@)),
        r matches Some(s) ==> value_views(row@) == seq![
            SqlVal::Integer(s.id as int),
            SqlVal::Text(s.name@),
        ],
{
    let ghost rv = value_views(row@);
    if row.len() != 2 {
        return None;
    }
    match (int_col(row, 0), text_col(row, 1)) {
        (Some(id), Some(name)) => {
            let s = ShortList { id, name };
            assert(rv =~= seq![SqlVal::Integer(s.id as int), SqlVal::Text(s.name@)]);
            Some(s)
        },
        _ => None,
    }
}

// ---------------------------------------------------------------- reads by id

/// The first column of a row holds the id asked for.
pub open spec fn has_id(row: Seq<SqlVal>, id: i64) -> bool {
    row.len() > 0 && row[0] == SqlVal::Integer(id as int)
}

/// Reads company `id` from the row that came back, if any.
pub fn company_from_row(id: i64, row: Option<Vec<SqlValue>>) -> (r: Result<Company, DbError>)
    ensures
        match row {
            None => r == Err::<Company, DbError>(DbError::NotFound { table: Models::Company, id }),
            Some(rw) => if is_company_row(value_views(rw@)) && has_id(value_views(rw@), id) {
                r matches Ok(c) && company_row(c) == value_views(rw@)
            } else {
                r == Err::<Company, DbError>(DbError::Corrupt { table: Models::Company })
            },
        },
{
    match row {
        None => Err(DbError::NotFound { table: Models::Company, id }),
        Some(rw) => match decode_company(&rw) {
            Some(c) if c.id == id => Ok(c),
            _ => Err(DbError::Corrupt { table: Models::Company }),
        },
    }
}

/// Reads client `id` from the row that came back, if any.
pub fn client_from_row(id: i64, row: Option<Vec<SqlValue>>) -> (r: Result<Client, DbError>)
    ensures
        match row {
            None => r == Err::<Client, DbError>(DbError::NotFound { table: Models::Client, id }),
            Some(rw) => if is_client_row(value_views(rw@)) && has_id(value_views(rw@), id) {
                r matches Ok(c) && client_row(c) == value_views(rw@)
            } else {
                r == Err::<Client, DbError>(DbError::Corrupt { table: Models::Client })
            },
        },
{
    match row {
        None => Err(DbError::NotFound { table: Models::Client, id }),
        Some(rw) => match decode_client(&rw) {
            Some(c) if c.id == id => Ok(c),
            _ => Err(DbError::Corrupt { table: Models::Client }),
        },
    }
}

/// Reads terms `id` from the row that came back, if any.
pub fn terms_from_row(id: i64, row: Option<Vec<SqlValue>>) -> (r: Result<Terms, DbError>)
    ensures
        match row {
            None => r == Err::<Terms, DbError>(DbError::NotFound { table: Models::Terms, id }),
            Some(rw) => if is_terms_row(value_views(rw@)) && has_id(value_views(rw@), id) {
                r matches Ok(t) && terms_row(t) == value_views(rw@)
            } else {
                r == Err::<Terms, DbError>(DbError::Corrupt { table: Models::Terms })
            },
        },
{
    match row {
        None => Err(DbError::NotFound { table: Models::Terms, id }),
        Some(rw) => match decode_terms(&rw) {
            Some(t) if t.id == id => Ok(t),
            _ => Err(DbError::Corrupt { table: Models::Terms }),
        },
    }
}

/// Reads payment method `id` from the row that came back, if any.
pub fn method_from_row(id: i64, row: Option<Vec<SqlValue>>) -> (r: Result<Methods, DbError>)
    ensures
        match row {
            None => r == Err::<Methods, DbError>(DbError::NotFound { table: Models::Methods, id }),
            Some(rw) => if is_method_row(value_views(rw@)) && has_id(value_views(rw@), id) {
                r matches Ok(m) && method_row(m) == value_views(rw@)
            } else {
                r == Err::<Methods, DbError>(DbError::Corrupt { table: Models::Methods })
            },
        },
{
    match row {
        None => Err(DbError::NotFound { table: Models::Methods, id }),
        Some(rw) => match decode_method(&rw) {
            Some(m) if m.id == id => Ok(m),
            _ => Err(DbError::Corrupt { table: Models::Methods }),
        },
    }
}

/// Reads item `id` from the row that came back, if any.
pub fn item_from_row(id: i64, row: Option<Vec<SqlValue>>) -> (r: Result<Items, DbError>)
    ensures
        match row {
            None => r == Err::<Items, DbError>(DbError::NotFound { table: Models::Items, id }),
            Some(rw) => if is_item_row(value_views(rw@)) && has_id(value_views(rw@), id) {
                r matches Ok(it) && item_row(it) == value_views(rw@) && it.rate.scale == 2
                    && it.rate.wf()
            } else {
                r == Err::<Items, DbError>(DbError::Corrupt { table: Models::Items })
            },
        },
{
    match row {
        None => Err(DbError::NotFound { table: Models::Items, id }),
        Some(rw) => match decode_item(&rw) {
            Some(it) if it.id == id => Ok(it),
            _ => Err(DbError::Corrupt { table: Models::Items }),
        },
    }
}

// ---------------------------------------------------------------- templates

/// A template row with its references still unresolved.
#[derive(Debug, Clone)]
pub struct TemplateRow {
    pub id: i64,
    pub name: String,
    pub company_id: i64,
    pub client_id: i64,
    pub terms_id: i64,
    pub methods: Vec<i64>,
}

pub open spec fn is_template_row(row: Seq<SqlVal>) -> bool {
    &&& row.len() == 6
    &&& is_int(row[0])
    &&& is_text(row[1])
    &&& is_int(row[2])
    &&& is_int(row[3])
    &&& is_int(row[4])
    &&& row[5] matches SqlVal::Text(t) && json_int_list(t) is Some
}

/// The row a template row decodes from: its columns, and a method list whose
/// JSON reads as the ids.
pub open spec fn template_row_matches(t: TemplateRow, row: Seq<SqlVal>) -> bool {
    &&& row.len() == 6
    &&& row[0] == SqlVal::Integer(t.id as int)
    &&& row[1] == SqlVal::Text(t.name@)
    &&& row[2] == SqlVal::Integer(t.company_id as int)
    &&& row[3] == SqlVal::Integer(t.client_id as int)
    &&& row[4] == SqlVal::Integer(t.terms_id as int)
    &&& row[5] matches SqlVal::Text(s) && json_int_list(s) == Some(t.methods@)
}

/// Reads template `id` from the row that came back, if any, leaving its
/// references to resolve.
pub fn template_from_row(id: i64, row: Option<Vec<SqlValue>>) -> (r: Result<TemplateRow, DbError>)
    ensures
        match row {
            None => r == Err::<TemplateRow, DbError>(
                DbError::NotFound { table: Models::Templates, id },
            ),
            Some(rw) => if is_template_row(value_views(rw@)) && has_id(value_views(rw@), id) {
                r matches Ok(t) && template_row_matches(t, value_views(rw@))
            } else {
                r == Err::<TemplateRow, DbError>(DbError::Corrupt { table: Models::Templates })
            },
        },
{
    let corrupt = DbError::Corrupt { table: Models::Templates };
    let rw = match row {
        None => { return Err(DbError::NotFound { table: Models::Templates, id }); },
        Some(rw) => rw,
    };
    if rw.len() != 6 {
        return Err(corrupt);
    }
    match (int_col(&rw, 0), text_col(&rw, 1), int_col(&rw, 2), int_col(&rw, 3), int_col(&rw, 4), text_col(&rw, 5)) {
        (Some(rid), Some(name), Some(company_id), Some(client_id), Some(terms_id), Some(json)) => {
            if rid != id {
                return Err(corrupt);
            }
            match decode_ids(json.as_str()) {
                Some(methods) => Ok(TemplateRow { id, name, company_id, client_id, terms_id, methods }),
                None => Err(corrupt),
            }
        },
        _ => Err(corrupt),
    }
}

/// The methods resolve the ids, position by position.
pub open spec fn resolves_methods(ids: Seq<i64>, methods: Seq<Methods>) -> bool {
    &&& methods.len() == ids.len()
    &&& forall|i: int| 0 <= i < ids.len() ==> #[trigger] methods[i].id == ids[i]
}

/// Builds a template from its row and the entities its references name;
/// fails where an entity is not the one referenced.
pub fn assemble_template(
    t: TemplateRow,
    company: Company,
    client: Client,
    terms: Terms,
    methods: Vec<Methods>,
) -> (r: Result<Template, DbError>)
    ensures
        r is Ok <==> company.id == t.company_id && client.id == t.client_id && terms.id
            == t.terms_id && resolves_methods(t.methods@, methods@),
        r matches Ok(tp) ==> tp.id == t.id && tp.name == t.name && tp.company == company
            && tp.client == client && tp.terms == terms && tp.methods == methods,
        r matches Err(e) ==> e == (DbError::Corrupt { table: Models::Templates }),
{
    let corrupt = DbError::Corrupt { table: Models::Templates };
    if company.id != t.company_id || client.id != t.client_id || terms.id != t.terms_id
        || methods.len() != t.methods.len() {
        return Err(corrupt);
    }
    let mut i: usize = 0;
    while i < methods.len()
        invariant
            i <= methods.len() == t.methods.len(),
            forall|j: int| 0 <= j < i ==> #[trigger] methods@[j].id == t.methods@[j],
        decreases methods.len() - i,
    {
        if methods[i].id != t.methods[i] {
            return Err(DbError::Corrupt { table: Models::Templates });
        }
        i = i + 1;
    }
    Ok(Template { id: t.id, name: t.name, company, client, terms, methods })
}

// ---------------------------------------------------------------- invoices

pub open spec fn is_stage_disc(t: Seq<char>) -> bool {
    t == "Quote"@ || t == "Invoice"@
}

pub open spec fn is_status_disc(t: Seq<char>) -> bool {
    t == "Waiting"@ || t == "Past Due"@ || t == "Paid"@ || t == "Failed"@ || t == "Refunded"@
}

/// A stored date, or `Unknown` where none is stored.
pub open spec fn date_or_unknown(o: Option<String>) -> Seq<char> {
    match o {
        Some(s) => s@,
        None => "Unknown"@,
    }
}

/// A status carries the stored date and check number that it has room for.
pub open spec fn status_companions(s: PaidStatus, date: Option<String>, check: Option<String>) -> bool {
    match s {
        PaidStatus::Paid { date: d, check: c } => d@ == date_or_unknown(date) && c == check,
        PaidStatus::Failed { date: d } => d@ == date_or_unknown(date),
        PaidStatus::Refunded { date: d } => d@ == date_or_unknown(date),
        _ => true,
    }
}

/// Reads an invoice stage from its stored discriminant.
pub fn stage_from_str(s: &str) -> (r: Option<InvoiceStage>)
    ensures
        r is Some <==> is_stage_disc(s@),
        r matches Some(st) ==> stage_text(st) == s@,
{
    let t = String::from_str(s);
    if t == String::from_str("Quote") {
        Some(InvoiceStage::Quote)
    } else if t == String::from_str("Invoice") {
        Some(InvoiceStage::Invoice)
    } else {
        None
    }
}

/// Reads a payment status from its stored discriminant and companion columns.
pub fn status_from_parts(disc: &str, date: Option<String>, check: Option<String>) -> (r: Option<
    PaidStatus,
>)
    ensures
        r is Some <==> is_status_disc(disc@),
        r matches Some(s) ==> status_text(s) == disc@ && status_companions(s, date, check),
{
    let t = String::from_str(disc);
    let d = match &date {
        Some(x) => x.clone(),
        None => String::from_str("Unknown"),
    };
    if t == String::from_str("Waiting") {
        Some(PaidStatus::Waiting)
    } else if t == String::from_str("Past Due") {
        Some(PaidStatus::PastDue)
    } else if t == String::from_str("Paid") {
        Some(PaidStatus::Paid { date: d, check })
    } else if t == String::from_str("Failed") {
        Some(PaidStatus::Failed { date: d })
    } else if t == String::from_str("Refunded") {
        Some(PaidStatus::Refunded { date: d })
    } else {
        None
    }
}

/// An invoice row with its references still unresolved.
#[derive(Debug, Clone)]
pub struct InvoiceRow {
    pub id: i64,
    pub template_id: i64,
    pub date: String,
    pub attributes: InvoiceAttrs,
    pub notes: Option<String>,
    pub items: Vec<InvoiceItem>,
}

pub open spec fn is_invoice_row(row: Seq<SqlVal>) -> bool {
    &&& row.len() == 11
    &&& is_int(row[0])
    &&& is_int(row[1])
    &&& is_text(row[2])
    &&& is_flag(row[3])
    &&& is_flag(row[4])
    &&& row[5] matches SqlVal::Text(t) && is_stage_disc(t)
    &&& row[6] matches SqlVal::Text(t) && is_status_disc(t)
    &&& is_opt_text(row[7])
    &&& is_opt_text(row[8])
    &&& is_opt_text(row[9])
    &&& row[10] matches SqlVal::Text(t) && items_of_json(t) is Some
}

/// The row an invoice row decodes from.
pub open spec fn invoice_row_matches(r: InvoiceRow, row: Seq<SqlVal>) -> bool {
    &&& row.len() == 11
    &&& row[0] == SqlVal::Integer(r.id as int)
    &&& row[1] == SqlVal::Integer(r.template_id as int)
    &&& row[2] == SqlVal::Text(r.date@)
    &&& row[3] == flag_val(r.attributes.show_methods)
    &&& row[4] == flag_val(r.attributes.show_notes)
    &&& row[5] == SqlVal::Text(stage_text(r.attributes.stage))
    &&& row[6] == SqlVal::Text(status_text(r.attributes.status))
    &&& exists|date: Option<String>, check: Option<String>|
        row[7] == opt_text_val(date) && row[8] == opt_text_val(check)
            && #[trigger] status_companions(r.attributes.status, date, check)
    &&& row[9] == opt_text_val(r.notes)
    &&& row[10] matches SqlVal::Text(t) && items_of_json(t) == Some(r.items@)
}

/// Reads invoice `id` from the row that came back, if any, leaving its
/// references to resolve.
#[verifier::spinoff_prover]
pub fn invoice_from_row(id: i64, row: Option<Vec<SqlValue>>) -> (r: Result<InvoiceRow, DbError>)
    ensures
        match row {
            None => r == Err::<InvoiceRow, DbError>(
                DbError::NotFound { table: Models::Invoices, id },
            ),
            Some(rw) => if is_invoice_row(value_views(rw@)) && has_id(value_views(rw@), id) {
                r matches Ok(v) && invoice_row_matches(v, value_views(rw@))
            } else {
                r == Err::<InvoiceRow, DbError>(DbError::Corrupt { table: Models::Invoices })
            },
        },
{
    let corrupt = DbError::Corrupt { table: Models::Invoices };
    let rw = match row {
        None => { return Err(DbError::NotFound { table: Models::Invoices, id }); },
        Some(rw) => rw,
    };
    let ghost rv = value_views(rw@);
    if rw.len() != 11 {
        return Err(corrupt);
    }
    let rid = match int_col(&rw, 0) { Some(v) => v, None => { return Err(corrupt); } };
    let template_id = match int_col(&rw, 1) { Some(v) => v, None => { return Err(corrupt); } };
    let date = match text_col(&rw, 2) { Some(v) => v, None => { return Err(corrupt); } };
    let show_methods = match flag_col(&rw, 3) { Some(v) => v, None => { return Err(corrupt); } };
    let show_notes = match flag_col(&rw, 4) { Some(v) => v, None => { return Err(corrupt); } };
    let stage_text_col = match text_col(&rw, 5) { Some(v) => v, None => { return Err(corrupt); } };
    let status_text_col = match text_col(&rw, 6) { Some(v) => v, None => { return Err(corrupt); } };
    let sdate = match opt_text_col(&rw, 7) { Some(v) => v, None => { return Err(corrupt); } };
    let scheck = match opt_text_col(&rw, 8) { Some(v) => v, None => { return Err(corrupt); } };
    let notes = match opt_text_col(&rw, 9) { Some(v) => v, None => { return Err(corrupt); } };
    let items_text = match text_col(&rw, 10) { Some(v) => v, None => { return Err(corrupt); } };
    let stage = match stage_from_str(stage_text_col.as_str()) {
        Some(v) => v,
        None => { return Err(corrupt); },
    };
    let ghost sd = sdate;
    let ghost sc = scheck;
    let status = match status_from_parts(status_text_col.as_str(), sdate, scheck) {
        Some(v) => v,
        None => { return Err(corrupt); },
    };
    let items = match decode_items(items_text.as_str()) {
        Some(v) => v,
        None => { return Err(corrupt); },
    };
    if rid != id {
        return Err(corrupt);
    }
    let v = InvoiceRow {
        id,
        template_id,
        date,
        attributes: InvoiceAttrs { show_methods, show_notes, stage, status },
        notes,
        items,
    };
    assert(status_companions(v.attributes.status, sd, sc));
    Ok(v)
}

/// A copy of an item.
fn copy_item(it: &Items) -> (r: Items)
    ensures
        r == *it,
{
    Items { table: it.table, id: it.id, name: it.name.clone(), rate: it.rate }
}

/// Where an item with id `id` stands among `acc`, if it does.
pub open spec fn position_of(acc: Seq<(Items, i64)>, id: i64) -> Option<int>
    decreases acc.len(),
{
    if acc.len() == 0 {
        None
    } else {
        match position_of(acc.drop_last(), id) {
            Some(k) => Some(k),
            None => if acc.last().0.id == id { Some(acc.len() - 1) } else { None },
        }
    }
}

/// Adds one line to a mapping from item to quantity: a new item goes last; an
/// item already there keeps its place and takes the new quantity.
pub open spec fn merge_line(acc: Seq<(Items, i64)>, line: (Items, i64)) -> Seq<(Items, i64)> {
    match position_of(acc, line.0.id) {
        Some(k) => acc.update(k, (acc[k].0, line.1)),
        None => acc.push(line),
    }
}

/// The mapping from item to quantity that a list of lines gives, lines taken
/// in order: the last quantity of an item wins.
pub open spec fn merge_lines(lines: Seq<(Items, i64)>) -> Seq<(Items, i64)>
    decreases lines.len(),
{
    if lines.len() == 0 {
        Seq::empty()
    } else {
        merge_line(merge_lines(lines.drop_last()), lines.last())
    }
}

/// The lines of an invoice: each resolved item with its line's quantity.
pub open spec fn lines_of(items: Seq<Items>, refs: Seq<InvoiceItem>) -> Seq<(Items, i64)> {
    Seq::new(items.len(), |i: int| (items[i], refs[i].quantity))
}

proof fn lemma_position_of_bounds(acc: Seq<(Items, i64)>, id: i64)
    ensures
        position_of(acc, id) matches Some(k) ==> 0 <= k < acc.len() && acc[k].0.id == id,
        position_of(acc, id) is None ==> forall|j: int| 0 <= j < acc.len() ==> #[trigger] acc[j].0.id != id,
        position_of(acc, id) matches Some(k) ==> forall|j: int| 0 <= j < k ==> #[trigger] acc[j].0.id != id,
    decreases acc.len(),
{
    if acc.len() > 0 {
        lemma_position_of_bounds(acc.drop_last(), id);
        assert forall|j: int| 0 <= j < acc.len() - 1 implies #[trigger] acc[j] == acc.drop_last()[j] by {}
    }
}

/// Merges resolved lines into the item-to-quantity mapping.
#[verifier::spinoff_prover]
pub fn collect_quantities(items: &Vec<Items>, refs: &Vec<InvoiceItem>) -> (r: Vec<(Items, i64)>)
    requires
        items.len() == refs.len(),
    ensures
        r@ == merge_lines(lines_of(items@, refs@)),
{
    let ghost lines = lines_of(items@, refs@);
    let mut acc: Vec<(Items, i64)> = Vec::new();
    let mut i: usize = 0;
    while i < items.len()
        invariant
            i <= items.len() == refs.len(),
            lines == lines_of(items@, refs@),
            acc@ == merge_lines(lines.subrange(0, i as int)),
        decreases items.len() - i,
    {
        let id = items[i].id;
        let q = refs[i].quantity;
        proof {
            assert(lines.subrange(0, i as int + 1).drop_last() =~= lines.subrange(0, i as int));
            assert(lines.subrange(0, i as int + 1).last() == (items@[i as int], q));
        }
        let mut k: usize = 0;
        let mut found = false;
        while k < acc.len() && !found
            invariant
                k <= acc.len(),
                found ==> k < acc.len() && acc@[k as int].0.id == id,
                forall|j: int| 0 <= j < k ==> #[trigger] acc@[j].0.id != id,
            decreases acc.len() - k + (if found { 0int } else { 1int }),
        {
            if acc[k].0.id == id {
                found = true;
            } else {
                k = k + 1;
            }
        }
        proof {
            lemma_position_of_bounds(acc@, id);
        }
        if found {
            assert(position_of(acc@, id) == Some(k as int));
            let keep = copy_item(&acc[k].0);
            acc[k] = (keep, q);
        } else {
            assert(position_of(acc@, id) is None);
            acc.push((copy_item(&items[i]), q));
        }
        i = i + 1;
    }
    assert(lines.subrange(0, items@.len() as int) =~= lines);
    acc
}

/// Builds an invoice from its row, its template and the item each line names;
/// fails where an entity is not the one referenced.
pub fn assemble_invoice(v: InvoiceRow, template: Template, items: Vec<Items>) -> (r: Result<
    crate::models::Invoice,
    DbError,
>)
    ensures
        r is Ok <==> template.id == v.template_id && items.len() == v.items.len() && forall|i: int|
            0 <= i < items.len() ==> #[trigger] items@[i].id == v.items@[i].item,
        r matches Ok(inv) ==> inv.id == v.id && inv.template == template && inv.attributes
            == v.attributes && inv.date == v.date && inv.notes == v.notes && inv.items@
            == merge_lines(lines_of(items@, v.items@)) && inv.wf(),
        r matches Err(e) ==> e == (DbError::Corrupt { table: Models::Invoices }),
{
    let corrupt = DbError::Corrupt { table: Models::Invoices };
    if template.id != v.template_id || items.len() != v.items.len() {
        return Err(corrupt);
    }
    let mut i: usize = 0;
    while i < items.len()
        invariant
            i <= items.len() == v.items.len(),
            forall|j: int| 0 <= j < i ==> #[trigger] items@[j].id == v.items@[j].item,
        decreases items.len() - i,
    {
        if items[i].id != v.items[i].item {
            return Err(DbError::Corrupt { table: Models::Invoices });
        }
        i = i + 1;
    }
    let merged = collect_quantities(&items, &v.items);
    proof {
        lemma_merge_lines_last_wins(lines_of(items@, v.items@));
    }
    Ok(crate::models::Invoice {
        id: v.id,
        template,
        attributes: v.attributes,
        date: v.date,
        notes: v.notes,
        items: merged,
    })
}

/// The quantity of the last line for an item id, if any line names it.
pub open spec fn last_quantity(lines: Seq<(Items, i64)>, id: i64) -> Option<i64>
    decreases lines.len(),
{
    if lines.len() == 0 {
        None
    } else if lines.last().0.id == id {
        Some(lines.last().1)
    } else {
        last_quantity(lines.drop_last(), id)
    }
}

/// Merging an invoice's lines gives one entry per item id, with the quantity
/// of that item's last line, and every item of a line has an entry.
#[verifier::spinoff_prover]
pub proof fn lemma_merge_lines_last_wins(lines: Seq<(Items, i64)>)
    ensures
        forall|i: int, j: int|
            0 <= i < j < merge_lines(lines).len() ==> #[trigger] merge_lines(lines)[i].0.id
                != #[trigger] merge_lines(lines)[j].0.id,
        forall|k: int|
            0 <= k < merge_lines(lines).len() ==> last_quantity(lines, #[trigger] merge_lines(lines)[k].0.id)
                == Some(merge_lines(lines)[k].1),
        forall|i: int|
            0 <= i < lines.len() ==> exists|k: int|
                0 <= k < merge_lines(lines).len() && #[trigger] merge_lines(lines)[k].0.id
                    == #[trigger] lines[i].0.id,
    decreases lines.len(),
{
    if lines.len() > 0 {
        let init = lines.drop_last();
        let l = lines.last();
        let m = merge_lines(init);
        lemma_merge_lines_last_wins(init);
        lemma_position_of_bounds(m, l.0.id);
        let m2 = merge_lines(lines);
        assert(m2 == merge_line(m, l));
        match position_of(m, l.0.id) {
            Some(k0) => {
                assert(m2 == m.update(k0, (m[k0].0, l.1)));
                assert forall|i: int, j: int| 0 <= i < j < m2.len() implies #[trigger] m2[i].0.id
                    != #[trigger] m2[j].0.id by {
                    assert(m2[i].0.id == m[i].0.id && m2[j].0.id == m[j].0.id);
                }
                assert forall|k: int| 0 <= k < m2.len() implies last_quantity(lines, #[trigger] m2[k].0.id)
                    == Some(m2[k].1) by {
                    if k != k0 {
                        assert(m[k].0.id != m[k0].0.id);
                    }
                }
                assert forall|i: int| 0 <= i < lines.len() implies exists|k: int|
                    0 <= k < m2.len() && #[trigger] m2[k].0.id == #[trigger] lines[i].0.id by {
                    if i < lines.len() - 1 {
                        assert(lines[i] == init[i]);
                        let k = choose|k: int| 0 <= k < m.len() && #[trigger] m[k].0.id == init[i].0.id;
                        assert(m2[k].0.id == lines[i].0.id);
                    } else {
                        assert(m2[k0].0.id == lines[i].0.id);
                    }
                }
            },
            None => {
                assert(m2 == m.push(l));
                assert forall|i: int, j: int| 0 <= i < j < m2.len() implies #[trigger] m2[i].0.id
                    != #[trigger] m2[j].0.id by {
                    if j == m.len() {
                        assert(m[i].0.id != l.0.id);
                    } else {
                        assert(m2[i] == m[i] && m2[j] == m[j]);
                    }
                }
                assert forall|k: int| 0 <= k < m2.len() implies last_quantity(lines, #[trigger] m2[k].0.id)
                    == Some(m2[k].1) by {
                    if k < m.len() {
                        assert(m2[k] == m[k]);
                        assert(m[k].0.id != l.0.id);
                    }
                }
                assert forall|i: int| 0 <= i < lines.len() implies exists|k: int|
                    0 <= k < m2.len() && #[trigger] m2[k].0.id == #[trigger] lines[i].0.id by {
                    if i < lines.len() - 1 {
                        assert(lines[i] == init[i]);
                        let k = choose|k: int| 0 <= k < m.len() && #[trigger] m[k].0.id == init[i].0.id;
                        assert(m2[k] == m[k]);
                    } else {
                        assert(m2[m.len() as int].0.id == lines[i].0.id);
                    }
                }
            },
        }
    }
}

// ---------------------------------------------------------------- mail settings

/// The stored row of the mail settings.
pub open spec fn config_row(c: crate::models::Config) -> Seq<SqlVal> {
    seq![
        SqlVal::Integer(c.id as int),
        SqlVal::Text(c.smtp_server@),
        SqlVal::Integer(c.port as int),
        flag_val(c.tls),
        SqlVal::Text(c.username@),
        SqlVal::Text(c.password@),
        SqlVal::Text(c.fromname@),
    ]
}

pub open spec fn is_config_row(row: Seq<SqlVal>) -> bool {
    &&& row.len() == 7
    &&& is_int(row[0])
    &&& is_text(row[1])
    &&& row[2] matches SqlVal::Integer(p) && 0 <= p <= u16::MAX
    &&& is_flag(row[3])
    &&& is_text(row[4])
    &&& is_text(row[5])
    &&& is_text(row[6])
}

/// Reads the mail settings from the row that came back, if any: none stored
/// is no error.
pub fn config_from_row(row: Option<Vec<SqlValue>>) -> (r: Result<Option<crate::models::Config>, DbError>)
    ensures
        match row {
            None => r == Ok::<Option<crate::models::Config>, DbError>(None),
            Some(rw) => if is_config_row(value_views(rw@)) {
                r matches Ok(Some(c)) && config_row(c) == value_views(rw@)
            } else {
                r == Err::<Option<crate::models::Config>, DbError>(
                    DbError::Corrupt { table: Models::Config },
                )
            },
        },
{
    let corrupt = DbError::Corrupt { table: Models::Config };
    let rw = match row {
        None => { return Ok(None); },
        Some(rw) => rw,
    };
    let ghost rv = value_views(rw@);
    if rw.len() != 7 {
        return Err(corrupt);
    }
    match (
        int_col(&rw, 0),
        text_col(&rw, 1),
        int_col(&rw, 2),
        flag_col(&rw, 3),
        text_col(&rw, 4),
        text_col(&rw, 5),
        text_col(&rw, 6),
    ) {
        (Some(id), Some(smtp_server), Some(port), Some(tls), Some(username), Some(password), Some(fromname)) => {
            if port < 0 || port > 65535 {
                return Err(corrupt);
            }
            let c = crate::models::Config {
                id,
                smtp_server,
                port: port as u16,
                tls,
                username,
                password,
                fromname,
            };
            assert(config_row(c) =~= rv);
            Ok(Some(c))
        },
        _ => Err(corrupt),
    }
}

} // verus!
