use vstd::prelude::*;

use crate::descriptors::{
    blob_vals, contact_columns, contact_values, opt_col, text_vals, CreateClient,
    CreateCompany, CreateItem, CreateMethod, CreateTerms,
};
use crate::hydrate::{
    client_row, company_row, is_client_row, is_company_row, is_item_row, is_method_row,
    is_terms_row, method_row, table_columns, terms_row,
};
use crate::models::{Client, Column, Company, Contact, Methods, Models, Terms};
use crate::prepare::PrepValues;
use crate::value::{opt_text_val, SqlVal};

verus! {

/// What a column of a freshly inserted row holds: the first value written to
/// it, else `NULL`.
pub open spec fn written_value(cols: Seq<Column>, vals: Seq<SqlVal>, c: Column) -> SqlVal
    decreases cols.len(),
{
    if cols.len() == 0 || vals.len() == 0 {
        SqlVal::Null
    } else if cols[0] == c {
        vals[0]
    } else {
        written_value(cols.drop_first(), vals.drop_first(), c)
    }
}

/// The row a table holds, in `SELECT *` order, after an insert of `vals` into
/// `cols` that was given row id `id`.
pub open spec fn inserted_row(table: Models, id: i64, cols: Seq<Column>, vals: Seq<SqlVal>) -> Seq<
    SqlVal,
> {
    table_columns(table).map_values(
        |c: Column|
            if c == Column::Id {
                SqlVal::Integer(id as int)
            } else {
                written_value(cols, vals, c)
            },
    )
}

proof fn lemma_written_concat(a: Seq<Column>, va: Seq<SqlVal>, b: Seq<Column>, vb: Seq<SqlVal>, c: Column)
    requires
        a.len() == va.len(),
    ensures
        written_value(a + b, va + vb, c) == if a.contains(c) {
            written_value(a, va, c)
        } else {
            written_value(b, vb, c)
        },
    decreases a.len(),
{
    if a.len() == 0 {
        assert(a + b =~= b);
        assert(va + vb =~= vb);
    } else {
        assert((a + b).drop_first() =~= a.drop_first() + b);
        assert((va + vb).drop_first() =~= va.drop_first() + vb);
        lemma_written_concat(a.drop_first(), va.drop_first(), b, vb, c);
        if a[0] != c {
            assert(a.contains(c) <==> a.drop_first().contains(c)) by {
                if a.contains(c) {
                    let k = choose|k: int| 0 <= k < a.len() && a[k] == c;
                    assert(a.drop_first()[k - 1] == c);
                }
                if a.drop_first().contains(c) {
                    let k = choose|k: int| 0 <= k < a.drop_first().len() && a.drop_first()[k] == c;
                    assert(a[k + 1] == c);
                }
            }
        } else {
            assert(a.contains(c)) by {
                assert(a[0] == c);
            }
        }
    }
}

proof fn lemma_written_piece(p: bool, col: Column, v: Seq<SqlVal>, c: Column)
    requires
        v.len() == if p { 1int } else { 0int },
    ensures
        written_value(opt_col(p, col), v, c) == if p && c == col { v[0] } else { SqlVal::Null },
        opt_col(p, col).contains(c) <==> p && c == col,
{
    if p {
        let s = opt_col(p, col);
        assert(s.drop_first().len() == 0);
        assert(written_value(s.drop_first(), v.drop_first(), c) == SqlVal::Null);
        assert(s[0] == col);
        if s.contains(c) {
            let k = choose|k: int| 0 <= k < s.len() && s[k] == c;
            assert(k == 0);
        }
    } else {
        assert(opt_col(p, col).len() == 0);
    }
}

proof fn lemma_text_piece(o: Option<String>)
    ensures
        text_vals(o).len() == if o is Some { 1int } else { 0int },
        o matches Some(s) ==> text_vals(o)[0] == opt_text_val(o),
{
}

/// The detail a contact column of a contact holds.
pub open spec fn contact_field(ct: Contact, c: Column) -> SqlVal {
    match c {
        Column::Phone => opt_text_val(ct.phone),
        Column::Email => opt_text_val(ct.email),
        Column::Addr1 => opt_text_val(ct.addr1),
        Column::Addr2 => opt_text_val(ct.addr2),
        Column::City => opt_text_val(ct.city),
        Column::State => opt_text_val(ct.state),
        Column::Zip => opt_text_val(ct.zip),
        _ => SqlVal::Null,
    }
}

pub open spec fn is_contact_column(c: Column) -> bool {
    c == Column::Phone || c == Column::Email || c == Column::Addr1 || c == Column::Addr2 || c
        == Column::City || c == Column::State || c == Column::Zip
}

#[verifier::spinoff_prover]
#[verifier::rlimit(60)]
proof fn lemma_contact_written(ct: Contact, c: Column)
    ensures
        contact_columns(ct).len() == contact_values(ct).len(),
        written_value(contact_columns(ct), contact_values(ct), c) == contact_field(ct, c),
        contact_columns(ct).contains(c) ==> is_contact_column(c),
{
    let c_phone = opt_col(ct.phone is Some, Column::Phone);
    let c_email = opt_col(ct.email is Some, Column::Email);
    let c_addr1 = opt_col(ct.addr1 is Some, Column::Addr1);
    let c_addr2 = opt_col(ct.addr2 is Some, Column::Addr2);
    let c_city = opt_col(ct.city is Some, Column::City);
    let c_state = opt_col(ct.state is Some, Column::State);
    let c_zip = opt_col(ct.zip is Some, Column::Zip);
    let v1 = text_vals(ct.phone);
    let v2 = text_vals(ct.email);
    let v3 = text_vals(ct.addr1);
    let v4 = text_vals(ct.addr2);
    let v5 = text_vals(ct.city);
    let v6 = text_vals(ct.state);
    let v7 = text_vals(ct.zip);
    lemma_text_piece(ct.phone);
    lemma_text_piece(ct.email);
    lemma_text_piece(ct.addr1);
    lemma_text_piece(ct.addr2);
    lemma_text_piece(ct.city);
    lemma_text_piece(ct.state);
    lemma_text_piece(ct.zip);
    lemma_written_piece(ct.phone is Some, Column::Phone, v1, c);
    lemma_written_piece(ct.email is Some, Column::Email, v2, c);
    lemma_written_piece(ct.addr1 is Some, Column::Addr1, v3, c);
    lemma_written_piece(ct.addr2 is Some, Column::Addr2, v4, c);
    lemma_written_piece(ct.city is Some, Column::City, v5, c);
    lemma_written_piece(ct.state is Some, Column::State, v6, c);
    lemma_written_piece(ct.zip is Some, Column::Zip, v7, c);
    lemma_written_concat(c_phone, v1, c_email, v2, c);
    lemma_concat_contains(c_phone, c_email, c);
    lemma_written_concat(c_phone + c_email, v1 + v2, c_addr1, v3, c);
    lemma_concat_contains(c_phone + c_email, c_addr1, c);
    lemma_written_concat(c_phone + c_email + c_addr1, v1 + v2 + v3, c_addr2, v4, c);
    lemma_concat_contains(c_phone + c_email + c_addr1, c_addr2, c);
    lemma_written_concat(c_phone + c_email + c_addr1 + c_addr2, v1 + v2 + v3 + v4, c_city, v5, c);
    lemma_concat_contains(c_phone + c_email + c_addr1 + c_addr2, c_city, c);
    lemma_written_concat(c_phone + c_email + c_addr1 + c_addr2 + c_city, v1 + v2 + v3 + v4 + v5, c_state, v6, c);
    lemma_concat_contains(c_phone + c_email + c_addr1 + c_addr2 + c_city, c_state, c);
    lemma_written_concat(c_phone + c_email + c_addr1 + c_addr2 + c_city + c_state, v1 + v2 + v3 + v4 + v5 + v6, c_zip, v7, c);
    lemma_concat_contains(c_phone + c_email + c_addr1 + c_addr2 + c_city + c_state, c_zip, c);
}

proof fn lemma_concat_contains(a: Seq<Column>, b: Seq<Column>, c: Column)
    ensures
        (a + b).contains(c) <==> a.contains(c) || b.contains(c),
{
    if (a + b).contains(c) {
        let k = choose|k: int| 0 <= k < (a + b).len() && (a + b)[k] == c;
        if k < a.len() {
            assert(a[k] == c);
        } else {
            assert(b[k - a.len()] == c);
        }
    }
    if a.contains(c) {
        let k = choose|k: int| 0 <= k < a.len() && a[k] == c;
        assert((a + b)[k] == c);
    }
    if b.contains(c) {
        let k = choose|k: int| 0 <= k < b.len() && b[k] == c;
        assert((a + b)[k + a.len()] == c);
    }
}

/// Each value is the detail of `c` that the column at its position names.
pub open spec fn aligned_with(cols: Seq<Column>, vals: Seq<SqlVal>, c: Contact) -> bool {
    &&& cols.len() == vals.len()
    &&& forall|j: int| 0 <= j < cols.len() ==> vals[j] == contact_field(c, #[trigger] cols[j])
}

proof fn lemma_aligned_concat(a: Seq<Column>, va: Seq<SqlVal>, b: Seq<Column>, vb: Seq<SqlVal>, c: Contact)
    requires
        aligned_with(a, va, c),
        aligned_with(b, vb, c),
    ensures
        aligned_with(a + b, va + vb, c),
{
    assert forall|j: int| 0 <= j < (a + b).len() implies (va + vb)[j] == contact_field(
        c,
        #[trigger] (a + b)[j],
    ) by {
        if j < a.len() {
            assert((a + b)[j] == a[j]);
        } else {
            assert((a + b)[j] == b[j - a.len()]);
        }
    }
}

proof fn lemma_aligned_piece(o: Option<String>, col: Column, c: Contact)
    requires
        contact_field(c, col) == opt_text_val(o),
    ensures
        aligned_with(opt_col(o is Some, col), text_vals(o), c),
{
    if o is Some {
        assert(opt_col(o is Some, col)[0] == col);
    }
}

/// A contact's values line up with its fields: the value at each position is
/// the detail that the field at that position names.
pub proof fn lemma_contact_values_match_fields(c: Contact)
    ensures
        aligned_with(contact_columns(c), contact_values(c), c),
{
    lemma_aligned_piece(c.phone, Column::Phone, c);
    lemma_aligned_piece(c.email, Column::Email, c);
    lemma_aligned_piece(c.addr1, Column::Addr1, c);
    lemma_aligned_piece(c.addr2, Column::Addr2, c);
    lemma_aligned_piece(c.city, Column::City, c);
    lemma_aligned_piece(c.state, Column::State, c);
    lemma_aligned_piece(c.zip, Column::Zip, c);
    let c_phone = opt_col(c.phone is Some, Column::Phone);
    let c_email = opt_col(c.email is Some, Column::Email);
    let c_addr1 = opt_col(c.addr1 is Some, Column::Addr1);
    let c_addr2 = opt_col(c.addr2 is Some, Column::Addr2);
    let c_city = opt_col(c.city is Some, Column::City);
    let c_state = opt_col(c.state is Some, Column::State);
    let c_zip = opt_col(c.zip is Some, Column::Zip);
    let v1 = text_vals(c.phone);
    let v2 = text_vals(c.email);
    let v3 = text_vals(c.addr1);
    let v4 = text_vals(c.addr2);
    let v5 = text_vals(c.city);
    let v6 = text_vals(c.state);
    let v7 = text_vals(c.zip);
    lemma_aligned_concat(c_phone, v1, c_email, v2, c);
    lemma_aligned_concat(c_phone + c_email, v1 + v2, c_addr1, v3, c);
    lemma_aligned_concat(c_phone + c_email + c_addr1, v1 + v2 + v3, c_addr2, v4, c);
    lemma_aligned_concat(c_phone + c_email + c_addr1 + c_addr2, v1 + v2 + v3 + v4, c_city, v5, c);
    lemma_aligned_concat(
        c_phone + c_email + c_addr1 + c_addr2 + c_city,
        v1 + v2 + v3 + v4 + v5,
        c_state,
        v6,
        c,
    );
    lemma_aligned_concat(
        c_phone + c_email + c_addr1 + c_addr2 + c_city + c_state,
        v1 + v2 + v3 + v4 + v5 + v6,
        c_zip,
        v7,
        c,
    );
}

/// A contact as stored: absent contact details read back as all absent.
pub open spec fn stored_contact(o: Option<Contact>) -> Contact {
    match o {
        Some(c) => c,
        None => Contact::empty(),
    }
}

proof fn lemma_contact_part(o: Option<Contact>, c: Column)
    ensures
        ({
            let cols = match o {
                Some(ct) => contact_columns(ct),
                None => Seq::<Column>::empty(),
            };
            let vals = match o {
                Some(ct) => contact_values(ct),
                None => Seq::<SqlVal>::empty(),
            };
            &&& cols.len() == vals.len()
            &&& written_value(cols, vals, c) == contact_field(stored_contact(o), c)
        }),
{
    match o {
        Some(ct) => lemma_contact_written(ct, c),
        None => {},
    }
}

/// Inserting a company and reading its row back gives the name, logo and
/// contact details that were supplied, and absent ones as absent.
#[verifier::spinoff_prover]
pub proof fn lemma_company_round_trip(d: CreateCompany, id: i64)
    ensures
        is_company_row(inserted_row(Models::Company, id, d.columns_of(), d.spec_values())),
        inserted_row(Models::Company, id, d.columns_of(), d.spec_values()) == company_row(
            Company {
                table: Models::Company,
                id,
                name: d.name,
                logo: d.logo,
                contact: stored_contact(d.contact),
            },
        ),
{
    let a = seq![Column::Name];
    let va = seq![SqlVal::Text(d.name@)];
    let b = opt_col(d.logo is Some, Column::Logo);
    let vb = blob_vals(d.logo);
    let cp = match d.contact {
        Some(ct) => contact_columns(ct),
        None => Seq::<Column>::empty(),
    };
    let vc = match d.contact {
        Some(ct) => contact_values(ct),
        None => Seq::<SqlVal>::empty(),
    };
    assert(d.columns_of() == a + b + cp);
    assert(d.spec_values() == va + vb + vc);
    let row = inserted_row(Models::Company, id, d.columns_of(), d.spec_values());
    let expect = company_row(
        Company {
            table: Models::Company,
            id,
            name: d.name,
            logo: d.logo,
            contact: stored_contact(d.contact),
        },
    );
    assert forall|k: int| 1 <= k < 10 implies #[trigger] row[k] == expect[k] by {
        let c = table_columns(Models::Company)[k];
        lemma_contact_part(d.contact, c);
        lemma_written_piece(d.logo is Some, Column::Logo, vb, c);
        lemma_written_concat(a, va, b, vb, c);
        lemma_concat_contains(a, b, c);
        lemma_written_concat(a + b, va + vb, cp, vc, c);
        if d.contact is Some {
            lemma_contact_written(d.contact->0, c);
        }
        assert(a.contains(c) <==> c == Column::Name) by {
            if a.contains(c) {
                let j = choose|j: int| 0 <= j < a.len() && a[j] == c;
            }
            if c == Column::Name {
                assert(a[0] == c);
            }
        }
    }
    assert(row =~= expect);
}

/// Inserting a client and reading its row back gives the name and contact
/// details that were supplied, and absent ones as absent.
#[verifier::spinoff_prover]
pub proof fn lemma_client_round_trip(d: CreateClient, id: i64)
    ensures
        is_client_row(inserted_row(Models::Client, id, d.columns_of(), d.spec_values())),
        inserted_row(Models::Client, id, d.columns_of(), d.spec_values()) == client_row(
            Client { id, name: d.name, contact: stored_contact(d.contact) },
        ),
{
    let a = seq![Column::Name];
    let va = seq![SqlVal::Text(d.name@)];
    let cp = match d.contact {
        Some(ct) => contact_columns(ct),
        None => Seq::<Column>::empty(),
    };
    let vc = match d.contact {
        Some(ct) => contact_values(ct),
        None => Seq::<SqlVal>::empty(),
    };
    assert(d.columns_of() == a + cp);
    assert(d.spec_values() == va + vc);
    let row = inserted_row(Models::Client, id, d.columns_of(), d.spec_values());
    let expect = client_row(Client { id, name: d.name, contact: stored_contact(d.contact) });
    assert forall|k: int| 1 <= k < 9 implies #[trigger] row[k] == expect[k] by {
        let c = table_columns(Models::Client)[k];
        lemma_contact_part(d.contact, c);
        lemma_written_concat(a, va, cp, vc, c);
        assert(a.contains(c) <==> c == Column::Name) by {
            if a.contains(c) {
                let j = choose|j: int| 0 <= j < a.len() && a[j] == c;
            }
            if c == Column::Name {
                assert(a[0] == c);
            }
        }
    }
    assert(row =~= expect);
}

/// Inserting payment terms and reading the row back gives the name and days.
pub proof fn lemma_terms_round_trip(d: CreateTerms, id: i64)
    ensures
        is_terms_row(inserted_row(Models::Terms, id, seq![Column::Name, Column::Due], d.spec_values())),
        inserted_row(Models::Terms, id, seq![Column::Name, Column::Due], d.spec_values())
            == terms_row(Terms { id, name: d.name, due: d.due }),
{
    let cols = seq![Column::Name, Column::Due];
    let row = inserted_row(Models::Terms, id, cols, d.spec_values());
    let vals = d.spec_values();
    assert(cols.drop_first() =~= seq![Column::Due]);
    assert(vals.drop_first() =~= seq![SqlVal::Integer(d.due as int)]);
    assert(seq![Column::Due].drop_first().len() == 0);
    assert(written_value(cols, vals, Column::Name) == SqlVal::Text(d.name@));
    assert(written_value(cols.drop_first(), vals.drop_first(), Column::Due) == SqlVal::Integer(
        d.due as int,
    ));
    assert(written_value(cols, vals, Column::Due) == SqlVal::Integer(d.due as int));
    assert(row =~= terms_row(Terms { id, name: d.name, due: d.due }));
}

/// Inserting an item and reading the row back gives the name and the rate in
/// cents.
pub proof fn lemma_item_round_trip(d: CreateItem, id: i64)
    ensures
        is_item_row(inserted_row(Models::Items, id, seq![Column::Name, Column::Rate], d.spec_values())),
        inserted_row(Models::Items, id, seq![Column::Name, Column::Rate], d.spec_values()) == seq![
            SqlVal::Integer(id as int),
            SqlVal::Text(d.name@),
            SqlVal::Integer(d.rate_cents as int),
        ],
{
    let cols = seq![Column::Name, Column::Rate];
    let row = inserted_row(Models::Items, id, cols, d.spec_values());
    let vals = d.spec_values();
    assert(cols.drop_first() =~= seq![Column::Rate]);
    assert(vals.drop_first() =~= seq![SqlVal::Integer(d.rate_cents as int)]);
    assert(written_value(cols, vals, Column::Name) == SqlVal::Text(d.name@));
    assert(written_value(cols.drop_first(), vals.drop_first(), Column::Rate) == SqlVal::Integer(
        d.rate_cents as int,
    ));
    assert(written_value(cols, vals, Column::Rate) == SqlVal::Integer(d.rate_cents as int));
    assert(row =~= seq![
        SqlVal::Integer(id as int),
        SqlVal::Text(d.name@),
        SqlVal::Integer(d.rate_cents as int),
    ]);
}

/// Inserting a payment method and reading the row back gives the name, and
/// the link and QR code where supplied, absent ones as absent.
#[verifier::spinoff_prover]
pub proof fn lemma_method_round_trip(d: CreateMethod, id: i64)
    ensures
        is_method_row(inserted_row(Models::Methods, id, d.columns_of(), d.spec_values())),
        inserted_row(Models::Methods, id, d.columns_of(), d.spec_values()) == method_row(
            Methods { id, name: d.name, link: d.link, qr: d.qr },
        ),
{
    let a = seq![Column::Name];
    let va = seq![SqlVal::Text(d.name@)];
    let b = opt_col(d.link is Some, Column::Link);
    let vb = text_vals(d.link);
    let e = opt_col(d.qr is Some, Column::Qr);
    let ve = blob_vals(d.qr);
    assert(d.columns_of() == a + b + e);
    assert(d.spec_values() == va + vb + ve);
    let row = inserted_row(Models::Methods, id, d.columns_of(), d.spec_values());
    let expect = method_row(Methods { id, name: d.name, link: d.link, qr: d.qr });
    assert forall|k: int| 1 <= k < 4 implies #[trigger] row[k] == expect[k] by {
        let c = table_columns(Models::Methods)[k];
        lemma_text_piece(d.link);
        lemma_written_piece(d.link is Some, Column::Link, vb, c);
        lemma_written_piece(d.qr is Some, Column::Qr, ve, c);
        lemma_written_concat(a, va, b, vb, c);
        lemma_concat_contains(a, b, c);
        lemma_written_concat(a + b, va + vb, e, ve, c);
        assert(a.contains(c) <==> c == Column::Name) by {
            if a.contains(c) {
                let j = choose|j: int| 0 <= j < a.len() && a[j] == c;
            }
            if c == Column::Name {
                assert(a[0] == c);
            }
        }
    }
    assert(row =~= expect);
}

proof fn lemma_written_at(cols: Seq<Column>, vals: Seq<SqlVal>, k: int)
    requires
        cols.no_duplicates(),
        cols.len() == vals.len(),
        0 <= k < cols.len(),
    ensures
        written_value(cols, vals, cols[k]) == vals[k],
    decreases k,
{
    if k > 0 {
        assert(cols[0] != cols[k]);
        assert(cols.drop_first()[k - 1] == cols[k]);
        lemma_written_at(cols.drop_first(), vals.drop_first(), k - 1);
    }
}

/// Inserting a template stores its name and its company, client and terms
/// ids as given, and its payment methods as their framed JSON list.
pub proof fn lemma_template_round_trip(d: crate::descriptors::CreateTemplate, id: i64)
    ensures
        inserted_row(Models::Templates, id, d.columns_of(), d.spec_values()) == seq![
            SqlVal::Integer(id as int),
            SqlVal::Text(d.name@),
            SqlVal::Integer(d.company as int),
            SqlVal::Integer(d.client as int),
            SqlVal::Integer(d.terms as int),
            SqlVal::Text(crate::json::ids_json(d.methods@)),
        ],
{
    let cols = d.columns_of();
    let vals = d.spec_values();
    assert(cols.no_duplicates());
    let row = inserted_row(Models::Templates, id, cols, vals);
    assert forall|k: int| 1 <= k < 6 implies #[trigger] row[k] == vals[k - 1] by {
        assert(table_columns(Models::Templates)[k] == cols[k - 1]);
        lemma_written_at(cols, vals, k - 1);
    }
    assert(row =~= seq![
        SqlVal::Integer(id as int),
        SqlVal::Text(d.name@),
        SqlVal::Integer(d.company as int),
        SqlVal::Integer(d.client as int),
        SqlVal::Integer(d.terms as int),
        SqlVal::Text(crate::json::ids_json(d.methods@)),
    ]);
}

/// The stored row of a new invoice: its template, date, flags, stage and
/// status as given, the status's date and check number and the notes where
/// present (else `NULL`), and its lines as their framed JSON list.
pub open spec fn invoice_insert_row(d: crate::descriptors::CreateInvoice, id: i64) -> Seq<SqlVal> {
    seq![
        SqlVal::Integer(id as int),
        SqlVal::Integer(d.template as int),
        SqlVal::Text(d.date@),
        crate::value::flag_val(d.attributes.show_methods),
        crate::value::flag_val(d.attributes.show_notes),
        SqlVal::Text(crate::descriptors::stage_text(d.attributes.stage)),
        SqlVal::Text(crate::descriptors::status_text(d.attributes.status)),
        opt_text_val(crate::descriptors::status_date(d.attributes.status)),
        opt_text_val(crate::descriptors::status_check(d.attributes.status)),
        opt_text_val(d.notes),
        SqlVal::Text(crate::json::items_json(d.items@)),
    ]
}

/// Inserting an invoice stores each supplied field in its column, and leaves
/// the columns of absent optional fields `NULL`.
#[verifier::spinoff_prover]
pub proof fn lemma_invoice_round_trip(d: crate::descriptors::CreateInvoice, id: i64)
    ensures
        inserted_row(Models::Invoices, id, d.columns_of(), d.spec_values()) == invoice_insert_row(
            d,
            id,
        ),
{
    let st = d.attributes.status;
    let sd = crate::descriptors::status_date(st);
    let sc = crate::descriptors::status_check(st);
    let a = seq![
        Column::TemplateId,
        Column::Date,
        Column::ShowMethods,
        Column::ShowNotes,
        Column::Stage,
    ];
    let va = seq![
        SqlVal::Integer(d.template as int),
        SqlVal::Text(d.date@),
        crate::value::flag_val(d.attributes.show_methods),
        crate::value::flag_val(d.attributes.show_notes),
        SqlVal::Text(crate::descriptors::stage_text(d.attributes.stage)),
    ];
    let b1 = seq![Column::Status];
    let vb1 = seq![SqlVal::Text(crate::descriptors::status_text(st))];
    let b2 = opt_col(sd is Some, Column::StatusDate);
    let vb2 = text_vals(sd);
    let b3 = opt_col(sc is Some, Column::StatusCheck);
    let vb3 = text_vals(sc);
    let c = opt_col(d.notes is Some, Column::Notes);
    let vc = text_vals(d.notes);
    let e = seq![Column::ItemsJson];
    let ve = seq![SqlVal::Text(crate::json::items_json(d.items@))];
    assert(d.columns_of() == a + (b1 + b2 + b3) + c + e);
    assert(d.spec_values() == va + (vb1 + vb2 + vb3) + vc + ve);
    let row = inserted_row(Models::Invoices, id, d.columns_of(), d.spec_values());
    let expect = invoice_insert_row(d, id);
    lemma_text_piece(sd);
    lemma_text_piece(sc);
    lemma_text_piece(d.notes);
    assert(a.no_duplicates());
    assert forall|k: int| 1 <= k < 11 implies #[trigger] row[k] == expect[k] by {
        let col = table_columns(Models::Invoices)[k];
        if 1 <= k < 6 {
            assert(a[k - 1] == col);
            lemma_written_at(a, va, k - 1);
        } else {
            assert(!a.contains(col)) by {
                if a.contains(col) {
                    let j = choose|j: int| 0 <= j < a.len() && a[j] == col;
                }
            }
        }
        lemma_written_piece(true, Column::Status, vb1, col);
        assert(b1 == opt_col(true, Column::Status));
        lemma_written_piece(sd is Some, Column::StatusDate, vb2, col);
        lemma_written_piece(sc is Some, Column::StatusCheck, vb3, col);
        lemma_written_piece(d.notes is Some, Column::Notes, vc, col);
        lemma_written_piece(true, Column::ItemsJson, ve, col);
        assert(e == opt_col(true, Column::ItemsJson));
        lemma_written_concat(b1, vb1, b2, vb2, col);
        lemma_concat_contains(b1, b2, col);
        lemma_written_concat(b1 + b2, vb1 + vb2, b3, vb3, col);
        lemma_concat_contains(b1 + b2, b3, col);
        lemma_written_concat(a, va, b1 + b2 + b3, vb1 + vb2 + vb3, col);
        lemma_concat_contains(a, b1 + b2 + b3, col);
        lemma_written_concat(a + (b1 + b2 + b3), va + (vb1 + vb2 + vb3), c, vc, col);
        lemma_concat_contains(a + (b1 + b2 + b3), c, col);
        lemma_written_concat(a + (b1 + b2 + b3) + c, va + (vb1 + vb2 + vb3) + vc, e, ve, col);
    }
    assert(row =~= expect);
}

} // verus!
