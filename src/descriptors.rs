use vstd::prelude::*;
use vstd::string::*;

use crate::json::{encode_ids, encode_items, ids_json, items_json};
use crate::models::{Column, Contact, InvoiceAttrs, InvoiceItem, InvoiceStage, Models, PaidStatus};
use crate::money::{cents_of, decimal_to_cents, fits_i64, Decimal, MoneyError};
use crate::prepare::{
    column_names, column_strings, table_string, update_fields, PrepCreate, PrepFields,
    PrepDelete, PrepUpdate, PrepValues, TableName,
};
use crate::text::decimal_text;
use crate::value::{copy_bytes, flag, flag_val, opt_text, opt_text_val, value_views, SqlVal, SqlValue};

verus! {

// ---------------------------------------------------------------- pieces

/// `c` where `present`, else nothing.
pub open spec fn opt_col(present: bool, c: Column) -> Seq<Column> {
    if present { seq![c] } else { Seq::empty() }
}

/// The text held, if any, as a one-value sequence.
pub open spec fn text_vals(o: Option<String>) -> Seq<SqlVal> {
    match o {
        Some(s) => seq![SqlVal::Text(s@)],
        None => Seq::empty(),
    }
}

/// The bytes held, if any, as a one-value sequence.
pub open spec fn blob_vals(o: Option<Vec<u8>>) -> Seq<SqlVal> {
    match o {
        Some(b) => seq![SqlVal::Blob(b@)],
        None => Seq::empty(),
    }
}

/// The integer held, if any, as a one-value sequence.
pub open spec fn int_vals(o: Option<i64>) -> Seq<SqlVal> {
    match o {
        Some(n) => seq![SqlVal::Integer(n as int)],
        None => Seq::empty(),
    }
}

/// The flag held, if any, as a one-value sequence.
pub open spec fn flag_vals(o: Option<bool>) -> Seq<SqlVal> {
    match o {
        Some(b) => seq![flag_val(b)],
        None => Seq::empty(),
    }
}

/// The contact columns that hold a detail.
pub open spec fn contact_columns(c: Contact) -> Seq<Column> {
    opt_col(c.phone is Some, Column::Phone) + opt_col(c.email is Some, Column::Email) + opt_col(
        c.addr1 is Some,
        Column::Addr1,
    ) + opt_col(c.addr2 is Some, Column::Addr2) + opt_col(c.city is Some, Column::City)
        + opt_col(c.state is Some, Column::State) + opt_col(c.zip is Some, Column::Zip)
}

/// The details a contact holds, in column order.
pub open spec fn contact_values(c: Contact) -> Seq<SqlVal> {
    text_vals(c.phone) + text_vals(c.email) + text_vals(c.addr1) + text_vals(c.addr2) + text_vals(
        c.city,
    ) + text_vals(c.state) + text_vals(c.zip)
}

/// Stored discriminant of an invoice stage.
pub open spec fn stage_text(s: InvoiceStage) -> Seq<char> {
    match s {
        InvoiceStage::Quote => "Quote"@,
        InvoiceStage::Invoice => "Invoice"@,
    }
}

/// Stored discriminant of a payment status.
pub open spec fn status_text(s: PaidStatus) -> Seq<char> {
    match s {
        PaidStatus::Waiting => "Waiting"@,
        PaidStatus::PastDue => "Past Due"@,
        PaidStatus::Paid { .. } => "Paid"@,
        PaidStatus::Failed { .. } => "Failed"@,
        PaidStatus::Refunded { .. } => "Refunded"@,
    }
}

/// The date a payment status carries, if any.
pub open spec fn status_date(s: PaidStatus) -> Option<String> {
    match s {
        PaidStatus::Paid { date, .. } => Some(date),
        PaidStatus::Failed { date } => Some(date),
        PaidStatus::Refunded { date } => Some(date),
        _ => None,
    }
}

/// The check number a payment status carries, if any.
pub open spec fn status_check(s: PaidStatus) -> Option<String> {
    match s {
        PaidStatus::Paid { check, .. } => check,
        _ => None,
    }
}

/// Columns a new row's status fills: the discriminant, then the date and the
/// check number where the status has them.
pub open spec fn create_status_columns(s: PaidStatus) -> Seq<Column> {
    seq![Column::Status] + opt_col(status_date(s) is Some, Column::StatusDate) + opt_col(
        status_check(s) is Some,
        Column::StatusCheck,
    )
}

pub open spec fn create_status_values(s: PaidStatus) -> Seq<SqlVal> {
    seq![SqlVal::Text(status_text(s))] + text_vals(status_date(s)) + text_vals(status_check(s))
}

/// Columns a status change writes: the discriminant, the date where the new
/// status has one, and for a payment the check number (`NULL` where none).
pub open spec fn update_status_columns(s: PaidStatus) -> Seq<Column> {
    seq![Column::Status] + opt_col(status_date(s) is Some, Column::StatusDate) + opt_col(
        s is Paid,
        Column::StatusCheck,
    )
}

pub open spec fn update_status_values(s: PaidStatus) -> Seq<SqlVal> {
    seq![SqlVal::Text(status_text(s))] + text_vals(status_date(s)) + if s is Paid {
        seq![opt_text_val(status_check(s))]
    } else {
        Seq::empty()
    }
}

/// The discriminant stored for a stage.
pub fn stage_str(s: &InvoiceStage) -> (r: &'static str)
    ensures
        r@ == stage_text(*s),
{
    match s {
        InvoiceStage::Quote => "Quote",
        InvoiceStage::Invoice => "Invoice",
    }
}

/// The discriminant stored for a payment status.
pub fn status_str(s: &PaidStatus) -> (r: &'static str)
    ensures
        r@ == status_text(*s),
{
    match s {
        PaidStatus::Waiting => "Waiting",
        PaidStatus::PastDue => "Past Due",
        PaidStatus::Paid { .. } => "Paid",
        PaidStatus::Failed { .. } => "Failed",
        PaidStatus::Refunded { .. } => "Refunded",
    }
}

fn clone_opt(o: &Option<String>) -> (r: Option<String>)
    ensures
        r == *o,
{
    match o {
        Some(s) => Some(s.clone()),
        None => None,
    }
}

fn status_date_of(s: &PaidStatus) -> (r: Option<String>)
    ensures
        r == status_date(*s),
{
    match s {
        PaidStatus::Paid { date, .. } => Some(date.clone()),
        PaidStatus::Failed { date } => Some(date.clone()),
        PaidStatus::Refunded { date } => Some(date.clone()),
        _ => None,
    }
}

fn status_check_of(s: &PaidStatus) -> (r: Option<String>)
    ensures
        r == status_check(*s),
{
    match s {
        PaidStatus::Paid { check, .. } => clone_opt(check),
        _ => None,
    }
}

fn push_col(v: &mut Vec<Column>, present: bool, c: Column)
    ensures
        final(v)@ == old(v)@ + opt_col(present, c),
{
    if present {
        v.push(c);
    }
    assert(final(v)@ =~= old(v)@ + opt_col(present, c));
}

fn push_val(v: &mut Vec<SqlValue>, x: SqlValue)
    ensures
        value_views(final(v)@) == value_views(old(v)@) + seq![x@],
{
    let ghost prev = v@;
    v.push(x);
    assert(value_views(v@) =~= value_views(prev) + seq![x@]);
}

fn push_text(v: &mut Vec<SqlValue>, o: &Option<String>)
    ensures
        value_views(final(v)@) == value_views(old(v)@) + text_vals(*o),
{
    match o {
        Some(s) => push_val(v, SqlValue::Text(s.clone())),
        None => {},
    }
    assert(value_views(final(v)@) =~= value_views(old(v)@) + text_vals(*o));
}

fn push_blob(v: &mut Vec<SqlValue>, o: &Option<Vec<u8>>)
    ensures
        value_views(final(v)@) == value_views(old(v)@) + blob_vals(*o),
{
    match o {
        Some(b) => push_val(v, SqlValue::Blob(copy_bytes(b))),
        None => {},
    }
    assert(value_views(final(v)@) =~= value_views(old(v)@) + blob_vals(*o));
}

fn push_int(v: &mut Vec<SqlValue>, o: Option<i64>)
    ensures
        value_views(final(v)@) == value_views(old(v)@) + int_vals(o),
{
    match o {
        Some(n) => push_val(v, SqlValue::Integer(n)),
        None => {},
    }
    assert(value_views(final(v)@) =~= value_views(old(v)@) + int_vals(o));
}

fn push_flag(v: &mut Vec<SqlValue>, o: Option<bool>)
    ensures
        value_views(final(v)@) == value_views(old(v)@) + flag_vals(o),
{
    match o {
        Some(b) => push_val(v, flag(b)),
        None => {},
    }
    assert(value_views(final(v)@) =~= value_views(old(v)@) + flag_vals(o));
}

fn push_contact_columns(v: &mut Vec<Column>, c: &Contact)
    ensures
        final(v)@ == old(v)@ + contact_columns(*c),
{
    let mut r: Vec<Column> = Vec::new();
    push_col(&mut r, c.phone.is_some(), Column::Phone);
    assert(r@ =~= opt_col(c.phone is Some, Column::Phone));
    push_col(&mut r, c.email.is_some(), Column::Email);
    push_col(&mut r, c.addr1.is_some(), Column::Addr1);
    push_col(&mut r, c.addr2.is_some(), Column::Addr2);
    push_col(&mut r, c.city.is_some(), Column::City);
    push_col(&mut r, c.state.is_some(), Column::State);
    push_col(&mut r, c.zip.is_some(), Column::Zip);
    v.append(&mut r);
}

fn push_contact_values(v: &mut Vec<SqlValue>, c: &Contact)
    ensures
        value_views(final(v)@) == value_views(old(v)@) + contact_values(*c),
{
    let mut r: Vec<SqlValue> = Vec::new();
    push_text(&mut r, &c.phone);
    assert(value_views(r@) =~= text_vals(c.phone));
    push_text(&mut r, &c.email);
    push_text(&mut r, &c.addr1);
    push_text(&mut r, &c.addr2);
    push_text(&mut r, &c.city);
    push_text(&mut r, &c.state);
    push_text(&mut r, &c.zip);
    let ghost prev = v@;
    let ghost added = r@;
    v.append(&mut r);
    assert(value_views(v@) =~= value_views(prev) + value_views(added));
}

fn push_create_status_columns(v: &mut Vec<Column>, s: &PaidStatus)
    ensures
        final(v)@ == old(v)@ + create_status_columns(*s),
{
    v.push(Column::Status);
    push_col(v, status_date_of(s).is_some(), Column::StatusDate);
    push_col(v, status_check_of(s).is_some(), Column::StatusCheck);
    assert(final(v)@ =~= old(v)@ + create_status_columns(*s));
}

fn push_create_status_values(v: &mut Vec<SqlValue>, s: &PaidStatus)
    ensures
        value_views(final(v)@) == value_views(old(v)@) + create_status_values(*s),
{
    push_val(v, SqlValue::Text(String::from_str(status_str(s))));
    push_text(v, &status_date_of(s));
    push_text(v, &status_check_of(s));
    assert(value_views(final(v)@) =~= value_views(old(v)@) + create_status_values(*s));
}

fn push_update_status_columns(v: &mut Vec<Column>, s: &PaidStatus)
    ensures
        final(v)@ == old(v)@ + update_status_columns(*s),
{
    v.push(Column::Status);
    push_col(v, status_date_of(s).is_some(), Column::StatusDate);
    let paid = match s {
        PaidStatus::Paid { .. } => true,
        _ => false,
    };
    push_col(v, paid, Column::StatusCheck);
    assert(final(v)@ =~= old(v)@ + update_status_columns(*s));
}

fn push_update_status_values(v: &mut Vec<SqlValue>, s: &PaidStatus)
    ensures
        value_views(final(v)@) == value_views(old(v)@) + update_status_values(*s),
{
    push_val(v, SqlValue::Text(String::from_str(status_str(s))));
    push_text(v, &status_date_of(s));
    let ghost mid = value_views(v@);
    match s {
        PaidStatus::Paid { .. } => push_val(v, opt_text(&status_check_of(s))),
        _ => {},
    }
    assert(value_views(v@) =~= mid + if *s is Paid {
        seq![opt_text_val(status_check(*s))]
    } else {
        Seq::<SqlVal>::empty()
    });
    assert(value_views(final(v)@) =~= value_views(old(v)@) + update_status_values(*s));
}

proof fn lemma_update_status_aligned(s: PaidStatus)
    ensures
        update_status_values(s).len() == update_status_columns(s).len(),
{
}

proof fn lemma_contact_aligned(c: Contact)
    ensures
        contact_values(c).len() == contact_columns(c).len(),
{
}

proof fn lemma_create_status_aligned(s: PaidStatus)
    ensures
        create_status_values(s).len() == create_status_columns(s).len(),
{
}

impl PrepFields for Contact {
    open spec fn spec_fields(&self) -> Seq<Seq<char>> {
        column_names(contact_columns(*self))
    }

    fn fields(&self) -> (r: Vec<String>) {
        let mut cols: Vec<Column> = Vec::new();
        push_contact_columns(&mut cols, self);
        assert(cols@ =~= contact_columns(*self));
        column_strings(&cols)
    }
}

impl PrepValues for Contact {
    open spec fn spec_values(&self) -> Seq<SqlVal> {
        contact_values(*self)
    }

    fn values(&self) -> (r: Vec<SqlValue>) {
        let mut r: Vec<SqlValue> = Vec::new();
        push_contact_values(&mut r, self);
        assert(value_views(r@) =~= contact_values(*self));
        r
    }
}

// ---------------------------------------------------------------- inserts

/// Request to insert a company: the name, and the logo and contact details
/// where supplied.
#[derive(Debug, Clone)]
pub struct CreateCompany {
    pub name: String,
    pub logo: Option<Vec<u8>>,
    pub contact: Option<Contact>,
}

impl CreateCompany {
    /// A request with a name alone.
    pub fn new(name: String) -> (r: CreateCompany)
        ensures
            r.name == name,
            r.logo is None,
            r.contact is None,
    {
        CreateCompany { name, logo: None, contact: None }
    }

    pub open spec fn columns_of(&self) -> Seq<Column> {
        seq![Column::Name] + opt_col(self.logo is Some, Column::Logo) + match self.contact {
            Some(c) => contact_columns(c),
            None => Seq::empty(),
        }
    }

    fn columns(&self) -> (r: Vec<Column>)
        ensures
            r@ == self.columns_of(),
    {
        let mut r: Vec<Column> = Vec::new();
        r.push(Column::Name);
        push_col(&mut r, self.logo.is_some(), Column::Logo);
        match &self.contact {
            Some(c) => push_contact_columns(&mut r, c),
            None => {},
        }
        assert(r@ =~= self.columns_of());
        r
    }
}

impl TableName for CreateCompany {
    open spec fn spec_table(&self) -> Models {
        Models::Company
    }

    fn table_name(&self) -> (r: String) {
        table_string(Models::Company)
    }
}

impl PrepFields for CreateCompany {
    open spec fn spec_fields(&self) -> Seq<Seq<char>> {
        column_names(self.columns_of())
    }

    fn fields(&self) -> (r: Vec<String>) {
        column_strings(&self.columns())
    }
}

impl PrepValues for CreateCompany {
    open spec fn spec_values(&self) -> Seq<SqlVal> {
        seq![SqlVal::Text(self.name@)] + blob_vals(self.logo) + match self.contact {
            Some(c) => contact_values(c),
            None => Seq::empty(),
        }
    }

    fn values(&self) -> (r: Vec<SqlValue>) {
        let mut r: Vec<SqlValue> = Vec::new();
        push_val(&mut r, SqlValue::Text(self.name.clone()));
        push_blob(&mut r, &self.logo);
        match &self.contact {
            Some(c) => push_contact_values(&mut r, c),
            None => {},
        }
        assert(value_views(r@) =~= self.spec_values());
        r
    }
}

impl PrepCreate for CreateCompany {
    open spec fn spec_columns(&self) -> Seq<Column> {
        self.columns_of()
    }

    proof fn lemma_aligned(&self) {
        if let Some(c) = self.contact {
            lemma_contact_aligned(c);
        }
    }
}

/// Request to insert a client: the name, and contact details where supplied.
#[derive(Debug, Clone)]
pub struct CreateClient {
    pub name: String,
    pub contact: Option<Contact>,
}

impl CreateClient {
    /// A request with a name alone.
    pub fn new(name: String) -> (r: CreateClient)
        ensures
            r.name == name,
            r.contact is None,
    {
        CreateClient { name, contact: None }
    }

    pub open spec fn columns_of(&self) -> Seq<Column> {
        seq![Column::Name] + match self.contact {
            Some(c) => contact_columns(c),
            None => Seq::empty(),
        }
    }

    fn columns(&self) -> (r: Vec<Column>)
        ensures
            r@ == self.columns_of(),
    {
        let mut r: Vec<Column> = Vec::new();
        r.push(Column::Name);
        match &self.contact {
            Some(c) => push_contact_columns(&mut r, c),
            None => {},
        }
        assert(r@ =~= self.columns_of());
        r
    }
}

impl TableName for CreateClient {
    open spec fn spec_table(&self) -> Models {
        Models::Client
    }

    fn table_name(&self) -> (r: String) {
        table_string(Models::Client)
    }
}

impl PrepFields for CreateClient {
    open spec fn spec_fields(&self) -> Seq<Seq<char>> {
        column_names(self.columns_of())
    }

    fn fields(&self) -> (r: Vec<String>) {
        column_strings(&self.columns())
    }
}

impl PrepValues for CreateClient {
    open spec fn spec_values(&self) -> Seq<SqlVal> {
        seq![SqlVal::Text(self.name@)] + match self.contact {
            Some(c) => contact_values(c),
            None => Seq::empty(),
        }
    }

    fn values(&self) -> (r: Vec<SqlValue>) {
        let mut r: Vec<SqlValue> = Vec::new();
        push_val(&mut r, SqlValue::Text(self.name.clone()));
        match &self.contact {
            Some(c) => push_contact_values(&mut r, c),
            None => {},
        }
        assert(value_views(r@) =~= self.spec_values());
        r
    }
}

impl PrepCreate for CreateClient {
    open spec fn spec_columns(&self) -> Seq<Column> {
        self.columns_of()
    }

    proof fn lemma_aligned(&self) {
        if let Some(c) = self.contact {
            lemma_contact_aligned(c);
        }
    }
}

/// Request to insert payment terms: a name and a number of days.
#[derive(Debug, Clone)]
pub struct CreateTerms {
    pub name: String,
    pub due: i64,
}

impl CreateTerms {
    pub fn new(name: String, due: i64) -> (r: CreateTerms)
        ensures
            r.name == name,
            r.due == due,
    {
        CreateTerms { name, due }
    }
}

impl TableName for CreateTerms {
    open spec fn spec_table(&self) -> Models {
        Models::Terms
    }

    fn table_name(&self) -> (r: String) {
        table_string(Models::Terms)
    }
}

impl PrepFields for CreateTerms {
    open spec fn spec_fields(&self) -> Seq<Seq<char>> {
        column_names(seq![Column::Name, Column::Due])
    }

    fn fields(&self) -> (r: Vec<String>) {
        column_strings(&vec![Column::Name, Column::Due])
    }
}

impl PrepValues for CreateTerms {
    open spec fn spec_values(&self) -> Seq<SqlVal> {
        seq![SqlVal::Text(self.name@), SqlVal::Integer(self.due as int)]
    }

    fn values(&self) -> (r: Vec<SqlValue>) {
        let mut r: Vec<SqlValue> = Vec::new();
        push_val(&mut r, SqlValue::Text(self.name.clone()));
        push_val(&mut r, SqlValue::Integer(self.due));
        assert(value_views(r@) =~= self.spec_values());
        r
    }
}

impl PrepCreate for CreateTerms {
    open spec fn spec_columns(&self) -> Seq<Column> {
        seq![Column::Name, Column::Due]
    }

    proof fn lemma_aligned(&self) {
    }
}

/// Request to insert a payment method: the name, and the link and QR-code
/// image where supplied.
#[derive(Debug, Clone)]
pub struct CreateMethod {
    pub name: String,
    pub link: Option<String>,
    pub qr: Option<Vec<u8>>,
}

impl CreateMethod {
    /// A request with a name alone.
    pub fn new(name: String) -> (r: CreateMethod)
        ensures
            r.name == name,
            r.link is None,
            r.qr is None,
    {
        CreateMethod { name, link: None, qr: None }
    }

    pub open spec fn columns_of(&self) -> Seq<Column> {
        seq![Column::Name] + opt_col(self.link is Some, Column::Link) + opt_col(
            self.qr is Some,
            Column::Qr,
        )
    }

    fn columns(&self) -> (r: Vec<Column>)
        ensures
            r@ == self.columns_of(),
    {
        let mut r: Vec<Column> = Vec::new();
        r.push(Column::Name);
        push_col(&mut r, self.link.is_some(), Column::Link);
        push_col(&mut r, self.qr.is_some(), Column::Qr);
        assert(r@ =~= self.columns_of());
        r
    }
}

impl TableName for CreateMethod {
    open spec fn spec_table(&self) -> Models {
        Models::Methods
    }

    fn table_name(&self) -> (r: String) {
        table_string(Models::Methods)
    }
}

impl PrepFields for CreateMethod {
    open spec fn spec_fields(&self) -> Seq<Seq<char>> {
        column_names(self.columns_of())
    }

    fn fields(&self) -> (r: Vec<String>) {
        column_strings(&self.columns())
    }
}

impl PrepValues for CreateMethod {
    open spec fn spec_values(&self) -> Seq<SqlVal> {
        seq![SqlVal::Text(self.name@)] + text_vals(self.link) + blob_vals(self.qr)
    }

    fn values(&self) -> (r: Vec<SqlValue>) {
        let mut r: Vec<SqlValue> = Vec::new();
        push_val(&mut r, SqlValue::Text(self.name.clone()));
        push_text(&mut r, &self.link);
        push_blob(&mut r, &self.qr);
        assert(value_views(r@) =~= self.spec_values());
        r
    }
}

impl PrepCreate for CreateMethod {
    open spec fn spec_columns(&self) -> Seq<Column> {
        self.columns_of()
    }

    proof fn lemma_aligned(&self) {
    }
}

/// Request to insert an item: a name and a rate, held as whole cents.
#[derive(Debug, Clone)]
pub struct CreateItem {
    pub name: String,
    pub rate_cents: i64,
}

impl CreateItem {
    /// A request for an item at `rate`, scaled to cents; fails where the cents
    /// do not fit a signed 64-bit integer.
    pub fn new(name: String, rate: Decimal) -> (r: Result<CreateItem, MoneyError>)
        requires
            rate.wf(),
        ensures
            r is Ok <==> fits_i64(cents_of(rate)),
            r matches Ok(c) ==> c.name == name && c.rate_cents == cents_of(rate),
    {
        match decimal_to_cents(rate) {
            Ok(c) => Ok(CreateItem { name, rate_cents: c }),
            Err(e) => Err(e),
        }
    }
}

impl TableName for CreateItem {
    open spec fn spec_table(&self) -> Models {
        Models::Items
    }

    fn table_name(&self) -> (r: String) {
        table_string(Models::Items)
    }
}

impl PrepFields for CreateItem {
    open spec fn spec_fields(&self) -> Seq<Seq<char>> {
        column_names(seq![Column::Name, Column::Rate])
    }

    fn fields(&self) -> (r: Vec<String>) {
        column_strings(&vec![Column::Name, Column::Rate])
    }
}

impl PrepValues for CreateItem {
    open spec fn spec_values(&self) -> Seq<SqlVal> {
        seq![SqlVal::Text(self.name@), SqlVal::Integer(self.rate_cents as int)]
    }

    fn values(&self) -> (r: Vec<SqlValue>) {
        let mut r: Vec<SqlValue> = Vec::new();
        push_val(&mut r, SqlValue::Text(self.name.clone()));
        push_val(&mut r, SqlValue::Integer(self.rate_cents));
        assert(value_views(r@) =~= self.spec_values());
        r
    }
}

impl PrepCreate for CreateItem {
    open spec fn spec_columns(&self) -> Seq<Column> {
        seq![Column::Name, Column::Rate]
    }

    proof fn lemma_aligned(&self) {
    }
}

/// Request to insert a template: its name, the company, client and terms ids,
/// and the ids of its payment methods (stored as a JSON list).
#[derive(Debug, Clone)]
pub struct CreateTemplate {
    pub name: String,
    pub company: i64,
    pub client: i64,
    pub terms: i64,
    pub methods: Vec<i64>,
}

impl CreateTemplate {
    pub fn new(name: String, company: i64, client: i64, terms: i64, methods: Vec<i64>) -> (r:
        CreateTemplate)
        ensures
            r.name == name,
            r.company == company,
            r.client == client,
            r.terms == terms,
            r.methods == methods,
    {
        CreateTemplate { name, company, client, terms, methods }
    }

    pub open spec fn columns_of(&self) -> Seq<Column> {
        seq![
            Column::Name,
            Column::CompanyId,
            Column::ClientId,
            Column::TermsId,
            Column::MethodsJson,
        ]
    }
}

impl TableName for CreateTemplate {
    open spec fn spec_table(&self) -> Models {
        Models::Templates
    }

    fn table_name(&self) -> (r: String) {
        table_string(Models::Templates)
    }
}

impl PrepFields for CreateTemplate {
    open spec fn spec_fields(&self) -> Seq<Seq<char>> {
        column_names(self.columns_of())
    }

    fn fields(&self) -> (r: Vec<String>) {
        let cols = vec![
            Column::Name,
            Column::CompanyId,
            Column::ClientId,
            Column::TermsId,
            Column::MethodsJson,
        ];
        assert(cols@ =~= self.columns_of());
        column_strings(&cols)
    }
}

impl PrepValues for CreateTemplate {
    open spec fn spec_values(&self) -> Seq<SqlVal> {
        seq![
            SqlVal::Text(self.name@),
            SqlVal::Integer(self.company as int),
            SqlVal::Integer(self.client as int),
            SqlVal::Integer(self.terms as int),
            SqlVal::Text(ids_json(self.methods@)),
        ]
    }

    fn values(&self) -> (r: Vec<SqlValue>) {
        let mut r: Vec<SqlValue> = Vec::new();
        push_val(&mut r, SqlValue::Text(self.name.clone()));
        push_val(&mut r, SqlValue::Integer(self.company));
        push_val(&mut r, SqlValue::Integer(self.client));
        push_val(&mut r, SqlValue::Integer(self.terms));
        push_val(&mut r, SqlValue::Text(encode_ids(&self.methods)));
        assert(value_views(r@) =~= self.spec_values());
        r
    }
}

impl PrepCreate for CreateTemplate {
    open spec fn spec_columns(&self) -> Seq<Column> {
        self.columns_of()
    }

    proof fn lemma_aligned(&self) {
    }
}

/// Request to insert an invoice: its template, its compact `YYYYMMDD` date,
/// its attributes, optional notes and its lines (stored as a JSON list).
#[derive(Debug, Clone)]
pub struct CreateInvoice {
    pub template: i64,
    pub date: String,
    pub attributes: InvoiceAttrs,
    pub notes: Option<String>,
    pub items: Vec<InvoiceItem>,
}

impl CreateInvoice {
    pub fn new(
        template: i64,
        date: String,
        attributes: InvoiceAttrs,
        notes: Option<String>,
        items: Vec<InvoiceItem>,
    ) -> (r: CreateInvoice)
        ensures
            r.template == template,
            r.date == date,
            r.attributes == attributes,
            r.notes == notes,
            r.items == items,
    {
        CreateInvoice { template, date, attributes, notes, items }
    }

    pub open spec fn columns_of(&self) -> Seq<Column> {
        seq![
            Column::TemplateId,
            Column::Date,
            Column::ShowMethods,
            Column::ShowNotes,
            Column::Stage,
        ] + create_status_columns(self.attributes.status) + opt_col(
            self.notes is Some,
            Column::Notes,
        ) + seq![Column::ItemsJson]
    }

    fn columns(&self) -> (r: Vec<Column>)
        ensures
            r@ == self.columns_of(),
    {
        let mut r: Vec<Column> = vec![
            Column::TemplateId,
            Column::Date,
            Column::ShowMethods,
            Column::ShowNotes,
            Column::Stage,
        ];
        push_create_status_columns(&mut r, &self.attributes.status);
        push_col(&mut r, self.notes.is_some(), Column::Notes);
        r.push(Column::ItemsJson);
        assert(r@ =~= self.columns_of());
        r
    }
}

impl TableName for CreateInvoice {
    open spec fn spec_table(&self) -> Models {
        Models::Invoices
    }

    fn table_name(&self) -> (r: String) {
        table_string(Models::Invoices)
    }
}

impl PrepFields for CreateInvoice {
    open spec fn spec_fields(&self) -> Seq<Seq<char>> {
        column_names(self.columns_of())
    }

    fn fields(&self) -> (r: Vec<String>) {
        column_strings(&self.columns())
    }
}

impl PrepValues for CreateInvoice {
    open spec fn spec_values(&self) -> Seq<SqlVal> {
        seq![
            SqlVal::Integer(self.template as int),
            SqlVal::Text(self.date@),
            flag_val(self.attributes.show_methods),
            flag_val(self.attributes.show_notes),
            SqlVal::Text(stage_text(self.attributes.stage)),
        ] + create_status_values(self.attributes.status) + text_vals(self.notes) + seq![
            SqlVal::Text(items_json(self.items@)),
        ]
    }

    fn values(&self) -> (r: Vec<SqlValue>) {
        let mut r: Vec<SqlValue> = Vec::new();
        push_val(&mut r, SqlValue::Integer(self.template));
        push_val(&mut r, SqlValue::Text(self.date.clone()));
        push_val(&mut r, flag(self.attributes.show_methods));
        push_val(&mut r, flag(self.attributes.show_notes));
        push_val(&mut r, SqlValue::Text(String::from_str(stage_str(&self.attributes.stage))));
        push_create_status_values(&mut r, &self.attributes.status);
        push_text(&mut r, &self.notes);
        push_val(&mut r, SqlValue::Text(encode_items(&self.items)));
        assert(value_views(r@) =~= self.spec_values());
        r
    }
}

impl PrepCreate for CreateInvoice {
    open spec fn spec_columns(&self) -> Seq<Column> {
        self.columns_of()
    }

    proof fn lemma_aligned(&self) {
        lemma_create_status_aligned(self.attributes.status);
    }
}

// ---------------------------------------------------------------- updates

/// Request to change a company: only the supplied name, logo and contact
/// details are written.
#[derive(Debug, Clone)]
pub struct EditCompany {
    pub id: i64,
    pub name: Option<String>,
    pub logo: Option<Vec<u8>>,
    pub contact: Contact,
}

impl EditCompany {
    pub open spec fn columns_of(&self) -> Seq<Column> {
        opt_col(self.name is Some, Column::Name) + opt_col(self.logo is Some, Column::Logo)
            + contact_columns(self.contact)
    }

    fn columns(&self) -> (r: Vec<Column>)
        ensures
            r@ == self.columns_of(),
    {
        let mut r: Vec<Column> = Vec::new();
        push_col(&mut r, self.name.is_some(), Column::Name);
        assert(r@ =~= opt_col(self.name is Some, Column::Name));
        push_col(&mut r, self.logo.is_some(), Column::Logo);
        push_contact_columns(&mut r, &self.contact);
        r
    }
}

impl TableName for EditCompany {
    open spec fn spec_table(&self) -> Models {
        Models::Company
    }

    fn table_name(&self) -> (r: String) {
        table_string(Models::Company)
    }
}

impl PrepFields for EditCompany {
    open spec fn spec_fields(&self) -> Seq<Seq<char>> {
        seq![decimal_text(self.id as int)] + column_names(self.columns_of())
    }

    fn fields(&self) -> (r: Vec<String>) {
        update_fields(self.id, &self.columns())
    }
}

impl PrepValues for EditCompany {
    open spec fn spec_values(&self) -> Seq<SqlVal> {
        text_vals(self.name) + blob_vals(self.logo) + contact_values(self.contact)
    }

    fn values(&self) -> (r: Vec<SqlValue>) {
        let mut r: Vec<SqlValue> = Vec::new();
        push_text(&mut r, &self.name);
        assert(value_views(r@) =~= text_vals(self.name));
        push_blob(&mut r, &self.logo);
        push_contact_values(&mut r, &self.contact);
        r
    }
}

impl PrepUpdate for EditCompany {
    open spec fn spec_id(&self) -> i64 {
        self.id
    }

    open spec fn spec_columns(&self) -> Seq<Column> {
        self.columns_of()
    }

    proof fn lemma_aligned(&self) {
        lemma_contact_aligned(self.contact);
    }
}

/// Request to change a client: only the supplied name and contact details
/// are written.
#[derive(Debug, Clone)]
pub struct EditClient {
    pub id: i64,
    pub name: Option<String>,
    pub contact: Contact,
}

impl EditClient {
    pub open spec fn columns_of(&self) -> Seq<Column> {
        opt_col(self.name is Some, Column::Name) + contact_columns(self.contact)
    }

    fn columns(&self) -> (r: Vec<Column>)
        ensures
            r@ == self.columns_of(),
    {
        let mut r: Vec<Column> = Vec::new();
        push_col(&mut r, self.name.is_some(), Column::Name);
        assert(r@ =~= opt_col(self.name is Some, Column::Name));
        push_contact_columns(&mut r, &self.contact);
        r
    }
}

impl TableName for EditClient {
    open spec fn spec_table(&self) -> Models {
        Models::Client
    }

    fn table_name(&self) -> (r: String) {
        table_string(Models::Client)
    }
}

impl PrepFields for EditClient {
    open spec fn spec_fields(&self) -> Seq<Seq<char>> {
        seq![decimal_text(self.id as int)] + column_names(self.columns_of())
    }

    fn fields(&self) -> (r: Vec<String>) {
        update_fields(self.id, &self.columns())
    }
}

impl PrepValues for EditClient {
    open spec fn spec_values(&self) -> Seq<SqlVal> {
        text_vals(self.name) + contact_values(self.contact)
    }

    fn values(&self) -> (r: Vec<SqlValue>) {
        let mut r: Vec<SqlValue> = Vec::new();
        push_text(&mut r, &self.name);
        assert(value_views(r@) =~= text_vals(self.name));
        push_contact_values(&mut r, &self.contact);
        r
    }
}

impl PrepUpdate for EditClient {
    open spec fn spec_id(&self) -> i64 {
        self.id
    }

    open spec fn spec_columns(&self) -> Seq<Column> {
        self.columns_of()
    }

    proof fn lemma_aligned(&self) {
        lemma_contact_aligned(self.contact);
    }
}

/// Request to change payment terms.
#[derive(Debug, Clone)]
pub struct EditTerms {
    pub id: i64,
    pub name: Option<String>,
    pub due: Option<i64>,
}

impl EditTerms {
    pub open spec fn columns_of(&self) -> Seq<Column> {
        opt_col(self.name is Some, Column::Name) + opt_col(self.due is Some, Column::Due)
    }

    fn columns(&self) -> (r: Vec<Column>)
        ensures
            r@ == self.columns_of(),
    {
        let mut r: Vec<Column> = Vec::new();
        push_col(&mut r, self.name.is_some(), Column::Name);
        assert(r@ =~= opt_col(self.name is Some, Column::Name));
        push_col(&mut r, self.due.is_some(), Column::Due);
        r
    }
}

impl TableName for EditTerms {
    open spec fn spec_table(&self) -> Models {
        Models::Terms
    }

    fn table_name(&self) -> (r: String) {
        table_string(Models::Terms)
    }
}

impl PrepFields for EditTerms {
    open spec fn spec_fields(&self) -> Seq<Seq<char>> {
        seq![decimal_text(self.id as int)] + column_names(self.columns_of())
    }

    fn fields(&self) -> (r: Vec<String>) {
        update_fields(self.id, &self.columns())
    }
}

impl PrepValues for EditTerms {
    open spec fn spec_values(&self) -> Seq<SqlVal> {
        text_vals(self.name) + int_vals(self.due)
    }

    fn values(&self) -> (r: Vec<SqlValue>) {
        let mut r: Vec<SqlValue> = Vec::new();
        push_text(&mut r, &self.name);
        assert(value_views(r@) =~= text_vals(self.name));
        push_int(&mut r, self.due);
        r
    }
}

impl PrepUpdate for EditTerms {
    open spec fn spec_id(&self) -> i64 {
        self.id
    }

    open spec fn spec_columns(&self) -> Seq<Column> {
        self.columns_of()
    }

    proof fn lemma_aligned(&self) {
    }
}

/// Request to change a payment method.
#[derive(Debug, Clone)]
pub struct EditMethod {
    pub id: i64,
    pub name: Option<String>,
    pub link: Option<String>,
    pub qr: Option<Vec<u8>>,
}

impl EditMethod {
    pub open spec fn columns_of(&self) -> Seq<Column> {
        opt_col(self.name is Some, Column::Name) + opt_col(self.link is Some, Column::Link) + opt_col(
            self.qr is Some,
            Column::Qr,
        )
    }

    fn columns(&self) -> (r: Vec<Column>)
        ensures
            r@ == self.columns_of(),
    {
        let mut r: Vec<Column> = Vec::new();
        push_col(&mut r, self.name.is_some(), Column::Name);
        assert(r@ =~= opt_col(self.name is Some, Column::Name));
        push_col(&mut r, self.link.is_some(), Column::Link);
        push_col(&mut r, self.qr.is_some(), Column::Qr);
        r
    }
}

impl TableName for EditMethod {
    open spec fn spec_table(&self) -> Models {
        Models::Methods
    }

    fn table_name(&self) -> (r: String) {
        table_string(Models::Methods)
    }
}

impl PrepFields for EditMethod {
    open spec fn spec_fields(&self) -> Seq<Seq<char>> {
        seq![decimal_text(self.id as int)] + column_names(self.columns_of())
    }

    fn fields(&self) -> (r: Vec<String>) {
        update_fields(self.id, &self.columns())
    }
}

impl PrepValues for EditMethod {
    open spec fn spec_values(&self) -> Seq<SqlVal> {
        text_vals(self.name) + text_vals(self.link) + blob_vals(self.qr)
    }

    fn values(&self) -> (r: Vec<SqlValue>) {
        let mut r: Vec<SqlValue> = Vec::new();
        push_text(&mut r, &self.name);
        assert(value_views(r@) =~= text_vals(self.name));
        push_text(&mut r, &self.link);
        push_blob(&mut r, &self.qr);
        r
    }
}

impl PrepUpdate for EditMethod {
    open spec fn spec_id(&self) -> i64 {
        self.id
    }

    open spec fn spec_columns(&self) -> Seq<Column> {
        self.columns_of()
    }

    proof fn lemma_aligned(&self) {
    }
}

/// Request to change an item; a new rate is held as whole cents.
#[derive(Debug, Clone)]
pub struct EditItem {
    pub id: i64,
    pub name: Option<String>,
    pub rate_cents: Option<i64>,
}

impl EditItem {
    pub open spec fn columns_of(&self) -> Seq<Column> {
        opt_col(self.name is Some, Column::Name) + opt_col(self.rate_cents is Some, Column::Rate)
    }

    fn columns(&self) -> (r: Vec<Column>)
        ensures
            r@ == self.columns_of(),
    {
        let mut r: Vec<Column> = Vec::new();
        push_col(&mut r, self.name.is_some(), Column::Name);
        assert(r@ =~= opt_col(self.name is Some, Column::Name));
        push_col(&mut r, self.rate_cents.is_some(), Column::Rate);
        r
    }

    /// A request to change an item's name and rate, the rate scaled to cents;
    /// fails where the cents do not fit a signed 64-bit integer.
    pub fn new(id: i64, name: Option<String>, rate: Option<Decimal>) -> (r: Result<
        EditItem,
        MoneyError,
    >)
        requires
            rate matches Some(d) ==> d.wf(),
        ensures
            r is Ok <==> (rate matches Some(d) ==> fits_i64(cents_of(d))),
            r matches Ok(e) ==> e.id == id && e.name == name && match rate {
                Some(d) => e.rate_cents == Some(cents_of(d) as i64),
                None => e.rate_cents is None,
            },
    {
        let rate_cents = match rate {
            Some(d) => match decimal_to_cents(d) {
                Ok(c) => Some(c),
                Err(e) => { return Err(e); },
            },
            None => None,
        };
        Ok(EditItem { id, name, rate_cents })
    }
}

impl TableName for EditItem {
    open spec fn spec_table(&self) -> Models {
        Models::Items
    }

    fn table_name(&self) -> (r: String) {
        table_string(Models::Items)
    }
}

impl PrepFields for EditItem {
    open spec fn spec_fields(&self) -> Seq<Seq<char>> {
        seq![decimal_text(self.id as int)] + column_names(self.columns_of())
    }

    fn fields(&self) -> (r: Vec<String>) {
        update_fields(self.id, &self.columns())
    }
}

impl PrepValues for EditItem {
    open spec fn spec_values(&self) -> Seq<SqlVal> {
        text_vals(self.name) + int_vals(self.rate_cents)
    }

    fn values(&self) -> (r: Vec<SqlValue>) {
        let mut r: Vec<SqlValue> = Vec::new();
        push_text(&mut r, &self.name);
        assert(value_views(r@) =~= text_vals(self.name));
        push_int(&mut r, self.rate_cents);
        r
    }
}

impl PrepUpdate for EditItem {
    open spec fn spec_id(&self) -> i64 {
        self.id
    }

    open spec fn spec_columns(&self) -> Seq<Column> {
        self.columns_of()
    }

    proof fn lemma_aligned(&self) {
    }
}

/// Request to change a template; new payment methods replace the old list.
#[derive(Debug, Clone)]
pub struct EditTemplate {
    pub id: i64,
    pub name: Option<String>,
    pub company: Option<i64>,
    pub client: Option<i64>,
    pub terms: Option<i64>,
    pub methods: Option<Vec<i64>>,
}

impl EditTemplate {
    pub open spec fn columns_of(&self) -> Seq<Column> {
        opt_col(self.name is Some, Column::Name) + opt_col(self.company is Some, Column::CompanyId)
            + opt_col(self.client is Some, Column::ClientId) + opt_col(
            self.terms is Some,
            Column::TermsId,
        ) + opt_col(self.methods is Some, Column::MethodsJson)
    }

    fn columns(&self) -> (r: Vec<Column>)
        ensures
            r@ == self.columns_of(),
    {
        let mut r: Vec<Column> = Vec::new();
        push_col(&mut r, self.name.is_some(), Column::Name);
        assert(r@ =~= opt_col(self.name is Some, Column::Name));
        push_col(&mut r, self.company.is_some(), Column::CompanyId);
        push_col(&mut r, self.client.is_some(), Column::ClientId);
        push_col(&mut r, self.terms.is_some(), Column::TermsId);
        push_col(&mut r, self.methods.is_some(), Column::MethodsJson);
        r
    }
}

impl TableName for EditTemplate {
    open spec fn spec_table(&self) -> Models {
        Models::Templates
    }

    fn table_name(&self) -> (r: String) {
        table_string(Models::Templates)
    }
}

impl PrepFields for EditTemplate {
    open spec fn spec_fields(&self) -> Seq<Seq<char>> {
        seq![decimal_text(self.id as int)] + column_names(self.columns_of())
    }

    fn fields(&self) -> (r: Vec<String>) {
        update_fields(self.id, &self.columns())
    }
}

impl PrepValues for EditTemplate {
    open spec fn spec_values(&self) -> Seq<SqlVal> {
        text_vals(self.name) + int_vals(self.company) + int_vals(self.client) + int_vals(self.terms)
            + match self.methods {
            Some(m) => seq![SqlVal::Text(ids_json(m@))],
            None => Seq::empty(),
        }
    }

    fn values(&self) -> (r: Vec<SqlValue>) {
        let mut r: Vec<SqlValue> = Vec::new();
        push_text(&mut r, &self.name);
        assert(value_views(r@) =~= text_vals(self.name));
        push_int(&mut r, self.company);
        push_int(&mut r, self.client);
        push_int(&mut r, self.terms);
        match &self.methods {
            Some(m) => push_val(&mut r, SqlValue::Text(encode_ids(m))),
            None => {},
        }
        assert(value_views(r@) =~= self.spec_values());
        r
    }
}

impl PrepUpdate for EditTemplate {
    open spec fn spec_id(&self) -> i64 {
        self.id
    }

    open spec fn spec_columns(&self) -> Seq<Column> {
        self.columns_of()
    }

    proof fn lemma_aligned(&self) {
    }
}

/// Request to change an invoice's attributes and notes. A new status writes
/// the companion columns it has room for: its date where it carries one, and
/// for a payment the check number too (`NULL` where there is none).
#[derive(Debug, Clone)]
pub struct EditInvoice {
    pub id: i64,
    pub show_methods: Option<bool>,
    pub show_notes: Option<bool>,
    pub stage: Option<InvoiceStage>,
    pub status: Option<PaidStatus>,
    pub notes: Option<String>,
}

impl EditInvoice {
    pub open spec fn columns_of(&self) -> Seq<Column> {
        opt_col(self.show_methods is Some, Column::ShowMethods) + opt_col(
            self.show_notes is Some,
            Column::ShowNotes,
        ) + opt_col(self.stage is Some, Column::Stage) + match self.status {
            Some(s) => update_status_columns(s),
            None => Seq::empty(),
        } + opt_col(self.notes is Some, Column::Notes)
    }

    fn columns(&self) -> (r: Vec<Column>)
        ensures
            r@ == self.columns_of(),
    {
        let mut r: Vec<Column> = Vec::new();
        push_col(&mut r, self.show_methods.is_some(), Column::ShowMethods);
        assert(r@ =~= opt_col(self.show_methods is Some, Column::ShowMethods));
        push_col(&mut r, self.show_notes.is_some(), Column::ShowNotes);
        push_col(&mut r, self.stage.is_some(), Column::Stage);
        let ghost before = r@;
        match &self.status {
            Some(s) => push_update_status_columns(&mut r, s),
            None => {},
        }
        assert(r@ =~= before + match self.status {
            Some(s) => update_status_columns(s),
            None => Seq::empty(),
        });
        push_col(&mut r, self.notes.is_some(), Column::Notes);
        r
    }
}

impl TableName for EditInvoice {
    open spec fn spec_table(&self) -> Models {
        Models::Invoices
    }

    fn table_name(&self) -> (r: String) {
        table_string(Models::Invoices)
    }
}

impl PrepFields for EditInvoice {
    open spec fn spec_fields(&self) -> Seq<Seq<char>> {
        seq![decimal_text(self.id as int)] + column_names(self.columns_of())
    }

    fn fields(&self) -> (r: Vec<String>) {
        update_fields(self.id, &self.columns())
    }
}

impl PrepValues for EditInvoice {
    open spec fn spec_values(&self) -> Seq<SqlVal> {
        flag_vals(self.show_methods) + flag_vals(self.show_notes) + match self.stage {
            Some(s) => seq![SqlVal::Text(stage_text(s))],
            None => Seq::empty(),
        } + match self.status {
            Some(s) => update_status_values(s),
            None => Seq::empty(),
        } + text_vals(self.notes)
    }

    fn values(&self) -> (r: Vec<SqlValue>) {
        let mut r: Vec<SqlValue> = Vec::new();
        push_flag(&mut r, self.show_methods);
        assert(value_views(r@) =~= flag_vals(self.show_methods));
        push_flag(&mut r, self.show_notes);
        let ghost before = value_views(r@);
        match &self.stage {
            Some(s) => push_val(&mut r, SqlValue::Text(String::from_str(stage_str(s)))),
            None => {},
        }
        assert(value_views(r@) =~= before + match self.stage {
            Some(s) => seq![SqlVal::Text(stage_text(s))],
            None => Seq::empty(),
        });
        let ghost before2 = value_views(r@);
        match &self.status {
            Some(s) => push_update_status_values(&mut r, s),
            None => {},
        }
        assert(value_views(r@) =~= before2 + match self.status {
            Some(s) => update_status_values(s),
            None => Seq::empty(),
        });
        push_text(&mut r, &self.notes);
        r
    }
}

impl PrepUpdate for EditInvoice {
    open spec fn spec_id(&self) -> i64 {
        self.id
    }

    open spec fn spec_columns(&self) -> Seq<Column> {
        self.columns_of()
    }

    proof fn lemma_aligned(&self) {
        if let Some(st) = self.status {
            lemma_update_status_aligned(st);
        }
    }
}

// ---------------------------------------------------------------- deletes

/// Request to delete a company by id.
#[derive(Debug, Clone, Copy, PartialEq, Eq, Structural)]
pub struct DeleteCompany {
    pub id: i64,
}

impl TableName for DeleteCompany {
    open spec fn spec_table(&self) -> Models {
        Models::Company
    }

    fn table_name(&self) -> (r: String) {
        table_string(Models::Company)
    }
}

impl PrepDelete for DeleteCompany {
    open spec fn spec_id(&self) -> i64 {
        self.id
    }

    fn id(&self) -> (r: i64) {
        self.id
    }
}

/// Request to delete a client by id.
#[derive(Debug, Clone, Copy, PartialEq, Eq, Structural)]
pub struct DeleteClient {
    pub id: i64,
}

impl TableName for DeleteClient {
    open spec fn spec_table(&self) -> Models {
        Models::Client
    }

    fn table_name(&self) -> (r: String) {
        table_string(Models::Client)
    }
}

impl PrepDelete for DeleteClient {
    open spec fn spec_id(&self) -> i64 {
        self.id
    }

    fn id(&self) -> (r: i64) {
        self.id
    }
}

/// Request to delete payment terms by id.
#[derive(Debug, Clone, Copy, PartialEq, Eq, Structural)]
pub struct DeleteTerms {
    pub id: i64,
}

impl TableName for DeleteTerms {
    open spec fn spec_table(&self) -> Models {
        Models::Terms
    }

    fn table_name(&self) -> (r: String) {
        table_string(Models::Terms)
    }
}

impl PrepDelete for DeleteTerms {
    open spec fn spec_id(&self) -> i64 {
        self.id
    }

    fn id(&self) -> (r: i64) {
        self.id
    }
}

/// Request to delete a payment method by id.
#[derive(Debug, Clone, Copy, PartialEq, Eq, Structural)]
pub struct DeleteMethod {
    pub id: i64,
}

impl TableName for DeleteMethod {
    open spec fn spec_table(&self) -> Models {
        Models::Methods
    }

    fn table_name(&self) -> (r: String) {
        table_string(Models::Methods)
    }
}

impl PrepDelete for DeleteMethod {
    open spec fn spec_id(&self) -> i64 {
        self.id
    }

    fn id(&self) -> (r: i64) {
        self.id
    }
}

/// Request to delete an item by id.
#[derive(Debug, Clone, Copy, PartialEq, Eq, Structural)]
pub struct DeleteItem {
    pub id: i64,
}

impl TableName for DeleteItem {
    open spec fn spec_table(&self) -> Models {
        Models::Items
    }

    fn table_name(&self) -> (r: String) {
        table_string(Models::Items)
    }
}

impl PrepDelete for DeleteItem {
    open spec fn spec_id(&self) -> i64 {
        self.id
    }

    fn id(&self) -> (r: i64) {
        self.id
    }
}

/// Request to delete a template by id.
#[derive(Debug, Clone, Copy, PartialEq, Eq, Structural)]
pub struct DeleteTemplate {
    pub id: i64,
}

impl TableName for DeleteTemplate {
    open spec fn spec_table(&self) -> Models {
        Models::Templates
    }

    fn table_name(&self) -> (r: String) {
        table_string(Models::Templates)
    }
}

impl PrepDelete for DeleteTemplate {
    open spec fn spec_id(&self) -> i64 {
        self.id
    }

    fn id(&self) -> (r: i64) {
        self.id
    }
}

/// Request to delete an invoice by id.
#[derive(Debug, Clone, Copy, PartialEq, Eq, Structural)]
pub struct DeleteInvoice {
    pub id: i64,
}

impl TableName for DeleteInvoice {
    open spec fn spec_table(&self) -> Models {
        Models::Invoices
    }

    fn table_name(&self) -> (r: String) {
        table_string(Models::Invoices)
    }
}

impl PrepDelete for DeleteInvoice {
    open spec fn spec_id(&self) -> i64 {
        self.id
    }

    fn id(&self) -> (r: i64) {
        self.id
    }
}

// ---------------------------------------------------------------- deleting stored entities

/// An entity that knows the request that deletes it.
pub trait EntityDeleter {
    type Output;

    fn delete(&self) -> Self::Output;
}

impl EntityDeleter for crate::models::Company {
    type Output = DeleteCompany;

    fn delete(&self) -> (r: DeleteCompany)
        ensures
            r.id == self.id,
    {
        DeleteCompany { id: self.id }
    }
}

impl EntityDeleter for crate::models::Client {
    type Output = DeleteClient;

    fn delete(&self) -> (r: DeleteClient)
        ensures
            r.id == self.id,
    {
        DeleteClient { id: self.id }
    }
}

impl EntityDeleter for crate::models::Terms {
    type Output = DeleteTerms;

    fn delete(&self) -> (r: DeleteTerms)
        ensures
            r.id == self.id,
    {
        DeleteTerms { id: self.id }
    }
}

impl EntityDeleter for crate::models::Methods {
    type Output = DeleteMethod;

    fn delete(&self) -> (r: DeleteMethod)
        ensures
            r.id == self.id,
    {
        DeleteMethod { id: self.id }
    }
}

impl EntityDeleter for crate::models::Items {
    type Output = DeleteItem;

    fn delete(&self) -> (r: DeleteItem)
        ensures
            r.id == self.id,
    {
        DeleteItem { id: self.id }
    }
}

impl EntityDeleter for crate::models::Template {
    type Output = DeleteTemplate;

    fn delete(&self) -> (r: DeleteTemplate)
        ensures
            r.id == self.id,
    {
        DeleteTemplate { id: self.id }
    }
}

impl EntityDeleter for crate::models::Invoice {
    type Output = DeleteInvoice;

    fn delete(&self) -> (r: DeleteInvoice)
        ensures
            r.id == self.id,
    {
        DeleteInvoice { id: self.id }
    }
}

} // verus!
