use vstd::prelude::*;
use vstd::string::*;

use crate::money::Decimal;

verus! {

/// The tables of the store.
#[derive(Debug, Clone, Copy, PartialEq, Eq, Structural)]
pub enum Models {
    Config,
    Company,
    Client,
    Terms,
    Methods,
    Items,
    Templates,
    Invoices,
}

impl Models {
    pub open spec fn spec_table_name(self) -> Seq<char> {
        match self {
            Models::Config => "email_config"@,
            Models::Company => "company"@,
            Models::Client => "client"@,
            Models::Terms => "terms"@,
            Models::Methods => "methods"@,
            Models::Items => "items"@,
            Models::Templates => "templates"@,
            Models::Invoices => "invoices"@,
        }
    }

    /// The name of the table in the store.
    pub fn table_name(&self) -> (r: &'static str)
        ensures
            r@ == self.spec_table_name(),
    {
        match self {
            Models::Config => "email_config",
            Models::Company => "company",
            Models::Client => "client",
            Models::Terms => "terms",
            Models::Methods => "methods",
            Models::Items => "items",
            Models::Templates => "templates",
            Models::Invoices => "invoices",
        }
    }
}

/// The columns of the store, over all tables.
#[derive(Debug, Clone, Copy, PartialEq, Eq, Structural)]
pub enum Column {
    Id,
    Name,
    Logo,
    Phone,
    Email,
    Addr1,
    Addr2,
    City,
    State,
    Zip,
    Due,
    Link,
    Qr,
    Rate,
    CompanyId,
    ClientId,
    TermsId,
    MethodsJson,
    TemplateId,
    Date,
    ShowMethods,
    ShowNotes,
    Stage,
    Status,
    StatusDate,
    StatusCheck,
    Notes,
    ItemsJson,
}

impl Column {
    pub open spec fn spec_name(self) -> Seq<char> {
        match self {
            Column::Id => "id"@,
            Column::Name => "name"@,
            Column::Logo => "logo"@,
            Column::Phone => "phone"@,
            Column::Email => "email"@,
            Column::Addr1 => "addr1"@,
            Column::Addr2 => "addr2"@,
            Column::City => "city"@,
            Column::State => "state"@,
            Column::Zip => "zip"@,
            Column::Due => "due"@,
            Column::Link => "link"@,
            Column::Qr => "qr"@,
            Column::Rate => "rate"@,
            Column::CompanyId => "company_id"@,
            Column::ClientId => "client_id"@,
            Column::TermsId => "terms_id"@,
            Column::MethodsJson => "methods_json"@,
            Column::TemplateId => "template_id"@,
            Column::Date => "date"@,
            Column::ShowMethods => "show_methods"@,
            Column::ShowNotes => "show_notes"@,
            Column::Stage => "stage"@,
            Column::Status => "status"@,
            Column::StatusDate => "status_date"@,
            Column::StatusCheck => "status_check"@,
            Column::Notes => "notes"@,
            Column::ItemsJson => "items_json"@,
        }
    }

    /// The column's name in the store.
    pub fn name(&self) -> (r: &'static str)
        ensures
            r@ == self.spec_name(),
    {
        match self {
            Column::Id => "id",
            Column::Name => "name",
            Column::Logo => "logo",
            Column::Phone => "phone",
            Column::Email => "email",
            Column::Addr1 => "addr1",
            Column::Addr2 => "addr2",
            Column::City => "city",
            Column::State => "state",
            Column::Zip => "zip",
            Column::Due => "due",
            Column::Link => "link",
            Column::Qr => "qr",
            Column::Rate => "rate",
            Column::CompanyId => "company_id",
            Column::ClientId => "client_id",
            Column::TermsId => "terms_id",
            Column::MethodsJson => "methods_json",
            Column::TemplateId => "template_id",
            Column::Date => "date",
            Column::ShowMethods => "show_methods",
            Column::ShowNotes => "show_notes",
            Column::Stage => "stage",
            Column::Status => "status",
            Column::StatusDate => "status_date",
            Column::StatusCheck => "status_check",
            Column::Notes => "notes",
            Column::ItemsJson => "items_json",
        }
    }
}

/// Contact details embedded in a company or a client: seven optional texts.
#[derive(Debug, Clone, PartialEq)]
pub struct Contact {
    pub phone: Option<String>,
    pub email: Option<String>,
    pub addr1: Option<String>,
    pub addr2: Option<String>,
    pub city: Option<String>,
    pub state: Option<String>,
    pub zip: Option<String>,
}

impl Contact {
    pub open spec fn empty() -> Contact {
        Contact {
            phone: None,
            email: None,
            addr1: None,
            addr2: None,
            city: None,
            state: None,
            zip: None,
        }
    }

    /// A contact with every detail absent.
    pub fn default() -> (r: Contact)
        ensures
            r == Contact::empty(),
    {
        Contact {
            phone: None,
            email: None,
            addr1: None,
            addr2: None,
            city: None,
            state: None,
            zip: None,
        }
    }
}

/// The company that issues invoices.
#[derive(Debug, Clone, PartialEq)]
pub struct Company {
    pub table: Models,
    pub id: i64,
    pub name: String,
    pub logo: Option<Vec<u8>>,
    pub contact: Contact,
}

impl Company {
    /// A blank company that is not stored yet (id `-1`).
    pub fn new() -> (r: Company)
        ensures
            r.table == Models::Company,
            r.id == -1,
            r.name@ == Seq::<char>::empty(),
            r.logo is None,
            r.contact == Contact::empty(),
    {
        Company {
            table: Models::Company,
            id: -1,
            name: String::new(),
            logo: None,
            contact: Contact::default(),
        }
    }
}

/// A client that invoices are addressed to.
#[derive(Debug, Clone, PartialEq)]
pub struct Client {
    pub id: i64,
    pub name: String,
    pub contact: Contact,
}

/// Payment terms: the number of days from issue to due date.
#[derive(Debug, Clone, PartialEq)]
pub struct Terms {
    pub id: i64,
    pub name: String,
    pub due: i64,
}

/// A payment method, with an optional link and QR-code image.
#[derive(Debug, Clone, PartialEq)]
pub struct Methods {
    pub id: i64,
    pub name: String,
    pub link: Option<String>,
    pub qr: Option<Vec<u8>>,
}

/// A billable item and its rate. Two items are the same item when their ids
/// are equal.
#[derive(Debug, Clone)]
pub struct Items {
    pub table: Models,
    pub id: i64,
    pub name: String,
    pub rate: Decimal,
}

impl Items {
    /// A blank item that is not stored yet (id `-1`, rate `-1`).
    pub fn new() -> (r: Items)
        ensures
            r.table == Models::Items,
            r.id == -1,
            r.name@ == Seq::<char>::empty(),
            r.rate.mantissa == -1,
            r.rate.scale == 0,
    {
        Items { table: Models::Items, id: -1, name: String::new(), rate: Decimal { mantissa: -1, scale: 0 } }
    }
}

impl PartialEq for Items {
    fn eq(&self, other: &Items) -> (r: bool) {
        self.id == other.id
    }
}

impl vstd::std_specs::cmp::PartialEqSpecImpl for Items {
    open spec fn obeys_eq_spec() -> bool {
        true
    }

    open spec fn eq_spec(&self, other: &Items) -> bool {
        self.id == other.id
    }
}

/// The reusable frame of an invoice: who bills whom, on which terms, and how
/// to pay.
#[derive(Debug, Clone, PartialEq)]
pub struct Template {
    pub id: i64,
    pub name: String,
    pub company: Company,
    pub client: Client,
    pub terms: Terms,
    pub methods: Vec<Methods>,
}

/// Whether a document is a quote or an invoice.
#[derive(Debug, Clone, Copy, PartialEq, Eq, Structural)]
pub enum InvoiceStage {
    Quote,
    Invoice,
}

/// Payment status of an invoice.
#[derive(Debug, Clone, PartialEq)]
pub enum PaidStatus {
    Waiting,
    PastDue,
    Paid { date: String, check: Option<String> },
    Failed { date: String },
    Refunded { date: String },
}

/// Display and lifecycle attributes of an invoice.
#[derive(Debug, Clone, PartialEq)]
pub struct InvoiceAttrs {
    pub show_methods: bool,
    pub show_notes: bool,
    pub stage: InvoiceStage,
    pub status: PaidStatus,
}

/// One line of an invoice as stored: an item id and a quantity.
#[derive(Debug, Clone, Copy, PartialEq, Eq, Structural)]
pub struct InvoiceItem {
    pub item: i64,
    pub quantity: i64,
}

/// An invoice with its template and its items. `items` holds each item once
/// (by id), in the order of its first line, with the quantity of its last line.
#[derive(Debug, Clone, PartialEq)]
pub struct Invoice {
    pub id: i64,
    pub template: Template,
    pub attributes: InvoiceAttrs,
    pub date: String,
    pub notes: Option<String>,
    pub items: Vec<(Items, i64)>,
}

impl Invoice {
    /// Each item appears once: no two entries share an item id.
    pub open spec fn wf(&self) -> bool {
        forall|i: int, j: int|
            0 <= i < j < self.items@.len() ==> #[trigger] self.items@[i].0.id
                != #[trigger] self.items@[j].0.id
    }
}

/// An id and a label, for pickers.
#[derive(Debug, Clone, PartialEq)]
pub struct ShortList {
    pub id: i64,
    pub name: String,
}

/// Outgoing mail settings, stored as a single row.
#[derive(Debug, Clone, PartialEq)]
pub struct Config {
    pub id: i64,
    pub smtp_server: String,
    pub port: u16,
    pub tls: bool,
    pub username: String,
    pub password: String,
    pub fromname: String,
}

impl Config {
    /// Placeholder settings for a store that has none.
    pub fn default() -> (r: Config)
        ensures
            r.id == 0,
            r.smtp_server@ == "smtp.example.com"@,
            r.port == 587,
            !r.tls,
            r.username@ == "username"@,
            r.password@ == Seq::<char>::empty(),
            r.fromname@ == Seq::<char>::empty(),
    {
        Config {
            id: 0,
            smtp_server: String::from_str("smtp.example.com"),
            port: 587,
            tls: false,
            username: String::from_str("username"),
            password: String::new(),
            fromname: String::new(),
        }
    }
}

} // verus!
