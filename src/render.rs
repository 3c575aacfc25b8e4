use base64::Engine;

use vstd::prelude::*;
use vstd::string::*;

use crate::calc::{due_date, issue_date, formatted_day, long_date, parsed_day, ItemDetail};
use crate::descriptors::{stage_str, stage_text, status_date};
use crate::text::{decimal_text, int_text};
use crate::hydrate::DbError;
use crate::models::{Invoice, Models, PaidStatus};
use crate::money::{Decimal, MoneyError};

verus! {

/// Largest image, in bytes, that a logo or QR code may have.
pub const MAX_IMG_SIZE: u64 = 1_000_000;

/// Why supplied data is refused.
#[derive(Debug, Clone, Copy, PartialEq, Eq, Structural)]
pub enum ValidationError {
    /// The image file is larger than [`MAX_IMG_SIZE`].
    ImageTooLarge { size: u64 },
}

/// The media type `mime_guess` gives a path by its extension, as (type,
/// subtype), if it knows one.
pub uninterp spec fn guessed_mime(path: Seq<char>) -> Option<(Seq<char>, Seq<char>)>;

/// The media type `infer` reads from a file's leading bytes, if it knows one.
pub uninterp spec fn sniffed_mime(bytes: Seq<u8>) -> Option<Seq<char>>;

/// Standard base64 (with padding) of some bytes, as `base64` writes it.
pub uninterp spec fn base64_of(bytes: Seq<u8>) -> Seq<char>;

/// The HTML `pulldown_cmark` renders from a markdown text.
pub uninterp spec fn markdown_html(text: Seq<char>) -> Seq<char>;

/// Relies on `mime_guess::from_path(..).first()`: the first media type known
/// for the path's extension, split into type and subtype.
#[verifier::external_body]
fn guess_mime(path: &str) -> (r: Option<(String, String)>)
    ensures
        match r {
            Some((t, s)) => guessed_mime(path@) == Some((t@, s@)),
            None => guessed_mime(path@) is None,
        },
{
    mime_guess::from_path(path).first().map(
        |m| (m.type_().as_str().to_string(), m.subtype().as_str().to_string()),
    )
}

/// Relies on `infer::get(..).mime_type()`: the media type the leading bytes
/// announce.
#[verifier::external_body]
fn sniff_mime(bytes: &Vec<u8>) -> (r: Option<String>)
    ensures
        match r {
            Some(t) => sniffed_mime(bytes@) == Some(t@),
            None => sniffed_mime(bytes@) is None,
        },
{
    infer::get(bytes).map(|k| k.mime_type().to_string())
}

/// Relies on `base64::engine::general_purpose::STANDARD.encode`.
#[verifier::external_body]
fn base64_encode(bytes: &Vec<u8>) -> (r: String)
    ensures
        r@ == base64_of(bytes@),
{
    base64::engine::general_purpose::STANDARD.encode(bytes)
}

/// Relies on `pulldown_cmark::html::push_html` over `pulldown_cmark::Parser::new`.
#[verifier::external_body]
fn render_markdown(text: &str) -> (r: String)
    ensures
        r@ == markdown_html(text@),
{
    let mut out = String::new();
    pulldown_cmark::html::push_html(&mut out, pulldown_cmark::Parser::new(text));
    out
}

/// An image type accepted for logos and QR codes.
pub open spec fn is_image_mime(m: Option<(Seq<char>, Seq<char>)>) -> bool {
    match m {
        Some((t, s)) => t == "image"@ && (s == "jpeg"@ || s == "png"@ || s == "webp"@ || s
            == "jpg"@),
        None => false,
    }
}

/// Whether a path names an image of an accepted type (JPEG, PNG or WebP), by
/// its extension.
pub fn is_valid_image(path: &str) -> (r: bool)
    ensures
        r == is_image_mime(guessed_mime(path@)),
{
    match guess_mime(path) {
        Some((t, s)) => {
            let image = String::from_str("image");
            t == image && (s == String::from_str("jpeg") || s == String::from_str("png") || s
                == String::from_str("webp") || s == String::from_str("jpg"))
        },
        None => false,
    }
}

/// Refuses an image larger than [`MAX_IMG_SIZE`] bytes.
pub fn check_image_size(size: u64) -> (r: Result<(), ValidationError>)
    ensures
        r is Ok <==> size <= MAX_IMG_SIZE,
        r matches Err(e) ==> e == (ValidationError::ImageTooLarge { size }),
{
    if size > MAX_IMG_SIZE {
        Err(ValidationError::ImageTooLarge { size })
    } else {
        Ok(())
    }
}

/// A `data:` URI of an image, where its bytes announce a media type.
pub open spec fn data_uri(bytes: Seq<u8>) -> Option<Seq<char>> {
    match sniffed_mime(bytes) {
        Some(m) => Some("data:"@ + m + ";base64,"@ + base64_of(bytes)),
        None => None,
    }
}

/// The `data:` URI a template embeds for a logo or QR code; none where the
/// bytes announce no media type.
pub fn image_data_uri(bytes: &Vec<u8>) -> (r: Option<String>)
    ensures
        match r {
            Some(u) => data_uri(bytes@) == Some(u@),
            None => data_uri(bytes@) is None,
        },
{
    match sniff_mime(bytes) {
        Some(m) => {
            let mut u = String::from_str("data:");
            u.append(m.as_str());
            u.append(";base64,");
            u.append(base64_encode(bytes).as_str());
            Some(u)
        },
        None => None,
    }
}

/// Notes as HTML, for output only.
pub fn notes_html(notes: &str) -> (r: String)
    ensures
        r@ == markdown_html(notes@),
{
    render_markdown(notes)
}

/// Why an invoice cannot be rendered.
#[derive(Debug, Clone, Copy, PartialEq, Eq, Structural)]
pub enum RenderError {
    /// The stored date is not a date, or the due date leaves the calendar.
    BadDate,
    /// A money computation overflowed.
    Money(MoneyError),
}

impl Invoice {
    /// The day the invoice was issued, from its compact `YYYYMMDD` date.
    pub fn issue_date(&self) -> (r: Result<i32, DbError>)
        ensures
            match parsed_day(self.date@, "%Y%m%d"@) {
                Some(d) => r == Ok::<i32, DbError>(d),
                None => r == Err::<i32, DbError>(DbError::Corrupt { table: Models::Invoices }),
            },
    {
        issue_date(self.date.as_str())
    }

    /// The day payment is due: the issue day plus the terms' days.
    pub fn due_date(&self) -> (r: Result<i32, DbError>)
        ensures
            match parsed_day(self.date@, "%Y%m%d"@) {
                Some(d) => if i32::MIN <= d + self.template.terms.due <= i32::MAX {
                    r == Ok::<i32, DbError>((d + self.template.terms.due) as i32)
                } else {
                    r == Err::<i32, DbError>(DbError::Corrupt { table: Models::Invoices })
                },
                None => r == Err::<i32, DbError>(DbError::Corrupt { table: Models::Invoices }),
            },
    {
        let issue = self.issue_date()?;
        match due_date(issue, self.template.terms.due) {
            Some(d) => Ok(d),
            None => Err(DbError::Corrupt { table: Models::Invoices }),
        }
    }
}

/// The values a rendered invoice shows beyond its stored fields.
#[derive(Debug)]
pub struct InvoiceSummary {
    pub date: String,
    pub items: Vec<ItemDetail>,
    pub total: Decimal,
    pub due_date: String,
    pub stage: String,
    pub notes: Option<String>,
}

/// The issue date parses, the due date stays in range, and both render.
pub open spec fn dates_render(inv: Invoice) -> bool {
    match parsed_day(inv.date@, "%Y%m%d"@) {
        Some(d) => i32::MIN <= d + inv.template.terms.due <= i32::MAX && formatted_day(
            d,
            "%B %d, %Y"@,
        ) is Some && formatted_day((d + inv.template.terms.due) as i32, "%B %d, %Y"@) is Some,
        None => false,
    }
}

/// Every line's rate is well formed and its product fits.
pub open spec fn lines_ok(inv: Invoice) -> bool {
    forall|i: int| 0 <= i < inv.items@.len() ==> #[trigger] crate::calc::line_ok(inv.items@[i])
}

/// Computes what a rendered invoice shows: long issue and due dates, the
/// lines by name with their total, the stage, and the notes as HTML.
pub fn summarize(inv: &Invoice) -> (r: Result<InvoiceSummary, RenderError>)
    ensures
        !dates_render(*inv) ==> r == Err::<InvoiceSummary, RenderError>(RenderError::BadDate),
        dates_render(*inv) && !lines_ok(*inv) ==> r == Err::<InvoiceSummary, RenderError>(
            RenderError::Money(MoneyError::Overflow),
        ),
        dates_render(*inv) && lines_ok(*inv) ==> (r is Ok || exists|v: Seq<ItemDetail>|
            #[trigger] crate::calc::is_rendering(inv.items@, v) && crate::calc::sum_decimals(
                crate::calc::subtotals_of(v),
            ) is None),
        r matches Ok(s) ==> {
            &&& parsed_day(inv.date@, "%Y%m%d"@) matches Some(d) && formatted_day(d, "%B %d, %Y"@)
                == Some(s.date@) && formatted_day(
                (d + inv.template.terms.due) as i32,
                "%B %d, %Y"@,
            ) == Some(s.due_date@)
            &&& crate::calc::is_rendering(inv.items@, s.items@)
            &&& crate::calc::sum_decimals(crate::calc::subtotals_of(s.items@)) == Some(s.total)
            &&& s.stage@ == stage_text(inv.attributes.stage)
            &&& match inv.notes {
                Some(n) => s.notes matches Some(h) && h@ == markdown_html(n@),
                None => s.notes is None,
            }
        },
{
    let issue = match inv.issue_date() {
        Ok(d) => d,
        Err(_) => { return Err(RenderError::BadDate); },
    };
    let due = match inv.due_date() {
        Ok(d) => d,
        Err(_) => { return Err(RenderError::BadDate); },
    };
    let date = match long_date(issue) {
        Some(t) => t,
        None => { return Err(RenderError::BadDate); },
    };
    let due_text = match long_date(due) {
        Some(t) => t,
        None => { return Err(RenderError::BadDate); },
    };
    let items = match inv.calculate_subtotals() {
        Ok(v) => v,
        Err(e) => { return Err(RenderError::Money(e)); },
    };
    let total = match crate::calc::total_of(&items) {
        Ok(t) => t,
        Err(e) => {
            assert(crate::calc::is_rendering(inv.items@, items@));
            return Err(RenderError::Money(e));
        },
    };
    let notes = match &inv.notes {
        Some(n) => Some(notes_html(n.as_str())),
        None => None,
    };
    Ok(InvoiceSummary {
        date,
        items,
        total,
        due_date: due_text,
        stage: String::from_str(stage_str(&inv.attributes.stage)),
        notes,
    })
}

/// The prefix a payment status puts before a mail subject.
pub open spec fn subject_prefix(s: PaidStatus) -> Seq<char> {
    match s {
        PaidStatus::Waiting => ""@,
        PaidStatus::PastDue => "PAST DUE:"@,
        PaidStatus::Paid { .. } => "PAID:"@,
        PaidStatus::Failed { .. } => "FAILED:"@,
        PaidStatus::Refunded { .. } => "REFUNDED:"@,
    }
}

/// The subject of the mail that sends an invoice: the status prefix, the
/// stage, the id, and the date of the payment event, or the issue date
/// (`YYYY-MM-DD`) where the status has none. Fails where that issue date does
/// not parse.
pub fn mail_subject(inv: &Invoice) -> (r: Result<String, RenderError>)
    ensures
        ({
            let head = subject_prefix(inv.attributes.status) + stage_text(inv.attributes.stage) + " "@
                + decimal_text(inv.id as int) + " - "@;
            match status_date(inv.attributes.status) {
                Some(d) => r matches Ok(s) && s@ == head + d@,
                None => match parsed_day(inv.date@, "%Y%m%d"@) {
                    Some(day) => match formatted_day(day, "%Y-%m-%d"@) {
                        Some(t) => r matches Ok(s) && s@ == head + t,
                        None => r == Err::<String, RenderError>(RenderError::BadDate),
                    },
                    None => r == Err::<String, RenderError>(RenderError::BadDate),
                },
            }
        }),
{
    let mut s = String::new();
    let prefix = match &inv.attributes.status {
        PaidStatus::Waiting => "",
        PaidStatus::PastDue => "PAST DUE:",
        PaidStatus::Paid { .. } => "PAID:",
        PaidStatus::Failed { .. } => "FAILED:",
        PaidStatus::Refunded { .. } => "REFUNDED:",
    };
    s.append(prefix);
    s.append(stage_str(&inv.attributes.stage));
    s.append(" ");
    s.append(int_text(inv.id).as_str());
    s.append(" - ");
    let when = match &inv.attributes.status {
        PaidStatus::Paid { date, .. } => date.clone(),
        PaidStatus::Failed { date } => date.clone(),
        PaidStatus::Refunded { date } => date.clone(),
        _ => {
            let day = match inv.issue_date() {
                Ok(d) => d,
                Err(_) => { return Err(RenderError::BadDate); },
            };
            match crate::calc::format_date(day, "%Y-%m-%d") {
                Some(t) => t,
                None => { return Err(RenderError::BadDate); },
            }
        },
    };
    s.append(when.as_str());
    Ok(s)
}

} // verus!
