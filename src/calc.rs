use std::fmt::Write;

use vstd::multiset::Multiset;
use vstd::prelude::*;
use vstd::string::*;

use crate::hydrate::DbError;
use crate::models::{Invoice, Items, Models};
use crate::money::{abs, add_decimals, subtotal, Decimal, MoneyError, MAX_MANTISSA, MAX_SCALE};

verus! {

// ---------------------------------------------------------------- dates

/// The day (counted from 0001-01-01 as day 1) that chrono reads from a text
/// with a format, if it reads one.
pub uninterp spec fn parsed_day(s: Seq<char>, fmt: Seq<char>) -> Option<i32>;

/// The text chrono writes for a day with a format, if the day is in its
/// range and the format is valid.
pub uninterp spec fn formatted_day(day: i32, fmt: Seq<char>) -> Option<Seq<char>>;

/// Relies on `chrono::NaiveDate::parse_from_str` and `Datelike::num_days_from_ce`:
/// the day a text names in a format, or none where it names no valid date.
#[verifier::external_body]
fn parse_day(s: &str, fmt: &str) -> (r: Option<i32>)
    ensures
        r == parsed_day(s@, fmt@),
{
    chrono::NaiveDate::parse_from_str(s, fmt).ok().map(|d| chrono::Datelike::num_days_from_ce(&d))
}

/// Relies on `chrono::NaiveDate::from_num_days_from_ce_opt` and
/// `NaiveDate::format`: the text of a day, or none where the day is out of
/// chrono's range or the format does not render.
#[verifier::external_body]
fn format_day(day: i32, fmt: &str) -> (r: Option<String>)
    ensures
        match r {
            Some(t) => formatted_day(day, fmt@) == Some(t@),
            None => formatted_day(day, fmt@) is None,
        },
{

    let d = chrono::NaiveDate::from_num_days_from_ce_opt(day)?;
    let mut out = String::new();
    write!(out, "{}", d.format(fmt)).ok().map(|_| out)
}

/// Reads a compact `YYYYMMDD` date as a day number; fails as corrupt where it
/// names no valid date.
pub fn issue_date(date: &str) -> (r: Result<i32, DbError>)
    ensures
        match parsed_day(date@, "%Y%m%d"@) {
            Some(d) => r == Ok::<i32, DbError>(d),
            None => r == Err::<i32, DbError>(DbError::Corrupt { table: Models::Invoices }),
        },
{
    match parse_day(date, "%Y%m%d") {
        Some(d) => Ok(d),
        None => Err(DbError::Corrupt { table: Models::Invoices }),
    }
}

/// The day `due` days after `issue`; none where it leaves the 32-bit range.
pub fn due_date(issue: i32, due: i64) -> (r: Option<i32>)
    ensures
        r is Some <==> i32::MIN <= issue + due <= i32::MAX,
        r matches Some(d) ==> d == issue + due,
{
    if due > i32::MAX as i64 - issue as i64 || due < i32::MIN as i64 - issue as i64 {
        None
    } else {
        Some((issue as i64 + due) as i32)
    }
}

/// A day written in a chrono format; none where it does not render.
pub fn format_date(day: i32, fmt: &str) -> (r: Option<String>)
    ensures
        match r {
            Some(t) => formatted_day(day, fmt@) == Some(t@),
            None => formatted_day(day, fmt@) is None,
        },
{
    format_day(day, fmt)
}

/// A day written as `Month DD, YYYY`, as on a rendered invoice.
pub fn long_date(day: i32) -> (r: Option<String>)
    ensures
        match r {
            Some(t) => formatted_day(day, "%B %d, %Y"@) == Some(t@),
            None => formatted_day(day, "%B %d, %Y"@) is None,
        },
{
    format_day(day, "%B %d, %Y")
}

// ---------------------------------------------------------------- names

/// Byte-order (code point) comparison of two names: `a` sorts no later than `b`.
pub open spec fn name_le(a: Seq<char>, b: Seq<char>) -> bool
    decreases a.len(),
{
    if a.len() == 0 {
        true
    } else if b.len() == 0 {
        false
    } else if (a[0] as u32) != (b[0] as u32) {
        (a[0] as u32) < (b[0] as u32)
    } else {
        name_le(a.drop_first(), b.drop_first())
    }
}

proof fn lemma_name_le_total(a: Seq<char>, b: Seq<char>)
    ensures
        name_le(a, b) || name_le(b, a),
    decreases a.len(),
{
    if a.len() > 0 && b.len() > 0 && (a[0] as u32) == (b[0] as u32) {
        lemma_name_le_total(a.drop_first(), b.drop_first());
    }
}

proof fn lemma_name_le_refl(a: Seq<char>)
    ensures
        name_le(a, a),
    decreases a.len(),
{
    if a.len() > 0 {
        lemma_name_le_refl(a.drop_first());
    }
}

proof fn lemma_name_le_trans(a: Seq<char>, b: Seq<char>, c: Seq<char>)
    requires
        name_le(a, b),
        name_le(b, c),
    ensures
        name_le(a, c),
    decreases a.len(),
{
    if a.len() > 0 && b.len() > 0 && c.len() > 0 && (a[0] as u32) == (b[0] as u32) && (b[0] as u32)
        == (c[0] as u32) {
        lemma_name_le_trans(a.drop_first(), b.drop_first(), c.drop_first());
    }
}

/// Whether `a` sorts no later than `b`.
pub fn names_le(a: &str, b: &str) -> (r: bool)
    ensures
        r == name_le(a@, b@),
{
    let la = a.unicode_len();
    let lb = b.unicode_len();
    let mut i: usize = 0;
    assert(a@.skip(0) =~= a@);
    assert(b@.skip(0) =~= b@);
    while i < la && i < lb
        invariant
            la == a@.len(),
            lb == b@.len(),
            i <= la,
            i <= lb,
            name_le(a@, b@) == name_le(a@.skip(i as int), b@.skip(i as int)),
        decreases la - i,
    {
        let ca = a.get_char(i);
        let cb = b.get_char(i);
        assert(a@.skip(i as int).drop_first() =~= a@.skip(i as int + 1));
        assert(b@.skip(i as int).drop_first() =~= b@.skip(i as int + 1));
        if (ca as u32) != (cb as u32) {
            return (ca as u32) < (cb as u32);
        }
        i = i + 1;
    }
    i == la
}

// ---------------------------------------------------------------- subtotals

/// One invoice line as rendered: name, rate, quantity and `rate * quantity`.
#[derive(Debug, Clone)]
pub struct ItemDetail {
    pub name: String,
    pub rate: Decimal,
    pub quantity: i64,
    pub subtotal: Decimal,
}

/// What a rendered line holds.
pub open spec fn detail_view(d: ItemDetail) -> (Seq<char>, Decimal, i64, Decimal) {
    (d.name@, d.rate, d.quantity, d.subtotal)
}

pub open spec fn detail_views(s: Seq<ItemDetail>) -> Seq<(Seq<char>, Decimal, i64, Decimal)> {
    s.map_values(|d: ItemDetail| detail_view(d))
}

/// A line's product does not overflow.
pub open spec fn line_ok(line: (Items, i64)) -> bool {
    line.0.rate.wf() && abs(line.0.rate.mantissa * line.1) <= MAX_MANTISSA
}

/// The rendered line of an item and its quantity.
pub open spec fn line_detail(line: (Items, i64)) -> (Seq<char>, Decimal, i64, Decimal) {
    (
        line.0.name@,
        line.0.rate,
        line.1,
        Decimal { mantissa: (line.0.rate.mantissa * line.1) as i128, scale: line.0.rate.scale },
    )
}

/// Names never decrease along the sequence.
pub open spec fn sorted_by_name(s: Seq<(Seq<char>, Decimal, i64, Decimal)>) -> bool {
    forall|i: int, j: int| 0 <= i < j < s.len() ==> name_le(#[trigger] s[i].0, #[trigger] s[j].0)
}

fn is_wf(d: Decimal) -> (r: bool)
    ensures
        r == d.wf(),
{
    d.mantissa <= MAX_MANTISSA && d.mantissa >= -MAX_MANTISSA && d.scale <= MAX_SCALE
}

/// The rendered lines of `items`, in their order; fails where a rate is
/// malformed or a product overflows.
fn line_details(items: &Vec<(Items, i64)>) -> (r: Result<Vec<ItemDetail>, MoneyError>)
    ensures
        r is Ok <==> forall|i: int| 0 <= i < items@.len() ==> #[trigger] line_ok(items@[i]),
        r matches Ok(v) ==> detail_views(v@) == items@.map_values(
            |l: (Items, i64)| line_detail(l),
        ),
{
    let mut out: Vec<ItemDetail> = Vec::new();
    let mut i: usize = 0;
    while i < items.len()
        invariant
            i <= items.len(),
            forall|j: int| 0 <= j < i ==> #[trigger] line_ok(items@[j]),
            detail_views(out@) == items@.subrange(0, i as int).map_values(
                |l: (Items, i64)| line_detail(l),
            ),
        decreases items.len() - i,
    {
        let it = &items[i].0;
        let q = items[i].1;
        if !is_wf(it.rate) {
            assert(!line_ok(items@[i as int]));
            return Err(MoneyError::Overflow);
        }
        let sub = match subtotal(it.rate, q) {
            Ok(s) => s,
            Err(e) => {
                assert(!line_ok(items@[i as int]));
                return Err(e);
            },
        };
        let ghost prev = out@;
        let d = ItemDetail { name: it.name.clone(), rate: it.rate, quantity: q, subtotal: sub };
        out.push(d);
        proof {
            assert(detail_views(out@) =~= detail_views(prev).push(detail_view(d)));
            assert(items@.subrange(0, i as int + 1).map_values(|l: (Items, i64)| line_detail(l))
                =~= items@.subrange(0, i as int).map_values(|l: (Items, i64)| line_detail(l)).push(
                line_detail(items@[i as int]),
            ));
        }
        i = i + 1;
    }
    assert(items@.subrange(0, items@.len() as int) =~= items@);
    Ok(out)
}

/// Orders rendered lines by name, byte order.
#[verifier::spinoff_prover]
fn sort_by_name(v: Vec<ItemDetail>) -> (r: Vec<ItemDetail>)
    ensures
        detail_views(r@).to_multiset() == detail_views(v@).to_multiset(),
        sorted_by_name(detail_views(r@)),
{
    broadcast use vstd::seq_lib::group_to_multiset_ensures;

    let mut work = v;
    let ghost start = detail_views(work@);
    let mut out: Vec<ItemDetail> = Vec::new();
    while work.len() > 0
        invariant
            detail_views(out@).to_multiset().add(detail_views(work@).to_multiset())
                == start.to_multiset(),
            sorted_by_name(detail_views(out@)),
            forall|i: int, j: int|
                0 <= i < out@.len() && 0 <= j < work@.len() ==> name_le(
                    #[trigger] out@[i].name@,
                    #[trigger] work@[j].name@,
                ),
        decreases work.len(),
    {
        let mut k: usize = 0;
        let mut j: usize = 1;
        proof {
            lemma_name_le_refl(work@[0].name@);
        }
        while j < work.len()
            invariant
                0 < work.len(),
                k < j <= work.len(),
                forall|m: int| 0 <= m < j ==> name_le(work@[k as int].name@, #[trigger] work@[m].name@),
            decreases work.len() - j,
        {
            if !names_le(work[k].name.as_str(), work[j].name.as_str()) {
                proof {
                    lemma_name_le_total(work@[k as int].name@, work@[j as int].name@);
                    assert forall|m: int| 0 <= m < j + 1 implies name_le(
                        work@[j as int].name@,
                        #[trigger] work@[m].name@,
                    ) by {
                        if m < j {
                            lemma_name_le_trans(
                                work@[j as int].name@,
                                work@[k as int].name@,
                                work@[m].name@,
                            );
                        } else {
                            lemma_name_le_refl(work@[j as int].name@);
                        }
                    }
                }
                k = j;
            } else {
                assert(name_le(work@[k as int].name@, work@[j as int].name@));
            }
            j = j + 1;
        }
        let ghost wprev = work@;
        let ghost oprev = out@;
        let d = work.remove(k);
        proof {
            assert(detail_views(work@) =~= detail_views(wprev).remove(k as int));
            assert(detail_views(wprev)[k as int] == detail_view(d));
        }
        out.push(d);
        proof {
            assert(detail_views(out@) =~= detail_views(oprev).push(detail_view(d)));
            assert forall|i: int, j2: int| 0 <= i < j2 < out@.len() implies name_le(
                #[trigger] detail_views(out@)[i].0,
                #[trigger] detail_views(out@)[j2].0,
            ) by {
                if j2 == out@.len() - 1 {
                    assert(name_le(oprev[i].name@, wprev[k as int].name@));
                } else {
                    assert(name_le(detail_views(oprev)[i].0, detail_views(oprev)[j2].0));
                }
            }
            assert forall|i: int, j2: int| 0 <= i < out@.len() && 0 <= j2 < work@.len() implies name_le(
                #[trigger] out@[i].name@,
                #[trigger] work@[j2].name@,
            ) by {
                let src = if j2 < k { j2 } else { j2 + 1 };
                assert(work@[j2] == wprev[src]);
                if i == out@.len() - 1 {
                    assert(name_le(wprev[k as int].name@, wprev[src].name@));
                } else {
                    assert(name_le(oprev[i].name@, wprev[src].name@));
                }
            }
            let x = detail_view(d);
            detail_views(wprev).to_multiset_ensures();
            detail_views(oprev).to_multiset_ensures();
            assert(detail_views(wprev).contains(x));
            assert(detail_views(wprev).to_multiset().count(x) > 0);
            assert(detail_views(work@).to_multiset() =~= detail_views(wprev).to_multiset().remove(x));
            assert(detail_views(out@).to_multiset() =~= detail_views(oprev).to_multiset().insert(x));
            assert(detail_views(out@).to_multiset().add(detail_views(work@).to_multiset())
                =~= start.to_multiset());
        }
    }
    proof {
        assert(detail_views(work@) =~= Seq::<(Seq<char>, Decimal, i64, Decimal)>::empty());
        assert(detail_views(work@).to_multiset() =~= Multiset::empty());
        assert(detail_views(out@).to_multiset() =~= start.to_multiset());
    }
    out
}

/// The sum of decimals, left to right from zero, where no step overflows.
pub open spec fn sum_decimals(s: Seq<Decimal>) -> Option<Decimal>
    decreases s.len(),
{
    if s.len() == 0 {
        Some(Decimal { mantissa: 0, scale: 0 })
    } else {
        match sum_decimals(s.drop_last()) {
            Some(acc) => add_spec(acc, s.last()),
            None => None,
        }
    }
}

/// `a + b` at the larger scale, where neither operand nor the sum overflows.
pub open spec fn add_spec(a: Decimal, b: Decimal) -> Option<Decimal> {
    let s: nat = if a.scale >= b.scale { a.scale as nat } else { b.scale as nat };
    if b.wf() && abs(a.scaled_to(s)) <= MAX_MANTISSA && abs(b.scaled_to(s)) <= MAX_MANTISSA && abs(
        a.scaled_to(s) + b.scaled_to(s),
    ) <= MAX_MANTISSA {
        Some(Decimal { mantissa: (a.scaled_to(s) + b.scaled_to(s)) as i128, scale: s as u32 })
    } else {
        None
    }
}

impl Invoice {
    /// The rendered lines of the invoice, ordered by item name (byte order);
    /// fails where a rate is malformed or a product overflows.
    pub fn calculate_subtotals(&self) -> (r: Result<Vec<ItemDetail>, MoneyError>)
        ensures
            r is Ok <==> forall|i: int| 0 <= i < self.items@.len() ==> #[trigger] line_ok(self.items@[i]),
            r matches Ok(v) ==> {
                &&& detail_views(v@).to_multiset() == self.items@.map_values(
                    |l: (Items, i64)| line_detail(l),
                ).to_multiset()
                &&& sorted_by_name(detail_views(v@))
            },
    {
        let details = line_details(&self.items)?;
        Ok(sort_by_name(details))
    }

    /// The sum of the subtotals, taken in name order; fails where a line or
    /// the sum overflows.
    pub fn calculate_total(&self) -> (r: Result<Decimal, MoneyError>)
        ensures
            r matches Ok(t) ==> t.wf() && exists|v: Seq<ItemDetail>|
                #[trigger] is_rendering(self.items@, v) && sum_decimals(subtotals_of(v)) == Some(t),
            r is Err ==> !(forall|i: int| 0 <= i < self.items@.len() ==> #[trigger] line_ok(self.items@[i]))
                || exists|v: Seq<ItemDetail>|
                #[trigger] is_rendering(self.items@, v) && sum_decimals(subtotals_of(v)) is None,
            (forall|i: int| 0 <= i < self.items@.len() ==> #[trigger] line_ok(self.items@[i])) ==> (
            r is Ok || exists|v: Seq<ItemDetail>|
                #[trigger] is_rendering(self.items@, v) && sum_decimals(subtotals_of(v)) is None),
    {
        let details = self.calculate_subtotals()?;
        assert(is_rendering(self.items@, details@));
        total_of(&details)
    }
}

/// The subtotals of rendered lines, in order.
pub open spec fn subtotals_of(v: Seq<ItemDetail>) -> Seq<Decimal> {
    v.map_values(|d: ItemDetail| d.subtotal)
}

/// `v` renders the lines: the same lines, ordered by name.
pub open spec fn is_rendering(items: Seq<(Items, i64)>, v: Seq<ItemDetail>) -> bool {
    &&& detail_views(v).to_multiset() == items.map_values(|l: (Items, i64)| line_detail(l)).to_multiset()
    &&& sorted_by_name(detail_views(v))
}

/// The sum of the subtotals of rendered lines, left to right; fails where a
/// subtotal is malformed or a step overflows.
pub fn total_of(details: &Vec<ItemDetail>) -> (r: Result<Decimal, MoneyError>)
    ensures
        match r {
            Ok(t) => sum_decimals(subtotals_of(details@)) == Some(t) && t.wf(),
            Err(e) => sum_decimals(subtotals_of(details@)) is None && e == MoneyError::Overflow,
        },
{
    let mut acc = Decimal { mantissa: 0, scale: 0 };
    let mut i: usize = 0;
    while i < details.len()
        invariant
            i <= details.len(),
            acc.wf(),
            sum_decimals(subtotals_of(details@.subrange(0, i as int))) == Some(acc),
        decreases details.len() - i,
    {
        let ghost pre = subtotals_of(details@.subrange(0, i as int + 1));
        assert(pre.drop_last() =~= subtotals_of(details@.subrange(0, i as int)));
        let sub = details[i].subtotal;
        if !is_wf(sub) {
            proof {
                assert(subtotals_of(details@).subrange(0, i as int + 1) =~= pre);
                lemma_sum_none_extends(subtotals_of(details@), i as int + 1);
            }
            return Err(MoneyError::Overflow);
        }
        match add_decimals(acc, sub) {
            Ok(s) => { acc = s; },
            Err(e) => {
                assert(sum_decimals(pre) is None);
                proof {
                    assert(subtotals_of(details@).subrange(0, i as int + 1) =~= pre);
                    lemma_sum_none_extends(subtotals_of(details@), i as int + 1);
                }
                return Err(e);
            },
        }
        i = i + 1;
    }
    assert(details@.subrange(0, details@.len() as int) =~= details@);
    Ok(acc)
}

proof fn lemma_sum_none_extends(s: Seq<Decimal>, k: int)
    requires
        0 <= k <= s.len(),
        sum_decimals(s.subrange(0, k)) is None,
    ensures
        sum_decimals(s) is None,
    decreases s.len() - k,
{
    if k < s.len() {
        assert(s.subrange(0, k + 1).drop_last() =~= s.subrange(0, k));
        lemma_sum_none_extends(s, k + 1);
    } else {
        assert(s.subrange(0, k) =~= s);
    }
}

} // verus!
