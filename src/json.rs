use vstd::prelude::*;
use vstd::string::*;

use crate::models::InvoiceItem;
use crate::text::{decimal_text, int_text, join, push_joined, views};

verus! {

/// JSON text of a list of integers: `[1,2,3]`.
pub open spec fn ids_json(ids: Seq<i64>) -> Seq<char> {
    "["@ + join(ids.map_values(|n: i64| decimal_text(n as int)), ","@) + "]"@
}

/// JSON text of one invoice line: `{"item":1,"quantity":2}`.
pub open spec fn item_json(it: InvoiceItem) -> Seq<char> {
    "{\"item\":"@ + decimal_text(it.item as int) + ",\"quantity\":"@ + decimal_text(
        it.quantity as int,
    ) + "}"@
}

/// JSON text of a list of invoice lines.
pub open spec fn items_json(items: Seq<InvoiceItem>) -> Seq<char> {
    "["@ + join(items.map_values(|it: InvoiceItem| item_json(it)), ","@) + "]"@
}

/// What `serde_json` reads from a text as a list of integers, if it reads one.
pub uninterp spec fn json_int_list(s: Seq<char>) -> Option<Seq<i64>>;

/// What `serde_json` reads from a text as a list of objects whose values are
/// integers, each object as its (key, value) entries in key order.
pub uninterp spec fn json_object_list(s: Seq<char>) -> Option<Seq<Seq<(Seq<char>, i64)>>>;

/// The views of decoded objects.
pub open spec fn object_views(v: Seq<Vec<(String, i64)>>) -> Seq<Seq<(Seq<char>, i64)>> {
    v.map_values(|o: Vec<(String, i64)>| o@.map_values(|e: (String, i64)| (e.0@, e.1)))
}

/// Relies on `serde_json::from_str::<Vec<i64>>`: the list it reads, or none
/// where the text is not a JSON array of integers that fit `i64`.
#[verifier::external_body]
fn parse_int_list(s: &str) -> (r: Option<Vec<i64>>)
    ensures
        match r {
            Some(v) => json_int_list(s@) == Some(v@),
            None => json_int_list(s@) is None,
        },
{
    serde_json::from_str::<Vec<i64>>(s).ok()
}

/// Relies on `serde_json::from_str::<Vec<BTreeMap<String, i64>>>`: the list of
/// objects it reads, each map's entries in the map's (key) order.
#[verifier::external_body]
fn parse_object_list(s: &str) -> (r: Option<Vec<Vec<(String, i64)>>>)
    ensures
        match r {
            Some(v) => json_object_list(s@) == Some(object_views(v@)),
            None => json_object_list(s@) is None,
        },
{
    serde_json::from_str::<Vec<std::collections::BTreeMap<String, i64>>>(s).ok().map(
        |v| v.into_iter().map(|m| m.into_iter().collect()).collect(),
    )
}

/// Frames a list of ids as JSON.
pub fn encode_ids(ids: &Vec<i64>) -> (r: String)
    ensures
        r@ == ids_json(ids@),
{
    let mut parts: Vec<String> = Vec::new();
    let mut i: usize = 0;
    while i < ids.len()
        invariant
            i <= ids.len(),
            views(parts@) == ids@.subrange(0, i as int).map_values(
                |n: i64| decimal_text(n as int),
            ),
        decreases ids.len() - i,
    {
        let ghost prev = parts@;
        let t = int_text(ids[i]);
        parts.push(t);
        proof {
            assert(views(parts@) =~= views(prev).push(t@));
            assert(ids@.subrange(0, i as int + 1).map_values(|n: i64| decimal_text(n as int))
                =~= ids@.subrange(0, i as int).map_values(|n: i64| decimal_text(n as int)).push(
                decimal_text(ids@[i as int] as int),
            ));
        }
        i = i + 1;
    }
    assert(ids@.subrange(0, ids@.len() as int) =~= ids@);
    let mut r = String::new();
    r.append("[");
    push_joined(&mut r, &parts, ",");
    r.append("]");
    r
}

fn encode_item(it: &InvoiceItem) -> (r: String)
    ensures
        r@ == item_json(*it),
{
    let mut r = String::new();
    r.append("{\"item\":");
    r.append(int_text(it.item).as_str());
    r.append(",\"quantity\":");
    r.append(int_text(it.quantity).as_str());
    r.append("}");
    r
}

/// Frames a list of invoice lines as JSON.
pub fn encode_items(items: &Vec<InvoiceItem>) -> (r: String)
    ensures
        r@ == items_json(items@),
{
    let mut parts: Vec<String> = Vec::new();
    let mut i: usize = 0;
    while i < items.len()
        invariant
            i <= items.len(),
            views(parts@) == items@.subrange(0, i as int).map_values(
                |it: InvoiceItem| item_json(it),
            ),
        decreases items.len() - i,
    {
        let ghost prev = parts@;
        let t = encode_item(&items[i]);
        parts.push(t);
        proof {
            assert(views(parts@) =~= views(prev).push(t@));
            assert(items@.subrange(0, i as int + 1).map_values(|it: InvoiceItem| item_json(it))
                =~= items@.subrange(0, i as int).map_values(|it: InvoiceItem| item_json(it)).push(
                item_json(items@[i as int]),
            ));
        }
        i = i + 1;
    }
    assert(items@.subrange(0, items@.len() as int) =~= items@);
    let mut r = String::new();
    r.append("[");
    push_joined(&mut r, &parts, ",");
    r.append("]");
    r
}

/// Reads a JSON list of ids.
pub fn decode_ids(s: &str) -> (r: Option<Vec<i64>>)
    ensures
        match r {
            Some(v) => json_int_list(s@) == Some(v@),
            None => json_int_list(s@) is None,
        },
{
    parse_int_list(s)
}

/// The value under `key` in an object's entries, if any.
pub open spec fn entry_value(o: Seq<(Seq<char>, i64)>, key: Seq<char>) -> Option<i64>
    decreases o.len(),
{
    if o.len() == 0 {
        None
    } else if o[0].0 == key {
        Some(o[0].1)
    } else {
        entry_value(o.drop_first(), key)
    }
}

/// The invoice line an object denotes: it needs an `item` and a `quantity`.
pub open spec fn item_of_object(o: Seq<(Seq<char>, i64)>) -> Option<InvoiceItem> {
    match (entry_value(o, "item"@), entry_value(o, "quantity"@)) {
        (Some(i), Some(q)) => Some(InvoiceItem { item: i, quantity: q }),
        _ => None,
    }
}

/// The invoice lines of a sequence of objects, if each denotes one.
pub open spec fn items_of_objects(objs: Seq<Seq<(Seq<char>, i64)>>) -> Option<Seq<InvoiceItem>>
    decreases objs.len(),
{
    if objs.len() == 0 {
        Some(Seq::empty())
    } else {
        match (items_of_objects(objs.drop_last()), item_of_object(objs.last())) {
            (Some(init), Some(it)) => Some(init.push(it)),
            _ => None,
        }
    }
}

/// The invoice lines a text holds, if it holds a JSON list of lines.
pub open spec fn items_of_json(s: Seq<char>) -> Option<Seq<InvoiceItem>> {
    match json_object_list(s) {
        Some(objs) => items_of_objects(objs),
        None => None,
    }
}

fn lookup_entry(o: &Vec<(String, i64)>, key: &String) -> (r: Option<i64>)
    ensures
        r == entry_value(o@.map_values(|e: (String, i64)| (e.0@, e.1)), key@),
{
    let ghost ov = o@.map_values(|e: (String, i64)| (e.0@, e.1));
    assert(ov.subrange(0, ov.len() as int) =~= ov);
    let mut i: usize = 0;
    while i < o.len()
        invariant
            i <= o.len(),
            ov == o@.map_values(|e: (String, i64)| (e.0@, e.1)),
            entry_value(ov, key@) == entry_value(ov.subrange(i as int, ov.len() as int), key@),
        decreases o.len() - i,
    {
        let ghost rest = ov.subrange(i as int, ov.len() as int);
        assert(rest.drop_first() =~= ov.subrange(i as int + 1, ov.len() as int));
        assert(rest[0] == ov[i as int]);
        if o[i].0 == *key {
            return Some(o[i].1);
        }
        i = i + 1;
    }
    None
}

/// Reads a JSON list of invoice lines (`[{"item":1,"quantity":2}]`).
pub fn decode_items(s: &str) -> (r: Option<Vec<InvoiceItem>>)
    ensures
        match r {
            Some(v) => items_of_json(s@) == Some(v@),
            None => items_of_json(s@) is None,
        },
{
    let parsed = parse_object_list(s);
    let objs = match parsed {
        Some(v) => v,
        None => { return None; },
    };
    let ghost ov = object_views(objs@);
    assert(json_object_list(s@) == Some(ov));
    let item_key = String::from_str("item");
    let quantity_key = String::from_str("quantity");
    let mut out: Vec<InvoiceItem> = Vec::new();
    let mut i: usize = 0;
    while i < objs.len()
        invariant
            i <= objs.len(),
            ov == object_views(objs@),
            json_object_list(s@) == Some(ov),
            item_key@ == "item"@,
            quantity_key@ == "quantity"@,
            items_of_objects(ov.subrange(0, i as int)) == Some(out@),
        decreases objs.len() - i,
    {
        let ghost o = ov[i as int];
        assert(o == objs@[i as int]@.map_values(|e: (String, i64)| (e.0@, e.1)));
        assert(ov.subrange(0, i as int + 1).drop_last() =~= ov.subrange(0, i as int));
        let it = lookup_entry(&objs[i], &item_key);
        let qt = lookup_entry(&objs[i], &quantity_key);
        match (it, qt) {
            (Some(a), Some(b)) => {
                out.push(InvoiceItem { item: a, quantity: b });
            },
            _ => {
                assert(items_of_objects(ov.subrange(0, i as int + 1)) is None);
                assert(ov.subrange(0, objs@.len() as int) =~= ov);
                proof {
                    lemma_items_of_objects_none(ov, i as int + 1);
                }
                assert(items_of_json(s@) is None);
                return None;
            },
        }
        i = i + 1;
    }
    assert(ov.subrange(0, objs@.len() as int) =~= ov);
    Some(out)
}

proof fn lemma_items_of_objects_none(objs: Seq<Seq<(Seq<char>, i64)>>, k: int)
    requires
        0 <= k <= objs.len(),
        items_of_objects(objs.subrange(0, k)) is None,
    ensures
        items_of_objects(objs) is None,
    decreases objs.len() - k,
{
    if k < objs.len() {
        assert(objs.subrange(0, k + 1).drop_last() =~= objs.subrange(0, k));
        lemma_items_of_objects_none(objs, k + 1);
    } else {
        assert(objs.subrange(0, k) =~= objs);
    }
}

} // verus!
