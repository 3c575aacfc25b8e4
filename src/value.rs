use vstd::prelude::*;

verus! {

/// A dynamically typed value bound to, or read from, a statement.
#[derive(Debug, Clone, PartialEq)]
pub enum SqlValue {
    Null,
    Integer(i64),
    Text(String),
    Blob(Vec<u8>),
}

/// What a [`SqlValue`] holds, as mathematical values.
pub enum SqlVal {
    Null,
    Integer(int),
    Text(Seq<char>),
    Blob(Seq<u8>),
}

impl View for SqlValue {
    type V = SqlVal;

    open spec fn view(&self) -> SqlVal {
        match self {
            SqlValue::Null => SqlVal::Null,
            SqlValue::Integer(n) => SqlVal::Integer(*n as int),
            SqlValue::Text(s) => SqlVal::Text(s@),
            SqlValue::Blob(b) => SqlVal::Blob(b@),
        }
    }
}

/// The views of a sequence of values.
pub open spec fn value_views(s: Seq<SqlValue>) -> Seq<SqlVal> {
    s.map_values(|v: SqlValue| v@)
}

/// The stored form of an optional text: `NULL` when absent.
pub open spec fn opt_text_val(o: Option<String>) -> SqlVal {
    match o {
        Some(s) => SqlVal::Text(s@),
        None => SqlVal::Null,
    }
}

/// The stored form of an optional blob: `NULL` when absent.
pub open spec fn opt_blob_val(o: Option<Vec<u8>>) -> SqlVal {
    match o {
        Some(b) => SqlVal::Blob(b@),
        None => SqlVal::Null,
    }
}

/// The stored form of a flag: `1` or `0`.
pub open spec fn flag_val(b: bool) -> SqlVal {
    SqlVal::Integer(if b { 1 } else { 0 })
}

pub fn opt_text(o: &Option<String>) -> (r: SqlValue)
    ensures
        r@ == opt_text_val(*o),
{
    match o {
        Some(s) => SqlValue::Text(s.clone()),
        None => SqlValue::Null,
    }
}

pub fn flag(b: bool) -> (r: SqlValue)
    ensures
        r@ == flag_val(b),
{
    SqlValue::Integer(if b { 1 } else { 0 })
}

/// A copy of a byte vector.
pub fn copy_bytes(b: &Vec<u8>) -> (r: Vec<u8>)
    ensures
        r@ == b@,
{
    let mut r: Vec<u8> = Vec::new();
    let mut i: usize = 0;
    while i < b.len()
        invariant
            i <= b.len(),
            r@ == b@.subrange(0, i as int),
        decreases b.len() - i,
    {
        r.push(b[i]);
        i = i + 1;
        assert(r@ =~= b@.subrange(0, i as int));
    }
    assert(b@.subrange(0, b@.len() as int) =~= b@);
    r
}

} // verus!
