use vstd::prelude::*;
use vstd::string::*;

use crate::models::{Column, Models};
use crate::text::{decimal_text, int_text, join, push_joined, views};
use crate::value::{value_views, SqlVal, SqlValue};

verus! {

/// A compiled statement: its table, its SQL text and its parameters in order.
#[derive(Debug)]
pub struct CachedStmt {
    pub table: String,
    pub query: String,
    pub params: Vec<SqlValue>,
}

/// Why a descriptor gives no statement.
#[derive(Debug, Clone, Copy, PartialEq, Eq, Structural)]
pub enum CompileError {
    /// The descriptor names no column to write.
    EmptyFieldList,
    /// The statement does not have one value per column.
    ArityMismatch,
}

/// The names of a sequence of columns.
pub open spec fn column_names(cols: Seq<Column>) -> Seq<Seq<char>> {
    cols.map_values(|c: Column| c.spec_name())
}

/// `n` positional placeholders.
pub open spec fn placeholders(n: nat) -> Seq<Seq<char>> {
    Seq::new(n, |i: int| "?"@)
}

/// `col = ?` for each column.
pub open spec fn assignments(cols: Seq<Seq<char>>) -> Seq<Seq<char>> {
    cols.map_values(|c: Seq<char>| c + " = ?"@)
}

pub open spec fn insert_sql(table: Seq<char>, cols: Seq<Seq<char>>) -> Seq<char> {
    "INSERT INTO "@ + table + " ("@ + join(cols, ", "@) + ") VALUES ("@
        + join(placeholders(cols.len()), ", "@) + ")"@
}

pub open spec fn update_sql(table: Seq<char>, cols: Seq<Seq<char>>, id: Seq<char>) -> Seq<char> {
    "UPDATE "@ + table + " SET "@ + join(assignments(cols), ", "@) + " WHERE id = "@ + id
}

pub open spec fn delete_sql(table: Seq<char>) -> Seq<char> {
    "DELETE FROM "@ + table + " WHERE id = ?"@
}

/// A descriptor's target table.
pub trait TableName {
    spec fn spec_table(&self) -> Models;

    fn table_name(&self) -> (r: String)
        ensures
            r@ == self.spec_table().spec_table_name(),
    ;
}

/// A descriptor's column names, in order.
pub trait PrepFields {
    spec fn spec_fields(&self) -> Seq<Seq<char>>;

    fn fields(&self) -> (r: Vec<String>)
        ensures
            views(r@) == self.spec_fields(),
    ;
}

/// A descriptor's values, in order.
pub trait PrepValues {
    spec fn spec_values(&self) -> Seq<SqlVal>;

    fn values(&self) -> (r: Vec<SqlValue>)
        ensures
            value_views(r@) == self.spec_values(),
    ;
}

/// A request that inserts a row: one value for each field, position by
/// position.
pub trait PrepCreate: PrepFields + PrepValues + TableName {
    /// The columns written, in order.
    spec fn spec_columns(&self) -> Seq<Column>;

    proof fn lemma_aligned(&self)
        ensures
            self.spec_fields() == column_names(self.spec_columns()),
            self.spec_values().len() == self.spec_columns().len(),
    ;
}

/// A request that updates a row: the first field is the row id, and each
/// later field has the value at its position less one.
pub trait PrepUpdate: PrepFields + PrepValues + TableName {
    spec fn spec_id(&self) -> i64;

    /// The columns written, in order.
    spec fn spec_columns(&self) -> Seq<Column>;

    proof fn lemma_aligned(&self)
        ensures
            self.spec_fields() == seq![decimal_text(self.spec_id() as int)] + column_names(
                self.spec_columns(),
            ),
            self.spec_values().len() == self.spec_columns().len(),
    ;
}

/// A request that deletes a row by id.
pub trait PrepDelete: TableName {
    spec fn spec_id(&self) -> i64;

    fn id(&self) -> (r: i64)
        ensures
            r == self.spec_id(),
    ;
}

/// The table name of a table, as an owned string.
pub fn table_string(m: Models) -> (r: String)
    ensures
        r@ == m.spec_table_name(),
{
    String::from_str(m.table_name())
}

/// The names of `cols`, as strings.
pub fn column_strings(cols: &Vec<Column>) -> (r: Vec<String>)
    ensures
        views(r@) == column_names(cols@),
{
    let mut r: Vec<String> = Vec::new();
    let mut i: usize = 0;
    while i < cols.len()
        invariant
            i <= cols.len(),
            views(r@) == column_names(cols@.subrange(0, i as int)),
        decreases cols.len() - i,
    {
        r.push(String::from_str(cols[i].name()));
        proof {
            assert(column_names(cols@.subrange(0, i as int + 1)) =~= column_names(
                cols@.subrange(0, i as int),
            ).push(cols@[i as int].spec_name()));
            assert(views(r@) =~= column_names(cols@.subrange(0, i as int + 1)));
        }
        i = i + 1;
    }
    assert(cols@.subrange(0, cols@.len() as int) =~= cols@);
    r
}

/// The field list of an update: the row id's text, then the column names.
pub fn update_fields(id: i64, cols: &Vec<Column>) -> (r: Vec<String>)
    ensures
        views(r@) == seq![decimal_text(id as int)] + column_names(cols@),
{
    let mut r: Vec<String> = Vec::new();
    r.push(int_text(id));
    let mut rest = column_strings(cols);
    r.append(&mut rest);
    assert(views(r@) =~= seq![decimal_text(id as int)] + column_names(cols@));
    r
}

fn placeholder_strings(n: usize) -> (r: Vec<String>)
    ensures
        views(r@) == placeholders(n as nat),
{
    let mut r: Vec<String> = Vec::new();
    let mut i: usize = 0;
    while i < n
        invariant
            i <= n,
            views(r@) == placeholders(i as nat),
        decreases n - i,
    {
        let ghost prev = r@;
        let q = String::from_str("?");
        r.push(q);
        proof {
            assert(views(r@) =~= views(prev).push(q@));
            assert(views(prev).push(q@) =~= placeholders((i + 1) as nat));
        }
        i = i + 1;
    }
    r
}

fn assignment_strings(cols: &Vec<String>) -> (r: Vec<String>)
    ensures
        views(r@) == assignments(views(cols@)),
{
    let mut r: Vec<String> = Vec::new();
    let mut i: usize = 0;
    while i < cols.len()
        invariant
            i <= cols.len(),
            views(r@) == assignments(views(cols@.subrange(0, i as int))),
        decreases cols.len() - i,
    {
        let mut s = cols[i].clone();
        s.append(" = ?");
        let ghost prev = r@;
        r.push(s);
        proof {
            assert(views(r@) =~= views(prev).push(s@));
            assert(views(cols@.subrange(0, i as int + 1)) =~= views(cols@.subrange(0, i as int)).push(
                cols@[i as int]@,
            ));
            assert(views(r@) =~= assignments(views(cols@.subrange(0, i as int + 1))));
        }
        i = i + 1;
    }
    assert(cols@.subrange(0, cols@.len() as int) =~= cols@);
    r
}

/// `INSERT INTO <table> (<fields>) VALUES (?, ...)`, one placeholder per
/// field, with the descriptor's values as parameters. Fails where there is no
/// field.
pub fn compile_insert<T: PrepCreate>(d: &T) -> (r: Result<CachedStmt, CompileError>)
    ensures
        d.spec_fields().len() == 0 <==> r is Err,
        r matches Err(e) ==> e == CompileError::EmptyFieldList,
        r matches Ok(s) ==> {
            &&& s.table@ == d.spec_table().spec_table_name()
            &&& s.query@ == insert_sql(d.spec_table().spec_table_name(), d.spec_fields())
            &&& value_views(s.params@) == d.spec_values()
            &&& s.params@.len() == d.spec_fields().len()
        },
{
    proof {
        d.lemma_aligned();
    }
    let fields = d.fields();
    if fields.len() == 0 {
        return Err(CompileError::EmptyFieldList);
    }
    let table = d.table_name();
    let marks = placeholder_strings(fields.len());
    let mut query = String::new();
    query.append("INSERT INTO ");
    query.append(table.as_str());
    query.append(" (");
    push_joined(&mut query, &fields, ", ");
    query.append(") VALUES (");
    push_joined(&mut query, &marks, ", ");
    query.append(")");
    proof {
        assert(d.spec_fields().len() == fields@.len());
    }
    Ok(CachedStmt { table, query, params: d.values() })
}

/// `UPDATE <table> SET <field> = ?, ... WHERE id = <id>`: the first field, the
/// row id, is written into the text, and the parameters are the descriptor's
/// values alone. Fails where no field follows the id.
pub fn compile_update<T: PrepUpdate>(d: &T) -> (r: Result<CachedStmt, CompileError>)
    ensures
        d.spec_fields().len() <= 1 <==> r is Err,
        r matches Err(e) ==> e == CompileError::EmptyFieldList,
        r matches Ok(s) ==> {
            &&& s.table@ == d.spec_table().spec_table_name()
            &&& s.query@ == update_sql(
                d.spec_table().spec_table_name(),
                d.spec_fields().drop_first(),
                decimal_text(d.spec_id() as int),
            )
            &&& value_views(s.params@) == d.spec_values()
            &&& s.params@.len() == d.spec_fields().len() - 1
        },
{
    proof {
        d.lemma_aligned();
    }
    let mut fields = d.fields();
    if fields.len() <= 1 {
        return Err(CompileError::EmptyFieldList);
    }
    let ghost all = fields@;
    let id = fields.remove(0);
    proof {
        assert(views(fields@) =~= views(all).drop_first());
        assert(id@ == views(all)[0]);
    }
    let table = d.table_name();
    let sets = assignment_strings(&fields);
    let mut query = String::new();
    query.append("UPDATE ");
    query.append(table.as_str());
    query.append(" SET ");
    push_joined(&mut query, &sets, ", ");
    query.append(" WHERE id = ");
    query.append(id.as_str());
    Ok(CachedStmt { table, query, params: d.values() })
}

/// `DELETE FROM <table> WHERE id = ?`, with the id as the one parameter.
pub fn compile_delete<T: PrepDelete>(d: &T) -> (r: CachedStmt)
    ensures
        r.table@ == d.spec_table().spec_table_name(),
        r.query@ == delete_sql(d.spec_table().spec_table_name()),
        value_views(r.params@) == seq![SqlVal::Integer(d.spec_id() as int)],
{
    let table = d.table_name();
    let mut query = String::new();
    query.append("DELETE FROM ");
    query.append(table.as_str());
    query.append(" WHERE id = ?");
    let mut params: Vec<SqlValue> = Vec::new();
    params.push(SqlValue::Integer(d.id()));
    assert(value_views(params@) =~= seq![SqlVal::Integer(d.spec_id() as int)]);
    CachedStmt { table, query, params }
}

/// Every insert descriptor, whichever optional inputs it carries, has as many
/// values as fields.
pub proof fn lemma_insert_arity<T: PrepCreate>(d: &T)
    ensures
        d.spec_values().len() == d.spec_fields().len(),
{
    d.lemma_aligned();
}

/// Every update descriptor, whichever optional inputs it carries, has the row
/// id as its first field and one value for each later field; the id is never
/// among the values.
pub proof fn lemma_update_arity<T: PrepUpdate>(d: &T)
    ensures
        d.spec_fields().len() >= 1,
        d.spec_fields()[0] == decimal_text(d.spec_id() as int),
        d.spec_values().len() == d.spec_fields().len() - 1,
{
    d.lemma_aligned();
}

} // verus!
