use vstd::prelude::*;
use vstd::string::*;

use crate::models::{Models, ShortList};
use crate::prepare::{
    assignments, delete_sql, insert_sql, placeholders, table_string, CompileError,
};
use crate::text::{decimal_text, int_text, join, push_joined, views};
use crate::value::{value_views, SqlVal, SqlValue};

verus! {

/// A statement over one table, as a closed set of shapes.
#[derive(Debug)]
pub enum Crud {
    Create { table: Models, columns: Vec<String>, values: Vec<SqlValue> },
    ListAll { table: Models },
    Read { table: Models, id: i64 },
    Update { table: Models, id: i64, columns: Vec<String>, values: Vec<SqlValue> },
    Delete { table: Models, id: i64 },
}

pub open spec fn update_by_param_sql(table: Seq<char>, cols: Seq<Seq<char>>) -> Seq<char> {
    "UPDATE "@ + table + " SET "@ + join(assignments(cols), ", "@) + " WHERE id = ?"@
}

pub open spec fn list_all_sql(table: Seq<char>) -> Seq<char> {
    "SELECT * FROM "@ + table + " ORDER BY id"@
}

pub open spec fn read_sql(table: Seq<char>) -> Seq<char> {
    "SELECT * FROM "@ + table + " WHERE id = ? ORDER BY id"@
}

/// The (id, label) listing of a table: the label is the date for invoices and
/// the name elsewhere.
pub open spec fn list_sql(table: Models) -> Seq<char> {
    if table == Models::Invoices {
        "SELECT id, date FROM invoices"@
    } else {
        "SELECT id, name FROM "@ + table.spec_table_name()
    }
}

fn copy_value(v: &SqlValue) -> (r: SqlValue)
    ensures
        r@ == v@,
{
    match v {
        SqlValue::Null => SqlValue::Null,
        SqlValue::Integer(n) => SqlValue::Integer(*n),
        SqlValue::Text(s) => SqlValue::Text(s.clone()),
        SqlValue::Blob(b) => SqlValue::Blob(crate::value::copy_bytes(b)),
    }
}

fn copy_values(v: &Vec<SqlValue>) -> (r: Vec<SqlValue>)
    ensures
        value_views(r@) == value_views(v@),
{
    let mut r: Vec<SqlValue> = Vec::new();
    let mut i: usize = 0;
    while i < v.len()
        invariant
            i <= v.len(),
            value_views(r@) == value_views(v@.subrange(0, i as int)),
        decreases v.len() - i,
    {
        let ghost prev = r@;
        let x = copy_value(&v[i]);
        r.push(x);
        assert(value_views(r@) =~= value_views(prev).push(x@));
        assert(value_views(v@.subrange(0, i as int + 1)) =~= value_views(v@.subrange(0, i as int)).push(
            v@[i as int]@,
        ));
        i = i + 1;
    }
    assert(v@.subrange(0, v@.len() as int) =~= v@);
    r
}

fn joined_placeholders(n: usize) -> (r: String)
    ensures
        r@ == join(placeholders(n as nat), ", "@),
{
    let mut marks: Vec<String> = Vec::new();
    let mut i: usize = 0;
    while i < n
        invariant
            i <= n,
            views(marks@) == placeholders(i as nat),
        decreases n - i,
    {
        let ghost prev = marks@;
        let q = String::from_str("?");
        marks.push(q);
        assert(views(marks@) =~= views(prev).push(q@));
        assert(views(prev).push(q@) =~= placeholders((i + 1) as nat));
        i = i + 1;
    }
    let mut r = String::new();
    push_joined(&mut r, &marks, ", ");
    r
}

fn joined_assignments(cols: &Vec<String>) -> (r: String)
    ensures
        r@ == join(assignments(views(cols@)), ", "@),
{
    let mut sets: Vec<String> = Vec::new();
    let mut i: usize = 0;
    while i < cols.len()
        invariant
            i <= cols.len(),
            views(sets@) == assignments(views(cols@.subrange(0, i as int))),
        decreases cols.len() - i,
    {
        let mut s = cols[i].clone();
        s.append(" = ?");
        let ghost prev = sets@;
        sets.push(s);
        proof {
            assert(views(sets@) =~= views(prev).push(s@));
            assert(views(cols@.subrange(0, i as int + 1)) =~= views(cols@.subrange(0, i as int)).push(
                cols@[i as int]@,
            ));
            assert(views(sets@) =~= assignments(views(cols@.subrange(0, i as int + 1))));
        }
        i = i + 1;
    }
    assert(cols@.subrange(0, cols@.len() as int) =~= cols@);
    let mut r = String::new();
    push_joined(&mut r, &sets, ", ");
    r
}

impl Crud {
    /// The SQL text of the statement. A create or an update fails where it
    /// names no column or no value, and otherwise where it has not one value
    /// per column.
    pub fn to_query(&self) -> (r: Result<String, CompileError>)
        ensures
            match self {
                Crud::Create { table, columns, values } => if columns@.len() == 0 || values@.len()
                    == 0 {
                    r == Err::<String, CompileError>(CompileError::EmptyFieldList)
                } else if columns@.len() != values@.len() {
                    r == Err::<String, CompileError>(CompileError::ArityMismatch)
                } else {
                    r matches Ok(q) && q@ == insert_sql(table.spec_table_name(), views(columns@))
                },
                Crud::Update { table, columns, values, .. } => if columns@.len() == 0
                    || values@.len() == 0 {
                    r == Err::<String, CompileError>(CompileError::EmptyFieldList)
                } else if columns@.len() != values@.len() {
                    r == Err::<String, CompileError>(CompileError::ArityMismatch)
                } else {
                    r matches Ok(q) && q@ == update_by_param_sql(
                        table.spec_table_name(),
                        views(columns@),
                    )
                },
                Crud::ListAll { table } => r matches Ok(q) && q@ == list_all_sql(
                    table.spec_table_name(),
                ),
                Crud::Read { table, .. } => r matches Ok(q) && q@ == read_sql(
                    table.spec_table_name(),
                ),
                Crud::Delete { table, .. } => r matches Ok(q) && q@ == delete_sql(
                    table.spec_table_name(),
                ),
            },
    {
        match self {
            Crud::Create { table, columns, values } => {
                if columns.len() == 0 || values.len() == 0 {
                    return Err(CompileError::EmptyFieldList);
                }
                if columns.len() != values.len() {
                    return Err(CompileError::ArityMismatch);
                }
                let mut q = String::from_str("INSERT INTO ");
                q.append(table.table_name());
                q.append(" (");
                push_joined(&mut q, columns, ", ");
                q.append(") VALUES (");
                q.append(joined_placeholders(columns.len()).as_str());
                q.append(")");
                assert(views(columns@).len() == columns@.len());
                Ok(q)
            },
            Crud::Update { table, columns, values, .. } => {
                if columns.len() == 0 || values.len() == 0 {
                    return Err(CompileError::EmptyFieldList);
                }
                if columns.len() != values.len() {
                    return Err(CompileError::ArityMismatch);
                }
                let mut q = String::from_str("UPDATE ");
                q.append(table.table_name());
                q.append(" SET ");
                q.append(joined_assignments(columns).as_str());
                q.append(" WHERE id = ?");
                Ok(q)
            },
            Crud::ListAll { table } => {
                let mut q = String::from_str("SELECT * FROM ");
                q.append(table.table_name());
                q.append(" ORDER BY id");
                Ok(q)
            },
            Crud::Read { table, .. } => {
                let mut q = String::from_str("SELECT * FROM ");
                q.append(table.table_name());
                q.append(" WHERE id = ? ORDER BY id");
                Ok(q)
            },
            Crud::Delete { table, .. } => {
                let mut q = String::from_str("DELETE FROM ");
                q.append(table.table_name());
                q.append(" WHERE id = ?");
                Ok(q)
            },
        }
    }

    /// The parameters to bind, in placeholder order: the values, then the id
    /// where the text ends in `id = ?`.
    pub fn params(&self) -> (r: Vec<SqlValue>)
        ensures
            match self {
                Crud::Create { values, .. } => value_views(r@) == value_views(values@),
                Crud::Update { id, values, .. } => value_views(r@) == value_views(values@).push(
                    SqlVal::Integer(*id as int),
                ),
                Crud::ListAll { .. } => r@.len() == 0,
                Crud::Read { id, .. } => value_views(r@) == seq![SqlVal::Integer(*id as int)],
                Crud::Delete { id, .. } => value_views(r@) == seq![SqlVal::Integer(*id as int)],
            },
    {
        match self {
            Crud::Create { values, .. } => copy_values(values),
            Crud::Update { id, values, .. } => {
                let mut r = copy_values(values);
                let ghost prev = r@;
                r.push(SqlValue::Integer(*id));
                assert(value_views(r@) =~= value_views(prev).push(SqlVal::Integer(*id as int)));
                r
            },
            Crud::ListAll { .. } => Vec::new(),
            Crud::Read { id, .. } => {
                let r = vec![SqlValue::Integer(*id)];
                assert(value_views(r@) =~= seq![SqlVal::Integer(*id as int)]);
                r
            },
            Crud::Delete { id, .. } => {
                let r = vec![SqlValue::Integer(*id)];
                assert(value_views(r@) =~= seq![SqlVal::Integer(*id as int)]);
                r
            },
        }
    }
}

/// The (id, label) listing of a table, for pickers.
pub fn list_query(table: Models) -> (r: String)
    ensures
        r@ == list_sql(table),
{
    match table {
        Models::Invoices => String::from_str("SELECT id, date FROM invoices"),
        _ => {
            let mut q = String::from_str("SELECT id, name FROM ");
            q.append(table.table_name());
            q
        },
    }
}

/// The single-row read of entity `id` of a table.
pub fn read_query(table: Models) -> (r: String)
    ensures
        r@ == read_sql(table.spec_table_name()),
{
    let mut q = String::from_str("SELECT * FROM ");
    q.append(table.table_name());
    q.append(" WHERE id = ? ORDER BY id");
    q
}

/// The read of the stored mail settings.
pub fn config_query() -> (r: String)
    ensures
        r@ == "SELECT * FROM email_config WHERE id = 0"@,
{
    String::from_str("SELECT * FROM email_config WHERE id = 0")
}

/// Stores the mail settings as the single row (id 0), replacing any stored
/// ones.
pub fn config_upsert(c: &crate::models::Config) -> (r: crate::prepare::CachedStmt)
    ensures
        r.table@ == "email_config"@,
        r.query@
            == "INSERT OR REPLACE INTO email_config (id, smtp_server, port, tls, username, password, fromname) VALUES (0, ?, ?, ?, ?, ?, ?)"@,
        value_views(r.params@) == seq![
            SqlVal::Text(c.smtp_server@),
            SqlVal::Integer(c.port as int),
            crate::value::flag_val(c.tls),
            SqlVal::Text(c.username@),
            SqlVal::Text(c.password@),
            SqlVal::Text(c.fromname@),
        ],
{
    let params = vec![
        SqlValue::Text(c.smtp_server.clone()),
        SqlValue::Integer(c.port as i64),
        crate::value::flag(c.tls),
        SqlValue::Text(c.username.clone()),
        SqlValue::Text(c.password.clone()),
        SqlValue::Text(c.fromname.clone()),
    ];
    assert(value_views(params@) =~= seq![
        SqlVal::Text(c.smtp_server@),
        SqlVal::Integer(c.port as int),
        crate::value::flag_val(c.tls),
        SqlVal::Text(c.username@),
        SqlVal::Text(c.password@),
        SqlVal::Text(c.fromname@),
    ]);
    crate::prepare::CachedStmt {
        table: table_string(Models::Config),
        query: String::from_str(
            "INSERT OR REPLACE INTO email_config (id, smtp_server, port, tls, username, password, fromname) VALUES (0, ?, ?, ?, ?, ?, ?)",
        ),
        params,
    }
}

/// The label a picker shows for an entity: `<id> - <name>`.
pub open spec fn option_text(s: ShortList) -> Seq<char> {
    decimal_text(s.id as int) + " - "@ + s.name@
}

fn option_string(s: &ShortList) -> (r: String)
    ensures
        r@ == option_text(*s),
{
    let mut r = int_text(s.id);
    r.append(" - ");
    r.append(s.name.as_str());
    r
}

/// The labels of a picker, in list order.
pub fn selection_options(list: &Vec<ShortList>) -> (r: Vec<String>)
    ensures
        views(r@) == list@.map_values(|s: ShortList| option_text(s)),
{
    let mut r: Vec<String> = Vec::new();
    let mut i: usize = 0;
    while i < list.len()
        invariant
            i <= list.len(),
            views(r@) == list@.subrange(0, i as int).map_values(|s: ShortList| option_text(s)),
        decreases list.len() - i,
    {
        let ghost prev = r@;
        let t = option_string(&list[i]);
        r.push(t);
        proof {
            assert(views(r@) =~= views(prev).push(t@));
            assert(list@.subrange(0, i as int + 1).map_values(|s: ShortList| option_text(s))
                =~= list@.subrange(0, i as int).map_values(|s: ShortList| option_text(s)).push(
                option_text(list@[i as int]),
            ));
        }
        i = i + 1;
    }
    assert(list@.subrange(0, list@.len() as int) =~= list@);
    r
}

/// The id behind a chosen label: that of the first entity whose label it is.
pub fn selected_id(list: &Vec<ShortList>, choice: &str) -> (r: Option<i64>)
    ensures
        match r {
            Some(id) => exists|k: int|
                0 <= k < list@.len() && #[trigger] option_text(list@[k]) == choice@ && list@[k].id
                    == id && forall|j: int| 0 <= j < k ==> option_text(list@[j]) != choice@,
            None => forall|k: int| 0 <= k < list@.len() ==> #[trigger] option_text(list@[k]) != choice@,
        },
{
    let wanted = String::from_str(choice);
    let mut i: usize = 0;
    while i < list.len()
        invariant
            i <= list.len(),
            wanted@ == choice@,
            forall|j: int| 0 <= j < i ==> #[trigger] option_text(list@[j]) != choice@,
        decreases list.len() - i,
    {
        let t = option_string(&list[i]);
        if t == wanted {
            return Some(list[i].id);
        }
        i = i + 1;
    }
    None
}

} // verus!
