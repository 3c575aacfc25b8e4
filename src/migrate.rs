use vstd::prelude::*;
use vstd::string::*;

use crate::text::{decimal_text, int_text, views};

verus! {

/// The newest schema version this library knows how to reach.
pub const LATEST_VERSION: i64 = 2;

/// One unit of work when a store is opened. All steps of a plan run in one
/// transaction.
#[derive(Debug, Clone, Copy, PartialEq, Eq, Structural)]
pub enum Step {
    /// Create every table at the newest schema.
    CreateSchema,
    /// Run migration `n`, which brings version `n - 1` to version `n`.
    Migrate(i64),
    /// Record the schema version in the ledger, replacing what it held.
    SetLedger(i64),
}

/// Why no plan can be made.
#[derive(Debug, Clone, Copy, PartialEq, Eq, Structural)]
pub enum MigrationError {
    /// The version asked for is not one this library can reach.
    UnknownVersion { version: i64 },
}

/// How the transaction that ran a plan ended.
#[derive(Debug, Clone, Copy, PartialEq, Eq, Structural)]
pub enum TxOutcome {
    Committed,
    RolledBack,
}

/// The version a ledger stands for: none recorded counts as version 0, the
/// oldest.
pub open spec fn effective_version(ledger: Option<i64>) -> int {
    match ledger {
        Some(v) => if v < 0 { 0 } else { v as int },
        None => 0,
    }
}

/// Migrations `from + 1` through `to`, in order.
pub open spec fn migrations_between(from: int, to: int) -> Seq<Step>
    decreases to - from,
{
    if to <= from {
        Seq::empty()
    } else {
        migrations_between(from, to - 1).push(Step::Migrate(to as i64))
    }
}

/// The steps to run when opening a store.
pub open spec fn open_plan(existing: bool, ledger: Option<i64>, target: i64) -> Seq<Step> {
    if !existing {
        seq![Step::CreateSchema, Step::SetLedger(target)]
    } else if effective_version(ledger) >= target {
        Seq::empty()
    } else {
        migrations_between(effective_version(ledger), target as int).push(Step::SetLedger(target))
    }
}

/// What the ledger holds after a plan's transaction ends: the last version the
/// plan records where it committed, else what it held before.
pub open spec fn ledger_after(before: Option<i64>, plan: Seq<Step>, outcome: TxOutcome) -> Option<i64>
    decreases plan.len(),
{
    if outcome == TxOutcome::RolledBack || plan.len() == 0 {
        before
    } else {
        match plan.last() {
            Step::SetLedger(v) => Some(v),
            _ => ledger_after(before, plan.drop_last(), outcome),
        }
    }
}

/// Decides the steps to run when opening a store: a new store gets the whole
/// schema and a ledger at `target`; a store behind `target` gets each missing
/// migration and then its ledger set to `target`; a store at or past `target`
/// gets nothing.
pub fn plan_open(existing: bool, ledger: Option<i64>, target: i64) -> (r: Result<
    Vec<Step>,
    MigrationError,
>)
    ensures
        r is Ok <==> 1 <= target <= LATEST_VERSION,
        r matches Ok(p) ==> p@ == open_plan(existing, ledger, target),
        r matches Err(e) ==> e == (MigrationError::UnknownVersion { version: target }),
{
    if target < 1 || target > LATEST_VERSION {
        return Err(MigrationError::UnknownVersion { version: target });
    }
    let mut plan: Vec<Step> = Vec::new();
    if !existing {
        plan.push(Step::CreateSchema);
        plan.push(Step::SetLedger(target));
        assert(plan@ =~= open_plan(existing, ledger, target));
        return Ok(plan);
    }
    let from: i64 = match ledger {
        Some(v) => if v < 0 { 0 } else { v },
        None => 0,
    };
    if from >= target {
        assert(plan@ =~= open_plan(existing, ledger, target));
        return Ok(plan);
    }
    let mut k: i64 = from;
    while k < target
        invariant
            from <= k <= target <= LATEST_VERSION,
            from == effective_version(ledger),
            plan@ == migrations_between(from as int, k as int),
        decreases target - k,
    {
        k = k + 1;
        plan.push(Step::Migrate(k));
    }
    plan.push(Step::SetLedger(target));
    Ok(plan)
}

/// What the ledger holds after a plan's transaction ends.
pub fn ledger_after_run(before: Option<i64>, plan: &Vec<Step>, outcome: TxOutcome) -> (r: Option<i64>)
    ensures
        r == ledger_after(before, plan@, outcome),
{
    if outcome == TxOutcome::RolledBack {
        return before;
    }
    let mut i: usize = plan.len();
    assert(plan@.subrange(0, i as int) =~= plan@);
    while i > 0
        invariant
            i <= plan.len(),
            outcome == TxOutcome::Committed,
            ledger_after(before, plan@, outcome) == ledger_after(before, plan@.subrange(0, i as int), outcome),
        decreases i,
    {
        let ghost pre = plan@.subrange(0, i as int);
        assert(pre.drop_last() =~= plan@.subrange(0, i as int - 1));
        if let Step::SetLedger(v) = plan[i - 1] {
            return Some(v);
        }
        i = i - 1;
    }
    before
}

/// Opening a store and committing the plan leaves the ledger at the target
/// version; a store already at or past the target gets no statement; a rolled
/// back plan leaves the ledger as it was.
pub proof fn lemma_open_plan_outcomes(existing: bool, ledger: Option<i64>, target: i64)
    requires
        1 <= target <= LATEST_VERSION,
    ensures
        !existing ==> open_plan(existing, ledger, target) == seq![
            Step::CreateSchema,
            Step::SetLedger(target),
        ],
        existing && effective_version(ledger) >= target ==> open_plan(existing, ledger, target).len()
            == 0,
        existing && ledger is None ==> open_plan(existing, ledger, target)
            == migrations_between(0, target as int).push(Step::SetLedger(target)),
        effective_version(ledger) < target || !existing ==> ledger_after(
            ledger,
            open_plan(existing, ledger, target),
            TxOutcome::Committed,
        ) == Some(target),
        ledger_after(ledger, open_plan(existing, ledger, target), TxOutcome::RolledBack) == ledger,
        !existing ==> plan_sql(open_plan(existing, ledger, target)) == schema_sql() + set_ledger_sql(
            target,
        ),
        existing && effective_version(ledger) >= target ==> plan_sql(
            open_plan(existing, ledger, target),
        ).len() == 0,
{
    let p = open_plan(existing, ledger, target);
    if !existing {
        let q = p.drop_last();
        assert(q =~= seq![Step::CreateSchema]);
        assert(q.drop_last() =~= Seq::<Step>::empty());
        assert(q.last() == Step::CreateSchema);
        assert(plan_sql(q.drop_last()) == Seq::<Seq<char>>::empty());
        assert(plan_sql(q) == plan_sql(q.drop_last()) + step_sql(q.last()));
        assert(Seq::<Seq<char>>::empty() + schema_sql() =~= schema_sql());
    }
    if !existing || effective_version(ledger) < target {
        assert(p.len() > 0 && p.last() == Step::SetLedger(target));
    }
}

// ---------------------------------------------------------------- statements

/// The schema at the newest version, one statement per table.
pub open spec fn schema_sql() -> Seq<Seq<char>> {
    seq![
        "CREATE TABLE IF NOT EXISTS migrations (version INTEGER PRIMARY KEY)"@,
        "CREATE TABLE IF NOT EXISTS email_config (id INTEGER PRIMARY KEY CHECK (id = 0), smtp_server TEXT NOT NULL, port INTEGER NOT NULL, tls INTEGER NOT NULL, username TEXT NOT NULL, password TEXT NOT NULL, fromname TEXT NOT NULL)"@,
        "CREATE TABLE IF NOT EXISTS company (id INTEGER PRIMARY KEY AUTOINCREMENT, name TEXT NOT NULL UNIQUE, logo BLOB, phone TEXT, email TEXT, addr1 TEXT, addr2 TEXT, city TEXT, state TEXT, zip TEXT)"@,
        "CREATE TABLE IF NOT EXISTS client (id INTEGER PRIMARY KEY AUTOINCREMENT, name TEXT NOT NULL UNIQUE, phone TEXT, email TEXT, addr1 TEXT, addr2 TEXT, city TEXT, state TEXT, zip TEXT)"@,
        "CREATE TABLE IF NOT EXISTS items (id INTEGER PRIMARY KEY AUTOINCREMENT, name TEXT NOT NULL UNIQUE, rate INTEGER)"@,
        "CREATE TABLE IF NOT EXISTS terms (id INTEGER PRIMARY KEY AUTOINCREMENT, name TEXT NOT NULL UNIQUE, due INTEGER NOT NULL UNIQUE)"@,
        "CREATE TABLE IF NOT EXISTS methods (id INTEGER PRIMARY KEY AUTOINCREMENT, name NOT NULL UNIQUE, link TEXT, qr BLOB)"@,
        "CREATE TABLE IF NOT EXISTS templates (id INTEGER PRIMARY KEY AUTOINCREMENT, name TEXT NOT NULL, company_id INTEGER NOT NULL, client_id INTEGER NOT NULL, terms_id INTEGER NOT NULL, methods_json TEXT NOT NULL, FOREIGN KEY (company_id) REFERENCES company (id) ON DELETE NO ACTION ON UPDATE NO ACTION, FOREIGN KEY (client_id) REFERENCES client (id) ON DELETE NO ACTION ON UPDATE NO ACTION, FOREIGN KEY (terms_id) REFERENCES terms (id) ON DELETE NO ACTION ON UPDATE NO ACTION)"@,
        "CREATE TABLE IF NOT EXISTS invoices (id INTEGER PRIMARY KEY AUTOINCREMENT, template_id INTEGER NOT NULL, date TEXT NOT NULL, show_methods INTEGER NOT NULL, show_notes INTEGER NOT NULL, stage TEXT NOT NULL, status TEXT NOT NULL, status_date TEXT, status_check TEXT, notes TEXT, items_json TEXT NOT NULL, FOREIGN KEY (template_id) REFERENCES templates (id) ON DELETE NO ACTION ON UPDATE NO ACTION)"@,
    ]
}

/// Migration 1: rebuilds the invoices table with its attribute columns,
/// keeping every invoice and giving it default attributes.
pub open spec fn migration_one_sql() -> Seq<Seq<char>> {
    seq![
        "CREATE TABLE IF NOT EXISTS invoice_backup AS SELECT id, template_id, date, items_json FROM invoices"@,
        "DROP TABLE IF EXISTS invoices"@,
        "CREATE TABLE IF NOT EXISTS invoices (id INTEGER PRIMARY KEY AUTOINCREMENT, template_id INTEGER NOT NULL, date TEXT NOT NULL, show_methods INTEGER NOT NULL, show_notes INTEGER NOT NULL, stage TEXT NOT NULL, status TEXT NOT NULL, status_date TEXT, status_check TEXT, notes TEXT, items_json TEXT NOT NULL, FOREIGN KEY (template_id) REFERENCES templates (id) ON DELETE NO ACTION ON UPDATE NO ACTION)"@,
        "INSERT INTO invoices (id, template_id, date, show_methods, show_notes, stage, status, status_date, status_check, notes, items_json) SELECT id, template_id, date, 1, 0, 'Invoice', 'Waiting', NULL, NULL, NULL, items_json FROM invoice_backup"@,
        "DROP TABLE IF EXISTS invoice_backup"@,
    ]
}

/// Migration 2: adds the single-row mail settings table.
pub open spec fn migration_two_sql() -> Seq<Seq<char>> {
    seq![
        "CREATE TABLE IF NOT EXISTS email_config (id INTEGER PRIMARY KEY CHECK (id = 0), smtp_server TEXT NOT NULL, port INTEGER NOT NULL, tls INTEGER NOT NULL, username TEXT NOT NULL, password TEXT NOT NULL, fromname TEXT NOT NULL)"@,
    ]
}

/// Records `v` as the only ledger row.
pub open spec fn set_ledger_sql(v: i64) -> Seq<Seq<char>> {
    seq![
        "CREATE TABLE IF NOT EXISTS migrations (version INTEGER PRIMARY KEY)"@,
        "DELETE FROM migrations"@,
        "INSERT INTO migrations (version) VALUES ("@ + decimal_text(v as int) + ")"@,
    ]
}

/// The statements of a step.
pub open spec fn step_sql(s: Step) -> Seq<Seq<char>> {
    match s {
        Step::CreateSchema => schema_sql(),
        Step::Migrate(n) => if n == 1 {
            migration_one_sql()
        } else if n == 2 {
            migration_two_sql()
        } else {
            Seq::empty()
        },
        Step::SetLedger(v) => set_ledger_sql(v),
    }
}

/// The statements of a plan, step after step.
pub open spec fn plan_sql(plan: Seq<Step>) -> Seq<Seq<char>>
    decreases plan.len(),
{
    if plan.len() == 0 {
        Seq::empty()
    } else {
        plan_sql(plan.drop_last()) + step_sql(plan.last())
    }
}

fn push_str(v: &mut Vec<String>, s: &str)
    ensures
        views(final(v)@) == views(old(v)@).push(s@),
{
    let ghost prev = v@;
    let t = String::from_str(s);
    v.push(t);
    assert(views(v@) =~= views(prev).push(s@));
}

/// The statements of a step.
pub fn step_statements(s: Step) -> (r: Vec<String>)
    ensures
        views(r@) == step_sql(s),
{
    let mut r: Vec<String> = Vec::new();
    match s {
        Step::CreateSchema => {
            push_str(&mut r, "CREATE TABLE IF NOT EXISTS migrations (version INTEGER PRIMARY KEY)");
            push_str(&mut r, "CREATE TABLE IF NOT EXISTS email_config (id INTEGER PRIMARY KEY CHECK (id = 0), smtp_server TEXT NOT NULL, port INTEGER NOT NULL, tls INTEGER NOT NULL, username TEXT NOT NULL, password TEXT NOT NULL, fromname TEXT NOT NULL)");
            push_str(&mut r, "CREATE TABLE IF NOT EXISTS company (id INTEGER PRIMARY KEY AUTOINCREMENT, name TEXT NOT NULL UNIQUE, logo BLOB, phone TEXT, email TEXT, addr1 TEXT, addr2 TEXT, city TEXT, state TEXT, zip TEXT)");
            push_str(&mut r, "CREATE TABLE IF NOT EXISTS client (id INTEGER PRIMARY KEY AUTOINCREMENT, name TEXT NOT NULL UNIQUE, phone TEXT, email TEXT, addr1 TEXT, addr2 TEXT, city TEXT, state TEXT, zip TEXT)");
            push_str(&mut r, "CREATE TABLE IF NOT EXISTS items (id INTEGER PRIMARY KEY AUTOINCREMENT, name TEXT NOT NULL UNIQUE, rate INTEGER)");
            push_str(&mut r, "CREATE TABLE IF NOT EXISTS terms (id INTEGER PRIMARY KEY AUTOINCREMENT, name TEXT NOT NULL UNIQUE, due INTEGER NOT NULL UNIQUE)");
            push_str(&mut r, "CREATE TABLE IF NOT EXISTS methods (id INTEGER PRIMARY KEY AUTOINCREMENT, name NOT NULL UNIQUE, link TEXT, qr BLOB)");
            push_str(&mut r, "CREATE TABLE IF NOT EXISTS templates (id INTEGER PRIMARY KEY AUTOINCREMENT, name TEXT NOT NULL, company_id INTEGER NOT NULL, client_id INTEGER NOT NULL, terms_id INTEGER NOT NULL, methods_json TEXT NOT NULL, FOREIGN KEY (company_id) REFERENCES company (id) ON DELETE NO ACTION ON UPDATE NO ACTION, FOREIGN KEY (client_id) REFERENCES client (id) ON DELETE NO ACTION ON UPDATE NO ACTION, FOREIGN KEY (terms_id) REFERENCES terms (id) ON DELETE NO ACTION ON UPDATE NO ACTION)");
            push_str(&mut r, "CREATE TABLE IF NOT EXISTS invoices (id INTEGER PRIMARY KEY AUTOINCREMENT, template_id INTEGER NOT NULL, date TEXT NOT NULL, show_methods INTEGER NOT NULL, show_notes INTEGER NOT NULL, stage TEXT NOT NULL, status TEXT NOT NULL, status_date TEXT, status_check TEXT, notes TEXT, items_json TEXT NOT NULL, FOREIGN KEY (template_id) REFERENCES templates (id) ON DELETE NO ACTION ON UPDATE NO ACTION)");
        },
        Step::Migrate(n) => {
            if n == 1 {
                push_str(&mut r, "CREATE TABLE IF NOT EXISTS invoice_backup AS SELECT id, template_id, date, items_json FROM invoices");
                push_str(&mut r, "DROP TABLE IF EXISTS invoices");
                push_str(&mut r, "CREATE TABLE IF NOT EXISTS invoices (id INTEGER PRIMARY KEY AUTOINCREMENT, template_id INTEGER NOT NULL, date TEXT NOT NULL, show_methods INTEGER NOT NULL, show_notes INTEGER NOT NULL, stage TEXT NOT NULL, status TEXT NOT NULL, status_date TEXT, status_check TEXT, notes TEXT, items_json TEXT NOT NULL, FOREIGN KEY (template_id) REFERENCES templates (id) ON DELETE NO ACTION ON UPDATE NO ACTION)");
                push_str(&mut r, "INSERT INTO invoices (id, template_id, date, show_methods, show_notes, stage, status, status_date, status_check, notes, items_json) SELECT id, template_id, date, 1, 0, 'Invoice', 'Waiting', NULL, NULL, NULL, items_json FROM invoice_backup");
                push_str(&mut r, "DROP TABLE IF EXISTS invoice_backup");
            } else if n == 2 {
                push_str(&mut r, "CREATE TABLE IF NOT EXISTS email_config (id INTEGER PRIMARY KEY CHECK (id = 0), smtp_server TEXT NOT NULL, port INTEGER NOT NULL, tls INTEGER NOT NULL, username TEXT NOT NULL, password TEXT NOT NULL, fromname TEXT NOT NULL)");
            }
        },
        Step::SetLedger(v) => {
            push_str(&mut r, "CREATE TABLE IF NOT EXISTS migrations (version INTEGER PRIMARY KEY)");
            push_str(&mut r, "DELETE FROM migrations");
            let mut ins = String::from_str("INSERT INTO migrations (version) VALUES (");
            ins.append(int_text(v).as_str());
            ins.append(")");
            let ghost prev = r@;
            r.push(ins);
            assert(views(r@) =~= views(prev).push(ins@));
        },
    }
    assert(views(r@) =~= step_sql(s));
    r
}

/// The statements of a plan, to run in one transaction.
pub fn plan_statements(plan: &Vec<Step>) -> (r: Vec<String>)
    ensures
        views(r@) == plan_sql(plan@),
{
    let mut r: Vec<String> = Vec::new();
    let mut i: usize = 0;
    while i < plan.len()
        invariant
            i <= plan.len(),
            views(r@) == plan_sql(plan@.subrange(0, i as int)),
        decreases plan.len() - i,
    {
        let ghost prev = r@;
        let mut more = step_statements(plan[i]);
        let ghost added = more@;
        r.append(&mut more);
        proof {
            assert(plan@.subrange(0, i as int + 1).drop_last() =~= plan@.subrange(0, i as int));
            assert(views(r@) =~= views(prev) + views(added));
        }
        i = i + 1;
    }
    assert(plan@.subrange(0, plan@.len() as int) =~= plan@);
    r
}

} // verus!
