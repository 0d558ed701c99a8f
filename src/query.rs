use vstd::prelude::*;
use vstd::string::*;

use crate::error::Error;
use crate::task::{is_empty_patch, status_or_open, status_text, PatchView, TaskPatch, TaskStatus};

verus! {

/// A value bound to a `?` of a statement.
#[derive(Debug)]
pub enum Bind {
    Text(String),
    Int(i64),
}

pub ghost enum BindView {
    Text(Seq<char>),
    Int(i64),
}

impl View for Bind {
    type V = BindView;

    open spec fn view(&self) -> BindView {
        match self {
            Bind::Text(t) => BindView::Text(t@),
            Bind::Int(i) => BindView::Int(*i),
        }
    }
}

/// An SQL statement and the values for its `?` placeholders, in order.
#[derive(Debug)]
pub struct Statement {
    pub sql: String,
    pub binds: Vec<Bind>,
}

pub ghost struct StatementView {
    pub sql: Seq<char>,
    pub binds: Seq<BindView>,
}

impl View for Statement {
    type V = StatementView;

    open spec fn view(&self) -> StatementView {
        StatementView { sql: self.sql@, binds: self.binds@.map_values(|b: Bind| b@) }
    }
}

pub open spec fn schema_sql() -> Seq<char> {
    "CREATE TABLE IF NOT EXISTS tasks (id INTEGER NOT NULL PRIMARY KEY AUTOINCREMENT, name TEXT NOT NULL, status VARCHAR(5) NOT NULL DEFAULT 'open', creation_time INTEGER NOT NULL)"@
}

pub open spec fn insert_sql() -> Seq<char> {
    "INSERT INTO tasks (name, status, creation_time) VALUES (?, ?, ?) RETURNING id, name, status, creation_time"@
}

pub open spec fn get_sql() -> Seq<char> {
    "SELECT id, name, status, creation_time FROM tasks WHERE id = ?"@
}

pub open spec fn delete_sql() -> Seq<char> {
    "DELETE FROM tasks WHERE id = ?"@
}

pub open spec fn list_sql() -> Seq<char> {
    "SELECT id, name, status, creation_time FROM tasks ORDER BY id"@
}

/// The assignments of an update: one for each field the patch names.
pub open spec fn set_list(p: PatchView) -> Seq<char> {
    if p.name is Some && p.status is Some {
        "name = ?"@ + ", "@ + "status = ?"@
    } else if p.name is Some {
        "name = ?"@
    } else if p.status is Some {
        "status = ?"@
    } else {
        Seq::empty()
    }
}

pub open spec fn update_sql(p: PatchView) -> Seq<char> {
    "UPDATE tasks SET "@ + set_list(p) + " WHERE id = ? RETURNING id, name, status, creation_time"@
}

/// The values of an update's assignments, in the order of `set_list`.
pub open spec fn patch_binds(p: PatchView) -> Seq<BindView> {
    let names = match p.name {
        Some(n) => seq![BindView::Text(n)],
        None => Seq::empty(),
    };
    let statuses = match p.status {
        Some(s) => seq![BindView::Text(status_text(s))],
        None => Seq::empty(),
    };
    names + statuses
}

fn status_bind(s: TaskStatus) -> (r: Bind)
    ensures
        r@ == BindView::Text(status_text(s)),
{
    Bind::Text(String::from_str(s.as_str()))
}

/// The statement that creates the task table if it is missing; running it twice
/// changes nothing.
pub fn schema_statement() -> (r: Statement)
    ensures
        r@.sql == schema_sql(),
        r@.binds == Seq::<BindView>::empty(),
{
    let r = Statement {
        sql: String::from_str(
            "CREATE TABLE IF NOT EXISTS tasks (id INTEGER NOT NULL PRIMARY KEY AUTOINCREMENT, name TEXT NOT NULL, status VARCHAR(5) NOT NULL DEFAULT 'open', creation_time INTEGER NOT NULL)",
        ),
        binds: Vec::new(),
    };
    assert(r@.binds =~= Seq::<BindView>::empty());
    r
}

/// The statement that inserts a task from `data` at time `creation_time` and
/// returns the stored row. A patch without a name is refused.
pub fn insert_statement(data: &TaskPatch, creation_time: i64) -> (r: Result<Statement, Error>)
    ensures
        r is Ok <==> data@.name is Some,
        r matches Ok(st) ==> st@.sql == insert_sql() && st@.binds == seq![
            BindView::Text(data@.name->Some_0),
            BindView::Text(status_text(status_or_open(data@.status))),
            BindView::Int(creation_time),
        ],
        r matches Err(e) ==> e == Error::MissingName,
{
    let name = match &data.name {
        Some(n) => n.clone(),
        None => {
            return Err(Error::MissingName);
        },
    };
    let status = match data.status {
        Some(s) => s,
        None => TaskStatus::Open,
    };
    let mut binds: Vec<Bind> = Vec::new();
    binds.push(Bind::Text(name));
    binds.push(status_bind(status));
    binds.push(Bind::Int(creation_time));
    let st = Statement {
        sql: String::from_str(
            "INSERT INTO tasks (name, status, creation_time) VALUES (?, ?, ?) RETURNING id, name, status, creation_time",
        ),
        binds,
    };
    assert(st@.binds =~= seq![
        BindView::Text(data@.name->Some_0),
        BindView::Text(status_text(status)),
        BindView::Int(creation_time),
    ]);
    Ok(st)
}

fn id_statement(sql: &str, id: i64) -> (r: Statement)
    ensures
        r@.sql == sql@,
        r@.binds == seq![BindView::Int(id)],
{
    let mut binds: Vec<Bind> = Vec::new();
    binds.push(Bind::Int(id));
    let r = Statement { sql: sql.to_owned(), binds };
    assert(r@.binds =~= seq![BindView::Int(id)]);
    r
}

/// The statement that reads the task with id `id`.
pub fn get_statement(id: i64) -> (r: Statement)
    ensures
        r@.sql == get_sql(),
        r@.binds == seq![BindView::Int(id)],
{
    id_statement("SELECT id, name, status, creation_time FROM tasks WHERE id = ?", id)
}

/// The statement that removes the task with id `id`, if there is one.
pub fn delete_statement(id: i64) -> (r: Statement)
    ensures
        r@.sql == delete_sql(),
        r@.binds == seq![BindView::Int(id)],
{
    id_statement("DELETE FROM tasks WHERE id = ?", id)
}

/// The statement that reads every task in ascending id order.
pub fn list_statement() -> (r: Statement)
    ensures
        r@.sql == list_sql(),
        r@.binds == Seq::<BindView>::empty(),
{
    let r = Statement {
        sql: String::from_str("SELECT id, name, status, creation_time FROM tasks ORDER BY id"),
        binds: Vec::new(),
    };
    assert(r@.binds =~= Seq::<BindView>::empty());
    r
}

/// The statement that writes the fields `data` names on the task with id `id` and
/// returns the stored row; `None` when the patch names nothing, so that no write
/// is needed.
pub fn update_statement(id: i64, data: &TaskPatch) -> (r: Option<Statement>)
    ensures
        r is None <==> is_empty_patch(data@),
        r matches Some(st) ==> st@.sql == update_sql(data@) && st@.binds == patch_binds(data@)
            + seq![BindView::Int(id)],
{
    if data.is_empty() {
        return None;
    }
    let mut sql = String::from_str("UPDATE tasks SET ");
    let mut binds: Vec<Bind> = Vec::new();
    let ghost head = sql@;
    let ghost sets: Seq<char> = Seq::empty();
    if let Some(n) = &data.name {
        sql.append("name = ?");
        binds.push(Bind::Text(n.clone()));
        proof {
            sets = "name = ?"@;
        }
    }
    if let Some(s) = data.status {
        if data.name.is_some() {
            sql.append(", ");
            proof {
                sets = sets + ", "@;
            }
        }
        sql.append("status = ?");
        binds.push(status_bind(s));
        proof {
            sets = sets + "status = ?"@;
        }
    }
    assert(sql@ =~= head + sets);
    assert(sets =~= set_list(data@));
    sql.append(" WHERE id = ? RETURNING id, name, status, creation_time");
    binds.push(Bind::Int(id));
    let st = Statement { sql, binds };
    assert(st@.sql =~= update_sql(data@));
    assert(st@.binds =~= patch_binds(data@) + seq![BindView::Int(id)]);
    Some(st)
}

} // verus!
