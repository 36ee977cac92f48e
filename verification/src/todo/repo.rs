//! The SQL statements sent to the database, with the values bound to them.

use vstd::prelude::*;
use crate::todo::handler::TodoPatch;

verus! {

/// The columns that every statement returning items yields, in order.
pub const COLUMNS: &'static str = "id, title, completed, created_at, updated_at";

/// A value bound to a numbered parameter of a statement.
pub enum Bind {
    BigInt(i64),
    Text(String),
    OptionalText(Option<String>),
    OptionalBool(Option<bool>),
}

/// The view of a bound value.
pub enum BindView {
    BigInt(i64),
    Text(Seq<char>),
    OptionalText(Option<Seq<char>>),
    OptionalBool(Option<bool>),
}

impl View for Bind {
    type V = BindView;

    open spec fn view(&self) -> BindView {
        match self {
            Bind::BigInt(n) => BindView::BigInt(*n),
            Bind::Text(s) => BindView::Text(s@),
            Bind::OptionalText(o) => BindView::OptionalText(
                match o {
                    Some(s) => Some(s@),
                    None => None,
                },
            ),
            Bind::OptionalBool(b) => BindView::OptionalBool(*b),
        }
    }
}

/// A statement: its text, and the values of `$1`, `$2`, ... in order.
pub struct Statement {
    pub sql: String,
    pub binds: Vec<Bind>,
}

impl Statement {
    /// The text of the statement and the views of its bound values.
    pub open spec fn sql_view(&self) -> Seq<char> {
        self.sql@
    }

    pub open spec fn binds_view(&self) -> Seq<BindView> {
        self.binds@.map_values(|b: Bind| b@)
    }
}

/// All items, newest first; items created at the same time by descending id.
pub open spec fn list_sql() -> Seq<char> {
    "SELECT "@ + COLUMNS@ + " FROM todos ORDER BY created_at DESC, id DESC"@
}

/// Inserts an item with the title `$1` and returns it.
pub open spec fn create_sql() -> Seq<char> {
    "INSERT INTO todos (title) VALUES ($1) RETURNING "@ + COLUMNS@
}

/// Sets the title of item `$1` to `$2` and its completion to `$3` where
/// these are not null, stamps it as updated now, and returns it.
pub open spec fn update_sql() -> Seq<char> {
    "UPDATE todos\n            SET title = COALESCE($2, title),\n                completed = COALESCE($3, completed),\n                updated_at = now()\n          WHERE id = $1\n      RETURNING "@
        + COLUMNS@
}

/// Removes item `$1`.
pub open spec fn delete_sql() -> Seq<char> {
    "DELETE FROM todos WHERE id = $1"@
}

/// The statement that lists all items, newest first.
pub fn list() -> (st: Statement)
    ensures
        st.sql_view() == list_sql(),
        st.binds_view() == Seq::<BindView>::empty(),
{
    let mut sql = "SELECT ".to_owned();
    sql.append(COLUMNS);
    sql.append(" FROM todos ORDER BY created_at DESC, id DESC");
    let binds: Vec<Bind> = Vec::new();
    let st = Statement { sql, binds };
    assert(st.binds_view() =~= Seq::<BindView>::empty());
    st
}

/// The statement that creates an item with the given title.
pub fn create(title: &str) -> (st: Statement)
    ensures
        st.sql_view() == create_sql(),
        st.binds_view() == seq![BindView::Text(title@)],
{
    let mut sql = "INSERT INTO todos (title) VALUES ($1) RETURNING ".to_owned();
    sql.append(COLUMNS);
    let mut binds: Vec<Bind> = Vec::new();
    binds.push(Bind::Text(title.to_owned()));
    let st = Statement { sql, binds };
    assert(st.binds_view() =~= seq![BindView::Text(title@)]);
    st
}

/// The statement that applies `patch` to item `id`: a field that the patch
/// leaves out keeps its current value.
pub fn update(id: i64, patch: &TodoPatch) -> (st: Statement)
    ensures
        st.sql_view() == update_sql(),
        st.binds_view() == seq![
            BindView::BigInt(id),
            BindView::OptionalText(patch.title_view()),
            BindView::OptionalBool(patch.completed),
        ],
{
    let mut sql = "UPDATE todos\n            SET title = COALESCE($2, title),\n                completed = COALESCE($3, completed),\n                updated_at = now()\n          WHERE id = $1\n      RETURNING ".to_owned();
    sql.append(COLUMNS);
    let mut binds: Vec<Bind> = Vec::new();
    binds.push(Bind::BigInt(id));
    binds.push(Bind::OptionalText(patch.title.clone()));
    binds.push(Bind::OptionalBool(patch.completed));
    let st = Statement { sql, binds };
    assert(st.binds_view() =~= seq![
        BindView::BigInt(id),
        BindView::OptionalText(patch.title_view()),
        BindView::OptionalBool(patch.completed),
    ]);
    st
}

/// The statement that removes item `id`.
pub fn delete(id: i64) -> (st: Statement)
    ensures
        st.sql_view() == delete_sql(),
        st.binds_view() == seq![BindView::BigInt(id)],
{
    let sql = "DELETE FROM todos WHERE id = $1".to_owned();
    let mut binds: Vec<Bind> = Vec::new();
    binds.push(Bind::BigInt(id));
    let st = Statement { sql, binds };
    assert(st.binds_view() =~= seq![BindView::BigInt(id)]);
    st
}

/// Whether a removal removed anything, from the number of rows it affected.
pub fn delete_succeeded(rows_affected: u64) -> (removed: bool)
    ensures
        removed == (rows_affected > 0),
{
    rows_affected > 0
}

} // verus!
