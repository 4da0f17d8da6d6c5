//! The session core: one live backend handle bound to one profile, the
//! read-only execution pipeline, and the schema metadata caches.
//!
//! The caller owns the actual pool and performs its asynchronous calls; the
//! session decides, through plan and outcome functions, what to ask the
//! backend and what each reply means. Caches are empty until first
//! populated, trusted until invalidated wholesale, and never partially
//! cleared.

use vstd::prelude::*;

use crate::config::{Connection, DatabaseType};
use crate::error::QgoError;
use crate::text::str_eq;

verus! {

/// The per-kind query that enumerates table names.
pub open spec fn spec_table_query(kind: DatabaseType) -> Seq<char> {
    match kind {
        DatabaseType::MySQL => "SHOW TABLES"@,
        DatabaseType::PostgreSQL
            => "SELECT table_name FROM information_schema.tables WHERE table_schema = 'public'"@,
        DatabaseType::SQLite => "SELECT name FROM sqlite_master WHERE type='table'"@,
    }
}

/// The per-kind query that enumerates the columns of `table`. The table
/// name is interpolated directly: callers must pass only names the backend
/// itself reported, never arbitrary user text.
pub open spec fn spec_column_query(kind: DatabaseType, table: Seq<char>) -> Seq<char> {
    match kind {
        DatabaseType::MySQL => "SHOW COLUMNS FROM `"@ + table + "`"@,
        DatabaseType::PostgreSQL
            => "SELECT column_name FROM information_schema.columns WHERE table_name = '"@ + table
            + "' AND table_schema = 'public'"@,
        DatabaseType::SQLite => "PRAGMA table_info("@ + table + ")"@,
    }
}

/// The zero-based cell index that holds the name in one metadata row:
/// SQLite's PRAGMA rows carry it at index 1, every other backend at 0.
pub open spec fn spec_name_index(kind: DatabaseType) -> int {
    if kind == DatabaseType::SQLite {
        1
    } else {
        0
    }
}

/// The query that enumerates table names for `kind`.
pub fn table_query(kind: DatabaseType) -> (r: &'static str)
    ensures
        r@ == spec_table_query(kind),
{
    match kind {
        DatabaseType::MySQL => "SHOW TABLES",
        DatabaseType::PostgreSQL
            => "SELECT table_name FROM information_schema.tables WHERE table_schema = 'public'",
        DatabaseType::SQLite => "SELECT name FROM sqlite_master WHERE type='table'",
    }
}

/// The cell index that holds the name in one metadata row of `kind`.
pub fn name_index(kind: DatabaseType) -> (r: usize)
    ensures
        r == spec_name_index(kind),
{
    if kind == DatabaseType::SQLite {
        1
    } else {
        0
    }
}

/// How one connection attempt ended, as the caller observed it: the pool
/// became ready, the deadline elapsed first, or the backend refused.
pub enum ConnectOutcome {
    Ready,
    TimedOut,
    Failed(String),
}

/// What a table listing must do: answer from the cache, or run the given
/// query against the backend.
pub enum TablesDecision {
    UseCache(Seq<Seq<char>>),
    Query(Seq<char>),
}

/// What a column listing must do: answer from the cache, or run the given
/// query and read names at the given cell index.
pub enum ColumnsDecision {
    UseCache(Seq<Seq<char>>),
    Query(Seq<char>, int),
}

/// The executable form of a `TablesDecision`.
pub enum TablesPlan {
    Cached(Vec<String>),
    Fetch(String),
}

impl View for TablesPlan {
    type V = TablesDecision;

    open spec fn view(&self) -> TablesDecision {
        match self {
            TablesPlan::Cached(v) => TablesDecision::UseCache(v.deep_view()),
            TablesPlan::Fetch(q) => TablesDecision::Query(q@),
        }
    }
}

/// The executable form of a `ColumnsDecision`.
pub enum ColumnsPlan {
    Cached(Vec<String>),
    Fetch(String, usize),
}

impl View for ColumnsPlan {
    type V = ColumnsDecision;

    open spec fn view(&self) -> ColumnsDecision {
        match self {
            ColumnsPlan::Cached(v) => ColumnsDecision::UseCache(v.deep_view()),
            ColumnsPlan::Fetch(q, i) => ColumnsDecision::Query(q@, *i as int),
        }
    }
}

/// The first cached column list for `key`, if any; a newer entry for a
/// table stands in front of an older one and shadows it.
spec fn assoc_columns(entries: Seq<(String, Vec<String>)>, key: Seq<char>) -> Option<Seq<Seq<char>>>
    decreases entries.len(),
{
    if entries.len() == 0 {
        None
    } else if entries[0].0@ == key {
        Some(entries[0].1.deep_view())
    } else {
        assoc_columns(entries.drop_first(), key)
    }
}

/// Copies a list of names.
fn clone_string_vec(v: &Vec<String>) -> (r: Vec<String>)
    ensures
        r@ == v@,
{
    let mut r: Vec<String> = Vec::new();
    let n = v.len();
    let mut i: usize = 0;
    while i < n
        invariant
            0 <= i <= n,
            n == v@.len(),
            r@ =~= v@.subrange(0, i as int),
        decreases n - i,
    {
        r.push(v[i].clone());
        i = i + 1;
    }
    proof {
        assert(v@.subrange(0, n as int) =~= v@);
    }
    r
}

/// A live, connected handle bound to one profile, with its metadata caches.
pub struct Session {
    connection: Connection,
    tables_cache: Option<Vec<String>>,
    columns_cache: Vec<(String, Vec<String>)>,
}

impl Session {
    /// The profile this session was opened with.
    pub closed spec fn profile(&self) -> Connection {
        self.connection
    }

    /// The cached table names, if a listing has populated them.
    pub closed spec fn tables_view(&self) -> Option<Seq<Seq<char>>> {
        match self.tables_cache {
            Some(v) => Some(v.deep_view()),
            None => None,
        }
    }

    /// The cached column names of `table`, if a listing has populated them.
    pub closed spec fn columns_view(&self, table: Seq<char>) -> Option<Seq<Seq<char>>> {
        assoc_columns(self.columns_cache@, table)
    }

    /// What the next table listing will do.
    pub open spec fn tables_decision(&self) -> TablesDecision {
        match self.tables_view() {
            Some(ts) => TablesDecision::UseCache(ts),
            None => TablesDecision::Query(spec_table_query(self.profile().db_type)),
        }
    }

    /// What the next column listing for `table` will do.
    pub open spec fn columns_decision(&self, table: Seq<char>) -> ColumnsDecision {
        match self.columns_view(table) {
            Some(cs) => ColumnsDecision::UseCache(cs),
            None => ColumnsDecision::Query(
                spec_column_query(self.profile().db_type, table),
                spec_name_index(self.profile().db_type),
            ),
        }
    }

    /// Turns the outcome of the caller's pool-opening attempt, bounded by
    /// its timeout, into a live session with empty caches or into the
    /// connect error the outcome dictates.
    pub fn connect(connection: Connection, outcome: ConnectOutcome) -> (r: Result<Session, QgoError>)
        ensures
            match outcome {
                ConnectOutcome::Ready => r matches Ok(s) && s.profile() == connection
                    && s.tables_view() is None && forall|t: Seq<char>| s.columns_view(t) is None,
                ConnectOutcome::TimedOut => r == Err::<Session, QgoError>(QgoError::ConnectTimeout),
                ConnectOutcome::Failed(cause) => r matches Err(e) && e matches
                    QgoError::ConnectionFailed(c) && c == cause,
            },
    {
        match outcome {
            ConnectOutcome::Ready => {
                let s = Session { connection, tables_cache: None, columns_cache: Vec::new() };
                Ok(s)
            },
            ConnectOutcome::TimedOut => Err(QgoError::ConnectTimeout),
            ConnectOutcome::Failed(cause) => Err(QgoError::ConnectionFailed(cause)),
        }
    }

    /// Judges an ephemeral connection probe: the caller opens a pool,
    /// acquires one connection, closes everything, and reports how far it
    /// got; no session outlives the probe.
    pub fn test_connection(outcome: ConnectOutcome) -> (r: Result<(), QgoError>)
        ensures
            match outcome {
                ConnectOutcome::Ready => r is Ok,
                ConnectOutcome::TimedOut => r == Err::<(), QgoError>(QgoError::ConnectTimeout),
                ConnectOutcome::Failed(cause) => r matches Err(e) && e matches
                    QgoError::ConnectionFailed(c) && c == cause,
            },
    {
        match outcome {
            ConnectOutcome::Ready => Ok(()),
            ConnectOutcome::TimedOut => Err(QgoError::ConnectTimeout),
            ConnectOutcome::Failed(cause) => Err(QgoError::ConnectionFailed(cause)),
        }
    }

    /// The profile this session was opened with.
    pub fn get_connection(&self) -> (r: &Connection)
        ensures
            *r == self.profile(),
    {
        &self.connection
    }

    /// What the next table listing must do: reuse the cached names, or run
    /// the dialect's table query.
    pub fn list_tables_plan(&self) -> (r: TablesPlan)
        ensures
            r@ == self.tables_decision(),
    {
        match &self.tables_cache {
            Some(v) => {
                let copy = clone_string_vec(v);
                proof {
                    assert(copy.deep_view() =~= v.deep_view());
                }
                TablesPlan::Cached(copy)
            },
            None => TablesPlan::Fetch(String::from_str(table_query(self.connection.db_type))),
        }
    }

    /// Stores the table names a backend fetch returned; the column caches
    /// are untouched.
    pub fn store_tables(&mut self, tables: Vec<String>)
        ensures
            final (self).tables_view() == Some(tables.deep_view()),
            forall|t: Seq<char>| final (self).columns_view(t) == old(self).columns_view(t),
            final (self).profile() == old(self).profile(),
    {
        self.tables_cache = Some(tables);
    }

    /// What the next column listing for `table` must do: reuse the cached
    /// names, or run the dialect's column query and read names at the
    /// dialect's cell index. The table name is interpolated directly into
    /// the query: pass only names the backend itself reported.
    pub fn list_columns_plan(&self, table: &str) -> (r: ColumnsPlan)
        ensures
            r@ == self.columns_decision(table@),
    {
        let n = self.columns_cache.len();
        let mut i: usize = 0;
        proof {
            assert(self.columns_cache@.subrange(0, n as int) =~= self.columns_cache@);
        }
        while i < n
            invariant
                0 <= i <= n,
                n == self.columns_cache@.len(),
                assoc_columns(self.columns_cache@, table@) == assoc_columns(
                    self.columns_cache@.subrange(i as int, n as int),
                    table@,
                ),
            decreases n - i,
        {
            let ghost suffix = self.columns_cache@.subrange(i as int, n as int);
            proof {
                assert(suffix[0] == self.columns_cache@[i as int]);
                assert(suffix.drop_first() =~= self.columns_cache@.subrange(i + 1, n as int));
            }
            let entry = &self.columns_cache[i];
            if str_eq(entry.0.as_str(), table) {
                let copy = clone_string_vec(&entry.1);
                proof {
                    assert(copy.deep_view() =~= entry.1.deep_view());
                }
                return ColumnsPlan::Cached(copy);
            }
            i = i + 1;
        }
        proof {
            assert(self.columns_cache@.subrange(n as int, n as int) =~= Seq::<
                (String, Vec<String>),
            >::empty());
        }
        let kind = self.connection.db_type;
        let q = match kind {
            DatabaseType::MySQL => {
                let mut s = String::from_str("SHOW COLUMNS FROM `");
                s.append(table);
                s.append("`");
                s
            },
            DatabaseType::PostgreSQL => {
                let mut s = String::from_str(
                    "SELECT column_name FROM information_schema.columns WHERE table_name = '",
                );
                s.append(table);
                s.append("' AND table_schema = 'public'");
                s
            },
            DatabaseType::SQLite => {
                let mut s = String::from_str("PRAGMA table_info(");
                s.append(table);
                s.append(")");
                s
            },
        };
        ColumnsPlan::Fetch(q, name_index(kind))
    }

    /// Stores the column names a backend fetch returned for `table`,
    /// leaving every other table's cached columns and the table cache
    /// unchanged.
    pub fn store_columns(&mut self, table: &str, cols: Vec<String>)
        ensures
            final (self).columns_view(table@) == Some(cols.deep_view()),
            forall|t: Seq<char>|
                t != table@ ==> final (self).columns_view(t) == old(self).columns_view(t),
            final (self).tables_view() == old(self).tables_view(),
            final (self).profile() == old(self).profile(),
    {
        let ghost orig = self.columns_cache@;
        let key = table.to_owned();
        self.columns_cache.insert(0, (key, cols));
        proof {
            assert(self.columns_cache@.drop_first() =~= orig);
        }
    }

    /// Clears both caches unconditionally; the next listing of tables or of
    /// any table's columns goes to the backend afresh.
    pub fn invalidate_cache(&mut self)
        ensures
            final (self).tables_view() is None,
            forall|t: Seq<char>| final (self).columns_view(t) is None,
            final (self).profile() == old(self).profile(),
    {
        self.tables_cache = None;
        self.columns_cache.clear();
    }
}

/// Listing tables twice with no invalidation between the calls makes
/// exactly one backend query: the first call on an unpopulated session must
/// query the backend, and once it has stored the fetched names, the second
/// call is answered from the cache with those same names.
pub proof fn lemma_list_tables_idempotent(s0: Session, s1: Session, fetched: Seq<Seq<char>>)
    requires
        s0.tables_view() is None,
        s1.profile() == s0.profile(),
        s1.tables_view() == Some(fetched),
    ensures
        s0.tables_decision() == TablesDecision::Query(spec_table_query(s0.profile().db_type)),
        s1.tables_decision() == TablesDecision::UseCache(fetched),
{
}

/// After an invalidation, which empties both caches, the next table listing
/// and the next column listing of any table go back to the backend.
pub proof fn lemma_invalidate_forces_fresh_fetch(s: Session, table: Seq<char>)
    requires
        s.tables_view() is None,
        forall|t: Seq<char>| s.columns_view(t) is None,
    ensures
        s.tables_decision() == TablesDecision::Query(spec_table_query(s.profile().db_type)),
        s.columns_decision(table) == ColumnsDecision::Query(
            spec_column_query(s.profile().db_type, table),
            spec_name_index(s.profile().db_type),
        ),
{
}

/// The names a metadata fetch yields: the cell at `idx` of each row that
/// has one, in row order; rows without a value there are skipped.
pub open spec fn spec_extract_names(rows: Seq<Seq<Option<Seq<char>>>>, idx: int) -> Seq<Seq<char>>
    decreases rows.len(),
{
    if rows.len() == 0 {
        Seq::empty()
    } else {
        let prefix = spec_extract_names(rows.drop_last(), idx);
        let last = rows.last();
        if 0 <= idx < last.len() && last[idx] is Some {
            prefix.push(last[idx]->0)
        } else {
            prefix
        }
    }
}

/// Reads the table or column names out of fetched metadata rows, taking the
/// cell at `name_index` of each row that has one.
pub fn extract_names(rows: &Vec<Vec<Option<String>>>, name_index: usize) -> (r: Vec<String>)
    ensures
        r.deep_view() == spec_extract_names(rows.deep_view(), name_index as int),
{
    let mut out: Vec<String> = Vec::new();
    let n = rows.len();
    let mut i: usize = 0;
    while i < n
        invariant
            0 <= i <= n,
            n == rows@.len(),
            out.deep_view() =~= spec_extract_names(
                rows.deep_view().subrange(0, i as int),
                name_index as int,
            ),
        decreases n - i,
    {
        proof {
            assert(rows.deep_view().subrange(0, i + 1).drop_last() =~= rows.deep_view().subrange(
                0,
                i as int,
            ));
            assert(rows.deep_view().subrange(0, i + 1).last() == rows.deep_view()[i as int]);
            assert(rows.deep_view()[i as int] == rows@[i as int].deep_view());
        }
        let row = &rows[i];
        if name_index < row.len() {
            match &row[name_index] {
                Some(s) => {
                    out.push(s.clone());
                },
                None => {},
            }
        }
        i = i + 1;
    }
    proof {
        assert(rows.deep_view().subrange(0, n as int) =~= rows.deep_view());
    }
    out
}

/// The string a fetched cell is shown as: its text, or the literal `NULL`
/// when the cell was SQL NULL or could not be read as text.
pub open spec fn spec_norm_cell(row: Seq<Option<Seq<char>>>, i: int) -> Seq<char> {
    if 0 <= i < row.len() && row[i] is Some {
        row[i]->0
    } else {
        "NULL"@
    }
}

/// One fetched row normalized to exactly `width` string cells.
pub open spec fn spec_norm_row(row: Seq<Option<Seq<char>>>, width: int) -> Seq<Seq<char>> {
    Seq::new(width as nat, |i: int| spec_norm_cell(row, i))
}

/// The materialized, backend-agnostic output of one query: column names in
/// result order and rows of pre-stringified cells.
pub struct QueryResult {
    pub columns: Vec<String>,
    pub rows: Vec<Vec<String>>,
    pub row_count: usize,
}

impl QueryResult {
    /// Every row is exactly as wide as the column list, and the row count
    /// is the number of rows.
    pub open spec fn wf(&self) -> bool {
        &&& self.row_count == self.rows@.len()
        &&& forall|i: int| 0 <= i < self.rows@.len() ==> #[trigger] self.rows@[i]@.len()
            == self.columns@.len()
    }

    /// The result of a query that produced no rows: no columns are fetched
    /// either, since no row is available to read metadata from.
    pub fn empty() -> (r: QueryResult)
        ensures
            r.columns@.len() == 0,
            r.rows@.len() == 0,
            r.row_count == 0,
            r.wf(),
    {
        QueryResult { columns: Vec::new(), rows: Vec::new(), row_count: 0 }
    }

    /// Normalizes fetched rows against the given column list: cell `i` of
    /// each row becomes its text, or the literal `NULL` where the backend
    /// reported null or the cell could not be read; every row comes out
    /// exactly as wide as the column list.
    pub fn from_raw(columns: Vec<String>, raw: Vec<Vec<Option<String>>>) -> (r: QueryResult)
        ensures
            r.columns == columns,
            r.rows@.len() == raw@.len(),
            r.row_count == raw@.len(),
            forall|j: int|
                0 <= j < raw@.len() ==> #[trigger] r.rows@[j].deep_view() == spec_norm_row(
                    raw.deep_view()[j],
                    columns@.len() as int,
                ),
            r.wf(),
    {
        let width = columns.len();
        let mut rows: Vec<Vec<String>> = Vec::new();
        let n = raw.len();
        let mut j: usize = 0;
        while j < n
            invariant
                0 <= j <= n,
                n == raw@.len(),
                width == columns@.len(),
                rows@.len() == j,
                forall|k: int|
                    0 <= k < j ==> #[trigger] rows@[k].deep_view() == spec_norm_row(
                        raw.deep_view()[k],
                        width as int,
                    ),
                forall|k: int| 0 <= k < j ==> #[trigger] rows@[k]@.len() == width,
            decreases n - j,
        {
            let raw_row = &raw[j];
            let mut row: Vec<String> = Vec::new();
            let mut i: usize = 0;
            while i < width
                invariant
                    0 <= i <= width,
                    row@.len() == i,
                    raw_row == &raw@[j as int],
                    0 <= j < raw@.len(),
                    forall|k: int|
                        0 <= k < i ==> #[trigger] row@[k]@ == spec_norm_cell(
                            raw@[j as int].deep_view(),
                            k,
                        ),
                decreases width - i,
            {
                let cell = if i < raw_row.len() {
                    match &raw_row[i] {
                        Some(s) => s.clone(),
                        None => String::from_str("NULL"),
                    }
                } else {
                    String::from_str("NULL")
                };
                row.push(cell);
                i = i + 1;
            }
            proof {
                assert(raw.deep_view()[j as int] == raw@[j as int].deep_view());
                assert(row.deep_view() =~= spec_norm_row(raw.deep_view()[j as int], width as int));
            }
            rows.push(row);
            j = j + 1;
        }
        QueryResult { columns, rows, row_count: n }
    }

    /// Whether the query produced no rows.
    pub fn is_empty(&self) -> (r: bool)
        ensures
            r == (self.rows@.len() == 0),
    {
        self.rows.len() == 0
    }
}

} // verus!
