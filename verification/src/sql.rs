//! Language-neutral reference model of the frozen `sigil:sql/driver@0.1.0`.
use vstd::prelude::*;

use crate::text::copy_text;

verus! {

/// The endpoint and secret names of one session.
#[derive(Clone, Debug, PartialEq, Eq)]
pub struct ConnectOptions {
    pub endpoint: String,
    pub username_secret: String,
    pub password_secret: String,
    pub database: Option<String>,
}

/// Failure classes of the 0.1 driver contract.
#[derive(Clone, Copy, Debug, PartialEq, Eq, Structural)]
pub enum ErrorClass {
    Authentication,
    Server,
    Transport,
    Protocol,
    Encoding,
    Limit,
    Timeout,
    Closed,
    Unsupported,
}

/// One driver failure.
#[derive(Clone, Debug, PartialEq, Eq)]
pub struct Error {
    pub class: ErrorClass,
    pub vendor_code: Option<u32>,
    pub sqlstate: Option<String>,
    pub message: String,
}

/// A 0.1 cell: null, text, or bytes.
#[derive(Clone, Debug, PartialEq, Eq)]
pub enum Cell {
    Null,
    Text(String),
    Bytes(Vec<u8>),
}

#[derive(Clone, Debug, PartialEq, Eq)]
pub struct Column {
    pub catalog: String,
    pub schema: String,
    pub table: String,
    pub original_table: String,
    pub name: String,
    pub original_name: String,
    pub vendor_type: u32,
    pub charset: u32,
    pub collation: u32,
    pub flags: u32,
}

#[derive(Clone, Debug, PartialEq, Eq)]
pub struct Row {
    pub cells: Vec<Cell>,
}

#[derive(Clone, Debug, PartialEq, Eq)]
pub struct RowSet {
    pub columns: Vec<Column>,
    pub rows: Vec<Row>,
}

/// The combined 0.1 result: a row set or a command's affected-row count.
#[derive(Clone, Debug, PartialEq, Eq)]
pub enum QueryResult {
    Rows(RowSet),
    Command { affected_rows: u64 },
}

pub enum CellView {
    Null,
    Text(Seq<char>),
    Bytes(Seq<u8>),
}

pub struct ColumnView {
    pub catalog: Seq<char>,
    pub schema: Seq<char>,
    pub table: Seq<char>,
    pub original_table: Seq<char>,
    pub name: Seq<char>,
    pub original_name: Seq<char>,
    pub vendor_type: u32,
    pub charset: u32,
    pub collation: u32,
    pub flags: u32,
}

pub struct RowSetView {
    pub columns: Seq<ColumnView>,
    pub rows: Seq<Seq<CellView>>,
}

pub enum QueryResultView {
    Rows(RowSetView),
    Command { affected_rows: u64 },
}

pub struct ErrorView {
    pub class: ErrorClass,
    pub vendor_code: Option<u32>,
    pub sqlstate: Option<Seq<char>>,
    pub message: Seq<char>,
}

impl View for Cell {
    type V = CellView;

    open spec fn view(&self) -> CellView {
        match self {
            Cell::Null => CellView::Null,
            Cell::Text(v) => CellView::Text(v@),
            Cell::Bytes(v) => CellView::Bytes(v@),
        }
    }
}

impl View for Column {
    type V = ColumnView;

    open spec fn view(&self) -> ColumnView {
        ColumnView {
            catalog: self.catalog@,
            schema: self.schema@,
            table: self.table@,
            original_table: self.original_table@,
            name: self.name@,
            original_name: self.original_name@,
            vendor_type: self.vendor_type,
            charset: self.charset,
            collation: self.collation,
            flags: self.flags,
        }
    }
}

impl View for Row {
    type V = Seq<CellView>;

    open spec fn view(&self) -> Seq<CellView> {
        self.cells@.map_values(|c: Cell| c@)
    }
}

impl View for RowSet {
    type V = RowSetView;

    open spec fn view(&self) -> RowSetView {
        RowSetView {
            columns: self.columns@.map_values(|c: Column| c@),
            rows: self.rows@.map_values(|r: Row| r@),
        }
    }
}

impl View for QueryResult {
    type V = QueryResultView;

    open spec fn view(&self) -> QueryResultView {
        match self {
            QueryResult::Rows(rows) => QueryResultView::Rows(rows@),
            QueryResult::Command { affected_rows } => QueryResultView::Command {
                affected_rows: *affected_rows,
            },
        }
    }
}

pub open spec fn text_view(text: Option<String>) -> Option<Seq<char>> {
    match text {
        Some(t) => Some(t@),
        None => None,
    }
}

impl View for Error {
    type V = ErrorView;

    open spec fn view(&self) -> ErrorView {
        ErrorView {
            class: self.class,
            vendor_code: self.vendor_code,
            sqlstate: text_view(self.sqlstate),
            message: self.message@,
        }
    }
}

/// An error view that names its class and carries no vendor data.
pub open spec fn plain_error_view(class: ErrorClass, message: Seq<char>) -> ErrorView {
    ErrorView { class, vendor_code: None, sqlstate: None, message }
}

/// Minimal host-independent driver contract used by the conformance kit.
pub trait Driver {
    type Connection: Connection;

    fn connect(&self, options: ConnectOptions) -> Result<Self::Connection, Error>;
}

pub trait Connection {
    fn query(&mut self, sql: &str) -> Result<QueryResult, Error>;

    fn close(&mut self);
}

/// The total after adding `increment` to `current` under an inclusive
/// `maximum`, or `None` when it would pass the maximum.
pub open spec fn accumulate(current: int, increment: int, maximum: int) -> Option<int> {
    if current + increment <= maximum {
        Some(current + increment)
    } else {
        None
    }
}

/// Checked inclusive accumulation used by every published SQL limit: the new
/// total when it stays within `maximum`, `limit` otherwise, overflow included.
pub fn checked_accumulate(current: usize, increment: usize, maximum: usize) -> (r: Result<
    usize,
    ErrorClass,
>)
    ensures
        match accumulate(current as int, increment as int, maximum as int) {
            Some(total) => r == Ok::<usize, ErrorClass>(total as usize),
            None => r == Err::<usize, ErrorClass>(ErrorClass::Limit),
        },
{
    match current.checked_add(increment) {
        Some(value) => if value <= maximum {
            Ok(value)
        } else {
            Err(ErrorClass::Limit)
        },
        None => Err(ErrorClass::Limit),
    }
}

/// Accumulating two increments one after the other under the same maximum
/// succeeds exactly when accumulating their sum at once does, with the same
/// total: a limit is a budget that no split of the work can exceed.
pub proof fn law_accumulate_in_steps(current: int, a: int, b: int, maximum: int)
    requires
        0 <= a,
        0 <= b,
    ensures
        match accumulate(current, a, maximum) {
            Some(total) => accumulate(total, b, maximum) == accumulate(current, a + b, maximum),
            None => accumulate(current, a + b, maximum) is None,
        },
{
}

/// Accumulation adds the increment when the sum stays within the maximum,
/// reaching it included, and refuses otherwise.
pub proof fn law_accumulate_is_inclusive(current: int, increment: int, maximum: int)
    ensures
        current + increment <= maximum ==> accumulate(current, increment, maximum) == Some(
            current + increment,
        ),
        current + increment > maximum ==> accumulate(current, increment, maximum) is None,
        accumulate(maximum - increment, increment, maximum) == Some(maximum),
{
}

/// A total within the maximum stays within it when the maximum grows.
pub proof fn law_accumulate_monotone_in_maximum(current: int, increment: int, low: int, high: int)
    requires
        low <= high,
        accumulate(current, increment, low) is Some,
    ensures
        accumulate(current, increment, high) == accumulate(current, increment, low),
{
}

/// An error that names its class and carries no vendor data.
pub(crate) fn error(class: ErrorClass, message: &str) -> (e: Error)
    ensures
        e@ == plain_error_view(class, message@),
{
    Error { class, vendor_code: None, sqlstate: None, message: message.to_owned() }
}

fn copy_cell(cell: &Cell) -> (r: Cell)
    ensures
        r@ == cell@,
{
    match cell {
        Cell::Null => Cell::Null,
        Cell::Text(v) => Cell::Text(copy_text(v)),
        Cell::Bytes(v) => Cell::Bytes(vstd::slice::slice_to_vec(v.as_slice())),
    }
}

fn copy_column(column: &Column) -> (r: Column)
    ensures
        r@ == column@,
{
    Column {
        catalog: copy_text(&column.catalog),
        schema: copy_text(&column.schema),
        table: copy_text(&column.table),
        original_table: copy_text(&column.original_table),
        name: copy_text(&column.name),
        original_name: copy_text(&column.original_name),
        vendor_type: column.vendor_type,
        charset: column.charset,
        collation: column.collation,
        flags: column.flags,
    }
}

fn copy_row(row: &Row) -> (r: Row)
    ensures
        r@ == row@,
{
    let mut cells: Vec<Cell> = Vec::new();
    let n = row.cells.len();
    let mut i: usize = 0;
    while i < n
        invariant
            n == row.cells@.len(),
            i <= n,
            cells@.len() == i,
            forall|k: int| 0 <= k < i ==> #[trigger] cells@[k]@ == row.cells@[k]@,
        decreases n - i,
    {
        cells.push(copy_cell(&row.cells[i]));
        i = i + 1;
    }
    let out = Row { cells };
    assert(out@ =~= row@);
    out
}

fn copy_result(result: &QueryResult) -> (r: QueryResult)
    ensures
        r@ == result@,
{
    match result {
        QueryResult::Command { affected_rows } => QueryResult::Command {
            affected_rows: *affected_rows,
        },
        QueryResult::Rows(row_set) => {
            let mut columns: Vec<Column> = Vec::new();
            let n = row_set.columns.len();
            let mut i: usize = 0;
            while i < n
                invariant
                    n == row_set.columns@.len(),
                    i <= n,
                    columns@.len() == i,
                    forall|k: int| 0 <= k < i ==> #[trigger] columns@[k]@ == row_set.columns@[k]@,
                decreases n - i,
            {
                columns.push(copy_column(&row_set.columns[i]));
                i = i + 1;
            }
            let mut rows: Vec<Row> = Vec::new();
            let m = row_set.rows.len();
            let mut j: usize = 0;
            while j < m
                invariant
                    m == row_set.rows@.len(),
                    j <= m,
                    rows@.len() == j,
                    forall|k: int| 0 <= k < j ==> #[trigger] rows@[k]@ == row_set.rows@[k]@,
                decreases m - j,
            {
                rows.push(copy_row(&row_set.rows[j]));
                j = j + 1;
            }
            let out = RowSet { columns, rows };
            assert(out@.columns =~= row_set@.columns);
            assert(out@.rows =~= row_set@.rows);
            QueryResult::Rows(out)
        },
    }
}

/// Host-independent deterministic mock for binding and lifecycle tests: every
/// session answers every statement with the same result.
#[derive(Clone, Debug)]
pub struct MockDriver {
    result: QueryResult,
}

impl MockDriver {
    /// The result every session of this driver answers.
    pub closed spec fn spec_result(&self) -> QueryResultView {
        self.result@
    }

    pub fn new(result: QueryResult) -> (d: Self)
        ensures
            d.spec_result() == result@,
    {
        MockDriver { result }
    }
}

/// One mock session.
#[derive(Clone, Debug)]
pub struct MockConnection {
    result: QueryResult,
    closed: bool,
}

impl MockConnection {
    pub closed spec fn spec_result(&self) -> QueryResultView {
        self.result@
    }

    pub closed spec fn is_closed(&self) -> bool {
        self.closed
    }
}

impl Driver for MockDriver {
    type Connection = MockConnection;

    fn connect(&self, options: ConnectOptions) -> (r: Result<MockConnection, Error>)
        ensures
            r matches Ok(c) && c.spec_result() == self.spec_result() && !c.is_closed(),
    {
        Ok(MockConnection { result: copy_result(&self.result), closed: false })
    }
}

impl Connection for MockConnection {
    /// The configured result on an open session, `closed` after close.
    fn query(&mut self, sql: &str) -> (r: Result<QueryResult, Error>)
        ensures
            final(self).spec_result() == old(self).spec_result(),
            final(self).is_closed() == old(self).is_closed(),
            old(self).is_closed() ==> (r matches Err(e) && e@ == plain_error_view(
                ErrorClass::Closed,
                "connection is closed"@,
            )),
            !old(self).is_closed() ==> (r matches Ok(v) && v@ == old(self).spec_result()),
    {
        if self.closed {
            return Err(error(ErrorClass::Closed, "connection is closed"));
        }
        Ok(copy_result(&self.result))
    }

    /// Idempotent close.
    fn close(&mut self)
        ensures
            final(self).is_closed(),
            final(self).spec_result() == old(self).spec_result(),
    {
        self.closed = true;
    }
}

} // verus!
