//! Provider-neutral reference model of `sigil:sql/driver@0.2.0`: its lossless
//! values, its portable logical-byte accounting, its layered result ceilings
//! and its single-session rules.
use std::cell::RefCell;
use std::collections::VecDeque;
use std::rc::Rc;

use vstd::prelude::*;

use crate::text::{copy_text, text_len, utf8_len};

verus! {

/// Exact nominal interface selected by a SQL 0.2 plugin manifest.
pub const ENTRYPOINT: &'static str = "sigil:sql/driver@0.2.0";

/// Caller-selected additional ceilings and the secret names of one session.
#[derive(Clone, Debug, PartialEq, Eq)]
pub struct ConnectOptions {
    pub endpoint: String,
    pub username_secret: String,
    pub password_secret: String,
    pub database: Option<String>,
    pub max_rows: Option<u32>,
    pub max_result_bytes: Option<u64>,
}

/// Failure classes of the 0.2 driver contract.
#[derive(Clone, Copy, Debug, PartialEq, Eq, Structural)]
pub enum ErrorClass {
    Invalid,
    Authentication,
    Server,
    Transport,
    Protocol,
    Encoding,
    Limit,
    Timeout,
    Closed,
    Unsupported,
}

/// One driver failure. No partial result travels with it.
#[derive(Clone, Debug, PartialEq, Eq)]
pub struct Error {
    pub class: ErrorClass,
    pub vendor_code: Option<u32>,
    pub sqlstate: Option<String>,
    pub message: String,
}

/// The declared type of one positional column.
#[derive(Clone, Copy, Debug, PartialEq, Eq, Structural)]
pub enum ColumnType {
    Null,
    Signed,
    Unsigned,
    Floating,
    Decimal,
    Text,
    Bytes,
    Temporal,
}

/// The kind of date or time value a temporal column carries.
#[derive(Clone, Copy, Debug, PartialEq, Eq, Structural)]
pub enum TemporalType {
    Date,
    Time,
    TimeWithTimeZone,
    Datetime,
    Timestamp,
    TimestampWithTimeZone,
    Interval,
    Year,
    Vendor,
}

/// Exact tagged SQL value. The string arms preserve their server lexeme.
/// `Floating` holds the IEEE 754 binary64 bit pattern of the value, so that
/// negative zero, infinities and NaN payloads pass through unchanged.
///
/// Equality compares those bit patterns, not numbers: `Floating` of `0.0`
/// differs from `Floating` of `-0.0`, and a NaN equals a cell with the same
/// NaN bits. Compare `f64::from_bits` of the two values where numeric
/// equality is wanted.
#[derive(Clone, Debug, PartialEq, Eq)]
pub enum Cell {
    Null,
    Signed(i64),
    Unsigned(u64),
    Floating(u64),
    Decimal(String),
    Text(String),
    Bytes(Vec<u8>),
    Temporal(String),
}

/// Positional column metadata.
#[derive(Clone, Debug, PartialEq, Eq)]
pub struct Column {
    pub catalog: String,
    pub schema: String,
    pub table: String,
    pub original_table: String,
    pub name: String,
    pub original_name: String,
    pub vendor_type: u32,
    pub charset: u32,
    pub collation: u32,
    pub flags: u32,
    pub column_type: ColumnType,
    pub temporal_type: Option<TemporalType>,
}

#[derive(Clone, Debug, PartialEq, Eq)]
pub struct Row {
    pub cells: Vec<Cell>,
}

#[derive(Clone, Debug, PartialEq, Eq)]
pub struct RowSet {
    pub columns: Vec<Column>,
    pub rows: Vec<Row>,
}

#[derive(Clone, Debug, PartialEq, Eq, Structural)]
pub struct CommandResult {
    pub affected_rows: u64,
    pub last_insert_id: Option<u64>,
    pub warnings: u32,
}

/// One layer of result ceilings. `None` means this layer imposes no ceiling.
#[derive(Clone, Copy, Debug, PartialEq, Eq, Structural)]
pub struct ResultLimits {
    pub max_rows: Option<u32>,
    pub max_result_bytes: Option<u64>,
}

// ---------------------------------------------------------------------------
// Mathematical views of the value types.
// ---------------------------------------------------------------------------

/// The value a cell denotes, with its texts and bytes as sequences.
pub enum CellView {
    Null,
    Signed(i64),
    Unsigned(u64),
    Floating(u64),
    Decimal(Seq<char>),
    Text(Seq<char>),
    Bytes(Seq<u8>),
    Temporal(Seq<char>),
}

/// The metadata a column denotes.
pub struct ColumnView {
    pub catalog: Seq<char>,
    pub schema: Seq<char>,
    pub table: Seq<char>,
    pub original_table: Seq<char>,
    pub name: Seq<char>,
    pub original_name: Seq<char>,
    pub vendor_type: u32,
    pub charset: u32,
    pub collation: u32,
    pub flags: u32,
    pub column_type: ColumnType,
    pub temporal_type: Option<TemporalType>,
}

/// A row set as positional columns and rows of positional cells.
pub struct RowSetView {
    pub columns: Seq<ColumnView>,
    pub rows: Seq<Seq<CellView>>,
}

/// An error with its texts as sequences.
pub struct ErrorView {
    pub class: ErrorClass,
    pub vendor_code: Option<u32>,
    pub sqlstate: Option<Seq<char>>,
    pub message: Seq<char>,
}

impl View for Cell {
    type V = CellView;

    open spec fn view(&self) -> CellView {
        match self {
            Cell::Null => CellView::Null,
            Cell::Signed(v) => CellView::Signed(*v),
            Cell::Unsigned(v) => CellView::Unsigned(*v),
            Cell::Floating(v) => CellView::Floating(*v),
            Cell::Decimal(v) => CellView::Decimal(v@),
            Cell::Text(v) => CellView::Text(v@),
            Cell::Bytes(v) => CellView::Bytes(v@),
            Cell::Temporal(v) => CellView::Temporal(v@),
        }
    }
}

impl View for Column {
    type V = ColumnView;

    open spec fn view(&self) -> ColumnView {
        ColumnView {
            catalog: self.catalog@,
            schema: self.schema@,
            table: self.table@,
            original_table: self.original_table@,
            name: self.name@,
            original_name: self.original_name@,
            vendor_type: self.vendor_type,
            charset: self.charset,
            collation: self.collation,
            flags: self.flags,
            column_type: self.column_type,
            temporal_type: self.temporal_type,
        }
    }
}

impl View for Row {
    type V = Seq<CellView>;

    open spec fn view(&self) -> Seq<CellView> {
        self.cells@.map_values(|c: Cell| c@)
    }
}

impl View for RowSet {
    type V = RowSetView;

    open spec fn view(&self) -> RowSetView {
        RowSetView {
            columns: self.columns@.map_values(|c: Column| c@),
            rows: self.rows@.map_values(|r: Row| r@),
        }
    }
}

pub open spec fn text_view(text: Option<String>) -> Option<Seq<char>> {
    match text {
        Some(t) => Some(t@),
        None => None,
    }
}

impl View for Error {
    type V = ErrorView;

    open spec fn view(&self) -> ErrorView {
        ErrorView {
            class: self.class,
            vendor_code: self.vendor_code,
            sqlstate: text_view(self.sqlstate),
            message: self.message@,
        }
    }
}

// ---------------------------------------------------------------------------
// Portable logical-byte accounting.
// ---------------------------------------------------------------------------

/// The column type a non-null cell asserts; a null cell asserts none.
pub open spec fn cell_type(cell: CellView) -> Option<ColumnType> {
    match cell {
        CellView::Null => None,
        CellView::Signed(_) => Some(ColumnType::Signed),
        CellView::Unsigned(_) => Some(ColumnType::Unsigned),
        CellView::Floating(_) => Some(ColumnType::Floating),
        CellView::Decimal(_) => Some(ColumnType::Decimal),
        CellView::Text(_) => Some(ColumnType::Text),
        CellView::Bytes(_) => Some(ColumnType::Bytes),
        CellView::Temporal(_) => Some(ColumnType::Temporal),
    }
}

/// Logical bytes of one cell: zero for null, eight for a number, the
/// payload length otherwise.
pub open spec fn cell_bytes(cell: CellView) -> int {
    match cell {
        CellView::Null => 0,
        CellView::Signed(_) => 8,
        CellView::Unsigned(_) => 8,
        CellView::Floating(_) => 8,
        CellView::Decimal(v) => utf8_len(v),
        CellView::Text(v) => utf8_len(v),
        CellView::Bytes(v) => v.len() as int,
        CellView::Temporal(v) => utf8_len(v),
    }
}

/// Logical bytes of one column: the UTF-8 lengths of its six labels.
pub open spec fn column_bytes(column: ColumnView) -> int {
    utf8_len(column.catalog) + utf8_len(column.schema) + utf8_len(column.table) + utf8_len(
        column.original_table,
    ) + utf8_len(column.name) + utf8_len(column.original_name)
}

/// The sum of `f` over a sequence, accumulated front to back.
pub open spec fn sum_of<T>(s: Seq<T>, f: spec_fn(T) -> int) -> int
    decreases s.len(),
{
    if s.len() == 0 {
        0
    } else {
        sum_of(s.drop_last(), f) + f(s.last())
    }
}

pub open spec fn cells_bytes(cells: Seq<CellView>) -> int {
    sum_of(cells, |c: CellView| cell_bytes(c))
}

pub open spec fn rows_bytes(rows: Seq<Seq<CellView>>) -> int {
    sum_of(rows, |r: Seq<CellView>| cells_bytes(r))
}

pub open spec fn columns_bytes(columns: Seq<ColumnView>) -> int {
    sum_of(columns, |c: ColumnView| column_bytes(c))
}

/// Logical bytes of a whole row set: all column labels, then all cells.
pub open spec fn row_set_bytes(row_set: RowSetView) -> int {
    columns_bytes(row_set.columns) + rows_bytes(row_set.rows)
}

/// A temporal column has a temporal type; no other column has one.
pub open spec fn column_shape_ok(column: ColumnView) -> bool {
    (column.column_type == ColumnType::Temporal) == (column.temporal_type is Some)
}

/// A null cell fits every column; another cell's tag must match the column type.
pub open spec fn cell_fits(cell: CellView, column: ColumnView) -> bool {
    match cell_type(cell) {
        None => true,
        Some(t) => t == column.column_type,
    }
}

/// A row has one cell per column, and cell `i` fits column `i`.
pub open spec fn row_fits(row: Seq<CellView>, columns: Seq<ColumnView>) -> bool {
    &&& row.len() == columns.len()
    &&& forall|i: int| 0 <= i < columns.len() ==> #[trigger] cell_fits(row[i], columns[i])
}

/// The SQL 0.2 shape rules of a row set.
pub open spec fn row_set_well_formed(row_set: RowSetView) -> bool {
    &&& forall|i: int|
        0 <= i < row_set.columns.len() ==> #[trigger] column_shape_ok(row_set.columns[i])
    &&& forall|r: int|
        0 <= r < row_set.rows.len() ==> #[trigger] row_fits(row_set.rows[r], row_set.columns)
}

/// What `logical_row_set_bytes` returns: `protocol` for a shape violation,
/// `limit` when the count exceeds `u64`, the count otherwise.
pub open spec fn spec_row_set_bytes(row_set: RowSetView) -> Result<u64, ErrorClass> {
    if !row_set_well_formed(row_set) {
        Err(ErrorClass::Protocol)
    } else if row_set_bytes(row_set) > u64::MAX {
        Err(ErrorClass::Limit)
    } else {
        Ok(row_set_bytes(row_set) as u64)
    }
}

/// Logical bytes of one command: affected rows, warnings, and the insert id
/// when present.
pub open spec fn command_bytes(result: CommandResult) -> u64 {
    if result.last_insert_id is Some {
        20
    } else {
        12
    }
}

pub proof fn lemma_sum_of_take_step<T>(s: Seq<T>, f: spec_fn(T) -> int, i: int)
    requires
        0 <= i < s.len(),
    ensures
        sum_of(s.take(i + 1), f) == sum_of(s.take(i), f) + f(s[i]),
{
    assert(s.take(i + 1).drop_last() =~= s.take(i));
}

pub proof fn lemma_sum_of_nonneg<T>(s: Seq<T>, f: spec_fn(T) -> int)
    requires
        forall|x: T| #[trigger] f(x) >= 0,
    ensures
        sum_of(s, f) >= 0,
    decreases s.len(),
{
    if s.len() > 0 {
        lemma_sum_of_nonneg(s.drop_last(), f);
    }
}

pub proof fn lemma_sum_of_prefix_le<T>(s: Seq<T>, f: spec_fn(T) -> int, i: int)
    requires
        0 <= i <= s.len(),
        forall|x: T| #[trigger] f(x) >= 0,
    ensures
        sum_of(s.take(i), f) <= sum_of(s, f),
    decreases s.len() - i,
{
    if i == s.len() {
        assert(s.take(i) =~= s);
    } else {
        lemma_sum_of_take_step(s, f, i);
        lemma_sum_of_prefix_le(s, f, i + 1);
    }
}

pub proof fn lemma_sum_of_whole<T>(s: Seq<T>, f: spec_fn(T) -> int)
    ensures
        sum_of(s.take(s.len() as int), f) == sum_of(s, f),
{
    assert(s.take(s.len() as int) =~= s);
}

/// Logical byte counts are never negative.
pub proof fn lemma_row_set_bytes_nonneg(row_set: RowSetView)
    ensures
        row_set_bytes(row_set) >= 0,
        columns_bytes(row_set.columns) >= 0,
        rows_bytes(row_set.rows) >= 0,
{
    let cellf = |c: CellView| cell_bytes(c);
    let rowf = |x: Seq<CellView>| cells_bytes(x);
    assert forall|x: Seq<CellView>| #[trigger] rowf(x) >= 0 by {
        lemma_sum_of_nonneg(x, cellf);
    }
    lemma_sum_of_nonneg(row_set.rows, rowf);
    lemma_sum_of_nonneg(row_set.columns, |c: ColumnView| column_bytes(c));
}

impl Cell {
    fn column_type(&self) -> (t: Option<ColumnType>)
        ensures
            t == cell_type(self@),
    {
        match self {
            Cell::Null => None,
            Cell::Signed(_) => Some(ColumnType::Signed),
            Cell::Unsigned(_) => Some(ColumnType::Unsigned),
            Cell::Floating(_) => Some(ColumnType::Floating),
            Cell::Decimal(_) => Some(ColumnType::Decimal),
            Cell::Text(_) => Some(ColumnType::Text),
            Cell::Bytes(_) => Some(ColumnType::Bytes),
            Cell::Temporal(_) => Some(ColumnType::Temporal),
        }
    }

    /// Logical bytes of this cell. A `usize` length always fits in `u64`.
    pub(crate) fn logical_bytes(&self) -> (n: u64)
        ensures
            n == cell_bytes(self@),
    {
        match self {
            Cell::Null => 0,
            Cell::Signed(_) => 8,
            Cell::Unsigned(_) => 8,
            Cell::Floating(_) => 8,
            Cell::Decimal(value) => text_len(value),
            Cell::Text(value) => text_len(value),
            Cell::Bytes(value) => value.len() as u64,
            Cell::Temporal(value) => text_len(value),
        }
    }
}

impl Column {
    /// Checked sum of the UTF-8 lengths of the six labels.
    pub fn logical_bytes(&self) -> (r: Result<u64, ErrorClass>)
        ensures
            column_bytes(self@) <= u64::MAX ==> r == Ok::<u64, ErrorClass>(column_bytes(self@) as u64),
            column_bytes(self@) > u64::MAX ==> r == Err::<u64, ErrorClass>(ErrorClass::Limit),
    {
        let total = checked_add(0, text_len(&self.catalog))?;
        let total = checked_add(total, text_len(&self.schema))?;
        let total = checked_add(total, text_len(&self.table))?;
        let total = checked_add(total, text_len(&self.original_table))?;
        let total = checked_add(total, text_len(&self.name))?;
        checked_add(total, text_len(&self.original_name))
    }
}

/// Checked `u64` addition; overflow is a `limit` failure.
pub fn checked_add(left: u64, right: u64) -> (r: Result<u64, ErrorClass>)
    ensures
        left + right <= u64::MAX ==> r == Ok::<u64, ErrorClass>((left + right) as u64),
        left + right > u64::MAX ==> r == Err::<u64, ErrorClass>(ErrorClass::Limit),
{
    match left.checked_add(right) {
        Some(value) => Ok(value),
        None => Err(ErrorClass::Limit),
    }
}

/// Checks the SQL 0.2 shape rules: temporal metadata exactly on temporal
/// columns, one cell per column in every row, and each non-null cell's tag
/// equal to its column's type.
fn validate_row_set(row_set: &RowSet) -> (r: Result<(), ErrorClass>)
    ensures
        row_set_well_formed(row_set@) ==> r == Ok::<(), ErrorClass>(()),
        !row_set_well_formed(row_set@) ==> r == Err::<(), ErrorClass>(ErrorClass::Protocol),
{
    let ghost v = row_set@;
    let ncols = row_set.columns.len();
    let mut i: usize = 0;
    while i < ncols
        invariant
            v == row_set@,
            ncols == v.columns.len(),
            i <= ncols,
            forall|k: int| 0 <= k < i ==> #[trigger] column_shape_ok(v.columns[k]),
        decreases ncols - i,
    {
        let column = &row_set.columns[i];
        let temporal = match column.column_type {
            ColumnType::Temporal => true,
            _ => false,
        };
        if temporal != column.temporal_type.is_some() {
            assert(!column_shape_ok(v.columns[i as int]));
            return Err(ErrorClass::Protocol);
        }
        i = i + 1;
    }
    let nrows = row_set.rows.len();
    let mut r: usize = 0;
    while r < nrows
        invariant
            v == row_set@,
            ncols == v.columns.len(),
            nrows == v.rows.len(),
            r <= nrows,
            forall|k: int| 0 <= k < ncols ==> #[trigger] column_shape_ok(v.columns[k]),
            forall|k: int| 0 <= k < r ==> #[trigger] row_fits(v.rows[k], v.columns),
        decreases nrows - r,
    {
        let row = &row_set.rows[r];
        assert(v.rows[r as int] == row@);
        if row.cells.len() != ncols {
            assert(!row_fits(v.rows[r as int], v.columns));
            return Err(ErrorClass::Protocol);
        }
        let mut c: usize = 0;
        while c < ncols
            invariant
                v == row_set@,
                ncols == v.columns.len(),
                nrows == v.rows.len(),
                r < nrows,
                v.rows[r as int] == row@,
                row.cells@.len() == ncols,
                c <= ncols,
                forall|k: int| 0 <= k < c ==> #[trigger] cell_fits(row@[k], v.columns[k]),
            decreases ncols - c,
        {
            let fits = match row.cells[c].column_type() {
                None => true,
                Some(t) => t == row_set.columns[c].column_type,
            };
            if !fits {
                assert(!cell_fits(row@[c as int], v.columns[c as int]));
                assert(!row_fits(v.rows[r as int], v.columns));
                return Err(ErrorClass::Protocol);
            }
            c = c + 1;
        }
        assert(row_fits(v.rows[r as int], v.columns));
        r = r + 1;
    }
    Ok(())
}

/// Portable logical-byte count defined by the SQL 0.2 contract.
pub fn logical_row_set_bytes(row_set: &RowSet) -> (r: Result<u64, ErrorClass>)
    ensures
        r == spec_row_set_bytes(row_set@),
{
    validate_row_set(row_set)?;
    let ghost colf = |c: ColumnView| column_bytes(c);
    let ghost rowf = |x: Seq<CellView>| cells_bytes(x);
    let ghost cellf = |c: CellView| cell_bytes(c);
    let ghost v = row_set@;
    proof {
        assert forall|x: Seq<CellView>| #[trigger] rowf(x) >= 0 by {
            lemma_sum_of_nonneg(x, cellf);
        }
        lemma_sum_of_nonneg(v.rows, rowf);
        lemma_sum_of_nonneg(v.columns, colf);
    }
    let ncols = row_set.columns.len();
    let mut total: u64 = 0;
    let mut i: usize = 0;
    while i < ncols
        invariant
            v == row_set@,
            ncols == v.columns.len(),
            i <= ncols,
            total == sum_of(v.columns.take(i as int), colf),
            colf == (|c: ColumnView| column_bytes(c)),
            rows_bytes(v.rows) >= 0,
            row_set_well_formed(v),
        decreases ncols - i,
    {
        proof {
            lemma_sum_of_take_step(v.columns, colf, i as int);
            lemma_sum_of_prefix_le(v.columns, colf, i + 1);
        }
        match row_set.columns[i].logical_bytes() {
            Ok(bytes) => {
                match checked_add(total, bytes) {
                    Ok(next) => {
                        total = next;
                    },
                    Err(e) => {
                        return Err(e);
                    },
                }
            },
            Err(e) => {
                return Err(e);
            },
        }
        i = i + 1;
    }
    proof {
        lemma_sum_of_whole(v.columns, colf);
    }
    let nrows = row_set.rows.len();
    let mut r: usize = 0;
    while r < nrows
        invariant
            v == row_set@,
            nrows == v.rows.len(),
            r <= nrows,
            total == columns_bytes(v.columns) + sum_of(v.rows.take(r as int), rowf),
            rowf == (|x: Seq<CellView>| cells_bytes(x)),
            cellf == (|c: CellView| cell_bytes(c)),
            forall|x: Seq<CellView>| #[trigger] rowf(x) >= 0,
            row_set_well_formed(v),
        decreases nrows - r,
    {
        let row = &row_set.rows[r];
        let ghost cells = row@;
        assert(v.rows[r as int] == cells);
        proof {
            lemma_sum_of_take_step(v.rows, rowf, r as int);
            lemma_sum_of_prefix_le(v.rows, rowf, r + 1);
            lemma_sum_of_nonneg(cells, cellf);
        }
        let ncells = row.cells.len();
        let mut c: usize = 0;
        while c < ncells
            invariant
                v == row_set@,
                ncells == cells.len(),
                cells == row@,
                c <= ncells,
                total == columns_bytes(v.columns) + sum_of(v.rows.take(r as int), rowf) + sum_of(
                    cells.take(c as int),
                    cellf,
                ),
                cellf == (|x: CellView| cell_bytes(x)),
                columns_bytes(v.columns) + sum_of(v.rows.take(r as int), rowf) + cells_bytes(cells)
                    <= row_set_bytes(v),
                row_set_well_formed(v),
            decreases ncells - c,
        {
            assert(cells[c as int] == row.cells@[c as int]@);
            proof {
                lemma_sum_of_take_step(cells, cellf, c as int);
                lemma_sum_of_prefix_le(cells, cellf, c + 1);
            }
            match checked_add(total, row.cells[c].logical_bytes()) {
                Ok(next) => {
                    total = next;
                },
                Err(e) => {
                    return Err(e);
                },
            }
            c = c + 1;
        }
        proof {
            lemma_sum_of_whole(cells, cellf);
        }
        r = r + 1;
    }
    proof {
        lemma_sum_of_whole(v.rows, rowf);
    }
    Ok(total)
}

/// Portable logical-byte count for one command result.
pub fn logical_command_bytes(result: &CommandResult) -> (n: u64)
    ensures
        n == command_bytes(*result),
{
    if result.last_insert_id.is_some() {
        20
    } else {
        12
    }
}

// ---------------------------------------------------------------------------
// Layered result ceilings.
// ---------------------------------------------------------------------------

/// The tighter of two optional ceilings; an absent ceiling imposes nothing.
pub open spec fn spec_minimum_u64(left: Option<u64>, right: Option<u64>) -> Option<u64> {
    match (left, right) {
        (Some(l), Some(r)) => Some(if l <= r { l } else { r }),
        (Some(v), None) => Some(v),
        (None, Some(v)) => Some(v),
        (None, None) => None,
    }
}

pub open spec fn spec_minimum_u32(left: Option<u32>, right: Option<u32>) -> Option<u32> {
    match (left, right) {
        (Some(l), Some(r)) => Some(if l <= r { l } else { r }),
        (Some(v), None) => Some(v),
        (None, Some(v)) => Some(v),
        (None, None) => None,
    }
}

/// Field-wise intersection of two ceiling layers.
pub open spec fn spec_intersect(a: ResultLimits, b: ResultLimits) -> ResultLimits {
    ResultLimits {
        max_rows: spec_minimum_u32(a.max_rows, b.max_rows),
        max_result_bytes: spec_minimum_u64(a.max_result_bytes, b.max_result_bytes),
    }
}

/// The layer that imposes no ceiling.
pub open spec fn unbounded() -> ResultLimits {
    ResultLimits { max_rows: None, max_result_bytes: None }
}

fn minimum(left: Option<u64>, right: Option<u64>) -> (m: Option<u64>)
    ensures
        m == spec_minimum_u64(left, right),
{
    match (left, right) {
        (Some(l), Some(r)) => Some(if l <= r { l } else { r }),
        (Some(v), None) => Some(v),
        (None, Some(v)) => Some(v),
        (None, None) => None,
    }
}

fn minimum_rows(left: Option<u32>, right: Option<u32>) -> (m: Option<u32>)
    ensures
        m == spec_minimum_u32(left, right),
{
    match (left, right) {
        (Some(l), Some(r)) => Some(if l <= r { l } else { r }),
        (Some(v), None) => Some(v),
        (None, Some(v)) => Some(v),
        (None, None) => None,
    }
}

impl Default for ResultLimits {
    fn default() -> (r: Self)
        ensures
            r == unbounded(),
    {
        ResultLimits { max_rows: None, max_result_bytes: None }
    }
}

impl ResultLimits {
    /// Intersect two authority layers. A larger value can never widen a
    /// smaller existing ceiling.
    pub fn intersect(self, other: Self) -> (r: Self)
        ensures
            r == spec_intersect(self, other),
    {
        ResultLimits {
            max_rows: minimum_rows(self.max_rows, other.max_rows),
            max_result_bytes: minimum(self.max_result_bytes, other.max_result_bytes),
        }
    }

    /// The caller's layer of ceilings, taken from its connect options.
    pub fn from_options(options: &ConnectOptions) -> (r: Self)
        ensures
            r.max_rows == options.max_rows,
            r.max_result_bytes == options.max_result_bytes,
    {
        ResultLimits { max_rows: options.max_rows, max_result_bytes: options.max_result_bytes }
    }
}

/// Intersection is commutative.
pub proof fn law_intersect_commutative(a: ResultLimits, b: ResultLimits)
    ensures
        spec_intersect(a, b) == spec_intersect(b, a),
{
}

/// Intersection is associative, so the order in which the driver, operator
/// and caller layers are combined does not matter.
pub proof fn law_intersect_associative(a: ResultLimits, b: ResultLimits, c: ResultLimits)
    ensures
        spec_intersect(spec_intersect(a, b), c) == spec_intersect(a, spec_intersect(b, c)),
{
}

/// The unbounded layer changes nothing, and a layer intersected with itself
/// is itself.
pub proof fn law_intersect_identity_idempotent(a: ResultLimits)
    ensures
        spec_intersect(a, unbounded()) == a,
        spec_intersect(unbounded(), a) == a,
        spec_intersect(a, a) == a,
{
}

/// A layer never widens: every ceiling present in either operand is present
/// in the intersection and is no larger; the intersection is absent only
/// when both operands are.
pub proof fn law_intersect_never_widens(a: ResultLimits, b: ResultLimits)
    ensures
        ({
            let r = spec_intersect(a, b);
            &&& (a.max_rows is Some ==> r.max_rows is Some && r.max_rows->0 <= a.max_rows->0)
            &&& (b.max_rows is Some ==> r.max_rows is Some && r.max_rows->0 <= b.max_rows->0)
            &&& (r.max_rows is None <==> a.max_rows is None && b.max_rows is None)
            &&& (a.max_result_bytes is Some ==> r.max_result_bytes is Some
                && r.max_result_bytes->0 <= a.max_result_bytes->0)
            &&& (b.max_result_bytes is Some ==> r.max_result_bytes is Some
                && r.max_result_bytes->0 <= b.max_result_bytes->0)
            &&& (r.max_result_bytes is None <==> a.max_result_bytes is None
                && b.max_result_bytes is None)
        }),
{
}


/// Every ceiling `layer` imposes is imposed by `r` too, no larger.
pub open spec fn no_wider_than(r: ResultLimits, layer: ResultLimits) -> bool {
    &&& (layer.max_rows is Some ==> r.max_rows is Some && r.max_rows->0 <= layer.max_rows->0)
    &&& (layer.max_result_bytes is Some ==> r.max_result_bytes is Some && r.max_result_bytes->0
        <= layer.max_result_bytes->0)
}

/// A session's ceilings are no wider than any of the driver, operator and
/// caller layers, and a caller value at or above the other layers' ceiling
/// leaves that ceiling as it is: a large caller value cannot increase
/// authority.
pub proof fn law_effective_ceiling_is_the_tightest(
    driver: ResultLimits,
    operator: ResultLimits,
    caller: ResultLimits,
)
    ensures
        ({
            let inner = spec_intersect(driver, operator);
            let r = spec_intersect(inner, caller);
            &&& no_wider_than(r, driver)
            &&& no_wider_than(r, operator)
            &&& no_wider_than(r, caller)
            &&& (inner.max_rows is Some && caller.max_rows is Some && caller.max_rows->0
                >= inner.max_rows->0) ==> r.max_rows == inner.max_rows
            &&& (inner.max_result_bytes is Some && caller.max_result_bytes is Some
                && caller.max_result_bytes->0 >= inner.max_result_bytes->0) ==> r.max_result_bytes
                == inner.max_result_bytes
            &&& caller == unbounded() ==> r == inner
        }),
{
    law_intersect_never_widens(driver, operator);
    law_intersect_never_widens(spec_intersect(driver, operator), caller);
}

// ---------------------------------------------------------------------------
// Whole-result admission.
// ---------------------------------------------------------------------------

pub open spec fn within_rows(count: int, limit: Option<u32>) -> bool {
    match limit {
        Some(m) => count <= m,
        None => true,
    }
}

pub open spec fn within_bytes(bytes: int, limit: Option<u64>) -> bool {
    match limit {
        Some(m) => bytes <= m,
        None => true,
    }
}

/// The class with which `admit_row_set` refuses a row set, or `Ok` when it
/// admits it: the row count is checked first, then the shape and byte
/// accounting, then the byte ceiling.
pub open spec fn row_set_verdict(row_set: RowSetView, limits: ResultLimits) -> Result<(), ErrorClass> {
    let count = row_set.rows.len() as int;
    if count > u32::MAX || !within_rows(count, limits.max_rows) {
        Err(ErrorClass::Limit)
    } else {
        match spec_row_set_bytes(row_set) {
            Err(class) => Err(class),
            Ok(bytes) => if within_bytes(bytes as int, limits.max_result_bytes) {
                Ok(())
            } else {
                Err(ErrorClass::Limit)
            },
        }
    }
}

/// The message that accompanies each refusal of `admit_row_set`.
pub open spec fn row_set_refusal_message(row_set: RowSetView, limits: ResultLimits) -> Seq<char> {
    let count = row_set.rows.len() as int;
    if count > u32::MAX || !within_rows(count, limits.max_rows) {
        "row count exceeds the result ceiling"@
    } else {
        match spec_row_set_bytes(row_set) {
            Err(ErrorClass::Protocol) => "row metadata and cells contradict the SQL contract"@,
            Err(_) => "result byte accounting overflowed"@,
            Ok(_) => "result bytes exceed the result ceiling"@,
        }
    }
}

/// Whether a command result fits a ceiling layer.
pub open spec fn command_admitted(result: CommandResult, limits: ResultLimits) -> bool {
    within_bytes(command_bytes(result) as int, limits.max_result_bytes)
}

/// An error that names its class and carries no vendor data.
pub open spec fn plain_error(e: Error, class: ErrorClass, message: Seq<char>) -> bool {
    &&& e.class == class
    &&& e.vendor_code is None
    &&& e.sqlstate is None
    &&& e.message@ == message
}

pub(crate) fn error(class: ErrorClass, message: &str) -> (e: Error)
    ensures
        plain_error(e, class, message@),
        e@ == plain_error_view(class, message@),
{
    Error { class, vendor_code: None, sqlstate: None, message: message.to_owned() }
}

/// Consume and admit one complete row set or return one error with no partial
/// result available to the caller.
pub fn admit_row_set(row_set: RowSet, limits: ResultLimits) -> (r: Result<RowSet, Error>)
    ensures
        r is Ok <==> row_set_verdict(row_set@, limits) is Ok,
        r matches Ok(admitted) ==> admitted == row_set,
        r matches Err(e) ==> plain_error(
            e,
            row_set_verdict(row_set@, limits)->Err_0,
            row_set_refusal_message(row_set@, limits),
        ),
{
    let count = row_set.rows.len();
    if count > u32::MAX as usize {
        return Err(error(ErrorClass::Limit, "row count exceeds the result ceiling"));
    }
    let rows = count as u32;
    if let Some(maximum) = limits.max_rows {
        if rows > maximum {
            return Err(error(ErrorClass::Limit, "row count exceeds the result ceiling"));
        }
    }
    let bytes = match logical_row_set_bytes(&row_set) {
        Ok(bytes) => bytes,
        Err(class) => {
            let message = match class {
                ErrorClass::Protocol => "row metadata and cells contradict the SQL contract",
                _ => "result byte accounting overflowed",
            };
            return Err(error(class, message));
        },
    };
    if let Some(maximum) = limits.max_result_bytes {
        if bytes > maximum {
            return Err(error(ErrorClass::Limit, "result bytes exceed the result ceiling"));
        }
    }
    Ok(row_set)
}

/// Consume and admit one complete command or return one error with no command
/// metadata available to the caller.
pub fn admit_command(result: CommandResult, limits: ResultLimits) -> (r: Result<CommandResult, Error>)
    ensures
        r is Ok <==> command_admitted(result, limits),
        r matches Ok(admitted) ==> admitted == result,
        r matches Err(e) ==> plain_error(
            e,
            ErrorClass::Limit,
            "command bytes exceed the result ceiling"@,
        ),
{
    if let Some(maximum) = limits.max_result_bytes {
        if logical_command_bytes(&result) > maximum {
            return Err(error(ErrorClass::Limit, "command bytes exceed the result ceiling"));
        }
    }
    Ok(result)
}

/// Admission under an intersection of two layers succeeds exactly when it
/// succeeds under each layer alone: combining layers can only refuse more.
pub proof fn law_row_set_admission_under_intersection(
    row_set: RowSetView,
    a: ResultLimits,
    b: ResultLimits,
)
    ensures
        row_set_verdict(row_set, spec_intersect(a, b)) is Ok <==> (row_set_verdict(row_set, a) is Ok
            && row_set_verdict(row_set, b) is Ok),
{
}

/// The same holds for command admission.
pub proof fn law_command_admission_under_intersection(
    result: CommandResult,
    a: ResultLimits,
    b: ResultLimits,
)
    ensures
        command_admitted(result, spec_intersect(a, b)) <==> (command_admitted(result, a)
            && command_admitted(result, b)),
{
}

/// A row set exactly at a byte ceiling is admitted and one logical byte less
/// refuses it with `limit`; a zero row ceiling refuses any non-empty row set.
pub proof fn law_row_set_ceiling_is_inclusive(row_set: RowSetView, rows: Option<u32>)
    requires
        spec_row_set_bytes(row_set) is Ok,
        row_set.rows.len() <= u32::MAX,
        within_rows(row_set.rows.len() as int, rows),
    ensures
        row_set_verdict(
            row_set,
            ResultLimits { max_rows: rows, max_result_bytes: Some(spec_row_set_bytes(row_set)->Ok_0) },
        ) is Ok,
        spec_row_set_bytes(row_set)->Ok_0 > 0 ==> row_set_verdict(
            row_set,
            ResultLimits {
                max_rows: rows,
                max_result_bytes: Some((spec_row_set_bytes(row_set)->Ok_0 - 1) as u64),
            },
        ) == Err::<(), ErrorClass>(ErrorClass::Limit),
        row_set.rows.len() > 0 ==> row_set_verdict(
            row_set,
            ResultLimits { max_rows: Some(0), max_result_bytes: None },
        ) == Err::<(), ErrorClass>(ErrorClass::Limit),
{
}

// ---------------------------------------------------------------------------
// The driver and connection contract.
// ---------------------------------------------------------------------------

/// A host-independent SQL 0.2 driver: one successful `connect` is one session.
pub trait Driver {
    type Connection: Connection;

    fn connect(&self, options: ConnectOptions) -> Result<Self::Connection, Error>;
}

/// One stateful server session: row-only `query`, command-only `exec`, and
/// an idempotent `close`.
pub trait Connection {
    fn query(&mut self, sql: &str) -> Result<RowSet, Error>;

    fn exec(&mut self, sql: &str) -> Result<CommandResult, Error>;

    fn close(&mut self);
}

// ---------------------------------------------------------------------------
// The scripted conformance driver.
// ---------------------------------------------------------------------------

/// The method and statement of one expected call.
#[derive(Clone, Debug, PartialEq, Eq)]
pub enum ScriptCall {
    Query(String),
    Exec(String),
}

/// The response the transcript gives to one call.
#[derive(Clone, Debug, PartialEq, Eq)]
pub enum ScriptOutcome {
    Rows(RowSet),
    Command(CommandResult),
    Error(Error),
}

/// One expected call and its response.
#[derive(Clone, Debug, PartialEq, Eq)]
pub struct ScriptStep {
    pub call: ScriptCall,
    pub outcome: ScriptOutcome,
}

pub enum ScriptCallView {
    Query(Seq<char>),
    Exec(Seq<char>),
}

pub enum ScriptOutcomeView {
    Rows(RowSetView),
    Command(CommandResult),
    Error(ErrorView),
}

pub struct ScriptStepView {
    pub call: ScriptCallView,
    pub outcome: ScriptOutcomeView,
}

impl View for ScriptCall {
    type V = ScriptCallView;

    open spec fn view(&self) -> ScriptCallView {
        match self {
            ScriptCall::Query(sql) => ScriptCallView::Query(sql@),
            ScriptCall::Exec(sql) => ScriptCallView::Exec(sql@),
        }
    }
}

impl View for ScriptOutcome {
    type V = ScriptOutcomeView;

    open spec fn view(&self) -> ScriptOutcomeView {
        match self {
            ScriptOutcome::Rows(rows) => ScriptOutcomeView::Rows(rows@),
            ScriptOutcome::Command(command) => ScriptOutcomeView::Command(*command),
            ScriptOutcome::Error(failure) => ScriptOutcomeView::Error(failure@),
        }
    }
}

impl View for ScriptStep {
    type V = ScriptStepView;

    open spec fn view(&self) -> ScriptStepView {
        ScriptStepView { call: self.call@, outcome: self.outcome@ }
    }
}

/// The transcript of steps as views.
pub open spec fn steps_view(steps: Seq<ScriptStep>) -> Seq<ScriptStepView> {
    steps.map_values(|s: ScriptStep| s@)
}

/// Counters observed through a [`SessionProbe`].
#[derive(Clone, Copy, Debug, PartialEq, Eq, Structural)]
pub struct SessionSnapshot {
    pub connections: usize,
    pub calls: usize,
    pub close_events: usize,
}

impl Default for SessionSnapshot {
    fn default() -> (r: Self)
        ensures
            r == (SessionSnapshot { connections: 0, calls: 0, close_events: 0 }),
    {
        SessionSnapshot { connections: 0, calls: 0, close_events: 0 }
    }
}

/// The error classes after which a session cannot be trusted to be in step
/// with the server, so the session closes.
pub open spec fn is_terminal(class: ErrorClass) -> bool {
    match class {
        ErrorClass::Transport => true,
        ErrorClass::Protocol => true,
        ErrorClass::Encoding => true,
        ErrorClass::Limit => true,
        ErrorClass::Timeout => true,
        _ => false,
    }
}

/// An error view that names its class and carries no vendor data.
pub open spec fn plain_error_view(class: ErrorClass, message: Seq<char>) -> ErrorView {
    ErrorView { class, vendor_code: None, sqlstate: None, message }
}

/// The abstract state of one scripted session.
pub struct SessionState {
    /// The transcript steps not yet consumed, front first.
    pub pending: Seq<ScriptStepView>,
    pub closed: bool,
    /// The effective ceilings of this session.
    pub limits: ResultLimits,
}

/// What one call on a session answers.
pub enum CallOutcome {
    Rows(RowSetView),
    Command(CommandResult),
    Failed(ErrorView),
}

/// The session after a terminal failure or an explicit close.
pub open spec fn closed_state(s: SessionState) -> SessionState {
    SessionState { closed: true, ..s }
}

/// The answer of the transcript step whose call matched a `query`.
pub open spec fn query_answer(outcome: ScriptOutcomeView, limits: ResultLimits) -> CallOutcome {
    match outcome {
        ScriptOutcomeView::Rows(rows) => match row_set_verdict(rows, limits) {
            Ok(()) => CallOutcome::Rows(rows),
            Err(class) => CallOutcome::Failed(
                plain_error_view(class, row_set_refusal_message(rows, limits)),
            ),
        },
        ScriptOutcomeView::Command(_) => CallOutcome::Failed(
            plain_error_view(ErrorClass::Unsupported, "query received a command response"@),
        ),
        ScriptOutcomeView::Error(failure) => CallOutcome::Failed(failure),
    }
}

/// The answer of the transcript step whose call matched an `exec`.
pub open spec fn exec_answer(outcome: ScriptOutcomeView, limits: ResultLimits) -> CallOutcome {
    match outcome {
        ScriptOutcomeView::Command(command) => if command_admitted(command, limits) {
            CallOutcome::Command(command)
        } else {
            CallOutcome::Failed(
                plain_error_view(ErrorClass::Limit, "command bytes exceed the result ceiling"@),
            )
        },
        ScriptOutcomeView::Rows(_) => CallOutcome::Failed(
            plain_error_view(ErrorClass::Unsupported, "exec received a row response"@),
        ),
        ScriptOutcomeView::Error(failure) => CallOutcome::Failed(failure),
    }
}

/// One call on a scripted session: a closed session answers `closed` and
/// stays as it is; an open one consumes exactly the next step. A missing or
/// different step is `protocol` and closes the session; a matching step
/// answers its response, and a terminal failure closes the session.
pub open spec fn spec_call(s: SessionState, call: ScriptCallView) -> (CallOutcome, SessionState) {
    if s.closed {
        (CallOutcome::Failed(plain_error_view(ErrorClass::Closed, "connection is closed"@)), s)
    } else if s.pending.len() == 0 {
        (
            CallOutcome::Failed(
                plain_error_view(
                    ErrorClass::Protocol,
                    "the conformance transcript has no matching call"@,
                ),
            ),
            closed_state(s),
        )
    } else {
        let step = s.pending[0];
        let rest = SessionState { pending: s.pending.drop_first(), ..s };
        if step.call != call {
            (
                CallOutcome::Failed(
                    plain_error_view(
                        ErrorClass::Protocol,
                        "the conformance transcript call order differs"@,
                    ),
                ),
                closed_state(rest),
            )
        } else {
            let answer = match call {
                ScriptCallView::Query(_) => query_answer(step.outcome, s.limits),
                ScriptCallView::Exec(_) => exec_answer(step.outcome, s.limits),
            };
            match answer {
                CallOutcome::Failed(e) => if is_terminal(e.class) {
                    (answer, closed_state(rest))
                } else {
                    (answer, rest)
                },
                _ => (answer, rest),
            }
        }
    }
}

#[verifier::external_type_specification]
#[verifier::external_body]
#[verifier::reject_recursive_types(T)]
pub struct ExRefCell<T: ?Sized>(RefCell<T>);

/// Calls `RefCell::new`. The new cell holds `value`; nothing about the cell
/// is claimed, since what it holds later depends on every handle that shares it.
#[verifier::external_body]
fn new_probe_cell(value: SessionSnapshot) -> RefCell<SessionSnapshot> {
    RefCell::new(value)
}

/// Calls `RefCell::replace` on a probe cell and returns the counters it held.
/// Nothing is claimed of them: other handles to the same cell change it. The
/// only borrows of a probe cell are these calls, and none is held across
/// another, so `replace` never finds the cell borrowed and does not panic.
#[verifier::external_body]
fn replace_probe_cell(cell: &RefCell<SessionSnapshot>, next: SessionSnapshot) -> SessionSnapshot
    opens_invariants none
    no_unwind
{
    cell.replace(next)
}

/// Calls `Rc::clone`: another pointer to the same allocation, so the new
/// handle points to the very cell that `cell` points to.
#[verifier::external_body]
fn share_probe_cell(cell: &Rc<RefCell<SessionSnapshot>>) -> (r: Rc<RefCell<SessionSnapshot>>)
    ensures
        r == *cell,
{
    Rc::clone(cell)
}

fn bump(count: usize) -> (r: usize)
    ensures
        count < usize::MAX ==> r == count + 1,
        count == usize::MAX ==> r == count,
    opens_invariants none
    no_unwind
{
    if count < usize::MAX {
        count + 1
    } else {
        count
    }
}

/// Shared observation handle on a scripted driver's sessions: the number of
/// connections opened, calls taken on open sessions, and close events, an
/// implicit drop included. Every clone of a probe, and every connection of
/// its driver, counts into the same counters. The counters are observed,
/// not modelled: what a snapshot shows depends on every handle.
#[derive(Clone, Debug)]
pub struct SessionProbe(Rc<RefCell<SessionSnapshot>>);

impl SessionProbe {
    /// A probe whose counters start at zero.
    fn new() -> (p: Self) {
        SessionProbe(Rc::new(new_probe_cell(SessionSnapshot::default())))
    }

    /// The counters as they stand now.
    pub fn snapshot(&self) -> SessionSnapshot {
        let current = replace_probe_cell(&self.0, SessionSnapshot::default());
        replace_probe_cell(&self.0, current);
        current
    }

    /// Another handle to the same counters.
    fn share(&self) -> (r: Self)
        ensures
            r == *self,
    {
        SessionProbe(share_probe_cell(&self.0))
    }

    fn record_connection(&self) {
        let s = replace_probe_cell(&self.0, SessionSnapshot::default());
        replace_probe_cell(
            &self.0,
            SessionSnapshot { connections: bump(s.connections), calls: s.calls, close_events: s.close_events },
        );
    }

    fn record_call(&self)
        opens_invariants none
        no_unwind
    {
        let s = replace_probe_cell(&self.0, SessionSnapshot { connections: 0, calls: 0, close_events: 0 });
        replace_probe_cell(
            &self.0,
            SessionSnapshot { connections: s.connections, calls: bump(s.calls), close_events: s.close_events },
        );
    }

    fn record_close(&self)
        opens_invariants none
        no_unwind
    {
        let s = replace_probe_cell(&self.0, SessionSnapshot { connections: 0, calls: 0, close_events: 0 });
        replace_probe_cell(
            &self.0,
            SessionSnapshot {
                connections: s.connections,
                calls: s.calls,
                close_events: bump(s.close_events),
            },
        );
    }
}

impl Default for SessionProbe {
    fn default() -> Self {
        SessionProbe::new()
    }
}

// ---------------------------------------------------------------------------
// Copies that keep every value exactly.
// ---------------------------------------------------------------------------

fn copy_optional_text(text: &Option<String>) -> (r: Option<String>)
    ensures
        text_view(r) == text_view(*text),
{
    match text {
        Some(t) => Some(copy_text(t)),
        None => None,
    }
}

fn copy_cell(cell: &Cell) -> (r: Cell)
    ensures
        r@ == cell@,
{
    match cell {
        Cell::Null => Cell::Null,
        Cell::Signed(v) => Cell::Signed(*v),
        Cell::Unsigned(v) => Cell::Unsigned(*v),
        Cell::Floating(v) => Cell::Floating(*v),
        Cell::Decimal(v) => Cell::Decimal(copy_text(v)),
        Cell::Text(v) => Cell::Text(copy_text(v)),
        Cell::Bytes(v) => Cell::Bytes(vstd::slice::slice_to_vec(v.as_slice())),
        Cell::Temporal(v) => Cell::Temporal(copy_text(v)),
    }
}

fn copy_column(column: &Column) -> (r: Column)
    ensures
        r@ == column@,
{
    Column {
        catalog: copy_text(&column.catalog),
        schema: copy_text(&column.schema),
        table: copy_text(&column.table),
        original_table: copy_text(&column.original_table),
        name: copy_text(&column.name),
        original_name: copy_text(&column.original_name),
        vendor_type: column.vendor_type,
        charset: column.charset,
        collation: column.collation,
        flags: column.flags,
        column_type: column.column_type,
        temporal_type: column.temporal_type,
    }
}

fn copy_row(row: &Row) -> (r: Row)
    ensures
        r@ == row@,
{
    let mut cells: Vec<Cell> = Vec::new();
    let n = row.cells.len();
    let mut i: usize = 0;
    while i < n
        invariant
            n == row.cells@.len(),
            i <= n,
            cells@.len() == i,
            forall|k: int| 0 <= k < i ==> #[trigger] cells@[k]@ == row.cells@[k]@,
        decreases n - i,
    {
        cells.push(copy_cell(&row.cells[i]));
        i = i + 1;
    }
    let out = Row { cells };
    assert(out@ =~= row@);
    out
}

fn copy_row_set(row_set: &RowSet) -> (r: RowSet)
    ensures
        r@ == row_set@,
{
    let mut columns: Vec<Column> = Vec::new();
    let n = row_set.columns.len();
    let mut i: usize = 0;
    while i < n
        invariant
            n == row_set.columns@.len(),
            i <= n,
            columns@.len() == i,
            forall|k: int| 0 <= k < i ==> #[trigger] columns@[k]@ == row_set.columns@[k]@,
        decreases n - i,
    {
        columns.push(copy_column(&row_set.columns[i]));
        i = i + 1;
    }
    let mut rows: Vec<Row> = Vec::new();
    let m = row_set.rows.len();
    let mut j: usize = 0;
    while j < m
        invariant
            m == row_set.rows@.len(),
            j <= m,
            rows@.len() == j,
            forall|k: int| 0 <= k < j ==> #[trigger] rows@[k]@ == row_set.rows@[k]@,
        decreases m - j,
    {
        rows.push(copy_row(&row_set.rows[j]));
        j = j + 1;
    }
    let out = RowSet { columns, rows };
    assert(out@.columns =~= row_set@.columns);
    assert(out@.rows =~= row_set@.rows);
    out
}

fn copy_error(failure: &Error) -> (r: Error)
    ensures
        r@ == failure@,
{
    Error {
        class: failure.class,
        vendor_code: failure.vendor_code,
        sqlstate: copy_optional_text(&failure.sqlstate),
        message: copy_text(&failure.message),
    }
}

fn copy_step(step: &ScriptStep) -> (r: ScriptStep)
    ensures
        r@ == step@,
{
    let call = match &step.call {
        ScriptCall::Query(sql) => ScriptCall::Query(copy_text(sql)),
        ScriptCall::Exec(sql) => ScriptCall::Exec(copy_text(sql)),
    };
    let outcome = match &step.outcome {
        ScriptOutcome::Rows(rows) => ScriptOutcome::Rows(copy_row_set(rows)),
        ScriptOutcome::Command(command) => ScriptOutcome::Command(
            CommandResult {
                affected_rows: command.affected_rows,
                last_insert_id: command.last_insert_id,
                warnings: command.warnings,
            },
        ),
        ScriptOutcome::Error(failure) => ScriptOutcome::Error(copy_error(failure)),
    };
    ScriptStep { call, outcome }
}

fn copy_transcript(steps: &Vec<ScriptStep>) -> (r: VecDeque<ScriptStep>)
    ensures
        steps_view(r@) == steps_view(steps@),
{
    let mut queue: VecDeque<ScriptStep> = VecDeque::new();
    let n = steps.len();
    let mut i: usize = 0;
    while i < n
        invariant
            n == steps@.len(),
            i <= n,
            queue@.len() == i,
            forall|k: int| 0 <= k < i ==> #[trigger] queue@[k]@ == steps@[k]@,
        decreases n - i,
    {
        queue.push_back(copy_step(&steps[i]));
        i = i + 1;
    }
    assert(steps_view(queue@) =~= steps_view(steps@));
    queue
}

// ---------------------------------------------------------------------------
// The scripted driver and its sessions.
// ---------------------------------------------------------------------------

/// A deterministic provider-neutral driver. It consumes an exact ordered
/// transcript and never retries, reconnects, or replays a step.
#[derive(Clone, Debug)]
pub struct ScriptedDriver {
    steps: Vec<ScriptStep>,
    driver_limits: ResultLimits,
    operator_limits: ResultLimits,
    probe: SessionProbe,
}

/// Connect options name an endpoint and both secrets.
pub open spec fn options_valid(options: ConnectOptions) -> bool {
    &&& options.endpoint@.len() > 0
    &&& options.username_secret@.len() > 0
    &&& options.password_secret@.len() > 0
}

/// The caller's layer of ceilings.
pub open spec fn caller_limits(options: ConnectOptions) -> ResultLimits {
    ResultLimits { max_rows: options.max_rows, max_result_bytes: options.max_result_bytes }
}

impl ScriptedDriver {
    /// The transcript every session of this driver serves.
    pub closed spec fn transcript(&self) -> Seq<ScriptStepView> {
        steps_view(self.steps@)
    }

    /// The driver's fixed safety ceilings.
    pub closed spec fn spec_driver_limits(&self) -> ResultLimits {
        self.driver_limits
    }

    /// The operator's ceilings.
    pub closed spec fn spec_operator_limits(&self) -> ResultLimits {
        self.operator_limits
    }

    /// The probe this driver and its sessions count into.
    pub closed spec fn spec_probe(&self) -> SessionProbe {
        self.probe
    }

    /// The ceilings of a session opened with `options`: the intersection of
    /// the driver, operator and caller layers.
    pub open spec fn session_limits(&self, options: ConnectOptions) -> ResultLimits {
        spec_intersect(
            spec_intersect(self.spec_driver_limits(), self.spec_operator_limits()),
            caller_limits(options),
        )
    }

    pub fn new(steps: Vec<ScriptStep>, driver_limits: ResultLimits, operator_limits: ResultLimits) -> (d: Self)
        ensures
            d.transcript() == steps_view(steps@),
            d.spec_driver_limits() == driver_limits,
            d.spec_operator_limits() == operator_limits,
    {
        ScriptedDriver { steps, driver_limits, operator_limits, probe: SessionProbe::new() }
    }

    /// A handle to the counters shared by this driver and all its sessions.
    pub fn probe(&self) -> (p: SessionProbe)
        ensures
            p == self.spec_probe(),
    {
        self.probe.share()
    }
}

impl Driver for ScriptedDriver {
    type Connection = ScriptedConnection;

    /// Refuses options without an endpoint or a secret name with `invalid`;
    /// otherwise opens one session over a fresh copy of the transcript.
    fn connect(&self, options: ConnectOptions) -> (r: Result<ScriptedConnection, Error>)
        ensures
            r is Ok <==> options_valid(options),
            r matches Err(e) ==> plain_error(
                e,
                ErrorClass::Invalid,
                "endpoint and secret names must not be empty"@,
            ),
            r matches Ok(c) ==> c.state() == (SessionState {
                pending: self.transcript(),
                closed: false,
                limits: self.session_limits(options),
            }),
    {
        if options.endpoint.as_str().is_empty() || options.username_secret.as_str().is_empty()
            || options.password_secret.as_str().is_empty() {
            return Err(error(ErrorClass::Invalid, "endpoint and secret names must not be empty"));
        }
        self.probe.record_connection();
        let limits = self.driver_limits.intersect(self.operator_limits).intersect(
            ResultLimits::from_options(&options),
        );
        Ok(
            ScriptedConnection {
                steps: copy_transcript(&self.steps),
                limits,
                probe: self.probe.share(),
                closed: false,
            },
        )
    }
}

/// One scripted session.
#[derive(Debug)]
pub struct ScriptedConnection {
    steps: VecDeque<ScriptStep>,
    limits: ResultLimits,
    probe: SessionProbe,
    closed: bool,
}

fn same_call(left: &ScriptCall, right: &ScriptCall) -> (r: bool)
    ensures
        r == (left@ == right@),
{
    match left {
        ScriptCall::Query(a) => match right {
            ScriptCall::Query(b) => a.eq(b),
            ScriptCall::Exec(_) => false,
        },
        ScriptCall::Exec(a) => match right {
            ScriptCall::Exec(b) => a.eq(b),
            ScriptCall::Query(_) => false,
        },
    }
}

impl ScriptedConnection {
    /// The abstract state of this session.
    pub closed spec fn state(&self) -> SessionState {
        SessionState { pending: steps_view(self.steps@), closed: self.closed, limits: self.limits }
    }

    /// The number of transcript steps not yet consumed.
    pub fn remaining_steps(&self) -> (n: usize)
        ensures
            n == self.state().pending.len(),
    {
        self.steps.len()
    }

    /// Closes an open session and counts one close event into the probe; a
    /// closed session is left as it is.
    fn close_once(&mut self)
        ensures
            final(self).state() == closed_state(old(self).state()),
        opens_invariants none
        no_unwind
    {
        if !self.closed {
            self.closed = true;
            self.probe.record_close();
        }
    }

    /// Consumes the next step when it matches `call`.
    fn take_step(&mut self, call: &ScriptCall) -> (r: Result<ScriptOutcome, Error>)
        ensures
            old(self).state().closed ==> {
                &&& r matches Err(e) && e@ == plain_error_view(
                    ErrorClass::Closed,
                    "connection is closed"@,
                )
                &&& final(self).state() == old(self).state()
            },
            !old(self).state().closed ==> {
                let s = old(self).state();
                let rest = SessionState { pending: s.pending.drop_first(), ..s };
                &&& if s.pending.len() == 0 {
                    &&& r matches Err(e) && e@ == plain_error_view(
                        ErrorClass::Protocol,
                        "the conformance transcript has no matching call"@,
                    )
                    &&& final(self).state() == closed_state(s)
                } else if s.pending[0].call != call@ {
                    &&& r matches Err(e) && e@ == plain_error_view(
                        ErrorClass::Protocol,
                        "the conformance transcript call order differs"@,
                    )
                    &&& final(self).state() == closed_state(rest)
                } else {
                    &&& r matches Ok(outcome) && outcome@ == s.pending[0].outcome
                    &&& final(self).state() == rest
                }
            },
    {
        if self.closed {
            return Err(error(ErrorClass::Closed, "connection is closed"));
        }
        self.probe.record_call();
        let ghost before = self.steps@;
        match self.steps.pop_front() {
            None => {
                self.close_once();
                Err(error(ErrorClass::Protocol, "the conformance transcript has no matching call"))
            },
            Some(step) => {
                assert(steps_view(self.steps@) =~= steps_view(before).drop_first());
                if !same_call(&step.call, call) {
                    self.close_once();
                    return Err(
                        error(ErrorClass::Protocol, "the conformance transcript call order differs"),
                    );
                }
                Ok(step.outcome)
            },
        }
    }

    /// Returns `failure`, closing the session first when its class is terminal.
    fn finish_error<T>(&mut self, failure: Error) -> (r: Result<T, Error>)
        ensures
            r matches Err(e) && e == failure,
            final(self).state() == (if is_terminal(failure.class) {
                closed_state(old(self).state())
            } else {
                old(self).state()
            }),
    {
        match failure.class {
            ErrorClass::Transport | ErrorClass::Protocol | ErrorClass::Encoding | ErrorClass::Limit
            | ErrorClass::Timeout => {
                self.close_once();
            },
            _ => {},
        }
        Err(failure)
    }
}

/// The close events a step adds: one exactly when it takes the session from
/// open to closed, which is when a connection counts a close into its probe.
pub open spec fn closes_added(before: SessionState, after: SessionState) -> nat {
    if !before.closed && after.closed {
        1
    } else {
        0
    }
}

/// How a connection method's answer relates to the session model.
pub open spec fn answers<T>(r: Result<T, Error>, expected: CallOutcome, view_of: spec_fn(T) -> CallOutcome) -> bool {
    match r {
        Ok(v) => expected == view_of(v),
        Err(e) => expected == CallOutcome::Failed(e@),
    }
}

impl Connection for ScriptedConnection {
    fn query(&mut self, sql: &str) -> (r: Result<RowSet, Error>)
        ensures
            ({
                let (expected, next) = spec_call(old(self).state(), ScriptCallView::Query(sql@));
                &&& answers(r, expected, |rows: RowSet| CallOutcome::Rows(rows@))
                &&& final(self).state() == next
            }),
    {
        let call = ScriptCall::Query(sql.to_owned());
        match self.take_step(&call)? {
            ScriptOutcome::Rows(rows) => match admit_row_set(rows, self.limits) {
                Ok(rows) => Ok(rows),
                Err(failure) => self.finish_error(failure),
            },
            ScriptOutcome::Command(_command) => self.finish_error(
                error(ErrorClass::Unsupported, "query received a command response"),
            ),
            ScriptOutcome::Error(failure) => self.finish_error(failure),
        }
    }

    fn exec(&mut self, sql: &str) -> (r: Result<CommandResult, Error>)
        ensures
            ({
                let (expected, next) = spec_call(old(self).state(), ScriptCallView::Exec(sql@));
                &&& answers(r, expected, |command: CommandResult| CallOutcome::Command(command))
                &&& final(self).state() == next
            }),
    {
        let call = ScriptCall::Exec(sql.to_owned());
        match self.take_step(&call)? {
            ScriptOutcome::Command(command) => match admit_command(command, self.limits) {
                Ok(command) => Ok(command),
                Err(failure) => self.finish_error(failure),
            },
            ScriptOutcome::Rows(_rows) => self.finish_error(
                error(ErrorClass::Unsupported, "exec received a row response"),
            ),
            ScriptOutcome::Error(failure) => self.finish_error(failure),
        }
    }

    fn close(&mut self)
        ensures
            final(self).state() == closed_state(old(self).state()),
    {
        self.close_once();
    }
}

impl Drop for ScriptedConnection {
    /// A dropped session closes, once, as an explicit close would.
    fn drop(&mut self)
        opens_invariants none
        no_unwind
    {
        self.close_once();
    }
}

// ---------------------------------------------------------------------------
// Laws of the session model.
// ---------------------------------------------------------------------------

/// A method after close answers `closed` and changes nothing.
pub proof fn law_closed_session_is_absorbing(s: SessionState, call: ScriptCallView)
    requires
        s.closed,
    ensures
        spec_call(s, call) == (
            CallOutcome::Failed(plain_error_view(ErrorClass::Closed, "connection is closed"@)),
            s,
        ),
{
}

/// Closing is idempotent.
pub proof fn law_close_is_idempotent(s: SessionState)
    ensures
        closed_state(closed_state(s)) == closed_state(s),
{
}

/// No retry and no replay: a call on an open session consumes exactly the
/// next step, a call on a closed one consumes none, and the ceilings never
/// change.
pub proof fn law_each_call_consumes_one_step(s: SessionState, call: ScriptCallView)
    ensures
        ({
            let next = spec_call(s, call).1;
            &&& next.limits == s.limits
            &&& (!s.closed && s.pending.len() > 0) ==> next.pending == s.pending.drop_first()
            &&& (s.closed || s.pending.len() == 0) ==> next.pending == s.pending
            &&& s.closed ==> next.closed
        }),
{
}

/// An open session closes exactly when a call answers a terminal failure;
/// a server error or an unsupported response leaves it open.
pub proof fn law_session_closes_exactly_on_terminal_failure(s: SessionState, call: ScriptCallView)
    requires
        !s.closed,
    ensures
        ({
            let (answer, next) = spec_call(s, call);
            match answer {
                CallOutcome::Failed(e) => next.closed == is_terminal(e.class),
                _ => !next.closed,
            }
        }),
{
}

// ---------------------------------------------------------------------------
// Laws of the value accounting and of admission.
// ---------------------------------------------------------------------------

/// Each cell counts what its tag carries: nothing for null, eight bytes for
/// a signed, unsigned or floating number whatever its value, the UTF-8 byte
/// length of the lexeme for a decimal, text or temporal value, and the
/// payload length for bytes.
pub proof fn law_cell_logical_bytes(i: i64, u: u64, f: u64, text: Seq<char>, bytes: Seq<u8>)
    ensures
        cell_bytes(CellView::Null) == 0,
        cell_bytes(CellView::Signed(i)) == 8,
        cell_bytes(CellView::Unsigned(u)) == 8,
        cell_bytes(CellView::Floating(f)) == 8,
        cell_bytes(CellView::Decimal(text)) == utf8_len(text),
        cell_bytes(CellView::Text(text)) == utf8_len(text),
        cell_bytes(CellView::Temporal(text)) == utf8_len(text),
        cell_bytes(CellView::Bytes(bytes)) == bytes.len(),
{
}

/// Appending a cell to a row raises the row's count by that cell's logical
/// bytes, and appending a row raises the row set's count by the row's.
pub proof fn law_counts_add_up(rows: Seq<Seq<CellView>>, cells: Seq<CellView>, cell: CellView)
    ensures
        cells_bytes(cells.push(cell)) == cells_bytes(cells) + cell_bytes(cell),
        rows_bytes(rows.push(cells)) == rows_bytes(rows) + cells_bytes(cells),
{
    assert(cells.push(cell).drop_last() =~= cells);
    assert(rows.push(cells).drop_last() =~= rows);
}

/// A null cell fits every column, and a cell of each other tag fits exactly
/// the columns whose declared type has the same name.
pub proof fn law_cell_tag_fits_its_column_type(
    column: ColumnView,
    i: i64,
    u: u64,
    f: u64,
    text: Seq<char>,
    bytes: Seq<u8>,
)
    ensures
        cell_fits(CellView::Null, column),
        cell_fits(CellView::Signed(i), column) <==> column.column_type == ColumnType::Signed,
        cell_fits(CellView::Unsigned(u), column) <==> column.column_type == ColumnType::Unsigned,
        cell_fits(CellView::Floating(f), column) <==> column.column_type == ColumnType::Floating,
        cell_fits(CellView::Decimal(text), column) <==> column.column_type == ColumnType::Decimal,
        cell_fits(CellView::Text(text), column) <==> column.column_type == ColumnType::Text,
        cell_fits(CellView::Bytes(bytes), column) <==> column.column_type == ColumnType::Bytes,
        cell_fits(CellView::Temporal(text), column) <==> column.column_type
            == ColumnType::Temporal,
{
}

/// A command counts eight bytes of affected rows and four of warnings, and
/// eight more exactly when it carries an insert id, whatever the counts hold;
/// it is admitted exactly when that count is within the byte ceiling.
pub proof fn law_command_logical_bytes(command: CommandResult, limits: ResultLimits)
    ensures
        command_bytes(command) == 12 + (if command.last_insert_id is Some {
            8int
        } else {
            0int
        }),
        command_admitted(command, limits) <==> match limits.max_result_bytes {
            Some(maximum) => 12 + (if command.last_insert_id is Some {
                8int
            } else {
                0int
            }) <= maximum,
            None => true,
        },
{
}

/// A row set is admitted exactly when it has at most `u32::MAX` rows, within
/// the row ceiling, its shape is sound, and its logical bytes fit in `u64`
/// and within the byte ceiling; an empty row set is no exception.
pub proof fn law_row_set_admission_conditions(rows: RowSetView, limits: ResultLimits)
    ensures
        row_set_verdict(rows, limits) is Ok <==> {
            &&& rows.rows.len() <= u32::MAX
            &&& (limits.max_rows matches Some(m) ==> rows.rows.len() <= m)
            &&& row_set_well_formed(rows)
            &&& row_set_bytes(rows) <= u64::MAX
            &&& (limits.max_result_bytes matches Some(m) ==> row_set_bytes(rows) <= m)
        },
{
    lemma_row_set_bytes_nonneg(rows);
}

/// On an open session whose next step is this query with a row set, the
/// answer is exactly the admission of that row set: admitted, of any length
/// (none included), it comes back whole and the session stays open; refused,
/// the call fails with admission's class and the session closes.
pub proof fn law_matched_query_answer_is_admission(s: SessionState, sql: Seq<char>, rows: RowSetView)
    requires
        !s.closed,
        s.pending.len() > 0,
        s.pending[0].call == ScriptCallView::Query(sql),
        s.pending[0].outcome == ScriptOutcomeView::Rows(rows),
    ensures
        ({
            let (answer, next) = spec_call(s, ScriptCallView::Query(sql));
            let rest = SessionState { pending: s.pending.drop_first(), ..s };
            &&& row_set_verdict(rows, s.limits) is Ok ==> (answer == CallOutcome::Rows(rows)
                && next == rest)
            &&& row_set_verdict(rows, s.limits) is Err ==> ((answer matches CallOutcome::Failed(e)
                && e.class == row_set_verdict(rows, s.limits)->Err_0) && next == closed_state(rest))
        }),
{
}

/// On an open session whose next step is this exec with a command, an
/// admitted command comes back whole and the session stays open; a refused
/// one fails with `limit` and closes the session.
pub proof fn law_matched_exec_answer_is_admission(
    s: SessionState,
    sql: Seq<char>,
    command: CommandResult,
)
    requires
        !s.closed,
        s.pending.len() > 0,
        s.pending[0].call == ScriptCallView::Exec(sql),
        s.pending[0].outcome == ScriptOutcomeView::Command(command),
    ensures
        ({
            let (answer, next) = spec_call(s, ScriptCallView::Exec(sql));
            let rest = SessionState { pending: s.pending.drop_first(), ..s };
            &&& command_admitted(command, s.limits) ==> (answer == CallOutcome::Command(command)
                && next == rest)
            &&& !command_admitted(command, s.limits) ==> ((answer matches CallOutcome::Failed(e)
                && e.class == ErrorClass::Limit) && next == closed_state(rest))
        }),
{
}

/// A column counts the UTF-8 byte lengths of its catalog, schema, table,
/// original table, name and original name, and nothing of its numbers or types.
pub proof fn law_column_logical_bytes(column: ColumnView)
    ensures
        column_bytes(column) == utf8_len(column.catalog) + utf8_len(column.schema) + utf8_len(
            column.table,
        ) + utf8_len(column.original_table) + utf8_len(column.name) + utf8_len(
            column.original_name,
        ),
        column_bytes(column) == column_bytes(
            ColumnView {
                vendor_type: 0,
                charset: 0,
                collation: 0,
                flags: 0,
                column_type: ColumnType::Null,
                temporal_type: None,
                ..column
            },
        ),
{
}

/// A column's shape is sound exactly when it carries a temporal type if and
/// only if it is a temporal column; a row fits exactly when it has one cell
/// per column and each cell fits its column.
pub proof fn law_shape_rules(column: ColumnView, row: Seq<CellView>, columns: Seq<ColumnView>)
    ensures
        column_shape_ok(column) <==> ((column.column_type == ColumnType::Temporal)
            <==> column.temporal_type is Some),
        row_fits(row, columns) <==> (row.len() == columns.len() && forall|i: int|
            0 <= i < columns.len() ==> #[trigger] cell_fits(row[i], columns[i])),
{
}

/// The count of a row set is `protocol` exactly when its shape is unsound,
/// and otherwise its logical bytes, or `limit` when they pass `u64`.
pub proof fn law_row_set_count(rows: RowSetView)
    ensures
        spec_row_set_bytes(rows) == Err::<u64, ErrorClass>(ErrorClass::Protocol) <==> !row_set_well_formed(rows),
        row_set_well_formed(rows) && row_set_bytes(rows) > u64::MAX ==> spec_row_set_bytes(rows)
            == Err::<u64, ErrorClass>(ErrorClass::Limit),
        row_set_well_formed(rows) && row_set_bytes(rows) <= u64::MAX ==> (spec_row_set_bytes(rows)
            matches Ok(n) && n == row_set_bytes(rows)),
{
    lemma_row_set_bytes_nonneg(rows);
}

/// Transport, protocol, encoding, limit and timeout failures are terminal;
/// invalid, authentication, server, closed and unsupported are not.
pub proof fn law_terminal_classes()
    ensures
        is_terminal(ErrorClass::Transport),
        is_terminal(ErrorClass::Protocol),
        is_terminal(ErrorClass::Encoding),
        is_terminal(ErrorClass::Limit),
        is_terminal(ErrorClass::Timeout),
        !is_terminal(ErrorClass::Invalid),
        !is_terminal(ErrorClass::Authentication),
        !is_terminal(ErrorClass::Server),
        !is_terminal(ErrorClass::Closed),
        !is_terminal(ErrorClass::Unsupported),
{
}

/// A call on an open session that finds no next step, or a next step for a
/// different call, fails with `protocol` and closes the session; a different
/// step is consumed, so it is never replayed.
pub proof fn law_unmatched_call_is_protocol(s: SessionState, call: ScriptCallView)
    requires
        !s.closed,
        s.pending.len() == 0 || s.pending[0].call != call,
    ensures
        ({
            let (answer, next) = spec_call(s, call);
            &&& answer matches CallOutcome::Failed(e) && e.class == ErrorClass::Protocol
            &&& next.closed
            &&& next.limits == s.limits
            &&& next.pending == if s.pending.len() == 0 {
                s.pending
            } else {
                s.pending.drop_first()
            }
        }),
{
}

/// A successful answer is the whole transcript response and lies within the
/// session's ceilings: no short or partial result looks complete.
pub proof fn law_success_is_whole_and_within_limits(s: SessionState, call: ScriptCallView)
    ensures
        ({
            let answer = spec_call(s, call).0;
            &&& answer matches CallOutcome::Rows(rows) ==> {
                &&& !s.closed && s.pending.len() > 0
                &&& s.pending[0].call == call
                &&& call is Query
                &&& s.pending[0].outcome == ScriptOutcomeView::Rows(rows)
                &&& row_set_verdict(rows, s.limits) is Ok
            }
            &&& answer matches CallOutcome::Command(command) ==> {
                &&& !s.closed && s.pending.len() > 0
                &&& s.pending[0].call == call
                &&& call is Exec
                &&& s.pending[0].outcome == ScriptOutcomeView::Command(command)
                &&& command_admitted(command, s.limits)
            }
        }),
{
}

/// Counting one close event per step from open to closed, a session's count
/// is one when it is closed and zero otherwise, before and after every call
/// and after close: it is closed at most once.
pub proof fn law_session_closes_at_most_once(s: SessionState, call: ScriptCallView)
    ensures
        ({
            let next = spec_call(s, call).1;
            (if s.closed {
                1nat
            } else {
                0nat
            }) + closes_added(s, next) == (if next.closed {
                1nat
            } else {
                0nat
            })
        }),
        (if s.closed {
            1nat
        } else {
            0nat
        }) + closes_added(s, closed_state(s)) == 1,
{
}

} // verus!



