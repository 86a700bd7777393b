//! The deterministic, authority-free SQL 0.2 conformance fixture driver: a
//! typed row set, a same-session temporary table, and distinct terminal and
//! non-terminal failures.
use vstd::prelude::*;

use crate::text::{text_len, text_is};
use crate::sql_v02::{
    Cell, CellView, Column, ColumnType, ColumnView, CommandResult, ConnectOptions, Error,
    ErrorClass, ErrorView, Row, RowSet, RowSetView, TemporalType, cell_bytes, cells_bytes,
    column_bytes, columns_bytes, command_bytes, lemma_sum_of_nonneg, lemma_sum_of_prefix_le,
    lemma_sum_of_take_step, lemma_sum_of_whole, lemma_row_set_bytes_nonneg, plain_error_view, row_set_bytes, rows_bytes,
    sum_of, spec_row_set_bytes, row_set_well_formed, column_shape_ok, row_fits, cell_fits, within_bytes, within_rows, is_terminal, error, options_valid,
};

verus! {

/// The server rejection the fixture reports for `ERROR server`.
pub open spec fn server_rejection() -> ErrorView {
    ErrorView {
        class: ErrorClass::Server,
        vendor_code: Some(1201),
        sqlstate: Some("HY000"@),
        message: "fixture rejection"@,
    }
}

fn server_error() -> (e: Error)
    ensures
        e@ == server_rejection(),
{
    Error {
        class: ErrorClass::Server,
        vendor_code: Some(1201),
        sqlstate: Some("HY000".to_owned()),
        message: "fixture rejection".to_owned(),
    }
}

/// The metadata of one fixture column.
pub open spec fn fixture_column(
    name: Seq<char>,
    vendor_type: u32,
    column_type: ColumnType,
    temporal_type: Option<TemporalType>,
) -> ColumnView {
    ColumnView {
        catalog: Seq::empty(),
        schema: Seq::empty(),
        table: "fixture"@,
        original_table: "fixture"@,
        name,
        original_name: name,
        vendor_type,
        charset: 0,
        collation: 0,
        flags: 0,
        column_type,
        temporal_type,
    }
}

fn column(
    name: &str,
    vendor_type: u32,
    column_type: ColumnType,
    temporal_type: Option<TemporalType>,
) -> (c: Column)
    ensures
        c@ == fixture_column(name@, vendor_type, column_type, temporal_type),
{
    Column {
        catalog: String::new(),
        schema: String::new(),
        table: "fixture".to_owned(),
        original_table: "fixture".to_owned(),
        name: name.to_owned(),
        original_name: name.to_owned(),
        vendor_type,
        charset: 0,
        collation: 0,
        flags: 0,
        column_type,
        temporal_type,
    }
}

/// The bit pattern of the binary64 negative zero.
pub open spec fn negative_zero_bits() -> u64 {
    0x8000_0000_0000_0000
}

/// One row holding every cell tag at an extreme or exact value.
pub open spec fn typed_rows_view() -> RowSetView {
    RowSetView {
        columns: seq![
            fixture_column("null"@, 6, ColumnType::Null, None),
            fixture_column("signed"@, 8, ColumnType::Signed, None),
            fixture_column("unsigned"@, 8, ColumnType::Unsigned, None),
            fixture_column("floating"@, 5, ColumnType::Floating, None),
            fixture_column("decimal"@, 246, ColumnType::Decimal, None),
            fixture_column("text"@, 253, ColumnType::Text, None),
            fixture_column("bytes"@, 252, ColumnType::Bytes, None),
            fixture_column("temporal"@, 7, ColumnType::Temporal, Some(TemporalType::TimestampWithTimeZone)),
        ],
        rows: seq![
            seq![
                CellView::Null,
                CellView::Signed(i64::MIN),
                CellView::Unsigned(u64::MAX),
                CellView::Floating(negative_zero_bits()),
                CellView::Decimal("001.2300"@),
                CellView::Text("snowman ☃"@),
                CellView::Bytes(seq![0u8, 255u8, 128u8]),
                CellView::Temporal("2026-08-30 12:34:56.000001+05:45"@),
            ],
        ],
    }
}

fn typed_rows() -> (r: RowSet)
    ensures
        r@ == typed_rows_view(),
{
    let columns = vec![
        column("null", 6, ColumnType::Null, None),
        column("signed", 8, ColumnType::Signed, None),
        column("unsigned", 8, ColumnType::Unsigned, None),
        column("floating", 5, ColumnType::Floating, None),
        column("decimal", 246, ColumnType::Decimal, None),
        column("text", 253, ColumnType::Text, None),
        column("bytes", 252, ColumnType::Bytes, None),
        column("temporal", 7, ColumnType::Temporal, Some(TemporalType::TimestampWithTimeZone)),
    ];
    let cells = vec![
        Cell::Null,
        Cell::Signed(i64::MIN),
        Cell::Unsigned(u64::MAX),
        Cell::Floating(0x8000_0000_0000_0000),
        Cell::Decimal("001.2300".to_owned()),
        Cell::Text("snowman ☃".to_owned()),
        Cell::Bytes(vec![0, 255, 128]),
        Cell::Temporal("2026-08-30 12:34:56.000001+05:45".to_owned()),
    ];
    let rows = vec![Row { cells }];
    let r = RowSet { columns, rows };
    assert(r@.columns =~= typed_rows_view().columns);
    assert(r@.rows[0] =~= typed_rows_view().rows[0]);
    assert(r@.rows =~= typed_rows_view().rows);
    r
}

/// The temporary table as a row set: one signed column, one row per value.
pub open spec fn temporary_rows_view(values: Seq<i64>) -> RowSetView {
    RowSetView {
        columns: seq![fixture_column("value"@, 8, ColumnType::Signed, None)],
        rows: values.map_values(|v: i64| seq![CellView::Signed(v)]),
    }
}

fn temporary_rows(values: &Vec<i64>) -> (r: RowSet)
    ensures
        r@ == temporary_rows_view(values@),
{
    let columns = vec![column("value", 8, ColumnType::Signed, None)];
    let mut rows: Vec<Row> = Vec::new();
    let n = values.len();
    let mut i: usize = 0;
    while i < n
        invariant
            n == values@.len(),
            i <= n,
            rows@.len() == i,
            forall|k: int| 0 <= k < i ==> #[trigger] rows@[k]@ == seq![CellView::Signed(values@[k])],
        decreases n - i,
    {
        let row = Row { cells: vec![Cell::Signed(values[i])] };
        assert(row@ =~= seq![CellView::Signed(values@[i as int])]);
        rows.push(row);
        i = i + 1;
    }
    let r = RowSet { columns, rows };
    assert(r@.columns =~= temporary_rows_view(values@).columns);
    assert(r@.rows =~= temporary_rows_view(values@).rows);
    r
}

/// What the fixture's unvalidated byte count returns: the logical bytes of
/// the row set when they fit in `u64`.
pub open spec fn spec_fixture_bytes(rows: RowSetView) -> Option<u64> {
    if row_set_bytes(rows) <= u64::MAX {
        Some(row_set_bytes(rows) as u64)
    } else {
        None
    }
}

fn add_bytes(total: u64, more: u64) -> (r: Option<u64>)
    ensures
        total + more <= u64::MAX ==> r == Some((total + more) as u64),
        total + more > u64::MAX ==> r is None,
{
    total.checked_add(more)
}

fn column_len(total: u64, column: &Column) -> (r: Option<u64>)
    ensures
        total + column_bytes(column@) <= u64::MAX ==> r == Some(
            (total + column_bytes(column@)) as u64,
        ),
        total + column_bytes(column@) > u64::MAX ==> r is None,
{
    let t = add_bytes(total, text_len(&column.catalog))?;
    let t = add_bytes(t, text_len(&column.schema))?;
    let t = add_bytes(t, text_len(&column.table))?;
    let t = add_bytes(t, text_len(&column.original_table))?;
    let t = add_bytes(t, text_len(&column.name))?;
    add_bytes(t, text_len(&column.original_name))
}

/// The fixture's checked logical-byte count. It does not check the row
/// set's shape.
pub fn logical_row_set_bytes(row_set: &RowSet) -> (r: Option<u64>)
    ensures
        r == spec_fixture_bytes(row_set@),
{
    let ghost colf = |c: ColumnView| column_bytes(c);
    let ghost rowf = |x: Seq<CellView>| cells_bytes(x);
    let ghost cellf = |c: CellView| cell_bytes(c);
    let ghost v = row_set@;
    proof {
        assert forall|x: Seq<CellView>| #[trigger] rowf(x) >= 0 by {
            lemma_sum_of_nonneg(x, cellf);
        }
        lemma_sum_of_nonneg(v.rows, rowf);
        lemma_sum_of_nonneg(v.columns, colf);
    }
    let ncols = row_set.columns.len();
    let mut total: u64 = 0;
    let mut i: usize = 0;
    while i < ncols
        invariant
            v == row_set@,
            ncols == v.columns.len(),
            i <= ncols,
            total == sum_of(v.columns.take(i as int), colf),
            colf == (|c: ColumnView| column_bytes(c)),
            rows_bytes(v.rows) >= 0,
        decreases ncols - i,
    {
        proof {
            lemma_sum_of_take_step(v.columns, colf, i as int);
            lemma_sum_of_prefix_le(v.columns, colf, i + 1);
        }
        total = column_len(total, &row_set.columns[i])?;
        i = i + 1;
    }
    proof {
        lemma_sum_of_whole(v.columns, colf);
    }
    let nrows = row_set.rows.len();
    let mut r: usize = 0;
    while r < nrows
        invariant
            v == row_set@,
            nrows == v.rows.len(),
            r <= nrows,
            total == columns_bytes(v.columns) + sum_of(v.rows.take(r as int), rowf),
            rowf == (|x: Seq<CellView>| cells_bytes(x)),
            cellf == (|c: CellView| cell_bytes(c)),
            forall|x: Seq<CellView>| #[trigger] rowf(x) >= 0,
        decreases nrows - r,
    {
        let row = &row_set.rows[r];
        let ghost cells = row@;
        assert(v.rows[r as int] == cells);
        proof {
            lemma_sum_of_take_step(v.rows, rowf, r as int);
            lemma_sum_of_prefix_le(v.rows, rowf, r + 1);
            lemma_sum_of_nonneg(cells, cellf);
        }
        let ncells = row.cells.len();
        let mut c: usize = 0;
        while c < ncells
            invariant
                v == row_set@,
                ncells == cells.len(),
                cells == row@,
                c <= ncells,
                total == columns_bytes(v.columns) + sum_of(v.rows.take(r as int), rowf) + sum_of(
                    cells.take(c as int),
                    cellf,
                ),
                cellf == (|x: CellView| cell_bytes(x)),
                columns_bytes(v.columns) + sum_of(v.rows.take(r as int), rowf) + cells_bytes(cells)
                    <= row_set_bytes(v),
            decreases ncells - c,
        {
            assert(cells[c as int] == row.cells@[c as int]@);
            proof {
                lemma_sum_of_take_step(cells, cellf, c as int);
                lemma_sum_of_prefix_le(cells, cellf, c + 1);
            }
            total = add_bytes(total, row.cells[c].logical_bytes())?;
            c = c + 1;
        }
        proof {
            lemma_sum_of_whole(cells, cellf);
        }
        r = r + 1;
    }
    proof {
        lemma_sum_of_whole(v.rows, rowf);
    }
    Some(total)
}

/// The message with which the fixture refuses a row set, or `None` when it
/// admits it. Every refusal is a terminal `limit`.
pub open spec fn fixture_row_refusal(
    rows: RowSetView,
    max_rows: Option<u32>,
    max_result_bytes: Option<u64>,
) -> Option<Seq<char>> {
    let count = rows.rows.len() as int;
    if count > u32::MAX || !within_rows(count, max_rows) {
        Some("fixture row limit"@)
    } else if row_set_bytes(rows) > u64::MAX {
        Some("fixture byte overflow"@)
    } else if !within_bytes(row_set_bytes(rows), max_result_bytes) {
        Some("fixture byte limit"@)
    } else {
        None
    }
}

/// The three literal statements the fixture knows for `exec`, and their
/// command results.
pub open spec fn create_command() -> CommandResult {
    CommandResult { affected_rows: 0, last_insert_id: None, warnings: 0 }
}

pub open spec fn insert_command() -> CommandResult {
    CommandResult { affected_rows: 1, last_insert_id: Some(0), warnings: 2 }
}

/// The abstract state of one fixture session.
pub struct FixtureState {
    pub closed: bool,
    pub temporary: Seq<i64>,
    pub max_rows: Option<u32>,
    pub max_result_bytes: Option<u64>,
}

/// A state's answer to a row set, and whether the session closes.
pub open spec fn admit_rows_outcome(s: FixtureState, rows: RowSetView) -> (Result<RowSetView, ErrorView>, bool) {
    match fixture_row_refusal(rows, s.max_rows, s.max_result_bytes) {
        Some(message) => (Err(plain_error_view(ErrorClass::Limit, message)), true),
        None => (Ok(rows), s.closed),
    }
}

/// A state's answer to a command result, and whether the session closes.
pub open spec fn admit_command_outcome(s: FixtureState, command: CommandResult) -> (Result<CommandResult, ErrorView>, bool) {
    if within_bytes(command_bytes(command) as int, s.max_result_bytes) {
        (Ok(command), s.closed)
    } else {
        (Err(plain_error_view(ErrorClass::Limit, "fixture byte limit"@)), true)
    }
}

/// What `query` answers, and whether the session is closed afterwards.
pub open spec fn fixture_query(s: FixtureState, sql: Seq<char>) -> (Result<RowSetView, ErrorView>, bool) {
    if s.closed {
        (Err(plain_error_view(ErrorClass::Closed, "connection is closed"@)), true)
    } else if sql == "SELECT typed"@ {
        admit_rows_outcome(s, typed_rows_view())
    } else if sql == "SELECT value FROM conformance"@ {
        admit_rows_outcome(s, temporary_rows_view(s.temporary))
    } else if sql == "COMMAND"@ {
        (Err(plain_error_view(ErrorClass::Unsupported, "query received a command response"@)), false)
    } else if sql == "ERROR server"@ {
        (Err(server_rejection()), false)
    } else if sql == "ERROR timeout"@ {
        (Err(plain_error_view(ErrorClass::Timeout, "fixture timeout"@)), true)
    } else if sql == "ERROR transport"@ {
        (Err(plain_error_view(ErrorClass::Transport, "fixture transport failure"@)), true)
    } else {
        (
            Err(plain_error_view(ErrorClass::Unsupported, "statement is outside the conformance fixture"@)),
            false,
        )
    }
}

/// The temporary table after `exec` of `sql` on an open session.
pub open spec fn fixture_exec_table(s: FixtureState, sql: Seq<char>) -> Seq<i64> {
    if s.closed {
        s.temporary
    } else if sql == "CREATE TEMPORARY TABLE conformance(value BIGINT)"@ {
        Seq::empty()
    } else if sql == "INSERT INTO conformance VALUES (7)"@ {
        s.temporary.push(7)
    } else {
        s.temporary
    }
}

/// What `exec` answers, and whether the session is closed afterwards.
pub open spec fn fixture_exec(s: FixtureState, sql: Seq<char>) -> (Result<CommandResult, ErrorView>, bool) {
    if s.closed {
        (Err(plain_error_view(ErrorClass::Closed, "connection is closed"@)), true)
    } else if sql == "CREATE TEMPORARY TABLE conformance(value BIGINT)"@ {
        admit_command_outcome(s, create_command())
    } else if sql == "INSERT INTO conformance VALUES (7)"@ {
        admit_command_outcome(s, insert_command())
    } else if sql == "SELECT typed"@ {
        (Err(plain_error_view(ErrorClass::Unsupported, "exec received a row response"@)), false)
    } else if sql == "ERROR server"@ {
        (Err(server_rejection()), false)
    } else {
        (
            Err(plain_error_view(ErrorClass::Unsupported, "statement is outside the conformance fixture"@)),
            false,
        )
    }
}

/// The 0.2 fixture driver.
pub struct Fixture;

/// One fixture session.
#[derive(Debug)]
pub struct FixtureConnection {
    closed: bool,
    temporary: Vec<i64>,
    max_rows: Option<u32>,
    max_result_bytes: Option<u64>,
}

impl Fixture {
    /// Refuses options without an endpoint or a secret name with `invalid`;
    /// otherwise opens a session with an empty temporary table and the
    /// caller's ceilings.
    pub fn connect(options: ConnectOptions) -> (r: Result<FixtureConnection, Error>)
        ensures
            r is Ok <==> options_valid(options),
            r matches Err(e) ==> e@ == plain_error_view(
                ErrorClass::Invalid,
                "endpoint and secret names must not be empty"@,
            ),
            r matches Ok(c) ==> c.state() == (FixtureState {
                closed: false,
                temporary: Seq::empty(),
                max_rows: options.max_rows,
                max_result_bytes: options.max_result_bytes,
            }),
    {
        if options.endpoint.as_str().is_empty() || options.username_secret.as_str().is_empty()
            || options.password_secret.as_str().is_empty() {
            return Err(error(ErrorClass::Invalid, "endpoint and secret names must not be empty"));
        }
        Ok(FixtureConnection::new(options.max_rows, options.max_result_bytes))
    }
}

impl FixtureConnection {
    pub closed spec fn state(&self) -> FixtureState {
        FixtureState {
            closed: self.closed,
            temporary: self.temporary@,
            max_rows: self.max_rows,
            max_result_bytes: self.max_result_bytes,
        }
    }

    /// An open session with an empty temporary table and the given ceilings.
    pub fn new(max_rows: Option<u32>, max_result_bytes: Option<u64>) -> (c: Self)
        ensures
            c.state() == (FixtureState {
                closed: false,
                temporary: Seq::empty(),
                max_rows,
                max_result_bytes,
            }),
    {
        FixtureConnection { closed: false, temporary: Vec::new(), max_rows, max_result_bytes }
    }

    fn terminal(&mut self, class: ErrorClass, message: &str) -> (e: Error)
        ensures
            e@ == plain_error_view(class, message@),
            final(self).state() == (FixtureState { closed: true, ..old(self).state() }),
    {
        self.closed = true;
        error(class, message)
    }

    fn admit_rows(&mut self, rows: RowSet) -> (r: Result<RowSet, Error>)
        ensures
            ({
                let (answer, closed) = admit_rows_outcome(old(self).state(), rows@);
                &&& match (r, answer) {
                    (Ok(v), Ok(w)) => v == rows && v@ == w,
                    (Err(e), Err(w)) => e@ == w,
                    _ => false,
                }
                &&& final(self).state() == (FixtureState { closed, ..old(self).state() })
            }),
    {
        let count = rows.rows.len();
        if count > u32::MAX as usize {
            return Err(self.terminal(ErrorClass::Limit, "fixture row limit"));
        }
        if let Some(maximum) = self.max_rows {
            if count as u32 > maximum {
                return Err(self.terminal(ErrorClass::Limit, "fixture row limit"));
            }
        }
        proof {
            lemma_row_set_bytes_nonneg(rows@);
        }
        let bytes = match logical_row_set_bytes(&rows) {
            Some(bytes) => bytes,
            None => {
                return Err(self.terminal(ErrorClass::Limit, "fixture byte overflow"));
            },
        };
        if let Some(maximum) = self.max_result_bytes {
            if bytes > maximum {
                return Err(self.terminal(ErrorClass::Limit, "fixture byte limit"));
            }
        }
        Ok(rows)
    }

    fn admit_command(&mut self, command: CommandResult) -> (r: Result<CommandResult, Error>)
        ensures
            ({
                let (answer, closed) = admit_command_outcome(old(self).state(), command);
                &&& match (r, answer) {
                    (Ok(v), Ok(w)) => v == w,
                    (Err(e), Err(w)) => e@ == w,
                    _ => false,
                }
                &&& final(self).state() == (FixtureState { closed, ..old(self).state() })
            }),
    {
        let bytes: u64 = if command.last_insert_id.is_some() {
            20
        } else {
            12
        };
        if let Some(maximum) = self.max_result_bytes {
            if bytes > maximum {
                return Err(self.terminal(ErrorClass::Limit, "fixture byte limit"));
            }
        }
        Ok(command)
    }

    /// One row-only query of the fixture transcript.
    pub fn query(&mut self, sql: &str) -> (r: Result<RowSet, Error>)
        ensures
            ({
                let (answer, closed) = fixture_query(old(self).state(), sql@);
                &&& match (r, answer) {
                    (Ok(v), Ok(w)) => v@ == w,
                    (Err(e), Err(w)) => e@ == w,
                    _ => false,
                }
                &&& final(self).state() == (FixtureState { closed, ..old(self).state() })
            }),
    {
        if self.closed {
            return Err(error(ErrorClass::Closed, "connection is closed"));
        }
        let rows = if text_is(sql, "SELECT typed") {
            typed_rows()
        } else if text_is(sql, "SELECT value FROM conformance") {
            temporary_rows(&self.temporary)
        } else if text_is(sql, "COMMAND") {
            return Err(error(ErrorClass::Unsupported, "query received a command response"));
        } else if text_is(sql, "ERROR server") {
            return Err(server_error());
        } else if text_is(sql, "ERROR timeout") {
            return Err(self.terminal(ErrorClass::Timeout, "fixture timeout"));
        } else if text_is(sql, "ERROR transport") {
            return Err(self.terminal(ErrorClass::Transport, "fixture transport failure"));
        } else {
            return Err(
                error(ErrorClass::Unsupported, "statement is outside the conformance fixture"),
            );
        };
        self.admit_rows(rows)
    }

    /// One command of the fixture transcript.
    pub fn exec(&mut self, sql: &str) -> (r: Result<CommandResult, Error>)
        ensures
            ({
                let (answer, closed) = fixture_exec(old(self).state(), sql@);
                &&& match (r, answer) {
                    (Ok(v), Ok(w)) => v == w,
                    (Err(e), Err(w)) => e@ == w,
                    _ => false,
                }
                &&& final(self).state() == (FixtureState {
                    closed,
                    temporary: fixture_exec_table(old(self).state(), sql@),
                    ..old(self).state()
                })
            }),
    {
        if self.closed {
            return Err(error(ErrorClass::Closed, "connection is closed"));
        }
        let command = if text_is(sql, "CREATE TEMPORARY TABLE conformance(value BIGINT)") {
            self.temporary.clear();
            CommandResult { affected_rows: 0, last_insert_id: None, warnings: 0 }
        } else if text_is(sql, "INSERT INTO conformance VALUES (7)") {
            self.temporary.push(7);
            CommandResult { affected_rows: 1, last_insert_id: Some(0), warnings: 2 }
        } else if text_is(sql, "SELECT typed") {
            return Err(error(ErrorClass::Unsupported, "exec received a row response"));
        } else if text_is(sql, "ERROR server") {
            return Err(server_error());
        } else {
            return Err(
                error(ErrorClass::Unsupported, "statement is outside the conformance fixture"),
            );
        };
        self.admit_command(command)
    }

    /// Idempotent close.
    pub fn close(&mut self)
        ensures
            final(self).state() == (FixtureState { closed: true, ..old(self).state() }),
    {
        self.closed = true;
    }
}

/// A fixture session closes exactly when a call on it answers a terminal
/// failure; a server error or an unsupported statement leaves it open.
pub proof fn law_fixture_closes_exactly_on_terminal_failure(s: FixtureState, sql: Seq<char>)
    requires
        !s.closed,
    ensures
        ({
            let (answer, closed) = fixture_query(s, sql);
            match answer {
                Ok(_) => !closed,
                Err(e) => closed == is_terminal(e.class),
            }
        }),
        ({
            let (answer, closed) = fixture_exec(s, sql);
            match answer {
                Ok(_) => !closed,
                Err(e) => closed == is_terminal(e.class),
            }
        }),
{
}

/// The typed row set is sound under the SQL 0.2 shape rules and holds one
/// row with every tag once, at its extreme or exact value: null, the least
/// signed and the greatest unsigned integer, negative zero, and the decimal,
/// non-ASCII text, non-UTF-8 bytes and offset timestamp lexemes unchanged.
pub proof fn law_typed_rows_are_sound_and_extreme()
    ensures
        row_set_well_formed(typed_rows_view()),
        typed_rows_view().rows.len() == 1,
        typed_rows_view().rows[0] =~= seq![
            CellView::Null,
            CellView::Signed((-0x8000_0000_0000_0000int) as i64),
            CellView::Unsigned(0xffff_ffff_ffff_ffffu64),
            CellView::Floating(0x8000_0000_0000_0000),
            CellView::Decimal("001.2300"@),
            CellView::Text("snowman ☃"@),
            CellView::Bytes(seq![0u8, 255u8, 128u8]),
            CellView::Temporal("2026-08-30 12:34:56.000001+05:45"@),
        ],
{
    let v = typed_rows_view();
    assert forall|i: int| 0 <= i < v.columns.len() implies #[trigger] column_shape_ok(v.columns[i]) by {
        assert(0 <= i < 8);
    }
    assert forall|r: int| 0 <= r < v.rows.len() implies #[trigger] row_fits(v.rows[r], v.columns) by {
        assert(r == 0);
        assert forall|i: int| 0 <= i < v.columns.len() implies #[trigger] cell_fits(v.rows[r][i], v.columns[i]) by {
            assert(0 <= i < 8);
        }
    }
}

/// `exec` of any statement other than the two table statements leaves the
/// temporary table as it was, and a failure that is not terminal changes no
/// session state at all.
pub proof fn law_fixture_exec_keeps_the_table(s: FixtureState, sql: Seq<char>)
    ensures
        (sql != "CREATE TEMPORARY TABLE conformance(value BIGINT)"@ && sql
            != "INSERT INTO conformance VALUES (7)"@) ==> fixture_exec_table(s, sql) == s.temporary,
        ({
            let (answer, closed) = fixture_exec(s, sql);
            answer matches Err(e) && !is_terminal(e.class) ==> closed == s.closed
                && fixture_exec_table(s, sql) == s.temporary
        }),
        ({
            let (answer, closed) = fixture_query(s, sql);
            answer matches Err(e) && !is_terminal(e.class) ==> closed == s.closed
        }),
{
}

/// All calls of one session observe the same temporary table: a row
/// inserted by `exec` is read back by the next `query`, and recreating the
/// table empties it.
pub proof fn law_fixture_temporary_table_is_session_state(s: FixtureState)
    requires
        !s.closed,
        s.max_rows is None,
        s.max_result_bytes is None,
        s.temporary.len() + 1 <= u32::MAX,
        row_set_bytes(temporary_rows_view(s.temporary.push(7))) <= u64::MAX,
    ensures
        ({
            let insert = "INSERT INTO conformance VALUES (7)"@;
            let select = "SELECT value FROM conformance"@;
            let (answer, closed) = fixture_exec(s, insert);
            let after = FixtureState { closed, temporary: fixture_exec_table(s, insert), ..s };
            &&& answer == Ok::<CommandResult, ErrorView>(insert_command())
            &&& fixture_query(after, select) == (
                Ok::<RowSetView, ErrorView>(temporary_rows_view(s.temporary.push(7))),
                false,
            )
        }),
        fixture_exec_table(s, "CREATE TEMPORARY TABLE conformance(value BIGINT)"@) == Seq::<
            i64,
        >::empty(),
{
    let insert = "INSERT INTO conformance VALUES (7)"@;
    let select = "SELECT value FROM conformance"@;
    reveal_strlit("INSERT INTO conformance VALUES (7)");
    reveal_strlit("SELECT value FROM conformance");
    reveal_strlit("SELECT typed");
    reveal_strlit("CREATE TEMPORARY TABLE conformance(value BIGINT)");
    assert(insert.len() != "CREATE TEMPORARY TABLE conformance(value BIGINT)"@.len());
    assert(select.len() != "SELECT typed"@.len());
}

/// On every row set that the reference model does not refuse for its shape,
/// the fixture's count agrees with the reference count: the same portable
/// logical-byte count when it fits in `u64`, and none exactly when it
/// overflows.
pub proof fn law_fixture_count_agrees_with_reference(rows: RowSetView)
    requires
        spec_row_set_bytes(rows) != Err::<u64, ErrorClass>(ErrorClass::Protocol),
    ensures
        spec_fixture_bytes(rows) == match spec_row_set_bytes(rows) {
            Ok(n) => Some(n),
            Err(_) => None::<u64>,
        },
{
}

} // verus!


