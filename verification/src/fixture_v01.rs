//! The deterministic, authority-free SQL 0.1 conformance fixture driver.
use vstd::prelude::*;

use crate::text::text_is;
use crate::sql::{
    Cell, Column, ColumnView, ConnectOptions, Error, ErrorClass, QueryResult, QueryResultView, Row,
    RowSet, RowSetView, CellView, error, plain_error_view,
};

verus! {

/// The metadata of one fixture column.
pub open spec fn fixture_column(name: Seq<char>, vendor_type: u32) -> ColumnView {
    ColumnView {
        catalog: Seq::empty(),
        schema: Seq::empty(),
        table: "fixture"@,
        original_table: "fixture"@,
        name,
        original_name: name,
        vendor_type,
        charset: 0,
        collation: 0,
        flags: 0,
    }
}

fn column(name: &str, vendor_type: u32) -> (c: Column)
    ensures
        c@ == fixture_column(name@, vendor_type),
{
    Column {
        catalog: String::new(),
        schema: String::new(),
        table: "fixture".to_owned(),
        original_table: "fixture".to_owned(),
        name: name.to_owned(),
        original_name: name.to_owned(),
        vendor_type,
        charset: 0,
        collation: 0,
        flags: 0,
    }
}

/// The lossless row set: a null, a non-ASCII text and non-UTF-8 bytes.
pub open spec fn lossless_rows() -> RowSetView {
    RowSetView {
        columns: seq![
            fixture_column("null"@, 6),
            fixture_column("text"@, 253),
            fixture_column("bytes"@, 252),
        ],
        rows: seq![seq![CellView::Null, CellView::Text("snowman ☃"@), CellView::Bytes(seq![0u8, 255u8, 128u8])]],
    }
}

/// What the fixture answers to `sql` on an open connection.
pub open spec fn fixture_answer(sql: Seq<char>) -> Result<QueryResultView, crate::sql::ErrorView> {
    if sql == "SELECT lossless"@ {
        Ok(QueryResultView::Rows(lossless_rows()))
    } else if sql == "UPDATE fixture"@ {
        Ok(QueryResultView::Command { affected_rows: 1 })
    } else {
        Err(plain_error_view(ErrorClass::Unsupported, "statement is outside the conformance fixture"@))
    }
}

/// The 0.1 fixture driver.
pub struct Fixture;

/// One fixture session.
#[derive(Debug)]
pub struct FixtureConnection {
    closed: bool,
}

impl Fixture {
    /// Every connect succeeds with an open session.
    pub fn connect(options: ConnectOptions) -> (r: Result<FixtureConnection, Error>)
        ensures
            r matches Ok(c) && !c.is_closed(),
    {
        Ok(FixtureConnection { closed: false })
    }
}

impl FixtureConnection {
    pub closed spec fn is_closed(&self) -> bool {
        self.closed
    }

    /// An open session.
    pub fn new() -> (c: Self)
        ensures
            !c.is_closed(),
    {
        FixtureConnection { closed: false }
    }

    /// The combined 0.1 result for the two known statements, `unsupported`
    /// for any other, and `closed` after close.
    pub fn query(&mut self, sql: &str) -> (r: Result<QueryResult, Error>)
        ensures
            final(self).is_closed() == old(self).is_closed(),
            old(self).is_closed() ==> (r matches Err(e) && e@ == plain_error_view(
                ErrorClass::Closed,
                "connection is closed"@,
            )),
            !old(self).is_closed() ==> match (r, fixture_answer(sql@)) {
                (Ok(v), Ok(w)) => v@ == w,
                (Err(e), Err(w)) => e@ == w,
                _ => false,
            },
    {
        if self.closed {
            return Err(error(ErrorClass::Closed, "connection is closed"));
        }
        if text_is(sql, "SELECT lossless") {
            let columns = vec![column("null", 6), column("text", 253), column("bytes", 252)];
            let cells = vec![Cell::Null, Cell::Text("snowman ☃".to_owned()), Cell::Bytes(vec![0, 255, 128])];
            let rows = vec![Row { cells }];
            let result = RowSet { columns, rows };
            assert(result@.columns =~= lossless_rows().columns);
            assert(result@.rows[0] =~= lossless_rows().rows[0]);
            assert(result@.rows =~= lossless_rows().rows);
            Ok(QueryResult::Rows(result))
        } else if text_is(sql, "UPDATE fixture") {
            Ok(QueryResult::Command { affected_rows: 1 })
        } else {
            Err(error(ErrorClass::Unsupported, "statement is outside the conformance fixture"))
        }
    }

    /// Idempotent close.
    pub fn close(&mut self)
        ensures
            final(self).is_closed(),
    {
        self.closed = true;
    }
}

} // verus!
