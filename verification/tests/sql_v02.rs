use sigil_plugin_sdk::sql_v02::{
    admit_command, admit_row_set, checked_add, logical_command_bytes, logical_row_set_bytes, Cell,
    Column, ColumnType, CommandResult, ConnectOptions, Connection, Driver, Error, ErrorClass,
    ResultLimits, Row, RowSet, ScriptCall, ScriptOutcome, ScriptStep, ScriptedDriver,
    SessionSnapshot, TemporalType, ENTRYPOINT,
};

fn options(max_rows: Option<u32>, max_result_bytes: Option<u64>) -> ConnectOptions {
    ConnectOptions {
        endpoint: "database".to_owned(),
        username_secret: "SQL_USER".to_owned(),
        password_secret: "SQL_PASSWORD".to_owned(),
        database: Some("app".to_owned()),
        max_rows,
        max_result_bytes,
    }
}

fn column(name: &str, column_type: ColumnType, temporal_type: Option<TemporalType>) -> Column {
    Column {
        catalog: String::new(),
        schema: String::new(),
        table: "t".to_owned(),
        original_table: "t".to_owned(),
        name: name.to_owned(),
        original_name: name.to_owned(),
        vendor_type: 0,
        charset: 0,
        collation: 0,
        flags: 0,
        column_type,
        temporal_type,
    }
}

fn one_signed(value: i64) -> RowSet {
    RowSet {
        columns: vec![column("value", ColumnType::Signed, None)],
        rows: vec![Row {
            cells: vec![Cell::Signed(value)],
        }],
    }
}

fn command(affected_rows: u64, last_insert_id: Option<u64>, warnings: u32) -> CommandResult {
    CommandResult {
        affected_rows,
        last_insert_id,
        warnings,
    }
}

fn error(class: ErrorClass, message: &str) -> Error {
    Error {
        class,
        vendor_code: None,
        sqlstate: None,
        message: message.to_owned(),
    }
}

#[test]
fn generated_sql_v02_bindings_expose_typed_query_and_command_shapes() {
    let options = ConnectOptions {
        endpoint: "database".to_owned(),
        username_secret: "SQL_USER".to_owned(),
        password_secret: "SQL_PASSWORD".to_owned(),
        database: Some("app".to_owned()),
        max_rows: Some(3),
        max_result_bytes: Some(4_096),
    };
    assert_eq!(options.max_rows, Some(3));
    assert_eq!(options.max_result_bytes, Some(4_096));

    let column = Column {
        catalog: String::new(),
        schema: String::new(),
        table: "events".to_owned(),
        original_table: "events".to_owned(),
        name: "created_at".to_owned(),
        original_name: "created_at".to_owned(),
        vendor_type: 7,
        charset: 45,
        collation: 45,
        flags: 0,
        column_type: ColumnType::Temporal,
        temporal_type: Some(TemporalType::Timestamp),
    };
    assert!(matches!(column.column_type, ColumnType::Temporal));
    assert!(matches!(
        column.temporal_type,
        Some(TemporalType::Timestamp)
    ));

    let cells = [
        Cell::Null,
        Cell::Signed(-1),
        Cell::Unsigned(u64::MAX),
        Cell::Floating((-0.0_f64).to_bits()),
        Cell::Decimal("001.2300".to_owned()),
        Cell::Text("snowman ☃".to_owned()),
        Cell::Bytes(vec![0, 255]),
        Cell::Temporal("2026-08-30 12:34:56.000001".to_owned()),
    ];
    assert_eq!(cells.len(), 8);

    let command = CommandResult {
        affected_rows: u64::MAX,
        last_insert_id: Some(0),
        warnings: 2,
    };
    assert_eq!(command.affected_rows, u64::MAX);
    assert_eq!(command.last_insert_id, Some(0));
    assert_eq!(command.warnings, 2);
    assert_eq!(ENTRYPOINT, "sigil:sql/driver@0.2.0");
}

#[test]
fn logical_accounting_is_portable_and_rejects_type_contradictions() {
    let temporal = "2026-08-30 12:34:56.000001+05:45";
    let rows = RowSet {
        columns: vec![
            column("id", ColumnType::Signed, None),
            column("note", ColumnType::Text, None),
            column(
                "when",
                ColumnType::Temporal,
                Some(TemporalType::TimestampWithTimeZone),
            ),
        ],
        rows: vec![Row {
            cells: vec![
                Cell::Signed(7),
                Cell::Null,
                Cell::Temporal(temporal.to_owned()),
            ],
        }],
    };
    let metadata_bytes = rows
        .columns
        .iter()
        .map(|item| item.logical_bytes().expect("metadata bytes"))
        .sum::<u64>();
    assert_eq!(
        logical_row_set_bytes(&rows),
        Ok(metadata_bytes + 8 + u64::try_from(temporal.len()).expect("temporal length"))
    );
    assert_eq!(logical_command_bytes(&command(0, None, 0)), 12);
    assert_eq!(logical_command_bytes(&command(u64::MAX, Some(0), 2)), 20);

    let mut wrong_width = rows.clone();
    wrong_width.rows[0].cells.pop();
    assert_eq!(
        logical_row_set_bytes(&wrong_width),
        Err(ErrorClass::Protocol)
    );

    let mut wrong_type = rows.clone();
    wrong_type.rows[0].cells[0] = Cell::Text("7".to_owned());
    assert_eq!(
        logical_row_set_bytes(&wrong_type),
        Err(ErrorClass::Protocol)
    );

    let mut missing_temporal_type = rows.clone();
    missing_temporal_type.columns[2].temporal_type = None;
    assert_eq!(
        logical_row_set_bytes(&missing_temporal_type),
        Err(ErrorClass::Protocol)
    );

    let mut unexpected_temporal_type = rows;
    unexpected_temporal_type.columns[0].temporal_type = Some(TemporalType::Vendor);
    assert_eq!(
        logical_row_set_bytes(&unexpected_temporal_type),
        Err(ErrorClass::Protocol)
    );
    assert_eq!(checked_add(u64::MAX, 1), Err(ErrorClass::Limit));
}

#[test]
fn logical_bytes_count_utf8_bytes_labels_and_numbers_exactly() {
    // "t" + "t" + "v" + "v" = 4 label bytes; "é" is two UTF-8 bytes, "☃" three.
    let rows = RowSet {
        columns: vec![
            column("v", ColumnType::Text, None),
            column("w", ColumnType::Floating, None),
            column("x", ColumnType::Bytes, None),
        ],
        rows: vec![
            Row {
                cells: vec![
                    Cell::Text("é☃".to_owned()),
                    Cell::Floating(1.5_f64.to_bits()),
                    Cell::Bytes(vec![1, 2, 3]),
                ],
            },
            Row {
                cells: vec![Cell::Null, Cell::Null, Cell::Null],
            },
        ],
    };
    assert_eq!(logical_row_set_bytes(&rows), Ok(12 + 5 + 8 + 3));
    assert_eq!(column("☃", ColumnType::Null, None).logical_bytes(), Ok(2 + 6));
    assert_eq!(checked_add(u64::MAX - 1, 1), Ok(u64::MAX));
    let empty = RowSet {
        columns: Vec::new(),
        rows: Vec::new(),
    };
    assert_eq!(logical_row_set_bytes(&empty), Ok(0));
}

#[test]
fn caller_limits_only_lower_driver_and_operator_ceilings() {
    let driver = ResultLimits {
        max_rows: Some(10_000),
        max_result_bytes: Some(8_388_608),
    };
    let operator = ResultLimits {
        max_rows: Some(5_000),
        max_result_bytes: Some(4_194_304),
    };
    let widened = ResultLimits::from_options(&options(Some(u32::MAX), Some(u64::MAX)));
    assert_eq!(driver.intersect(operator).intersect(widened), operator);

    let zero = ResultLimits::from_options(&options(Some(0), Some(0)));
    assert_eq!(
        driver.intersect(operator).intersect(zero),
        ResultLimits {
            max_rows: Some(0),
            max_result_bytes: Some(0),
        }
    );

    let rows = one_signed(7);
    let exact_bytes = logical_row_set_bytes(&rows).expect("logical bytes");
    assert!(
        admit_row_set(
            rows.clone(),
            ResultLimits {
                max_rows: Some(1),
                max_result_bytes: Some(exact_bytes),
            },
        )
        .is_ok()
    );
    let byte_error = admit_row_set(
        rows.clone(),
        ResultLimits {
            max_rows: Some(1),
            max_result_bytes: Some(exact_bytes - 1),
        },
    )
    .expect_err("maximum plus one logical byte must fail without output");
    assert_eq!(byte_error.class, ErrorClass::Limit);
    let row_error = admit_row_set(
        rows,
        ResultLimits {
            max_rows: Some(0),
            max_result_bytes: None,
        },
    )
    .expect_err("one row beyond a zero ceiling must fail without output");
    assert_eq!(row_error.class, ErrorClass::Limit);

    assert!(
        admit_command(
            command(0, None, 0),
            ResultLimits {
                max_rows: None,
                max_result_bytes: Some(12),
            },
        )
        .is_ok()
    );
    assert_eq!(
        admit_command(
            command(0, Some(0), 0),
            ResultLimits {
                max_rows: None,
                max_result_bytes: Some(19),
            },
        )
        .expect_err("twenty-byte command must not return a short success")
        .class,
        ErrorClass::Limit
    );

    let empty = RowSet {
        columns: Vec::new(),
        rows: Vec::new(),
    };
    assert_eq!(
        admit_row_set(
            empty.clone(),
            ResultLimits {
                max_rows: Some(0),
                max_result_bytes: Some(0),
            },
        ),
        Ok(empty)
    );
}

#[test]
fn intersection_is_commutative_associative_and_never_widens() {
    let a = ResultLimits {
        max_rows: Some(3),
        max_result_bytes: None,
    };
    let b = ResultLimits {
        max_rows: None,
        max_result_bytes: Some(100),
    };
    let c = ResultLimits {
        max_rows: Some(2),
        max_result_bytes: Some(400),
    };
    assert_eq!(a.intersect(b), b.intersect(a));
    assert_eq!(a.intersect(b).intersect(c), a.intersect(b.intersect(c)));
    assert_eq!(
        a.intersect(b).intersect(c),
        ResultLimits {
            max_rows: Some(2),
            max_result_bytes: Some(100),
        }
    );
    assert_eq!(a.intersect(ResultLimits::default()), a);
    assert_eq!(c.intersect(c), c);
    assert_eq!(
        ResultLimits::default(),
        ResultLimits {
            max_rows: None,
            max_result_bytes: None,
        }
    );
}

#[test]
fn admission_refusals_name_their_class_and_message() {
    let rows = one_signed(7);
    let exact = logical_row_set_bytes(&rows).expect("bytes");
    let tight = ResultLimits {
        max_rows: Some(1),
        max_result_bytes: Some(exact - 1),
    };
    let loose = ResultLimits {
        max_rows: Some(1),
        max_result_bytes: Some(exact),
    };
    let error = admit_row_set(rows.clone(), tight).expect_err("byte ceiling");
    assert_eq!(error.message, "result bytes exceed the result ceiling");
    assert_eq!(error.vendor_code, None);
    assert_eq!(error.sqlstate, None);
    let rows_error = admit_row_set(
        rows.clone(),
        ResultLimits {
            max_rows: Some(0),
            max_result_bytes: None,
        },
    )
    .expect_err("row ceiling");
    assert_eq!(rows_error.message, "row count exceeds the result ceiling");
    // Under the intersection the same set is refused exactly when one layer refuses it.
    assert!(admit_row_set(rows.clone(), loose).is_ok());
    assert!(admit_row_set(rows.clone(), loose.intersect(tight)).is_err());
    let mut bad = rows;
    bad.rows[0].cells.clear();
    let protocol = admit_row_set(bad, ResultLimits::default()).expect_err("shape");
    assert_eq!(protocol.class, ErrorClass::Protocol);
    assert_eq!(
        protocol.message,
        "row metadata and cells contradict the SQL contract"
    );
    let command_error = admit_command(
        command(0, None, 0),
        ResultLimits {
            max_rows: None,
            max_result_bytes: Some(11),
        },
    )
    .expect_err("command ceiling");
    assert_eq!(command_error.message, "command bytes exceed the result ceiling");
    assert_eq!(
        admit_command(command(5, Some(9), 1), ResultLimits::default()),
        Ok(command(5, Some(9), 1))
    );
}

#[test]
fn one_scripted_session_keeps_temporary_state_and_closes_once() {
    let steps = vec![
        ScriptStep {
            call: ScriptCall::Exec(
                "CREATE TEMPORARY TABLE conformance(value BIGINT)".to_owned(),
            ),
            outcome: ScriptOutcome::Command(command(0, None, 0)),
        },
        ScriptStep {
            call: ScriptCall::Exec("INSERT INTO conformance VALUES (7)".to_owned()),
            outcome: ScriptOutcome::Command(command(1, Some(0), 2)),
        },
        ScriptStep {
            call: ScriptCall::Query("SELECT value FROM conformance".to_owned()),
            outcome: ScriptOutcome::Rows(one_signed(7)),
        },
    ];
    let driver = ScriptedDriver::new(
        steps,
        ResultLimits {
            max_rows: Some(10),
            max_result_bytes: Some(4_096),
        },
        ResultLimits::default(),
    );
    let probe = driver.probe();
    {
        let mut connection = driver
            .connect(options(None, None))
            .expect("connect scripted session");
        assert_eq!(
            connection
                .exec("CREATE TEMPORARY TABLE conformance(value BIGINT)")
                .expect("create temporary table"),
            command(0, None, 0)
        );
        assert_eq!(
            connection
                .exec("INSERT INTO conformance VALUES (7)")
                .expect("insert temporary row"),
            command(1, Some(0), 2)
        );
        assert_eq!(
            connection
                .query("SELECT value FROM conformance")
                .expect("query temporary row"),
            one_signed(7)
        );
        assert_eq!(connection.remaining_steps(), 0);
        connection.close();
        connection.close();
        assert_eq!(
            connection
                .query("SELECT value FROM conformance")
                .expect_err("method after close")
                .class,
            ErrorClass::Closed
        );
    }
    assert_eq!(
        probe.snapshot(),
        SessionSnapshot {
            connections: 1,
            calls: 3,
            close_events: 1,
        }
    );
}

#[test]
fn query_and_exec_reject_the_wrong_result_arm_without_false_success() {
    let driver = ScriptedDriver::new(
        vec![
            ScriptStep {
                call: ScriptCall::Query("UPDATE fixture".to_owned()),
                outcome: ScriptOutcome::Command(command(1, None, 0)),
            },
            ScriptStep {
                call: ScriptCall::Exec("SELECT value".to_owned()),
                outcome: ScriptOutcome::Rows(one_signed(7)),
            },
        ],
        ResultLimits::default(),
        ResultLimits::default(),
    );
    let mut connection = driver
        .connect(options(None, None))
        .expect("connect scripted session");
    assert_eq!(
        connection
            .query("UPDATE fixture")
            .expect_err("query must not manufacture empty rows")
            .class,
        ErrorClass::Unsupported
    );
    assert_eq!(
        connection
            .exec("SELECT value")
            .expect_err("exec must not discard rows as a success")
            .class,
        ErrorClass::Unsupported
    );
    assert_eq!(connection.remaining_steps(), 0);
}

#[test]
fn terminal_failures_close_without_retry_but_server_errors_can_continue() {
    let server = Error {
        class: ErrorClass::Server,
        vendor_code: Some(1201),
        sqlstate: Some("HY000".to_owned()),
        message: "fixture rejection".to_owned(),
    };
    let driver = ScriptedDriver::new(
        vec![
            ScriptStep {
                call: ScriptCall::Query("ERROR server".to_owned()),
                outcome: ScriptOutcome::Error(server.clone()),
            },
            ScriptStep {
                call: ScriptCall::Query("SELECT value".to_owned()),
                outcome: ScriptOutcome::Rows(one_signed(7)),
            },
            ScriptStep {
                call: ScriptCall::Query("ERROR timeout".to_owned()),
                outcome: ScriptOutcome::Error(error(ErrorClass::Timeout, "fixture timeout")),
            },
        ],
        ResultLimits::default(),
        ResultLimits::default(),
    );
    let probe = driver.probe();
    let mut connection = driver
        .connect(options(None, None))
        .expect("connect scripted session");
    assert_eq!(
        connection.query("ERROR server").expect_err("server error"),
        server
    );
    assert_eq!(
        connection.query("SELECT value").expect("session continues"),
        one_signed(7)
    );
    assert_eq!(
        connection
            .query("ERROR timeout")
            .expect_err("timeout remains distinct")
            .class,
        ErrorClass::Timeout
    );
    assert_eq!(
        connection
            .query("SELECT value")
            .expect_err("terminal timeout closes session")
            .class,
        ErrorClass::Closed
    );
    assert_eq!(connection.remaining_steps(), 0);
    assert_eq!(probe.snapshot().connections, 1);
    assert_eq!(probe.snapshot().calls, 3);
    assert_eq!(probe.snapshot().close_events, 1);
}

#[test]
fn every_terminal_class_closes_and_drop_is_idempotent() {
    for class in [
        ErrorClass::Transport,
        ErrorClass::Protocol,
        ErrorClass::Encoding,
        ErrorClass::Limit,
        ErrorClass::Timeout,
    ] {
        let driver = ScriptedDriver::new(
            vec![ScriptStep {
                call: ScriptCall::Query("fail".to_owned()),
                outcome: ScriptOutcome::Error(error(class, "terminal fixture error")),
            }],
            ResultLimits::default(),
            ResultLimits::default(),
        );
        let probe = driver.probe();
        {
            let mut connection = driver
                .connect(options(None, None))
                .expect("connect terminal fixture");
            assert_eq!(
                connection
                    .query("fail")
                    .expect_err("terminal failure")
                    .class,
                class
            );
            assert_eq!(
                connection
                    .query("fail")
                    .expect_err("terminal failure closes resource")
                    .class,
                ErrorClass::Closed
            );
        }
        assert_eq!(probe.snapshot().connections, 1);
        assert_eq!(probe.snapshot().calls, 1);
        assert_eq!(probe.snapshot().close_events, 1);
    }

    let driver =
        ScriptedDriver::new(Vec::new(), ResultLimits::default(), ResultLimits::default());
    let probe = driver.probe();
    drop(
        driver
            .connect(options(None, None))
            .expect("connection dropped without explicit close"),
    );
    assert_eq!(probe.snapshot().close_events, 1);
}

#[test]
fn invalid_connect_and_bad_call_order_fail_explicitly() {
    let driver = ScriptedDriver::new(
        vec![ScriptStep {
            call: ScriptCall::Exec("expected".to_owned()),
            outcome: ScriptOutcome::Command(command(0, None, 0)),
        }],
        ResultLimits::default(),
        ResultLimits::default(),
    );
    let mut invalid = options(None, None);
    invalid.endpoint.clear();
    assert_eq!(
        driver
            .connect(invalid)
            .expect_err("empty endpoint must be invalid")
            .class,
        ErrorClass::Invalid
    );
    assert_eq!(driver.probe().snapshot().connections, 0);

    let mut connection = driver.connect(options(None, None)).expect("valid connect");
    assert_eq!(
        connection
            .query("unexpected")
            .expect_err("bad call order must be protocol")
            .class,
        ErrorClass::Protocol
    );
    assert_eq!(
        connection
            .exec("expected")
            .expect_err("protocol failure closes session")
            .class,
        ErrorClass::Closed
    );
}

#[test]
fn positional_metadata_preserves_empty_and_duplicate_labels() {
    let row_set = RowSet {
        columns: vec![
            column("", ColumnType::Signed, None),
            column("duplicate", ColumnType::Decimal, None),
            column(
                "duplicate",
                ColumnType::Temporal,
                Some(TemporalType::Timestamp),
            ),
        ],
        rows: vec![Row {
            cells: vec![
                Cell::Signed(7),
                Cell::Decimal("7.00".to_owned()),
                Cell::Temporal("1970-01-01 00:00:07".to_owned()),
            ],
        }],
    };
    assert_eq!(row_set.columns[0].name, "");
    assert_eq!(row_set.columns[1].name, row_set.columns[2].name);
    assert!(logical_row_set_bytes(&row_set).is_ok());
}

#[test]
fn session_ceilings_are_the_intersection_of_all_layers() {
    let steps = vec![
        ScriptStep {
            call: ScriptCall::Query("SELECT value".to_owned()),
            outcome: ScriptOutcome::Rows(one_signed(7)),
        },
        ScriptStep {
            call: ScriptCall::Exec("UPDATE t".to_owned()),
            outcome: ScriptOutcome::Command(command(1, Some(3), 0)),
        },
    ];
    let exact = logical_row_set_bytes(&one_signed(7)).expect("bytes");
    // The operator allows more, the caller asks for more: the driver's ceiling holds.
    let driver = ScriptedDriver::new(
        steps.clone(),
        ResultLimits {
            max_rows: Some(1),
            max_result_bytes: Some(exact),
        },
        ResultLimits {
            max_rows: Some(5),
            max_result_bytes: None,
        },
    );
    let mut connection = driver
        .connect(options(Some(u32::MAX), Some(u64::MAX)))
        .expect("connect");
    assert_eq!(connection.query("SELECT value"), Ok(one_signed(7)));
    assert_eq!(connection.exec("UPDATE t"), Ok(command(1, Some(3), 0)));
    assert_eq!(connection.remaining_steps(), 0);

    // The caller lowers the byte ceiling below the row set: refused, terminal.
    let lowered = ScriptedDriver::new(steps, ResultLimits::default(), ResultLimits::default());
    let probe = lowered.probe();
    let mut connection = lowered
        .connect(options(None, Some(exact - 1)))
        .expect("connect");
    let failure = connection.query("SELECT value").expect_err("over the caller ceiling");
    assert_eq!(failure.class, ErrorClass::Limit);
    assert_eq!(failure.message, "result bytes exceed the result ceiling");
    assert_eq!(connection.remaining_steps(), 1);
    assert_eq!(
        probe.snapshot(),
        SessionSnapshot {
            connections: 1,
            calls: 1,
            close_events: 1,
        }
    );
}

#[test]
fn each_session_serves_its_own_copy_of_the_transcript() {
    let steps = vec![ScriptStep {
        call: ScriptCall::Query("SELECT value".to_owned()),
        outcome: ScriptOutcome::Rows(one_signed(-3)),
    }];
    let driver = ScriptedDriver::new(steps, ResultLimits::default(), ResultLimits::default());
    let probe = driver.probe();
    let mut first = driver.connect(options(None, None)).expect("first");
    let mut second = driver.connect(options(None, None)).expect("second");
    assert_eq!(first.query("SELECT value"), Ok(one_signed(-3)));
    assert_eq!(second.remaining_steps(), 1);
    assert_eq!(second.query("SELECT value"), Ok(one_signed(-3)));
    let empty = first.query("SELECT value").expect_err("transcript exhausted");
    assert_eq!(empty.class, ErrorClass::Protocol);
    assert_eq!(empty.message, "the conformance transcript has no matching call");
    second.close();
    drop(first);
    drop(second);
    assert_eq!(
        probe.snapshot(),
        SessionSnapshot {
            connections: 2,
            calls: 3,
            close_events: 2,
        }
    );
}

#[test]
fn snapshot_defaults_to_zero() {
    assert_eq!(
        SessionSnapshot::default(),
        SessionSnapshot {
            connections: 0,
            calls: 0,
            close_events: 0,
        }
    );
}
