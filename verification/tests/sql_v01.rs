use sigil_plugin_sdk::host::TlsMode;
use sigil_plugin_sdk::sql::{
    checked_accumulate, Cell, Column, ConnectOptions, Connection, Driver, ErrorClass, MockDriver,
    QueryResult, Row, RowSet,
};
use sigil_plugin_sdk::test_host::{LogLevel, TestHost};

#[test]
fn host_bindings_expose_the_additive_net_policy_modes() {
    let modes = [TlsMode::Disabled, TlsMode::Direct, TlsMode::Upgrade];
    assert!(matches!(modes[0], TlsMode::Disabled));
    assert!(matches!(modes[1], TlsMode::Direct));
    assert!(matches!(modes[2], TlsMode::Upgrade));
}

#[test]
fn test_host_is_closed_and_deterministic() {
    let mut host = TestHost {
        secrets: std::iter::once(("MYSQL_PASSWORD".to_owned(), b"secret".to_vec())).collect(),
        endpoints: std::iter::once("database".to_owned()).collect(),
        random: (0_u8..16).collect(),
        logs: Vec::new(),
    };
    assert_eq!(host.secret("MYSQL_PASSWORD"), Some(b"secret".as_slice()));
    assert_eq!(host.secret("OTHER"), None);
    assert!(host.endpoint_granted("database"));
    assert!(!host.endpoint_granted("internet"));
    assert_eq!(host.deterministic_bytes(4), Some([0, 1, 2, 3].as_slice()));
    assert_eq!(host.deterministic_bytes(17), None);
    host.log(LogLevel::Info, "ready");
    assert_eq!(host.logs, vec![(LogLevel::Info, "ready".to_owned())]);
}

#[test]
fn test_host_random_prefixes_agree_at_the_edges() {
    let host = TestHost {
        random: (0_u8..16).collect(),
        ..TestHost::default()
    };
    assert_eq!(host.deterministic_bytes(0), Some([].as_slice()));
    assert_eq!(host.deterministic_bytes(16).map(<[u8]>::len), Some(16));
    let small = host.deterministic_bytes(3).expect("three bytes");
    let large = host.deterministic_bytes(9).expect("nine bytes");
    assert_eq!(small, &large[..3]);
    assert_eq!(host.secret(""), None);
    assert!(!host.endpoint_granted(""));
}

#[test]
fn test_host_logs_keep_order_and_touch_nothing_else() {
    let mut host = TestHost::default();
    host.log(LogLevel::Debug, "one");
    host.log(LogLevel::Warn, "two ☃");
    assert_eq!(
        host.logs,
        vec![
            (LogLevel::Debug, "one".to_owned()),
            (LogLevel::Warn, "two ☃".to_owned())
        ]
    );
    assert!(host.secrets.is_empty());
    assert!(host.endpoints.is_empty());
    assert!(host.random.is_empty());
}

#[test]
fn every_reference_limit_is_checked_and_mock_lifecycle_is_closed() {
    for maximum in [1_024, 10_000, 100_000, 1_048_575, 1_048_576, 8_388_608] {
        assert_eq!(checked_accumulate(0, 0, maximum), Ok(0));
        assert_eq!(checked_accumulate(0, maximum, maximum), Ok(maximum));
        assert_eq!(
            checked_accumulate(maximum, 1, maximum),
            Err(ErrorClass::Limit)
        );
        assert_eq!(
            checked_accumulate(usize::MAX, 1, maximum),
            Err(ErrorClass::Limit)
        );
    }

    let driver = MockDriver::new(QueryResult::Command { affected_rows: 7 });
    let mut connection = driver
        .connect(ConnectOptions {
            endpoint: "database".to_owned(),
            username_secret: "MYSQL_USER".to_owned(),
            password_secret: "MYSQL_PASSWORD".to_owned(),
            database: Some("app".to_owned()),
        })
        .expect("mock connect");
    assert_eq!(
        connection.query("update t set x = 1"),
        Ok(QueryResult::Command { affected_rows: 7 })
    );
    connection.close();
    connection.close();
    assert_eq!(
        connection
            .query("select 1")
            .expect_err("closed query")
            .class,
        ErrorClass::Closed
    );
}

#[test]
fn accumulating_in_steps_matches_accumulating_once() {
    assert_eq!(checked_accumulate(3, 4, 7), Ok(7));
    assert_eq!(checked_accumulate(7, 0, 7), Ok(7));
    assert_eq!(checked_accumulate(0, 8, 7), Err(ErrorClass::Limit));
    assert_eq!(checked_accumulate(usize::MAX, 0, usize::MAX), Ok(usize::MAX));
    let two_steps = checked_accumulate(1, 2, 10).and_then(|total| checked_accumulate(total, 3, 10));
    assert_eq!(two_steps, checked_accumulate(1, 5, 10));
}

#[test]
fn mock_rows_come_back_whole_from_every_session() {
    let rows = RowSet {
        columns: vec![Column {
            catalog: String::new(),
            schema: String::new(),
            table: "t".to_owned(),
            original_table: "t".to_owned(),
            name: "v".to_owned(),
            original_name: "v".to_owned(),
            vendor_type: 252,
            charset: 63,
            collation: 63,
            flags: 0,
        }],
        rows: vec![Row {
            cells: vec![Cell::Bytes(vec![0, 255]), Cell::Text("é".to_owned()), Cell::Null],
        }],
    };
    let driver = MockDriver::new(QueryResult::Rows(rows.clone()));
    let options = ConnectOptions {
        endpoint: "database".to_owned(),
        username_secret: "U".to_owned(),
        password_secret: "P".to_owned(),
        database: None,
    };
    let mut first = driver.connect(options.clone()).expect("first session");
    let mut second = driver.connect(options).expect("second session");
    first.close();
    assert_eq!(first.query("x").expect_err("closed").message, "connection is closed");
    assert_eq!(second.query("x"), Ok(QueryResult::Rows(rows)));
}
