use taotie::{
    run_batch, step, Catalog, ConnectOpts, DataSetConn, DescribeOpts, EngineAction, EngineError,
    HeadOpts, ListOpts, ReplCommand, SchemaOpts, SqlOpts,
};

fn csv_connect(name: &str, path: &str) -> ReplCommand {
    let conn = taotie::verify_conn_str(path).unwrap();
    ReplCommand::Connect(ConnectOpts::new(conn, None, name.to_string()))
}

#[test]
fn connect_then_schema_and_head() {
    let mut catalog = Catalog::new();
    let cmds = vec![
        csv_connect("people", "people.csv"),
        ReplCommand::Schema(SchemaOpts::new("people".to_string())),
        ReplCommand::Head(HeadOpts::new("people".to_string(), Some(0))),
        ReplCommand::Head(HeadOpts::new("people".to_string(), None)),
        ReplCommand::Sql(SqlOpts::new("select 1".to_string())),
        ReplCommand::List(ListOpts),
    ];
    let replies = run_batch(&mut catalog, cmds);
    assert_eq!(replies.len(), 6);
    match &replies[0] {
        EngineAction::Reply(s) => assert_eq!(s, "Connected to dataset: people"),
        other => panic!("expected a confirmation, got {:?}", other),
    }
    match &replies[1] {
        EngineAction::RunSql(s) => assert_eq!(s, "DESCRIBE people"),
        other => panic!("expected query text, got {:?}", other),
    }
    match &replies[2] {
        EngineAction::RunSql(s) => assert_eq!(s, "SELECT * FROM people LIMIT 0"),
        other => panic!("expected query text, got {:?}", other),
    }
    match &replies[3] {
        EngineAction::RunSql(s) => assert_eq!(s, "SELECT * FROM people LIMIT 5"),
        other => panic!("expected query text, got {:?}", other),
    }
    match &replies[4] {
        EngineAction::RunSql(s) => assert_eq!(s, "select 1"),
        other => panic!("expected query text, got {:?}", other),
    }
    match &replies[5] {
        EngineAction::RunSql(s) => assert_eq!(
            s,
            "select table_name,table_type from information_schema.tables where table_schema = 'public'"
        ),
        other => panic!("expected query text, got {:?}", other),
    }
}

#[test]
fn reads_before_registration_fail() {
    let catalog = Catalog::new();
    let action = step(&catalog, ReplCommand::Schema(SchemaOpts::new("nope".to_string())));
    match action {
        EngineAction::Fail(e) => assert_eq!(e.message(), "Unknown dataset: nope"),
        other => panic!("expected a failure, got {:?}", other),
    }
}

#[test]
fn command_order_is_preserved() {
    // The read between the two registrations sees exactly the first one.
    let mut catalog = Catalog::new();
    let replies = run_batch(
        &mut catalog,
        vec![
            csv_connect("a", "a.csv"),
            ReplCommand::Schema(SchemaOpts::new("b".to_string())),
            csv_connect("b", "b.csv"),
            ReplCommand::Schema(SchemaOpts::new("b".to_string())),
        ],
    );
    assert!(matches!(&replies[1], EngineAction::Fail(_)));
    match &replies[3] {
        EngineAction::RunSql(s) => assert_eq!(s, "DESCRIBE b"),
        other => panic!("expected query text, got {:?}", other),
    }
}

#[test]
fn relational_connect_is_unsupported() {
    let catalog = Catalog::new();
    let conn = taotie::verify_conn_str("postgres://host/db").unwrap();
    let action = step(
        &catalog,
        ReplCommand::Connect(ConnectOpts::new(conn, None, "db".to_string())),
    );
    match action {
        EngineAction::Fail(e) => {
            assert_eq!(e.message(), "Unsupported operation: postgres://host/db")
        }
        other => panic!("expected a failure, got {:?}", other),
    }
}

#[test]
fn describe_runs_the_full_scan() {
    let mut catalog = Catalog::new();
    let replies = run_batch(
        &mut catalog,
        vec![
            csv_connect("people", "people.csv"),
            ReplCommand::Describe(DescribeOpts::new("people".to_string())),
        ],
    );
    match &replies[1] {
        EngineAction::RunDescribe(s) => assert_eq!(s, "select * from people"),
        other => panic!("expected a summary request, got {:?}", other),
    }
}

#[test]
fn same_file_under_two_names_is_two_entries() {
    let mut catalog = Catalog::new();
    catalog.register(
        "one".to_string(),
        taotie::verify_conn_str("shared.csv").unwrap(),
    );
    catalog.register(
        "two".to_string(),
        taotie::verify_conn_str("shared.csv").unwrap(),
    );
    assert_eq!(catalog.entries.len(), 2);
    assert!(catalog.contains("one"));
    assert!(catalog.contains("two"));
    for entry in &catalog.entries {
        match &entry.conn {
            DataSetConn::Csv(o) => assert_eq!(o.filename, "shared.csv"),
            other => panic!("expected a csv source, got {:?}", other),
        }
    }
    // Both names yield a schema query against their own entry.
    assert!(matches!(catalog.schema("one"), Ok(s) if s == "DESCRIBE one"));
    assert!(matches!(catalog.schema("two"), Ok(s) if s == "DESCRIBE two"));
}

#[test]
fn reregistering_a_name_rebinds_it() {
    let mut catalog = Catalog::new();
    catalog.register("t".to_string(), taotie::verify_conn_str("a.csv").unwrap());
    catalog.register("t".to_string(), taotie::verify_conn_str("b.csv").unwrap());
    assert_eq!(catalog.entries.len(), 1);
    match &catalog.entries[0].conn {
        DataSetConn::Csv(o) => assert_eq!(o.filename, "b.csv"),
        other => panic!("expected a csv source, got {:?}", other),
    }
}

#[test]
fn error_messages() {
    assert_eq!(
        EngineError::ParseError("x".to_string()).message(),
        "Parse error: x"
    );
    assert_eq!(
        EngineError::RegistrationError("x".to_string()).message(),
        "Registration error: x"
    );
    assert_eq!(
        EngineError::QueryError("x".to_string()).message(),
        "Query error: x"
    );
}

#[test]
fn registration_reply_text() {
    assert_eq!(
        taotie::catalog::connect_reply("people"),
        "Connected to dataset: people"
    );
}

#[test]
fn decimal_rendering() {
    assert_eq!(taotie::usize_to_string(0), "0");
    assert_eq!(taotie::usize_to_string(7), "7");
    assert_eq!(taotie::usize_to_string(42), "42");
    assert_eq!(taotie::usize_to_string(90210), "90210");
}

#[test]
fn commands_from_options() {
    let head: ReplCommand = HeadOpts::new("t".to_string(), Some(3)).into();
    assert!(matches!(head, ReplCommand::Head(_)));
    let sql: ReplCommand = SqlOpts::new("select 1".to_string()).into();
    assert!(matches!(sql, ReplCommand::Sql(_)));
}
