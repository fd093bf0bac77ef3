use spin_sqlx::error::{require_support, DriverError, IoErrorKind, Operation};
use spin_sqlx::pg::{self, HostRowSet, PgDbError, PgHostError, PgKind, PgScalar, SpinPgQueryResult, SpinPgValue};
use spin_sqlx::sqlite::{self, HostResult, SpinSqliteArgs, SpinSqliteQueryResult, SpinSqliteValue, SqliteHostError, SqliteKind, SqliteScalar};
use spin_sqlx::{IsNull, SpinSqliteStmt, SqlxConnectionOptions};

fn io(kind: IoErrorKind, message: &str) -> DriverError {
    DriverError::Io { kind, message: message.to_string() }
}

#[test]
fn embedded_insert_then_count() {
    let prior: i64 = 4;
    let mut args = SpinSqliteArgs::new();
    args.add(Some(SqliteScalar::I32(1)));
    args.add(Some(SqliteScalar::Text("Rosie".to_string())));
    args.add(Some(SqliteScalar::Bool(true)));
    assert_eq!(
        args.as_slice(),
        &[SpinSqliteValue::Integer(1), SpinSqliteValue::Text("Rosie".to_string()), SpinSqliteValue::Integer(1)][..]
    );
    let insert = sqlite::execute(Ok(HostResult { columns: vec![], rows: vec![] })).unwrap();
    assert_eq!(insert.inner, Some(HostResult { columns: vec![], rows: vec![] }));
    let count = HostResult {
        columns: vec!["COUNT(*)".to_string()],
        rows: vec![vec![SpinSqliteValue::Integer(prior + 1)]],
    };
    let row = sqlite::fetch_optional(Ok(count)).unwrap().unwrap();
    assert_eq!(row.try_get(0, SqliteKind::I64), Ok(SqliteScalar::I64(prior + 1)));
    assert_eq!(row.try_get(0, SqliteKind::U32), Ok(SqliteScalar::U32(5)));
}

fn pets_younger_than(limit: i32, ages: &[i32]) -> HostRowSet {
    HostRowSet {
        columns: vec!["age".to_string(), "name".to_string(), "is_finicky".to_string()],
        rows: ages
            .iter()
            .filter(|a| **a < limit)
            .map(|a| vec![SpinPgValue::Int32(*a), SpinPgValue::Str(format!("pet{a}")), SpinPgValue::Boolean(false)])
            .collect(),
    }
}

#[test]
fn remote_fetch_filtered_stream() {
    let mut args = pg::SpinPgArgs::new();
    assert_eq!(args.add(Some(PgScalar::I32(20))), IsNull::No);
    let rows = pg::fetch_many(Ok(pets_younger_than(20, &[3, 25, 12, 40]))).unwrap();
    assert_eq!(rows.len(), 2);
    for row in &rows {
        let index = row.name_index("age").unwrap();
        match row.try_get(index, PgKind::I32) {
            Ok(PgScalar::I32(age)) => assert!(age < 20),
            other => panic!("unexpected {:?}", other),
        }
    }
    let none = pg::fetch_many(Ok(pets_younger_than(20, &[25, 40]))).unwrap();
    assert!(none.is_empty());
}

#[test]
fn fetch_optional_takes_the_first_row() {
    let row = pg::fetch_optional(Ok(pets_younger_than(50, &[7, 8]))).unwrap().unwrap();
    assert_eq!(row.try_get(0, PgKind::I64), Ok(PgScalar::I64(7)));
    assert_eq!(row.try_get(1, PgKind::Text), Ok(PgScalar::Text("pet7".to_string())));
    assert!(pg::fetch_optional(Ok(pets_younger_than(1, &[7]))).unwrap().is_none());
    assert!(sqlite::fetch_optional(Ok(HostResult { columns: vec!["a".to_string()], rows: vec![] })).unwrap().is_none());
}

#[test]
fn remote_execute_reports_count() {
    let qr = pg::execute(Ok(1)).unwrap();
    assert_eq!(qr.count(), 1);
}

#[test]
fn remote_counts_add_up() {
    let mut qr = SpinPgQueryResult::new(2);
    qr.extend(vec![SpinPgQueryResult::new(3), SpinPgQueryResult::new(0), SpinPgQueryResult::new(5)]);
    assert_eq!(qr.count(), 10);
    qr.extend(vec![]);
    assert_eq!(qr.count(), 10);
}

#[test]
fn embedded_results_append_rows_in_order() {
    let one = |n: i64| HostResult { columns: vec!["n".to_string()], rows: vec![vec![SpinSqliteValue::Integer(n)]] };
    let mut qr = SpinSqliteQueryResult::empty();
    qr.extend(vec![
        SpinSqliteQueryResult { inner: Some(one(1)) },
        SpinSqliteQueryResult::empty(),
        SpinSqliteQueryResult { inner: Some(one(2)) },
    ]);
    let inner = qr.inner.unwrap();
    assert_eq!(inner.rows, vec![vec![SpinSqliteValue::Integer(1)], vec![SpinSqliteValue::Integer(2)]]);
    assert_eq!(inner.columns, vec!["n".to_string()]);
    let named = |c: &str| HostResult { columns: vec![c.to_string()], rows: vec![] };
    let mut fresh = SpinSqliteQueryResult::empty();
    fresh.extend(vec![
        SpinSqliteQueryResult::empty(),
        SpinSqliteQueryResult { inner: Some(named("first")) },
        SpinSqliteQueryResult { inner: Some(named("second")) },
    ]);
    assert_eq!(fresh.inner.unwrap().columns, vec!["first".to_string()]);
    let mut none = SpinSqliteQueryResult::empty();
    none.extend(vec![SpinSqliteQueryResult::empty()]);
    assert!(none.inner.is_none());
}

#[test]
fn embedded_host_errors_map() {
    let fail = |e: SqliteHostError| sqlite::fetch_many(Err(e)).unwrap_err();
    assert_eq!(fail(SqliteHostError::AccessDenied), io(IoErrorKind::NotFound, "Component does not have access to database"));
    assert_eq!(fail(SqliteHostError::InvalidConnection), io(IoErrorKind::NotFound, "Invalid connection handle"));
    assert_eq!(fail(SqliteHostError::NoSuchDatabase), io(IoErrorKind::NotFound, "No such database"));
    assert_eq!(fail(SqliteHostError::Io("disk".to_string())), io(IoErrorKind::Other, "disk"));
    assert_eq!(fail(SqliteHostError::DatabaseFull), DriverError::Database { message: "Database full".to_string() });
    assert_eq!(sqlite::execute(Err(SqliteHostError::DatabaseFull)).unwrap_err(), DriverError::Database { message: "Database full".to_string() });
    assert!(sqlite::fetch_optional(Err(SqliteHostError::AccessDenied)).is_err());
}

#[test]
fn remote_host_errors_map() {
    let fail = |e: PgDbError| pg::fetch_many(Err(e)).unwrap_err();
    assert_eq!(fail(PgDbError::ConnectionFailed("refused".to_string())), io(IoErrorKind::NotFound, "refused"));
    assert_eq!(fail(PgDbError::QueryFailed("syntax".to_string())), io(IoErrorKind::NotFound, "syntax"));
    assert_eq!(fail(PgDbError::BadParameter("p".to_string())), io(IoErrorKind::NotFound, "p"));
    assert_eq!(fail(PgDbError::Other("o".to_string())), io(IoErrorKind::NotFound, "o"));
    assert_eq!(fail(PgDbError::ValueConversionFailed("v".to_string())), DriverError::Decode { message: "v".to_string() });
    assert_eq!(pg::execute(Err(PgDbError::Other("x".to_string()))).unwrap_err(), io(IoErrorKind::NotFound, "x"));
    assert!(pg::fetch_optional(Err(PgDbError::Other("x".to_string()))).is_err());
    assert_eq!(PgHostError::Decode("d".to_string()).to_driver_error(), DriverError::Decode { message: "d".to_string() });
    assert_eq!(
        PgHostError::PgError(PgDbError::QueryFailed("q".to_string())).to_driver_error(),
        io(IoErrorKind::NotFound, "q")
    );
}

#[test]
fn unsupported_operations_always_fail() {
    for op in [
        Operation::Begin,
        Operation::Commit,
        Operation::Rollback,
        Operation::StatementParameters,
        Operation::StatementColumns,
        Operation::StatementQuery,
        Operation::Describe,
    ] {
        assert_eq!(require_support(op), Err(DriverError::Unsupported { operation: op }));
    }
}

#[test]
fn prepare_keeps_sql_verbatim() {
    let sql = "SELECT * FROM pets WHERE age < ?";
    assert_eq!(sqlite::prepare_with(sql).unwrap().sql(), sql);
    assert_eq!(pg::prepare_with("  odd  text ").unwrap().sql(), "  odd  text ");
    assert_eq!(SpinSqliteStmt::new("").sql(), "");
}

#[test]
fn options_from_text_and_url() {
    assert_eq!(SqlxConnectionOptions::new("default").label(), "default");
    let url = url::Url::parse("spin-sqlite://inventory").unwrap();
    assert_eq!(sqlite::ConnectionOptions::from_url(&url).unwrap().label(), "inventory");
    let hostless = url::Url::parse("data:text/plain,x").unwrap();
    assert_eq!(
        sqlite::ConnectionOptions::from_url(&hostless).unwrap_err(),
        DriverError::Configuration { message: "Invalid URL".to_string() }
    );
    assert_eq!(
        sqlite::ConnectionOptions::from_url_host(None).unwrap_err(),
        DriverError::Configuration { message: "Invalid URL".to_string() }
    );
    assert_eq!(sqlite::ConnectionOptions::from_url_host(Some("db".to_string())).unwrap().label(), "db");
    let text = "host=localhost user=postgres dbname=mydb";
    assert_eq!(pg::ConnectionOptions::new(text).address(), text);
    let pg_url = url::Url::parse("spin-pg://user@localhost/mydb").unwrap();
    assert_eq!(pg::ConnectionOptions::from_url(&pg_url).unwrap().address(), "spin-pg://user@localhost/mydb");
}
