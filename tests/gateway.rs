use psdb_gateway::auth::{check_credentials, Config};
use psdb_gateway::column::{type_label, ColumnMeta, TypeLabel};
use psdb_gateway::decimal::to_decimal;
use psdb_gateway::gateway::{create_session, execute, respond, EXECUTION_FAILED, UNAUTHORIZED};
use psdb_gateway::marshal::{marshal, marshal_row, RawRow, RelationalResult};
use psdb_gateway::pool::{to_relational, ConnectionPool, DriverCell, PlainOutput};
use psdb_gateway::session::{derive_session, new_session, SessionId, RANDOM_UUID_MASK, RANDOM_UUID_TAG};
use psdb_gateway::wire::{health, RequestBody};

fn config() -> Config {
    Config {
        connection_url: "mysql://127.0.0.1:1/db".to_string(),
        username: "admin".to_string(),
        password: "secret".to_string(),
        port: 3000,
    }
}

fn unreachable_pool() -> ConnectionPool {
    let opts = mysql::OptsBuilder::new()
        .ip_or_hostname(Some("127.0.0.1"))
        .tcp_port(1)
        .pool_opts(mysql::PoolOpts::new().with_constraints(mysql::PoolConstraints::new(0, 1).unwrap()));
    ConnectionPool::new(mysql::Pool::new(opts).unwrap())
}

fn column(name: &str, type_code: u8, flags: u16) -> ColumnMeta {
    ColumnMeta {
        name: name.to_string(),
        table: "t".to_string(),
        schema: "db".to_string(),
        org_table: "t".to_string(),
        org_name: name.to_string(),
        column_length: 20,
        charset: 63,
        flags,
        type_code,
    }
}

#[test]
fn decimal_text_of_integers() {
    assert_eq!(to_decimal(0), "0");
    assert_eq!(to_decimal(7), "7");
    assert_eq!(to_decimal(10), "10");
    assert_eq!(to_decimal(1234567890), "1234567890");
    assert_eq!(to_decimal(u64::MAX), "18446744073709551615");
}

#[test]
fn new_sessions_are_random_uuids() {
    let a = new_session();
    let b = new_session();
    assert_ne!(a.bits, 0);
    assert_eq!(a.bits & RANDOM_UUID_MASK, RANDOM_UUID_TAG);
    assert_eq!(b.bits & RANDOM_UUID_MASK, RANDOM_UUID_TAG);
    assert_ne!(a, b);
}

#[test]
fn derive_session_keeps_supplied_id() {
    let s = SessionId { bits: 0x1234 };
    assert_eq!(derive_session(Some(s)), s);
    let fresh = derive_session(None);
    assert_ne!(fresh.bits, 0);
    assert_eq!(fresh.bits & RANDOM_UUID_MASK, RANDOM_UUID_TAG);
}

#[test]
fn credentials_are_compared_exactly() {
    let c = config();
    assert!(check_credentials(&c, &"admin".to_string(), &Some("secret".to_string())));
    assert!(!check_credentials(&c, &"admin".to_string(), &Some("wrong".to_string())));
    assert!(!check_credentials(&c, &"Admin".to_string(), &Some("secret".to_string())));
    assert!(!check_credentials(&c, &"admin".to_string(), &None));
    let open = Config { password: String::new(), ..config() };
    assert!(check_credentials(&open, &"admin".to_string(), &None));
    assert!(check_credentials(&open, &"admin".to_string(), &Some(String::new())));
}

#[test]
fn create_session_with_valid_credentials() {
    let r = create_session(&config(), &"admin".to_string(), &Some("secret".to_string()));
    assert_ne!(r.session.bits, 0);
    assert!(r.error.is_none());
    assert!(r.result.is_none());
    assert!(r.timing.is_none());
}

#[test]
fn create_session_with_invalid_credentials() {
    for (u, p) in [("admin", Some("wrong")), ("root", Some("secret")), ("admin", None)] {
        let r = create_session(&config(), &u.to_string(), &p.map(|s| s.to_string()));
        assert_ne!(r.session.bits, 0);
        assert!(r.result.is_none());
        let e = r.error.unwrap();
        assert_eq!(e.code, 401);
        assert_eq!(e.message, "Invalid credentials");
    }
}

#[test]
fn execute_with_wrong_password_is_unauthorized() {
    let mut pool = unreachable_pool();
    let body = RequestBody { query: Some("SELECT 1".to_string()), session: None };
    let r = execute(&config(), &mut pool, &"admin".to_string(), &Some("wrong".to_string()), body);
    assert_ne!(r.session.bits, 0);
    assert!(r.result.is_none());
    let e = r.error.unwrap();
    assert_eq!(e.code, UNAUTHORIZED);
    assert_eq!(e.message, "Invalid credentials");
}

#[test]
fn execute_keeps_supplied_session_on_failure() {
    let mut pool = unreachable_pool();
    let s = SessionId { bits: 0xabcdef };
    let body = RequestBody { query: Some("SELECT 1".to_string()), session: Some(s) };
    let r = execute(&config(), &mut pool, &"nobody".to_string(), &None, body);
    assert_eq!(r.session, s);
    assert_eq!(r.error.unwrap().code, 401);
}

#[test]
fn execute_without_query_is_rejected() {
    let mut pool = unreachable_pool();
    let body = RequestBody { query: None, session: None };
    let r = execute(&config(), &mut pool, &"admin".to_string(), &Some("secret".to_string()), body);
    assert!(r.result.is_none());
    let e = r.error.unwrap();
    assert_eq!(e.code, 400);
    assert_eq!(e.message, "Missing query");
}

#[test]
fn execute_on_unreachable_database_fails_and_pool_stays_usable() {
    let mut pool = unreachable_pool();
    for _ in 0..3 {
        let s = new_session();
        let body = RequestBody { query: Some("SELECT 1".to_string()), session: Some(s) };
        let r = execute(&config(), &mut pool, &"admin".to_string(), &Some("secret".to_string()), body);
        assert_eq!(r.session, s);
        assert!(r.result.is_none());
        let e = r.error.unwrap();
        assert_eq!(e.code, EXECUTION_FAILED);
        assert!(!e.message.is_empty());
    }
}

#[test]
fn select_one_marshals_to_a_single_value() {
    let rel = RelationalResult::Read {
        columns: vec![column("1", 8, 1 | 128)],
        rows: vec![RawRow { cells: vec![Some(b"1".to_vec())] }],
    };
    let out = marshal(&rel);
    assert!(out.rows_affected.is_none());
    assert!(out.insert_id.is_none());
    let fields = out.fields.unwrap();
    assert_eq!(fields.len(), 1);
    assert_eq!(fields[0].name, "1");
    assert_eq!(fields[0].field_type, "INT64");
    let rows = out.rows.unwrap();
    assert_eq!(rows.len(), 1);
    assert_eq!(rows[0].lengths, vec!["1".to_string()]);
    assert_eq!(rows[0].values.as_deref(), Some("MQ=="));
}

#[test]
fn insert_marshals_to_a_write_result() {
    let out = marshal(&RelationalResult::Write { affected_rows: 1, last_insert_id: 42 });
    assert_eq!(out.rows_affected.as_deref(), Some("1"));
    assert_eq!(out.insert_id.as_deref(), Some("42"));
    assert!(out.fields.is_none());
    assert!(out.rows.is_none());
}

#[test]
fn write_result_of_largest_counts() {
    let out = marshal(&RelationalResult::Write { affected_rows: u64::MAX, last_insert_id: 0 });
    assert_eq!(out.rows_affected.as_deref(), Some("18446744073709551615"));
    assert_eq!(out.insert_id.as_deref(), Some("0"));
}

#[test]
fn null_and_binary_values_in_a_row() {
    let row = RawRow { cells: vec![None, Some(vec![0u8, 255, 10]), Some(Vec::new()), Some(b"ab".to_vec())] };
    let w = marshal_row(&row);
    assert_eq!(w.lengths, vec!["-1".to_string(), "3".to_string(), "0".to_string(), "2".to_string()]);
    assert_eq!(w.values.as_deref(), Some("AP8KYWI="));
}

#[test]
fn empty_row_set_keeps_fields() {
    let rel = RelationalResult::Read { columns: vec![column("a", 3, 0), column("b", 253, 0)], rows: Vec::new() };
    let out = marshal(&rel);
    let fields = out.fields.unwrap();
    assert_eq!(fields.len(), 2);
    assert_eq!(fields[1].field_type, "VARCHAR");
    assert_eq!(fields[1].database.as_deref(), Some("db"));
    assert!(out.rows.unwrap().is_empty());
}

#[test]
fn every_row_has_one_length_per_field() {
    let rel = RelationalResult::Read {
        columns: vec![column("a", 3, 0), column("b", 252, 128), column("c", 254, 0)],
        rows: vec![
            RawRow { cells: vec![Some(b"1".to_vec()), None, Some(b"x".to_vec())] },
            RawRow { cells: vec![None, None, None] },
        ],
    };
    let out = marshal(&rel);
    let n = out.fields.unwrap().len();
    assert_eq!(n, 3);
    for row in out.rows.unwrap() {
        assert_eq!(row.lengths.len(), n);
    }
}

#[test]
fn type_labels_follow_flags() {
    assert_eq!(type_label(3, 0), TypeLabel::Int32);
    assert_eq!(type_label(3, 32), TypeLabel::Uint32);
    assert_eq!(type_label(252, 0), TypeLabel::Text);
    assert_eq!(type_label(252, 128), TypeLabel::Blob);
    assert_eq!(type_label(254, 128), TypeLabel::Binary);
    assert_eq!(type_label(246, 0), TypeLabel::Decimal);
    assert_eq!(type_label(100, 0), TypeLabel::Unknown);
    assert_eq!(type_label(8, 32).name(), "UINT64");
}

#[test]
fn execution_error_envelope() {
    let s = new_session();
    let r = respond(s, Err("Table 'db.t' doesn't exist".to_string()));
    assert_eq!(r.session, s);
    assert!(r.result.is_none());
    let e = r.error.unwrap();
    assert_eq!(e.code, 500);
    assert_eq!(e.message, "Table 'db.t' doesn't exist");
}

#[test]
fn health_echoes_or_creates_session() {
    let r = health(None);
    assert_ne!(r.session.bits, 0);
    assert!(r.error.is_none() && r.result.is_none() && r.timing.is_none());
    let s = SessionId { bits: 99 };
    let r = health(Some(RequestBody { query: None, session: Some(s) }));
    assert_eq!(r.session, s);
    let r = health(Some(RequestBody { query: None, session: None }));
    assert_ne!(r.session.bits, 0);
}

#[test]
fn default_request_body() {
    let b = RequestBody::default();
    assert_eq!(b.query.as_deref(), Some(""));
    assert_ne!(b.session.unwrap().bits, 0);
}

#[test]
fn plain_write_output_becomes_write_result() {
    let p = PlainOutput { columns: Vec::new(), rows: Vec::new(), affected_rows: 3, last_insert_id: None };
    match to_relational(p) {
        Some(RelationalResult::Write { affected_rows, last_insert_id }) => {
            assert_eq!(affected_rows, 3);
            assert_eq!(last_insert_id, 0);
        }
        _ => panic!("expected a write result"),
    }
}

#[test]
fn plain_read_output_keeps_values() {
    let p = PlainOutput {
        columns: vec![column("a", 3, 0), column("b", 253, 0)],
        rows: vec![vec![DriverCell::Bytes(b"7".to_vec()), DriverCell::Null]],
        affected_rows: 0,
        last_insert_id: None,
    };
    match to_relational(p) {
        Some(RelationalResult::Read { columns, rows }) => {
            assert_eq!(columns.len(), 2);
            assert_eq!(columns[1].name, "b");
            assert_eq!(rows.len(), 1);
            assert_eq!(rows[0].cells, vec![Some(b"7".to_vec()), None]);
        }
        _ => panic!("expected a read result"),
    }
}

#[test]
fn plain_output_with_misfit_rows_is_refused() {
    let short = PlainOutput {
        columns: vec![column("a", 3, 0), column("b", 3, 0)],
        rows: vec![vec![DriverCell::Null]],
        affected_rows: 0,
        last_insert_id: None,
    };
    assert!(to_relational(short).is_none());
    let typed = PlainOutput {
        columns: vec![column("a", 3, 0)],
        rows: vec![vec![DriverCell::Bytes(Vec::new())], vec![DriverCell::Unexpected]],
        affected_rows: 0,
        last_insert_id: None,
    };
    assert!(to_relational(typed).is_none());
}

#[test]
fn base64_padding_of_short_rows() {
    let one = marshal_row(&RawRow { cells: vec![Some(b"a".to_vec())] });
    assert_eq!(one.values.as_deref(), Some("YQ=="));
    let two = marshal_row(&RawRow { cells: vec![Some(b"ab".to_vec())] });
    assert_eq!(two.values.as_deref(), Some("YWI="));
    let empty = marshal_row(&RawRow { cells: vec![None] });
    assert_eq!(empty.values.as_deref(), Some(""));
}
