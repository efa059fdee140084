//! The connection pool and the query executor. Connections come from the
//! driver's pool; a ghost count of outstanding leases lets callers prove that
//! every connection they take is handed back.

use vstd::prelude::*;
use crate::column::ColumnMeta;
use crate::marshal::{RawRow, RelationalResult, cell_view};

verus! {

#[verifier::external_type_specification]
#[verifier::external_body]
pub struct ExPool(mysql::Pool);

#[verifier::external_type_specification]
#[verifier::external_body]
pub struct ExPooledConn(mysql::PooledConn);

#[verifier::external_type_specification]
#[verifier::external_body]
pub struct ExDriverError(mysql::Error);

#[verifier::external_type_specification]
#[verifier::external_body]
pub struct ExColumn(mysql::Column);

#[verifier::external_type_specification]
#[verifier::external_body]
pub struct ExRow(mysql::Row);

#[verifier::external_type_specification]
#[verifier::external_body]
pub struct ExValue(mysql::Value);

/// Everything the driver reports for the first result set of a statement.
pub struct EngineOutput {
    pub columns: Vec<mysql::Column>,
    pub rows: Vec<mysql::Row>,
    pub affected_rows: u64,
    pub last_insert_id: Option<u64>,
}

/// One value of a driver row: NULL, bytes, or a typed value that the text
/// protocol never sends.
pub enum DriverCell {
    Null,
    Bytes(Vec<u8>),
    Unexpected,
}

/// The engine's report in plain values.
pub struct PlainOutput {
    pub columns: Vec<ColumnMeta>,
    pub rows: Vec<Vec<DriverCell>>,
    pub affected_rows: u64,
    pub last_insert_id: Option<u64>,
}

/// A connection taken from a `ConnectionPool`, with a ghost log of the
/// statements sent on it.
pub struct Lease {
    conn: mysql::PooledConn,
    sent: Ghost<Seq<Seq<char>>>,
}

impl Lease {
    /// The statements sent on this lease, oldest first.
    pub closed spec fn sent(&self) -> Seq<Seq<char>> {
        self.sent@
    }
}

/// Relies on mysql::Pool::get_conn: takes a live connection from the pool,
/// or reports why none could be had.
#[verifier::external_body]
fn get_conn(pool: &mysql::Pool) -> (r: Result<mysql::PooledConn, mysql::Error>) {
    pool.get_conn()
}

/// Relies on the Drop impl of mysql::PooledConn: dropping a pooled connection
/// hands it back to its pool.
#[verifier::external_body]
fn return_conn(conn: mysql::PooledConn) {
    drop(conn)
}

/// Relies on mysql's Queryable::query_iter over the text protocol: sends the
/// statement verbatim, once; reads the column list and the counts of the
/// first result set before its rows, then collects the rows.
#[verifier::external_body]
fn send_query(lease: &mut Lease, query: &str) -> (r: Result<EngineOutput, mysql::Error>)
    ensures
        final(lease).sent() == old(lease).sent().push(query@),
{
    let mut res = mysql::prelude::Queryable::query_iter(&mut lease.conn, query)?;
    let columns = res.columns().as_ref().to_vec();
    let affected_rows = res.affected_rows();
    let last_insert_id = res.last_insert_id();
    let rows = res.by_ref().collect::<Result<Vec<mysql::Row>, mysql::Error>>()?;
    Ok(EngineOutput { columns, rows, affected_rows, last_insert_id })
}

/// Relies on mysql::Error: a server error carries the engine's own message;
/// any other error is given by its Display text.
#[verifier::external_body]
pub(crate) fn error_message(e: &mysql::Error) -> (r: String) {
    match e {
        mysql::Error::MySqlError(server) => server.message.clone(),
        other => other.to_string(),
    }
}

/// Relies on the accessors of mysql::Column: copies its metadata out.
#[verifier::external_body]
fn column_meta(c: &mysql::Column) -> (r: ColumnMeta) {
    ColumnMeta {
        name: c.name_str().into_owned(),
        table: c.table_str().into_owned(),
        schema: c.schema_str().into_owned(),
        org_table: c.org_table_str().into_owned(),
        org_name: c.org_name_str().into_owned(),
        column_length: c.column_length(),
        charset: c.character_set(),
        flags: c.flags().bits(),
        type_code: c.column_type() as u8,
    }
}

/// Relies on mysql::Row::len: the number of columns of the row.
#[verifier::external_body]
fn row_len(row: &mysql::Row) -> (r: usize) {
    row.len()
}

/// Relies on mysql::Row::as_ref: the value at `i`, if it exists.
#[verifier::external_body]
fn row_value(row: &mysql::Row, i: usize) -> (r: Option<&mysql::Value>) {
    row.as_ref(i)
}

/// Relies on the variants of mysql::Value: tells NULL and bytes apart from
/// the typed values of the binary protocol.
#[verifier::external_body]
fn value_cell(v: &mysql::Value) -> (r: DriverCell) {
    match v {
        mysql::Value::NULL => DriverCell::Null,
        mysql::Value::Bytes(b) => DriverCell::Bytes(b.clone()),
        mysql::Value::Int(_) => DriverCell::Unexpected,
        mysql::Value::UInt(_) => DriverCell::Unexpected,
        mysql::Value::Float(_) => DriverCell::Unexpected,
        mysql::Value::Double(_) => DriverCell::Unexpected,
        mysql::Value::Date(..) => DriverCell::Unexpected,
        mysql::Value::Time(..) => DriverCell::Unexpected,
    }
}

/// A shared pool of database connections. Ghost state records, for this
/// handle, the acquisitions tried and granted, the leases not yet returned,
/// and the statements sent on returned leases.
pub struct ConnectionPool {
    pool: mysql::Pool,
    leased: Ghost<nat>,
    attempts: Ghost<nat>,
    granted: Ghost<nat>,
    sent: Ghost<Seq<Seq<char>>>,
}

impl ConnectionPool {
    /// The number of leases taken through this handle and not yet released.
    pub closed spec fn leased(&self) -> nat {
        self.leased@
    }

    /// The number of acquisitions tried.
    pub closed spec fn attempts(&self) -> nat {
        self.attempts@
    }

    /// The number of acquisitions that gave a connection.
    pub closed spec fn granted(&self) -> nat {
        self.granted@
    }

    /// The statements sent on leases that have been released, in order.
    pub closed spec fn sent(&self) -> Seq<Seq<char>> {
        self.sent@
    }

    /// A handle on the driver's pool, with nothing yet taken or sent.
    pub fn new(pool: mysql::Pool) -> (r: ConnectionPool)
        ensures
            r.leased() == 0,
            r.attempts() == 0,
            r.granted() == 0,
            r.sent() == Seq::<Seq<char>>::empty(),
    {
        ConnectionPool {
            pool,
            leased: Ghost(0),
            attempts: Ghost(0),
            granted: Ghost(0),
            sent: Ghost(Seq::empty()),
        }
    }

    /// Takes a connection. A failure leaves nothing to release.
    pub fn acquire(&mut self) -> (r: Result<Lease, mysql::Error>)
        ensures
            final(self).attempts() == old(self).attempts() + 1,
            final(self).sent() == old(self).sent(),
            r is Ok ==> final(self).leased() == old(self).leased() + 1
                && final(self).granted() == old(self).granted() + 1
                && r->Ok_0.sent() == Seq::<Seq<char>>::empty(),
            r is Err ==> final(self).leased() == old(self).leased()
                && final(self).granted() == old(self).granted(),
    {
        self.attempts = Ghost(self.attempts@ + 1);
        match get_conn(&self.pool) {
            Ok(conn) => {
                self.leased = Ghost(self.leased@ + 1);
                self.granted = Ghost(self.granted@ + 1);
                Ok(Lease { conn, sent: Ghost(Seq::empty()) })
            },
            Err(e) => Err(e),
        }
    }

    /// Hands a connection back; what was sent on it joins the pool's log.
    pub fn release(&mut self, lease: Lease)
        requires
            old(self).leased() > 0,
        ensures
            final(self).leased() == old(self).leased() - 1,
            final(self).attempts() == old(self).attempts(),
            final(self).granted() == old(self).granted(),
            final(self).sent() == old(self).sent() + lease.sent(),
    {
        let ghost log = lease.sent@;
        return_conn(lease.conn);
        self.leased = Ghost((self.leased@ - 1) as nat);
        self.sent = Ghost(self.sent@ + log);
    }
}

/// The values of one driver row, in column order. A missing value reads as
/// NULL.
fn driver_row(row: &mysql::Row) -> (r: Vec<DriverCell>) {
    let n = row_len(row);
    let mut cells: Vec<DriverCell> = Vec::new();
    let mut i: usize = 0;
    while i < n
        invariant
            i <= n,
        decreases n - i,
    {
        let cell = match row_value(row, i) {
            Some(v) => value_cell(v),
            None => DriverCell::Null,
        };
        cells.push(cell);
        i = i + 1;
    }
    cells
}

/// The driver's report with every column and row read out.
pub fn plain_output(out: &EngineOutput) -> (p: PlainOutput)
    ensures
        p.columns@.len() == out.columns@.len(),
        p.rows@.len() == out.rows@.len(),
        p.affected_rows == out.affected_rows,
        p.last_insert_id == out.last_insert_id,
{
    let mut columns: Vec<ColumnMeta> = Vec::new();
    let mut i: usize = 0;
    while i < out.columns.len()
        invariant
            i <= out.columns@.len(),
            columns@.len() == i,
        decreases out.columns.len() - i,
    {
        columns.push(column_meta(&out.columns[i]));
        i = i + 1;
    }
    let mut rows: Vec<Vec<DriverCell>> = Vec::new();
    let mut j: usize = 0;
    while j < out.rows.len()
        invariant
            j <= out.rows@.len(),
            rows@.len() == j,
        decreases out.rows.len() - j,
    {
        rows.push(driver_row(&out.rows[j]));
        j = j + 1;
    }
    PlainOutput { columns, rows, affected_rows: out.affected_rows, last_insert_id: out.last_insert_id }
}

/// What a driver value stands for in a tuple.
pub open spec fn cell_value(c: DriverCell) -> Option<Seq<u8>> {
    match c {
        DriverCell::Bytes(b) => Some(b@),
        _ => None,
    }
}

/// A driver row that fits a row set of `n` columns: one text-protocol value
/// per column.
pub open spec fn row_fits(row: Seq<DriverCell>, n: nat) -> bool {
    row.len() == n && forall|i: int| 0 <= i < row.len() ==> !(#[trigger] row[i] is Unexpected)
}

fn copy_bytes(b: &Vec<u8>) -> (r: Vec<u8>)
    ensures
        r@ == b@,
{
    let mut r: Vec<u8> = Vec::new();
    let mut j: usize = 0;
    while j < b.len()
        invariant
            j <= b@.len(),
            r@ == b@.take(j as int),
        decreases b.len() - j,
    {
        r.push(b[j]);
        assert(b@.take(j as int + 1) =~= b@.take(j as int).push(b@[j as int]));
        j = j + 1;
    }
    assert(b@.take(b@.len() as int) =~= b@);
    r
}

/// The tuple that a driver row stands for, if it fits `n` columns.
fn tuple_of(row: &Vec<DriverCell>, n: usize) -> (r: Option<RawRow>)
    ensures
        r is None <==> !row_fits(row@, n as nat),
        r is Some ==> r->Some_0.view_cells() == row@.map_values(|c: DriverCell| cell_value(c)),
{
    if row.len() != n {
        return None;
    }
    let mut cells: Vec<Option<Vec<u8>>> = Vec::new();
    let mut i: usize = 0;
    while i < row.len()
        invariant
            i <= row@.len(),
            row@.len() == n,
            cells@.len() == i,
            forall|k: int| 0 <= k < i ==> !(#[trigger] row@[k] is Unexpected),
            forall|k: int| 0 <= k < i ==> cell_view(#[trigger] cells@[k]) == cell_value(row@[k]),
        decreases row.len() - i,
    {
        match &row[i] {
            DriverCell::Null => cells.push(None),
            DriverCell::Bytes(b) => cells.push(Some(copy_bytes(b))),
            DriverCell::Unexpected => return None,
        }
        i = i + 1;
    }
    let r = RawRow { cells };
    assert(r.view_cells() =~= row@.map_values(|c: DriverCell| cell_value(c)));
    Some(r)
}

/// The engine's report as a relational result: a write when the statement
/// produced no columns, a row set otherwise. `None` when some row does not
/// fit the columns, which the engine never sends.
pub fn to_relational(p: PlainOutput) -> (r: Option<RelationalResult>)
    ensures
        r is Some ==> r->Some_0.has_matching_arity(),
        p.columns@.len() == 0 ==> r == Some(
            RelationalResult::Write {
                affected_rows: p.affected_rows,
                last_insert_id: match p.last_insert_id {
                    Some(id) => id,
                    None => 0,
                },
            },
        ),
        p.columns@.len() > 0 ==> (r is None <==> exists|j: int|
            0 <= j < p.rows@.len() && !row_fits(#[trigger] p.rows@[j]@, p.columns@.len())),
        p.columns@.len() > 0 && r is Some ==> r->Some_0 is Read && r->Some_0->Read_columns
            == p.columns && r->Some_0->Read_rows@.len() == p.rows@.len() && forall|j: int|
            0 <= j < p.rows@.len() ==> (#[trigger] r->Some_0->Read_rows@[j]).view_cells()
                == p.rows@[j]@.map_values(|c: DriverCell| cell_value(c)),
{
    if p.columns.len() == 0 {
        let last_insert_id = match p.last_insert_id {
            Some(id) => id,
            None => 0,
        };
        return Some(RelationalResult::Write { affected_rows: p.affected_rows, last_insert_id });
    }
    let n = p.columns.len();
    let mut rows: Vec<RawRow> = Vec::new();
    let mut j: usize = 0;
    while j < p.rows.len()
        invariant
            n == p.columns@.len(),
            n > 0,
            j <= p.rows@.len(),
            rows@.len() == j,
            forall|k: int| 0 <= k < j ==> row_fits(#[trigger] p.rows@[k]@, n as nat),
            forall|k: int| 0 <= k < j ==> (#[trigger] rows@[k]).view_cells()
                == p.rows@[k]@.map_values(|c: DriverCell| cell_value(c)),
            forall|k: int| 0 <= k < j ==> (#[trigger] rows@[k]).cells@.len() == n,
        decreases p.rows.len() - j,
    {
        match tuple_of(&p.rows[j], n) {
            Some(t) => {
                assert(t.view_cells().len() == t.cells@.len());
                rows.push(t);
            },
            None => {
                assert(!row_fits(p.rows@[j as int]@, n as nat));
                return None;
            },
        }
        j = j + 1;
    }
    Some(RelationalResult::Read { columns: p.columns, rows })
}

/// Runs a statement on a leased connection, once, without retry: the
/// statement is sent verbatim. An error carries the engine's message.
pub fn run_query(lease: &mut Lease, query: &String) -> (r: Result<RelationalResult, String>)
    ensures
        final(lease).sent() == old(lease).sent().push(query@),
        r is Ok ==> r->Ok_0.has_matching_arity(),
{
    match send_query(lease, query.as_str()) {
        Ok(out) => match to_relational(plain_output(&out)) {
            Some(rel) => Ok(rel),
            None => Err(String::from_str("malformed row from the database engine")),
        },
        Err(e) => Err(error_message(&e)),
    }
}

} // verus!
