//! Database for storing divergence data.
//!
//! The store is an append-only, indexed SQLite database. The marshalling of
//! a record into its column values is verified; the calls into SQLite go
//! through small trusted wrappers.

use vstd::prelude::*;
use vstd::string::StringExecFns;

use crate::divergence::{
    spec_types_joined, CallFrame, Divergence, DivergenceType, EventLog,
    divergence_types_string,
};

verus! {

#[verifier::external_type_specification]
#[verifier::external_body]
/// The SQLite connection type of the rusqlite crate, opaque to the verifier.
pub struct ExConnection(rusqlite::Connection);

#[verifier::external_type_specification]
#[verifier::external_body]
/// The error type of the rusqlite crate, opaque to the verifier.
pub struct ExSqliteError(rusqlite::Error);

/// One SQL parameter value, as the store binds it.
#[derive(Clone, Debug)]
pub enum SqlValue {
    /// A signed integer column value
    Int(i64),
    /// A text column value
    Text(String),
    /// A blob column value
    Blob(Vec<u8>),
    /// An SQL NULL
    Null,
}

/// Relies on rusqlite's `Connection::open`: opens or creates a database file.
#[verifier::external_body]
fn conn_open(path: &str) -> Result<rusqlite::Connection, rusqlite::Error> {
    rusqlite::Connection::open(path)
}

/// Relies on rusqlite's `Connection::open_in_memory`: opens a non-persistent
/// database.
#[verifier::external_body]
fn conn_open_in_memory() -> Result<rusqlite::Connection, rusqlite::Error> {
    rusqlite::Connection::open_in_memory()
}

/// Relies on rusqlite's `Connection::execute`: runs one SQL statement with
/// the given parameters and yields the number of rows changed.
#[verifier::external_body]
fn conn_execute(
    conn: &rusqlite::Connection,
    sql: &str,
    params: &Vec<SqlValue>,
) -> Result<usize, rusqlite::Error> {
    let it = params.iter().map(|v| match v {
        SqlValue::Int(i) => rusqlite::types::Value::Integer(*i),
        SqlValue::Text(s) => rusqlite::types::Value::Text(s.clone()),
        SqlValue::Blob(b) => rusqlite::types::Value::Blob(b.clone()),
        SqlValue::Null => rusqlite::types::Value::Null,
    });
    conn.execute(sql, rusqlite::params_from_iter(it))
}

/// Relies on rusqlite's `Connection::query_row`: runs one query and reads
/// the first column of its first row as an integer.
#[verifier::external_body]
fn conn_query_count(
    conn: &rusqlite::Connection,
    sql: &str,
    params: &Vec<SqlValue>,
) -> Result<i64, rusqlite::Error> {
    let it = params.iter().map(|v| match v {
        SqlValue::Int(i) => rusqlite::types::Value::Integer(*i),
        SqlValue::Text(s) => rusqlite::types::Value::Text(s.clone()),
        SqlValue::Blob(b) => rusqlite::types::Value::Blob(b.clone()),
        SqlValue::Null => rusqlite::types::Value::Null,
    });
    conn.query_row(sql, rusqlite::params_from_iter(it), |row| row.get(0))
}

/// Relies on rusqlite's `Connection::last_insert_rowid`: the rowid of the
/// most recent successful insert on this connection.
#[verifier::external_body]
fn conn_last_insert_rowid(conn: &rusqlite::Connection) -> i64 {
    conn.last_insert_rowid()
}

/// Relies on rusqlite's `Error` `Display` implementation for a readable
/// message.
#[verifier::external_body]
fn sqlite_error_message(e: &rusqlite::Error) -> String {
    format!("{e}")
}

/// Errors that can occur when working with the divergence database.
#[derive(Clone, Debug)]
pub enum DatabaseError {
    /// SQLite reported an error; the message is kept.
    Sqlite(String),
    /// An input/output error, by message.
    Io(String),
    /// A record's values cannot be represented in the store's columns.
    Serialization(String),
    /// Database has not been initialized.
    NotInitialized,
}

impl DatabaseError {
    /// A human-readable description of the error.
    pub fn message(&self) -> (r: String)
        ensures
            self matches DatabaseError::Sqlite(m) ==> r@ == "SQLite error: "@ + m@,
            self matches DatabaseError::Io(m) ==> r@ == "IO error: "@ + m@,
            self matches DatabaseError::Serialization(m) ==> r@ == "Serialization error: "@ + m@,
            self matches DatabaseError::NotInitialized ==> r@ == "Database not initialized"@,
    {
        match self {
            DatabaseError::Sqlite(m) => String::from_str("SQLite error: ").concat(m.as_str()),
            DatabaseError::Io(m) => String::from_str("IO error: ").concat(m.as_str()),
            DatabaseError::Serialization(m) => String::from_str("Serialization error: ").concat(
                m.as_str(),
            ),
            DatabaseError::NotInitialized => String::from_str("Database not initialized"),
        }
    }
}

/// The largest unsigned value the store's integer columns can hold.
pub open spec fn fits_i64(v: u64) -> bool {
    v <= i64::MAX as u64
}

/// Whether every numeric field of a record fits the store's signed integer
/// columns. SQLite integers are signed 64-bit, so an unsigned value above
/// that range cannot be stored and the record is refused.
pub open spec fn spec_divergence_fits(d: Divergence) -> bool {
    &&& fits_i64(d.block_number)
    &&& fits_i64(d.tx_index)
    &&& fits_i64(d.timestamp)
    &&& fits_i64(d.gas_analysis.normal_gas_used)
    &&& fits_i64(d.gas_analysis.experimental_gas_used)
    &&& fits_i64(d.gas_analysis.gas_efficiency_ratio)
    &&& spec_counts_fit(d.normal_ops)
    &&& spec_counts_fit(d.experimental_ops)
    &&& (d.divergence_location matches Some(l) ==> l.pc <= i64::MAX && l.call_depth <= i64::MAX)
    &&& (d.oog_info matches Some(g) ==> g.pc <= i64::MAX && g.call_depth <= i64::MAX && fits_i64(
        g.gas_remaining,
    ))
}

/// Whether an operation tally fits the store's signed integer columns.
pub open spec fn spec_counts_fit(c: crate::divergence::OperationCounts) -> bool {
    &&& fits_i64(c.sload_count)
    &&& fits_i64(c.sstore_count)
    &&& fits_i64(c.call_count)
    &&& fits_i64(c.log_count)
    &&& fits_i64(c.total_ops)
    &&& fits_i64(c.memory_words_allocated)
    &&& fits_i64(c.create_count)
}

/// Convert an unsigned value for a signed integer column, refusing one that
/// does not fit.
fn checked_i64(v: u64) -> (r: Option<i64>)
    ensures
        fits_i64(v) ==> r == Some(v as i64),
        !fits_i64(v) ==> r is None,
{
    if v > 0x7fff_ffff_ffff_ffff {
        None
    } else {
        Some(v as i64)
    }
}

/// Convert a machine-size value for a signed integer column, refusing one
/// that does not fit.
fn checked_i64_usize(v: usize) -> (r: Option<i64>)
    ensures
        v <= i64::MAX ==> r == Some(v as i64),
        v > i64::MAX ==> r is None,
{
    if v as u64 > 0x7fff_ffff_ffff_ffff {
        None
    } else {
        Some(v as i64)
    }
}

/// Copy a byte payload for a blob column.
fn blob_of(v: &Vec<u8>) -> (r: SqlValue)
    ensures
        r matches SqlValue::Blob(b) && b@ == v@,
{
    let b = v.clone();
    proof {
        assert(b@ =~= v@);
    }
    SqlValue::Blob(b)
}

/// The row the store keeps for an operation tally, appended to `out`:
/// sload, sstore, call, log, total, memory words, create.
fn push_counts_values(out: &mut Vec<SqlValue>, c: &crate::divergence::OperationCounts) -> (r: bool)
    ensures
        r == spec_counts_fit(*c),
        r ==> final(out)@ =~= old(out)@ + seq![
            SqlValue::Int(c.sload_count as i64),
            SqlValue::Int(c.sstore_count as i64),
            SqlValue::Int(c.call_count as i64),
            SqlValue::Int(c.log_count as i64),
            SqlValue::Int(c.total_ops as i64),
            SqlValue::Int(c.memory_words_allocated as i64),
            SqlValue::Int(c.create_count as i64),
        ],
        !r ==> final(out)@ == old(out)@,
{
    if c.sload_count > 0x7fff_ffff_ffff_ffff || c.sstore_count > 0x7fff_ffff_ffff_ffff
        || c.call_count > 0x7fff_ffff_ffff_ffff || c.log_count > 0x7fff_ffff_ffff_ffff
        || c.total_ops > 0x7fff_ffff_ffff_ffff || c.memory_words_allocated
        > 0x7fff_ffff_ffff_ffff || c.create_count > 0x7fff_ffff_ffff_ffff {
        return false;
    }
    out.push(SqlValue::Int(c.sload_count as i64));
    out.push(SqlValue::Int(c.sstore_count as i64));
    out.push(SqlValue::Int(c.call_count as i64));
    out.push(SqlValue::Int(c.log_count as i64));
    out.push(SqlValue::Int(c.total_ops as i64));
    out.push(SqlValue::Int(c.memory_words_allocated as i64));
    out.push(SqlValue::Int(c.create_count as i64));
    true
}

/// The tally columns starting at position `i`: sload, sstore, call, log,
/// total, memory words, create.
pub open spec fn counts_at(v: Seq<SqlValue>, i: int, c: crate::divergence::OperationCounts) -> bool {
    &&& v[i] == SqlValue::Int(c.sload_count as i64)
    &&& v[i + 1] == SqlValue::Int(c.sstore_count as i64)
    &&& v[i + 2] == SqlValue::Int(c.call_count as i64)
    &&& v[i + 3] == SqlValue::Int(c.log_count as i64)
    &&& v[i + 4] == SqlValue::Int(c.total_ops as i64)
    &&& v[i + 5] == SqlValue::Int(c.memory_words_allocated as i64)
    &&& v[i + 6] == SqlValue::Int(c.create_count as i64)
}

/// The divergence-location columns starting at position `i`: contract,
/// function selector, program counter, call depth, opcode, opcode name —
/// all NULL when no location was recorded.
pub open spec fn location_at(
    v: Seq<SqlValue>,
    i: int,
    loc: Option<crate::divergence::DivergenceLocation>,
) -> bool {
    match loc {
        None => {
            &&& v[i] == SqlValue::Null
            &&& v[i + 1] == SqlValue::Null
            &&& v[i + 2] == SqlValue::Null
            &&& v[i + 3] == SqlValue::Null
            &&& v[i + 4] == SqlValue::Null
            &&& v[i + 5] == SqlValue::Null
        },
        Some(l) => {
            &&& v[i] matches SqlValue::Blob(b) && b@ == l.contract@
            &&& match l.function_selector {
                Some(sel) => v[i + 1] matches SqlValue::Blob(b) && b@ == sel@,
                None => v[i + 1] == SqlValue::Null,
            }
            &&& v[i + 2] == SqlValue::Int(l.pc as i64)
            &&& v[i + 3] == SqlValue::Int(l.call_depth as i64)
            &&& v[i + 4] == SqlValue::Int(l.opcode as i64)
            &&& v[i + 5] matches SqlValue::Text(s) && s@ == l.opcode_name@
        },
    }
}

/// The out-of-gas columns starting at position `i`: the occurrence flag and
/// then opcode, opcode name, program counter, contract, call depth, gas
/// remaining, and pattern — the detail columns NULL when none was recorded.
pub open spec fn oog_at(
    v: Seq<SqlValue>,
    i: int,
    oog: Option<crate::divergence::OutOfGasInfo>,
) -> bool {
    match oog {
        None => {
            &&& v[i] == SqlValue::Int(0)
            &&& v[i + 1] == SqlValue::Null
            &&& v[i + 2] == SqlValue::Null
            &&& v[i + 3] == SqlValue::Null
            &&& v[i + 4] == SqlValue::Null
            &&& v[i + 5] == SqlValue::Null
            &&& v[i + 6] == SqlValue::Null
            &&& v[i + 7] == SqlValue::Null
        },
        Some(g) => {
            &&& v[i] == SqlValue::Int(1)
            &&& v[i + 1] == SqlValue::Int(g.opcode as i64)
            &&& v[i + 2] matches SqlValue::Text(s) && s@ == g.opcode_name@
            &&& v[i + 3] == SqlValue::Int(g.pc as i64)
            &&& v[i + 4] matches SqlValue::Blob(b) && b@ == g.contract@
            &&& v[i + 5] == SqlValue::Int(g.call_depth as i64)
            &&& v[i + 6] == SqlValue::Int(g.gas_remaining as i64)
            &&& v[i + 7] matches SqlValue::Text(s) && s@ == g.pattern.spec_name()
        },
    }
}

/// Marshal a record into its 36 column values, in the order of the insert
/// statement. Fails exactly when some numeric field does not fit a signed
/// integer column.
#[verifier::rlimit(60)]
fn divergence_row_values(d: &Divergence) -> (r: Result<Vec<SqlValue>, DatabaseError>)
    ensures
        r is Ok <==> spec_divergence_fits(*d),
        r matches Err(e) ==> e is Serialization,
        r matches Ok(v) ==> {
            &&& v@.len() == 36
            &&& v@[0] == SqlValue::Int(d.block_number as i64)
            &&& v@[1] == SqlValue::Int(d.tx_index as i64)
            &&& v@[2] matches SqlValue::Blob(b) && b@ == d.tx_hash@
            &&& v@[3] == SqlValue::Int(d.timestamp as i64)
            &&& v@[4] matches SqlValue::Text(s) && s@ == spec_types_joined(d.divergence_types@)
            &&& v@[5] == SqlValue::Int(d.gas_analysis.normal_gas_used as i64)
            &&& v@[6] == SqlValue::Int(d.gas_analysis.experimental_gas_used as i64)
            &&& v@[7] == SqlValue::Int(d.gas_analysis.gas_efficiency_ratio as i64)
            &&& counts_at(v@, 8, d.normal_ops)
            &&& counts_at(v@, 15, d.experimental_ops)
            &&& location_at(v@, 22, d.divergence_location)
            &&& oog_at(v@, 28, d.oog_info)
        },
{
    let oor = || -> (e: DatabaseError)
        ensures
            e is Serialization,
        { DatabaseError::Serialization(String::from_str("value out of range for the store")) };
    let block_number = match checked_i64(d.block_number) {
        Some(v) => v,
        None => return Err(oor()),
    };
    let tx_index = match checked_i64(d.tx_index) {
        Some(v) => v,
        None => return Err(oor()),
    };
    let timestamp = match checked_i64(d.timestamp) {
        Some(v) => v,
        None => return Err(oor()),
    };
    let normal_gas = match checked_i64(d.gas_analysis.normal_gas_used) {
        Some(v) => v,
        None => return Err(oor()),
    };
    let experimental_gas = match checked_i64(d.gas_analysis.experimental_gas_used) {
        Some(v) => v,
        None => return Err(oor()),
    };
    let ratio = match checked_i64(d.gas_analysis.gas_efficiency_ratio) {
        Some(v) => v,
        None => return Err(oor()),
    };

    let mut v: Vec<SqlValue> = Vec::new();
    v.push(SqlValue::Int(block_number));
    v.push(SqlValue::Int(tx_index));
    v.push(blob_of(&d.tx_hash));
    v.push(SqlValue::Int(timestamp));
    v.push(SqlValue::Text(divergence_types_string(&d.divergence_types)));
    v.push(SqlValue::Int(normal_gas));
    v.push(SqlValue::Int(experimental_gas));
    v.push(SqlValue::Int(ratio));
    if !push_counts_values(&mut v, &d.normal_ops) {
        return Err(oor());
    }
    if !push_counts_values(&mut v, &d.experimental_ops) {
        return Err(oor());
    }

    match &d.divergence_location {
        Some(l) => {
            let pc = match checked_i64_usize(l.pc) {
                Some(x) => x,
                None => return Err(oor()),
            };
            let depth = match checked_i64_usize(l.call_depth) {
                Some(x) => x,
                None => return Err(oor()),
            };
            v.push(blob_of(&l.contract));
            match &l.function_selector {
                Some(sel) => v.push(blob_of(sel)),
                None => v.push(SqlValue::Null),
            }
            v.push(SqlValue::Int(pc));
            v.push(SqlValue::Int(depth));
            v.push(SqlValue::Int(l.opcode as i64));
            v.push(SqlValue::Text(l.opcode_name.clone()));
        },
        None => {
            v.push(SqlValue::Null);
            v.push(SqlValue::Null);
            v.push(SqlValue::Null);
            v.push(SqlValue::Null);
            v.push(SqlValue::Null);
            v.push(SqlValue::Null);
        },
    }

    match &d.oog_info {
        Some(g) => {
            let pc = match checked_i64_usize(g.pc) {
                Some(x) => x,
                None => return Err(oor()),
            };
            let depth = match checked_i64_usize(g.call_depth) {
                Some(x) => x,
                None => return Err(oor()),
            };
            let gas_remaining = match checked_i64(g.gas_remaining) {
                Some(x) => x,
                None => return Err(oor()),
            };
            v.push(SqlValue::Int(1));
            v.push(SqlValue::Int(g.opcode as i64));
            v.push(SqlValue::Text(g.opcode_name.clone()));
            v.push(SqlValue::Int(pc));
            v.push(blob_of(&g.contract));
            v.push(SqlValue::Int(depth));
            v.push(SqlValue::Int(gas_remaining));
            v.push(SqlValue::Text(String::from_str(g.pattern.as_str())));
        },
        None => {
            v.push(SqlValue::Int(0));
            v.push(SqlValue::Null);
            v.push(SqlValue::Null);
            v.push(SqlValue::Null);
            v.push(SqlValue::Null);
            v.push(SqlValue::Null);
            v.push(SqlValue::Null);
            v.push(SqlValue::Null);
        },
    }

    Ok(v)
}

/// Whether a call frame's numeric fields fit the store's integer columns.
pub open spec fn spec_frame_fits(f: CallFrame) -> bool {
    &&& f.call_index <= i64::MAX
    &&& f.depth <= i64::MAX
    &&& fits_i64(f.gas_provided)
    &&& fits_i64(f.gas_used)
}

/// Whether every call frame and event log attached to a record fits the
/// store's integer columns.
pub open spec fn spec_traces_fit(d: Divergence) -> bool {
    &&& (d.call_trees matches Some(ct) ==> (forall|i: int|
        0 <= i < ct.normal@.len() ==> spec_frame_fits(#[trigger] ct.normal@[i])) && (forall|i: int|
        0 <= i < ct.experimental@.len() ==> spec_frame_fits(#[trigger] ct.experimental@[i])))
    &&& (d.event_logs matches Some(el) ==> (forall|i: int|
        0 <= i < el.normal@.len() ==> (#[trigger] el.normal@[i]).log_index <= i64::MAX) && (
    forall|i: int|
        0 <= i < el.experimental@.len() ==> (#[trigger] el.experimental@[i]).log_index
            <= i64::MAX))
}

/// Marshal one call frame into its 12 column values.
fn call_frame_values(divergence_id: i64, is_experimental: bool, frame: &CallFrame) -> (r: Result<
    Vec<SqlValue>,
    DatabaseError,
>)
    ensures
        r is Ok <==> spec_frame_fits(*frame),
        r matches Err(e) ==> e is Serialization,
        r matches Ok(v) ==> {
            &&& v@.len() == 12
            &&& v@[0] == SqlValue::Int(divergence_id)
            &&& v@[1] == SqlValue::Int(if is_experimental { 1int } else { 0int } as i64)
            &&& v@[2] == SqlValue::Int(frame.call_index as i64)
            &&& v@[3] == SqlValue::Int(frame.depth as i64)
            &&& v@[4] matches SqlValue::Blob(b) && b@ == frame.from@
            &&& match frame.to {
                Some(t) => v@[5] matches SqlValue::Blob(b) && b@ == t@,
                None => v@[5] == SqlValue::Null,
            }
            &&& v@[6] matches SqlValue::Text(s) && s@ == frame.call_type.spec_name()
            &&& v@[7] == SqlValue::Int(frame.gas_provided as i64)
            &&& v@[8] == SqlValue::Int(frame.gas_used as i64)
            &&& v@[9] == SqlValue::Int(if frame.success { 1int } else { 0int } as i64)
            &&& match frame.input {
                Some(iv) => v@[10] matches SqlValue::Blob(b) && b@ == iv@,
                None => v@[10] == SqlValue::Null,
            }
            &&& match frame.output {
                Some(ov) => v@[11] matches SqlValue::Blob(b) && b@ == ov@,
                None => v@[11] == SqlValue::Null,
            }
        },
{
    let call_index = match checked_i64_usize(frame.call_index) {
        Some(x) => x,
        None => return Err(
            DatabaseError::Serialization(String::from_str("value out of range for the store")),
        ),
    };
    let depth = match checked_i64_usize(frame.depth) {
        Some(x) => x,
        None => return Err(
            DatabaseError::Serialization(String::from_str("value out of range for the store")),
        ),
    };
    let gas_provided = match checked_i64(frame.gas_provided) {
        Some(x) => x,
        None => return Err(
            DatabaseError::Serialization(String::from_str("value out of range for the store")),
        ),
    };
    let gas_used = match checked_i64(frame.gas_used) {
        Some(x) => x,
        None => return Err(
            DatabaseError::Serialization(String::from_str("value out of range for the store")),
        ),
    };
    let mut v: Vec<SqlValue> = Vec::new();
    v.push(SqlValue::Int(divergence_id));
    v.push(SqlValue::Int(if is_experimental { 1 } else { 0 }));
    v.push(SqlValue::Int(call_index));
    v.push(SqlValue::Int(depth));
    v.push(blob_of(&frame.from));
    match &frame.to {
        Some(t) => v.push(blob_of(t)),
        None => v.push(SqlValue::Null),
    }
    v.push(SqlValue::Text(String::from_str(frame.call_type.as_str())));
    v.push(SqlValue::Int(gas_provided));
    v.push(SqlValue::Int(gas_used));
    v.push(SqlValue::Int(if frame.success { 1 } else { 0 }));
    match &frame.input {
        Some(iv) => v.push(blob_of(iv)),
        None => v.push(SqlValue::Null),
    }
    match &frame.output {
        Some(ov) => v.push(blob_of(ov)),
        None => v.push(SqlValue::Null),
    }
    Ok(v)
}

/// The topic held in slot `k` of a log, if any.
pub open spec fn spec_topic_at(l: EventLog, k: int) -> Option<Seq<u8>> {
    if 0 <= k < l.topics@.len() {
        Some(l.topics@[k]@)
    } else {
        None
    }
}

/// Marshal one event log into its 9 column values; the four topic slots are
/// filled in order and NULL where the log has fewer topics.
fn event_log_values(divergence_id: i64, is_experimental: bool, log: &EventLog) -> (r: Result<
    Vec<SqlValue>,
    DatabaseError,
>)
    ensures
        r is Ok <==> log.log_index <= i64::MAX,
        r matches Err(e) ==> e is Serialization,
        r matches Ok(v) ==> {
            &&& v@.len() == 9
            &&& v@[0] == SqlValue::Int(divergence_id)
            &&& v@[1] == SqlValue::Int(if is_experimental { 1int } else { 0int } as i64)
            &&& v@[2] == SqlValue::Int(log.log_index as i64)
            &&& v@[3] matches SqlValue::Blob(b) && b@ == log.address@
            &&& forall|k: int|
                0 <= k < 4 ==> match #[trigger] spec_topic_at(*log, k) {
                    Some(t) => v@[4 + k] matches SqlValue::Blob(b) && b@ == t,
                    None => v@[4 + k] == SqlValue::Null,
                }
            &&& v@[8] matches SqlValue::Blob(b) && b@ == log.data@
        },
{
    let log_index = match checked_i64_usize(log.log_index) {
        Some(x) => x,
        None => return Err(
            DatabaseError::Serialization(String::from_str("value out of range for the store")),
        ),
    };
    let mut v: Vec<SqlValue> = Vec::new();
    v.push(SqlValue::Int(divergence_id));
    v.push(SqlValue::Int(if is_experimental { 1 } else { 0 }));
    v.push(SqlValue::Int(log_index));
    v.push(blob_of(&log.address));
    let mut k: usize = 0;
    while k < 4
        invariant
            k <= 4,
            v@.len() == 4 + k,
            v@[0] == SqlValue::Int(divergence_id),
            v@[1] == SqlValue::Int(if is_experimental { 1int } else { 0int } as i64),
            v@[2] == SqlValue::Int(log.log_index as i64),
            v@[3] matches SqlValue::Blob(b) && b@ == log.address@,
            forall|j: int|
                0 <= j < k ==> match #[trigger] spec_topic_at(*log, j) {
                    Some(t) => v@[4 + j] matches SqlValue::Blob(b) && b@ == t,
                    None => v@[4 + j] == SqlValue::Null,
                },
            log.log_index <= i64::MAX,
        decreases 4 - k,
    {
        if k < log.topics.len() {
            v.push(blob_of(&log.topics[k]));
        } else {
            v.push(SqlValue::Null);
        }
        k += 1;
    }
    v.push(blob_of(&log.data));
    Ok(v)
}

/// Database for storing divergence data.
///
/// The connection is an owned resource: all reads and writes go through the
/// one holder of this value, which serializes them.
#[derive(Debug)]
pub struct DivergenceDatabase {
    conn: rusqlite::Connection,
}

impl DivergenceDatabase {
    /// Open or create a database at the given path.
    ///
    /// Whether this succeeds is decided by SQLite and the file system; every
    /// failure carries SQLite's message.
    pub fn open(path: &str) -> (r: Result<DivergenceDatabase, DatabaseError>)
        ensures
            r matches Err(e) ==> e is Sqlite,
    {
        match conn_open(path) {
            Ok(conn) => {
                let db = DivergenceDatabase { conn };
                match db.initialize_schema() {
                    Ok(()) => Ok(db),
                    Err(e) => Err(e),
                }
            },
            Err(e) => Err(DatabaseError::Sqlite(sqlite_error_message(&e))),
        }
    }

    /// Create an in-memory database (for testing); every failure carries
    /// SQLite's message.
    pub fn in_memory() -> (r: Result<DivergenceDatabase, DatabaseError>)
        ensures
            r matches Err(e) ==> e is Sqlite,
    {
        match conn_open_in_memory() {
            Ok(conn) => {
                let db = DivergenceDatabase { conn };
                match db.initialize_schema() {
                    Ok(()) => Ok(db),
                    Err(e) => Err(e),
                }
            },
            Err(e) => Err(DatabaseError::Sqlite(sqlite_error_message(&e))),
        }
    }

    /// Run one schema statement without parameters.
    fn execute_schema(&self, sql: &str) -> (r: Result<(), DatabaseError>)
        ensures
            r matches Err(e) ==> e is Sqlite,
    {
        let no_params: Vec<SqlValue> = Vec::new();
        match conn_execute(&self.conn, sql, &no_params) {
            Ok(_) => Ok(()),
            Err(e) => Err(DatabaseError::Sqlite(sqlite_error_message(&e))),
        }
    }

    /// Initialize the database schema: the divergences table with its two
    /// indexes, the call-tree and event-log side tables each indexed by
    /// their record, and the gas-loops side table.
    fn initialize_schema(&self) -> (r: Result<(), DatabaseError>)
        ensures
            r matches Err(e) ==> e is Sqlite,
    {
        self.execute_schema(
            "CREATE TABLE IF NOT EXISTS divergences (
                id INTEGER PRIMARY KEY AUTOINCREMENT,
                block_number INTEGER NOT NULL,
                tx_index INTEGER NOT NULL,
                tx_hash BLOB NOT NULL,
                timestamp INTEGER NOT NULL,
                divergence_types TEXT NOT NULL,
                normal_gas_used INTEGER NOT NULL,
                experimental_gas_used INTEGER NOT NULL,
                gas_efficiency_ratio INTEGER NOT NULL,
                normal_sload_count INTEGER,
                normal_sstore_count INTEGER,
                normal_call_count INTEGER,
                normal_log_count INTEGER,
                normal_total_ops INTEGER,
                normal_memory_words INTEGER,
                normal_create_count INTEGER,
                exp_sload_count INTEGER,
                exp_sstore_count INTEGER,
                exp_call_count INTEGER,
                exp_log_count INTEGER,
                exp_total_ops INTEGER,
                exp_memory_words INTEGER,
                exp_create_count INTEGER,
                divergence_contract BLOB,
                divergence_function_selector BLOB,
                divergence_pc INTEGER,
                divergence_call_depth INTEGER,
                divergence_opcode INTEGER,
                divergence_opcode_name TEXT,
                oog_occurred BOOLEAN,
                oog_opcode INTEGER,
                oog_opcode_name TEXT,
                oog_pc INTEGER,
                oog_contract BLOB,
                oog_call_depth INTEGER,
                oog_gas_remaining INTEGER,
                oog_pattern TEXT,
                created_at INTEGER DEFAULT (strftime('%s', 'now'))
            )",
        )?;
        self.execute_schema(
            "CREATE INDEX IF NOT EXISTS idx_divergences_block ON divergences(block_number)",
        )?;
        self.execute_schema(
            "CREATE INDEX IF NOT EXISTS idx_divergences_types ON divergences(divergence_types)",
        )?;
        self.execute_schema(
            "CREATE TABLE IF NOT EXISTS call_trees (
                id INTEGER PRIMARY KEY AUTOINCREMENT,
                divergence_id INTEGER NOT NULL,
                is_experimental BOOLEAN NOT NULL,
                call_index INTEGER NOT NULL,
                depth INTEGER NOT NULL,
                from_addr BLOB NOT NULL,
                to_addr BLOB,
                call_type TEXT NOT NULL,
                gas_provided INTEGER,
                gas_used INTEGER,
                success BOOLEAN,
                input BLOB,
                output BLOB,
                FOREIGN KEY (divergence_id) REFERENCES divergences(id) ON DELETE CASCADE
            )",
        )?;
        self.execute_schema(
            "CREATE INDEX IF NOT EXISTS idx_call_trees_divergence ON call_trees(divergence_id)",
        )?;
        self.execute_schema(
            "CREATE TABLE IF NOT EXISTS event_logs (
                id INTEGER PRIMARY KEY AUTOINCREMENT,
                divergence_id INTEGER NOT NULL,
                is_experimental BOOLEAN NOT NULL,
                log_index INTEGER NOT NULL,
                contract_address BLOB NOT NULL,
                topic0 BLOB,
                topic1 BLOB,
                topic2 BLOB,
                topic3 BLOB,
                data BLOB,
                FOREIGN KEY (divergence_id) REFERENCES divergences(id) ON DELETE CASCADE
            )",
        )?;
        self.execute_schema(
            "CREATE INDEX IF NOT EXISTS idx_event_logs_divergence ON event_logs(divergence_id)",
        )?;
        self.execute_schema(
            "CREATE TABLE IF NOT EXISTS gas_loops (
                id INTEGER PRIMARY KEY AUTOINCREMENT,
                block_number INTEGER NOT NULL,
                tx_hash BLOB NOT NULL,
                contract_address BLOB NOT NULL,
                function_selector BLOB,
                first_seen_block INTEGER NOT NULL,
                gas_threshold INTEGER,
                loop_pattern TEXT,
                created_at INTEGER DEFAULT (strftime('%s', 'now'))
            )",
        )?;
        self.execute_schema(
            "CREATE INDEX IF NOT EXISTS idx_gas_loops_contract ON gas_loops(contract_address)",
        )?;
        Ok(())
    }

    /// Insert a call frame under a record.
    fn insert_call_frame(
        &self,
        divergence_id: i64,
        is_experimental: bool,
        frame: &CallFrame,
    ) -> (r: Result<(), DatabaseError>)
        ensures
            !spec_frame_fits(*frame) ==> (r matches Err(e) && e is Serialization),
            spec_frame_fits(*frame) ==> (r matches Err(e) ==> e is Sqlite),
    {
        let values = match call_frame_values(divergence_id, is_experimental, frame) {
            Ok(v) => v,
            Err(e) => return Err(e),
        };
        match conn_execute(
            &self.conn,
            "INSERT INTO call_trees (
                divergence_id, is_experimental, call_index, depth,
                from_addr, to_addr, call_type, gas_provided,
                gas_used, success, input, output
            ) VALUES (?1, ?2, ?3, ?4, ?5, ?6, ?7, ?8, ?9, ?10, ?11, ?12)",
            &values,
        ) {
            Ok(_) => Ok(()),
            Err(e) => Err(DatabaseError::Sqlite(sqlite_error_message(&e))),
        }
    }

    /// Insert an event log under a record.
    fn insert_event_log(
        &self,
        divergence_id: i64,
        is_experimental: bool,
        log: &EventLog,
    ) -> (r: Result<(), DatabaseError>)
        ensures
            log.log_index > i64::MAX ==> (r matches Err(e) && e is Serialization),
            log.log_index <= i64::MAX ==> (r matches Err(e) ==> e is Sqlite),
    {
        let values = match event_log_values(divergence_id, is_experimental, log) {
            Ok(v) => v,
            Err(e) => return Err(e),
        };
        match conn_execute(
            &self.conn,
            "INSERT INTO event_logs (
                divergence_id, is_experimental, log_index, contract_address,
                topic0, topic1, topic2, topic3, data
            ) VALUES (?1, ?2, ?3, ?4, ?5, ?6, ?7, ?8, ?9)",
            &values,
        ) {
            Ok(_) => Ok(()),
            Err(e) => Err(DatabaseError::Sqlite(sqlite_error_message(&e))),
        }
    }

    /// Record a divergence: insert the row, then all call frames and logs of
    /// both runs, if present, under the same id, and return that id.
    ///
    /// A record whose numeric fields cannot be stored is refused before any
    /// store call, as a serialization error; on a record that fits entirely,
    /// any failure is SQLite's, whose message is kept.
    #[verifier::loop_isolation(false)]
    pub fn record_divergence(&self, divergence: &Divergence) -> (r: Result<i64, DatabaseError>)
        ensures
            !spec_divergence_fits(*divergence) ==> (r matches Err(e) && e is Serialization),
            !spec_traces_fit(*divergence) ==> r is Err,
            spec_divergence_fits(*divergence) && spec_traces_fit(*divergence) ==> (r matches Err(
                e,
            ) ==> e is Sqlite),
    {
        let values = match divergence_row_values(divergence) {
            Ok(v) => v,
            Err(e) => return Err(e),
        };
        match conn_execute(
            &self.conn,
            "INSERT INTO divergences (
                block_number, tx_index, tx_hash, timestamp,
                divergence_types,
                normal_gas_used, experimental_gas_used, gas_efficiency_ratio,
                normal_sload_count, normal_sstore_count, normal_call_count,
                normal_log_count, normal_total_ops, normal_memory_words, normal_create_count,
                exp_sload_count, exp_sstore_count, exp_call_count,
                exp_log_count, exp_total_ops, exp_memory_words, exp_create_count,
                divergence_contract, divergence_function_selector, divergence_pc,
                divergence_call_depth, divergence_opcode, divergence_opcode_name,
                oog_occurred, oog_opcode, oog_opcode_name, oog_pc,
                oog_contract, oog_call_depth, oog_gas_remaining, oog_pattern
            ) VALUES (
                ?1, ?2, ?3, ?4, ?5, ?6, ?7, ?8, ?9, ?10, ?11, ?12, ?13, ?14, ?15,
                ?16, ?17, ?18, ?19, ?20, ?21, ?22, ?23, ?24, ?25, ?26, ?27, ?28,
                ?29, ?30, ?31, ?32, ?33, ?34, ?35, ?36
            )",
            &values,
        ) {
            Ok(_) => {},
            Err(e) => return Err(DatabaseError::Sqlite(sqlite_error_message(&e))),
        }
        let divergence_id = conn_last_insert_rowid(&self.conn);

        if let Some(call_trees) = &divergence.call_trees {
            let mut i: usize = 0;
            while i < call_trees.normal.len()
                invariant
                    i <= call_trees.normal@.len(),
                    forall|k: int|
                        0 <= k < i ==> spec_frame_fits(#[trigger] call_trees.normal@[k]),
                decreases call_trees.normal@.len() - i,
            {
                match self.insert_call_frame(divergence_id, false, &call_trees.normal[i]) {
                    Ok(()) => {},
                    Err(e) => return Err(e),
                }
                i += 1;
            }
            let mut i: usize = 0;
            while i < call_trees.experimental.len()
                invariant
                    i <= call_trees.experimental@.len(),
                    forall|k: int|
                        0 <= k < i ==> spec_frame_fits(#[trigger] call_trees.experimental@[k]),
                decreases call_trees.experimental@.len() - i,
            {
                match self.insert_call_frame(divergence_id, true, &call_trees.experimental[i]) {
                    Ok(()) => {},
                    Err(e) => return Err(e),
                }
                i += 1;
            }
        }

        if let Some(event_logs) = &divergence.event_logs {
            let mut i: usize = 0;
            while i < event_logs.normal.len()
                invariant
                    i <= event_logs.normal@.len(),
                    forall|k: int|
                        0 <= k < i ==> (#[trigger] event_logs.normal@[k]).log_index <= i64::MAX,
                decreases event_logs.normal@.len() - i,
            {
                match self.insert_event_log(divergence_id, false, &event_logs.normal[i]) {
                    Ok(()) => {},
                    Err(e) => return Err(e),
                }
                i += 1;
            }
            let mut i: usize = 0;
            while i < event_logs.experimental.len()
                invariant
                    i <= event_logs.experimental@.len(),
                    forall|k: int|
                        0 <= k < i ==> (#[trigger] event_logs.experimental@[k]).log_index
                            <= i64::MAX,
                decreases event_logs.experimental@.len() - i,
            {
                match self.insert_event_log(divergence_id, true, &event_logs.experimental[i]) {
                    Ok(()) => {},
                    Err(e) => return Err(e),
                }
                i += 1;
            }
        }

        Ok(divergence_id)
    }

    /// Get the divergence count over an inclusive block range.
    pub fn count_divergences(&self, from_block: u64, to_block: u64) -> (r: Result<
        u64,
        DatabaseError,
    >)
        ensures
            !(fits_i64(from_block) && fits_i64(to_block)) ==> (r matches Err(e) && e
                is Serialization),
            fits_i64(from_block) && fits_i64(to_block) ==> (r matches Err(e) ==> e is Sqlite),
    {
        let from = match checked_i64(from_block) {
            Some(x) => x,
            None => return Err(
                DatabaseError::Serialization(String::from_str("value out of range for the store")),
            ),
        };
        let to = match checked_i64(to_block) {
            Some(x) => x,
            None => return Err(
                DatabaseError::Serialization(String::from_str("value out of range for the store")),
            ),
        };
        let mut params: Vec<SqlValue> = Vec::new();
        params.push(SqlValue::Int(from));
        params.push(SqlValue::Int(to));
        match conn_query_count(
            &self.conn,
            "SELECT COUNT(*) FROM divergences WHERE block_number >= ?1 AND block_number <= ?2",
            &params,
        ) {
            Ok(count) => Ok(#[verifier::truncate] (count as u64)),
            Err(e) => Err(DatabaseError::Sqlite(sqlite_error_message(&e))),
        }
    }

    /// Get the divergence count by type: a substring match over the
    /// delimited type column, which is sound because no type name is a
    /// substring of another.
    pub fn count_by_type(&self, dtype: DivergenceType) -> (r: Result<u64, DatabaseError>)
        ensures
            r matches Err(e) ==> e is Sqlite,
    {
        let pattern = String::from_str("%").concat(dtype.as_str()).concat("%");
        let mut params: Vec<SqlValue> = Vec::new();
        params.push(SqlValue::Text(pattern));
        match conn_query_count(
            &self.conn,
            "SELECT COUNT(*) FROM divergences WHERE divergence_types LIKE ?1",
            &params,
        ) {
            Ok(count) => Ok(#[verifier::truncate] (count as u64)),
            Err(e) => Err(DatabaseError::Sqlite(sqlite_error_message(&e))),
        }
    }
}

} // verus!
