//! Append-only, time-keyed persistence of readings, backed by an SQLite
//! database. The database itself is reached only through the trusted
//! wrappers in this module; everything above them is verified against the
//! abstract contents `stored_readings`, a map from unix timestamp to the
//! pair of quantized values.
use vstd::prelude::*;

use crate::Reading;

verus! {

/// Failures of the storage layer. `StorageUnavailable` can only come from
/// opening the store and is fatal at startup; `DuplicateTimestamp` reports
/// a primary-key collision on insert, which the caller drops rather than
/// treats as fatal; `StorageFailure` is any other runtime storage error.
#[derive(Clone, Copy, Debug, PartialEq, Eq, Structural)]
pub enum StoreError {
    StorageUnavailable,
    DuplicateTimestamp,
    StorageFailure,
}

#[verifier::external_type_specification]
#[verifier::external_body]
pub struct ExSqliteError(sqlite::Error);

/// A handle on the database. Opaque to the verifier; its abstract contents
/// are given by `stored_readings`.
#[verifier::external_body]
pub struct Store {
    conn: sqlite::ConnectionThreadSafe,
}

/// The rows of the `weather_readings` table behind the handle: a map from
/// unix timestamp to `(temperature_q, humidity_q)`.
pub uninterp spec fn stored_readings(s: Store) -> Map<int, (int, int)>;

/// The timestamps of a sequence of readings are strictly increasing.
pub open spec fn ascending_by_time(s: Seq<Reading>) -> bool {
    forall|i: int, j: int| 0 <= i < j < s.len() ==> s[i].timestamp < s[j].timestamp
}

/// `s` is exactly the contents of `m` whose timestamps lie in the closed
/// interval `[start, end]`, in ascending order of timestamp.
pub open spec fn selection_of(s: Seq<Reading>, m: Map<int, (int, int)>, start: i64, end: i64) -> bool {
    &&& ascending_by_time(s)
    &&& forall|i: int|
        0 <= i < s.len() ==> start <= (#[trigger] s[i]).timestamp <= end
    &&& forall|i: int|
        0 <= i < s.len() ==> m.contains_pair(
            (#[trigger] s[i]).timestamp as int,
            (s[i].temperature_q as int, s[i].humidity_q as int),
        )
    &&& forall|t: int|
        start <= t <= end && #[trigger] m.dom().contains(t) ==> exists|i: int|
            0 <= i < s.len() && (#[trigger] s[i]).timestamp == t
}

impl Store {
    /// Relies on `sqlite::Connection::open_thread_safe`: opens or creates a
    /// database file at `path` in the serialized threading mode, and fails
    /// exactly when the location cannot be opened.
    #[verifier::external_body]
    fn connect(path: &str) -> (r: Result<Store, StoreError>)
        ensures
            r matches Err(e) ==> e == StoreError::StorageUnavailable,
    {
        match sqlite::Connection::open_thread_safe(path) {
            Ok(conn) => Ok(Store { conn }),
            Err(_) => Err(StoreError::StorageUnavailable),
        }
    }

    /// Relies on `sqlite::Connection::execute` running a
    /// `CREATE TABLE IF NOT EXISTS`: it never touches existing rows, so the
    /// contents are unchanged whether or not the table already existed.
    #[verifier::external_body]
    fn ensure_schema(&mut self) -> (r: Result<(), StoreError>)
        ensures
            stored_readings(*final(self)) == stored_readings(*old(self)),
            r matches Err(e) ==> e == StoreError::StorageUnavailable,
    {
        match self.conn.execute(
            "CREATE TABLE IF NOT EXISTS weather_readings (unix_time INTEGER PRIMARY KEY, temperature_celsius_q INTEGER, humidity_percent_q INTEGER)",
        ) {
            Ok(()) => Ok(()),
            Err(_) => Err(StoreError::StorageUnavailable),
        }
    }

    /// Relies on `sqlite::Statement::{bind, next}` running a single-row
    /// `INSERT`: on success the row is appended; a constraint violation
    /// (SQLite primary result code 19, here only possible on the
    /// `unix_time` primary key that `ensure_schema` declares) means a row
    /// with this timestamp already exists; a failed statement changes
    /// nothing.
    #[verifier::external_body]
    fn insert_raw(&mut self, r: &Reading) -> (res: Result<(), StoreError>)
        ensures
            res matches Ok(()) ==> {
                &&& !stored_readings(*old(self)).dom().contains(r.timestamp as int)
                &&& stored_readings(*final(self)) == stored_readings(*old(self)).insert(
                    r.timestamp as int,
                    (r.temperature_q as int, r.humidity_q as int),
                )
            },
            res matches Err(e) && e == StoreError::DuplicateTimestamp ==> stored_readings(
                *old(self),
            ).dom().contains(r.timestamp as int),
            res is Err ==> stored_readings(*final(self)) == stored_readings(*old(self)),
            res matches Err(e) ==> (e == StoreError::DuplicateTimestamp || e
                == StoreError::StorageFailure),
    {
        let fail = StoreError::StorageFailure;
        let sql = "INSERT INTO weather_readings (unix_time, temperature_celsius_q, humidity_percent_q) VALUES (?, ?, ?)";
        let mut stmt = match self.conn.prepare(sql) { Ok(s) => s, Err(_) => return Err(fail) };
        if stmt.bind((1, r.timestamp)).is_err() || stmt.bind((2, r.temperature_q)).is_err() || stmt.bind((3, r.humidity_q)).is_err() { return Err(fail); }
        match stmt.next() {
            Ok(_) => Ok(()),
            Err(e) if e.code == Some(19) => Err(StoreError::DuplicateTimestamp),
            Err(_) => Err(fail),
        }
    }

    /// Relies on `sqlite::Statement::{bind, next, read}` running a `SELECT
    /// ... WHERE unix_time BETWEEN ? AND ? ORDER BY unix_time`: `BETWEEN`
    /// is inclusive at both bounds, the order is ascending, and the rows
    /// are exactly those of the table in that range.
    #[verifier::external_body]
    fn select_raw(&self, start: i64, end: i64) -> (r: Result<Vec<Reading>, sqlite::Error>)
        ensures
            r matches Ok(v) ==> selection_of(v@, stored_readings(*self), start, end),
    {
        let sql = "SELECT unix_time, temperature_celsius_q, humidity_percent_q FROM weather_readings WHERE unix_time BETWEEN ? AND ? ORDER BY unix_time";
        let mut stmt = self.conn.prepare(sql)?;
        stmt.bind((1, start))?;
        stmt.bind((2, end))?;
        let mut rows: Vec<Reading> = Vec::new();
        while let sqlite::State::Row = stmt.next()? {
            rows.push(Reading { timestamp: stmt.read(0)?, temperature_q: stmt.read(1)?, humidity_q: stmt.read(2)? });
        }
        Ok(rows)
    }

    /// Open or create persistent storage at `path` and make sure the
    /// reading schema exists. Fails only with `StorageUnavailable`, which
    /// is fatal at startup.
    pub fn open(path: &str) -> (r: Result<Store, StoreError>)
        ensures
            r matches Err(e) ==> e == StoreError::StorageUnavailable,
    {
        let mut store = match Self::connect(path) {
            Ok(s) => s,
            Err(e) => return Err(e),
        };
        match store.ensure_schema() {
            Ok(()) => Ok(store),
            Err(e) => Err(e),
        }
    }

    /// Append one reading. Succeeds only if no reading with the same
    /// timestamp is stored, and then adds exactly that reading; a
    /// `DuplicateTimestamp` failure means one was already there, and every
    /// failure leaves the stored contents unchanged.
    pub fn insert(&mut self, reading: Reading) -> (res: Result<(), StoreError>)
        ensures
            res matches Ok(()) ==> {
                &&& !stored_readings(*old(self)).dom().contains(reading.timestamp as int)
                &&& stored_readings(*final(self)) == stored_readings(*old(self)).insert(
                    reading.timestamp as int,
                    (reading.temperature_q as int, reading.humidity_q as int),
                )
            },
            res matches Err(e) && e == StoreError::DuplicateTimestamp ==> stored_readings(
                *old(self),
            ).dom().contains(reading.timestamp as int),
            res is Err ==> stored_readings(*final(self)) == stored_readings(*old(self)),
            res matches Err(e) ==> (e == StoreError::DuplicateTimestamp || e
                == StoreError::StorageFailure),
    {
        self.insert_raw(&reading)
    }

    /// Every stored reading with `start <= timestamp <= end`, both bounds
    /// included, ascending by timestamp. An inverted window yields an empty
    /// sequence, not an error.
    pub fn select_range(&self, start: i64, end: i64) -> (r: Result<Vec<Reading>, StoreError>)
        ensures
            r matches Ok(v) ==> selection_of(v@, stored_readings(*self), start, end),
            r is Ok && start > end ==> r->Ok_0@.len() == 0,
            r matches Err(e) ==> e == StoreError::StorageFailure,
    {
        let r = match self.select_raw(start, end) {
            Ok(v) => Ok(v),
            Err(_) => Err(StoreError::StorageFailure),
        };
        proof {
            if r is Ok && start > end && r->Ok_0@.len() > 0 {
                assert(start <= r->Ok_0@[0].timestamp <= end);
            }
        }
        r
    }
}

} // verus!
