//! The storage gateway: sole mediator of access to the persistent table of
//! link records.
//!
//! The gateway owns the SQLite connection and never exposes it.  Its abstract
//! state is the mapping from identifiers to original URLs held in the `urls`
//! table; every operation's contract is stated over that mapping.  Records
//! are immutable: the gateway offers only create and read.

use vstd::prelude::*;

verus! {

/// Failure reported by the storage gateway.
#[derive(Clone, Copy, Debug, PartialEq, Eq, Structural)]
pub enum StorageError {
    /// The identifier is already bound to a record.
    Conflict,
    /// The store could not be reached or the command failed.
    Unavailable,
}

/// The outside SQLite connection type, opaque to verification.
#[verifier::external_type_specification]
#[verifier::external_body]
pub struct ExConnection(rusqlite::Connection);

/// Relies on rusqlite::Connection::open: opens the database file at `path`,
/// creating the file if it is missing.  The connection is opaque, so nothing
/// is promised of it.
#[verifier::external_body]
fn open_file_connection(path: &str) -> (r: Result<rusqlite::Connection, StorageError>)
    ensures
        r is Err ==> r->Err_0 == StorageError::Unavailable,
{
    match rusqlite::Connection::open(path) {
        Ok(conn) => Ok(conn),
        Err(_) => Err(StorageError::Unavailable),
    }
}

/// Relies on rusqlite::Connection::open_in_memory: a fresh private in-memory
/// database, which holds no rows at all.
#[verifier::external_body]
fn open_memory_connection() -> (r: Result<rusqlite::Connection, StorageError>)
    ensures
        r is Err ==> r->Err_0 == StorageError::Unavailable,
{
    match rusqlite::Connection::open_in_memory() {
        Ok(conn) => Ok(conn),
        Err(_) => Err(StorageError::Unavailable),
    }
}

/// Relies on rusqlite::Connection::execute_batch: runs the CREATE TABLE
/// command that installs the `urls` table if it is missing.  The table
/// declares `shortened_id` as its primary key: the uniqueness constraint
/// that the gateway's insert contract rests on.
#[verifier::external_body]
fn install_schema(conn: &rusqlite::Connection) -> (r: Result<(), StorageError>)
    ensures
        r is Err ==> r->Err_0 == StorageError::Unavailable,
{
    let schema = "CREATE TABLE IF NOT EXISTS urls(\
         shortened_id TEXT PRIMARY KEY, original_url TEXT NOT NULL)";
    match conn.execute_batch(schema) {
        Ok(_) => Ok(()),
        Err(_) => Err(StorageError::Unavailable),
    }
}

/// Gateway over one SQLite database holding the link records.
pub struct Store {
    conn: rusqlite::Connection,
    contents: Ghost<Map<Seq<char>, Seq<char>>>,
}

impl View for Store {
    type V = Map<Seq<char>, Seq<char>>;

    closed spec fn view(&self) -> Map<Seq<char>, Seq<char>> {
        self.contents@
    }
}

impl Store {
    /// Opens the database file at `path`, creating it and the `urls` table if
    /// they are missing.  The records already on disk are unknown, so nothing
    /// is promised about the abstract contents; the only failure an opening
    /// can report is an unavailable store.
    pub fn open(path: &str) -> (r: Result<Store, StorageError>)
        ensures
            r is Err ==> r->Err_0 == StorageError::Unavailable,
    {
        let conn = match open_file_connection(path) {
            Ok(c) => c,
            Err(e) => {
                return Err(e);
            },
        };
        match install_schema(&conn) {
            Ok(_) => Ok(Store { conn, contents: Ghost(arbitrary()) }),
            Err(e) => Err(e),
        }
    }

    /// Opens a fresh private in-memory database and installs the `urls`
    /// table in it.  Such a database holds no records, so the gateway starts
    /// from the empty mapping.
    pub fn open_in_memory() -> (r: Result<Store, StorageError>)
        ensures
            r is Ok ==> r->Ok_0@ == Map::<Seq<char>, Seq<char>>::empty(),
            r is Err ==> r->Err_0 == StorageError::Unavailable,
    {
        let conn = match open_memory_connection() {
            Ok(c) => c,
            Err(e) => {
                return Err(e);
            },
        };
        match install_schema(&conn) {
            Ok(_) => Ok(Store { conn, contents: Ghost(Map::empty()) }),
            Err(e) => Err(e),
        }
    }

    /// Relies on rusqlite::Connection::execute and the table's primary-key
    /// constraint: the INSERT command adds the row exactly when no row with
    /// this identifier exists, fails with a constraint violation when one
    /// does, and changes nothing when it fails.
    #[verifier::external_body]
    fn exec_insert(&mut self, identifier: &str, original_url: &str) -> (r: Result<
        (),
        StorageError,
    >)
        ensures
            r is Ok ==> !old(self)@.contains_key(identifier@) && final(self)@ == old(self)@.insert(
                identifier@,
                original_url@,
            ),
            r matches Err(e) ==> final(self)@ == old(self)@ && (e == StorageError::Conflict
                ==> old(self)@.contains_key(identifier@)),
    {
        let command = self.conn.execute(
            "INSERT INTO urls(shortened_id, original_url) VALUES(?1, ?2)",
            [identifier, original_url],
        );
        match command {
            Ok(_) => Ok(()),
            Err(rusqlite::Error::SqliteFailure(e, _)) if e.code
                == rusqlite::ErrorCode::ConstraintViolation => Err(StorageError::Conflict),
            Err(_) => Err(StorageError::Unavailable),
        }
    }

    /// Relies on rusqlite::Connection::query_row: the SELECT command returns
    /// the stored URL of the row keyed by this identifier, or reports that no
    /// row matched.  The closure only picks the single selected column out of
    /// the row.
    #[verifier::external_body]
    fn query_lookup(&self, identifier: &str) -> (r: Result<Option<String>, StorageError>)
        ensures
            r matches Ok(Some(url)) ==> self@.contains_key(identifier@) && url@ == self@[
                identifier@
            ],
            r matches Ok(o) ==> (o is None ==> !self@.contains_key(identifier@)),
    {
        let row: Result<String, rusqlite::Error> = self.conn.query_row(
            "SELECT original_url FROM urls WHERE shortened_id = ?1",
            [identifier],
            |row| row.get(0),
        );
        match row {
            Ok(url) => Ok(Some(url)),
            Err(rusqlite::Error::QueryReturnedNoRows) => Ok(None),
            Err(_) => Err(StorageError::Unavailable),
        }
    }

    /// Creates the link record binding `identifier` to `original_url`.
    ///
    /// On success the identifier was fresh and the mapping now holds the new
    /// record and nothing else new; any failure leaves the mapping unchanged,
    /// and a conflict is reported only for an identifier that is already
    /// bound.
    pub fn insert(&mut self, identifier: &str, original_url: &str) -> (r: Result<
        (),
        StorageError,
    >)
        ensures
            r is Ok ==> !old(self)@.contains_key(identifier@) && final(self)@ == old(self)@.insert(
                identifier@,
                original_url@,
            ),
            r matches Err(e) ==> final(self)@ == old(self)@ && (e == StorageError::Conflict
                ==> old(self)@.contains_key(identifier@)),
    {
        self.exec_insert(identifier, original_url)
    }

    /// Reads the record bound to `identifier`.
    ///
    /// A returned URL is exactly the one stored under the identifier; `None`
    /// is returned only when no record is bound to it.  The mapping itself is
    /// never changed by a lookup.
    pub fn lookup(&self, identifier: &str) -> (r: Result<Option<String>, StorageError>)
        ensures
            r matches Ok(Some(url)) ==> self@.contains_key(identifier@) && url@ == self@[
                identifier@
            ],
            r matches Ok(o) ==> (o is None ==> !self@.contains_key(identifier@)),
    {
        self.query_lookup(identifier)
    }
}

} // verus!
