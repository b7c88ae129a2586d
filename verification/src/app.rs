use vstd::prelude::*;

use crate::db;
use crate::utils::spec_valid_identifier;
use crate::utils::validate_table_name;

verus! {

// ---------------------------------------------------------------------------
// Session state: the one live connection and the active table name.
// ---------------------------------------------------------------------------

/// The failure kinds of the session and of statement execution.
#[derive(Debug)]
pub enum AppError {
    /// An identifier or type token failed the lexical pattern.
    Validation,
    /// No connection is open, or opening one failed.
    Connection { message: String },
    /// A table-scoped operation was attempted while no table is active.
    NoActiveTable,
    /// The named table does not exist in the catalog.
    NotFound,
    /// The catalog probe found no columns with a declared type.
    Schema,
    /// The engine rejected a statement, or reported an unexpected row count.
    Execution { message: String },
}

impl AppError {
    /// A short text describing the failure, for the interactive layer to
    /// show.
    pub fn message(&self) -> (r: String)
        ensures
            self matches AppError::Validation ==> r@ == "name is not alphanumeric"@,
            self matches AppError::Connection { message } ==> r == message,
            self matches AppError::NoActiveTable ==> r@ == "no active table was defined"@,
            self matches AppError::NotFound ==> r@ == "table does not exist"@,
            self matches AppError::Schema ==> r@ == "no columns could be retrieved from table"@,
            self matches AppError::Execution { message } ==> r == message,
    {
        match self {
            AppError::Validation => "name is not alphanumeric".to_owned(),
            AppError::Connection { message } => message.clone(),
            AppError::NoActiveTable => "no active table was defined".to_owned(),
            AppError::NotFound => "table does not exist".to_owned(),
            AppError::Schema => "no columns could be retrieved from table".to_owned(),
            AppError::Execution { message } => message.clone(),
        }
    }
}

/// Where the one live connection points: a file or the in-memory store.
pub enum SqliteConnection {
    File(String),
    Memory,
}

/// The catalog query that checks whether a table of the given name exists.
pub open spec fn spec_table_lookup_query(name: Seq<char>) -> Seq<char> {
    "SELECT name FROM sqlite_master WHERE type='table' AND name='"@ + name + "'"@
}

/// Builds the catalog existence check for a table name.
pub fn table_lookup_query(name: &str) -> (r: String)
    ensures
        r@ == spec_table_lookup_query(name@),
{
    let mut q = "SELECT name FROM sqlite_master WHERE type='table' AND name='".to_owned();
    q.append(name);
    q.append("'");
    q
}

/// The session: exactly one connection (file-backed or in-memory) and at
/// most one active table name.
pub struct App {
    pub connection: Option<rusqlite::Connection>,
    pub connection_type: SqliteConnection,
    pub active_table: Option<String>,
}

impl App {
    /// The active table's name, as characters.
    pub open spec fn spec_active_table(self) -> Option<Seq<char>> {
        match self.active_table {
            Some(name) => Some(name@),
            None => None,
        }
    }

    /// Whether a connection is live.
    pub open spec fn spec_connected(self) -> bool {
        self.connection is Some
    }

    /// The file path the session points at, if it is not in-memory.
    pub open spec fn spec_path(self) -> Option<Seq<char>> {
        match self.connection_type {
            SqliteConnection::File(path) => Some(path@),
            SqliteConnection::Memory => None,
        }
    }

    /// A fresh session: no connection, in-memory target, no active table.
    pub fn new() -> (r: Self)
        ensures
            !r.spec_connected(),
            r.spec_path() is None,
            r.spec_active_table() is None,
    {
        App { connection: None, connection_type: SqliteConnection::Memory, active_table: None }
    }

    /// Opens a file-backed database, replacing any prior connection.
    pub fn connect_in_file(&mut self, path: &str) -> (r: Result<(), AppError>)
        ensures
            final(self).active_table == old(self).active_table,
            r is Ok ==> final(self).spec_connected() && final(self).spec_path() == Some(path@),
            r is Err ==> *final(self) == *old(self) && (r matches Err(AppError::Connection { .. })),
    {
        match db::open_file_connection(path) {
            Ok(conn) => {
                self.connection = Some(conn);
                self.connection_type = SqliteConnection::File(path.to_owned());
                Ok(())
            },
            Err(e) => Err(AppError::Connection { message: db::sqlite_error_text(&e) }),
        }
    }

    /// Opens a fresh in-memory database, replacing any prior connection.
    pub fn connect_in_memory(&mut self) -> (r: Result<(), AppError>)
        ensures
            final(self).active_table == old(self).active_table,
            r is Ok ==> final(self).spec_connected() && final(self).spec_path() is None,
            r is Err ==> *final(self) == *old(self) && (r matches Err(AppError::Connection { .. })),
    {
        match db::open_memory_connection() {
            Ok(conn) => {
                self.connection = Some(conn);
                self.connection_type = SqliteConnection::Memory;
                Ok(())
            },
            Err(e) => Err(AppError::Connection { message: db::sqlite_error_text(&e) }),
        }
    }

    /// Whether the session targets the in-memory store.
    pub fn is_in_memory(&self) -> (r: bool)
        ensures
            r == (self.spec_path() is None),
    {
        match &self.connection_type {
            SqliteConnection::Memory => true,
            SqliteConnection::File(_) => false,
        }
    }

    /// The file path the session targets, if any.
    pub fn path(&self) -> (r: Option<&str>)
        ensures
            (match r {
                Some(p) => Some(p@),
                None => None,
            }) == self.spec_path(),
    {
        match &self.connection_type {
            SqliteConnection::File(path) => Some(path.as_str()),
            SqliteConnection::Memory => None,
        }
    }

    /// The active table's name, if one is set.
    pub fn active_table(&self) -> (r: Option<&str>)
        ensures
            (match r {
                Some(name) => Some(name@),
                None => None,
            }) == self.spec_active_table(),
    {
        match &self.active_table {
            Some(name) => Some(name.as_str()),
            None => None,
        }
    }

    /// Records what the catalog lookup answered: an existing table becomes
    /// active, a missing one is reported as not found, and an engine failure
    /// is reported as text; only success changes the session.
    fn apply_table_lookup(
        &mut self,
        text: &str,
        found: Result<bool, rusqlite::Error>,
    ) -> (r: Result<(), AppError>)
        ensures
            final(self).connection == old(self).connection,
            final(self).connection_type == old(self).connection_type,
            found matches Ok(true) ==> r is Ok && final(self).spec_active_table() == Some(text@),
            found matches Ok(false) ==> r == Err::<(), AppError>(AppError::NotFound),
            found is Err ==> (r matches Err(AppError::Execution { .. })),
            r is Err ==> final(self).active_table == old(self).active_table,
    {
        match found {
            Ok(true) => {
                self.active_table = Some(text.to_owned());
                Ok(())
            },
            Ok(false) => Err(AppError::NotFound),
            Err(e) => Err(AppError::Execution { message: db::sqlite_error_text(&e) }),
        }
    }

    /// Makes `text` the active table, after checking that it is a valid
    /// identifier, that a connection is open, and that the catalog holds a
    /// table of that name.
    pub fn set_active_table(&mut self, text: &str) -> (r: Result<(), AppError>)
        ensures
            final(self).connection == old(self).connection,
            final(self).connection_type == old(self).connection_type,
            !spec_valid_identifier(text@) ==> r == Err::<(), AppError>(AppError::Validation),
            spec_valid_identifier(text@) && !old(self).spec_connected() ==> (r matches Err(
                AppError::Connection { .. },
            )),
            r is Ok ==> spec_valid_identifier(text@) && old(self).spec_connected()
                && final(self).spec_active_table() == Some(text@),
            r is Err ==> final(self).active_table == old(self).active_table,
            spec_valid_identifier(text@) && old(self).spec_connected() ==> (r is Ok || r == Err::<(), AppError>(AppError::NotFound) || (r matches Err(AppError::Execution { .. }))),
    {
        if !validate_table_name(text) {
            return Err(AppError::Validation);
        }
        let query = table_lookup_query(text);
        let found = match &self.connection {
            Some(conn) => db::query_returns_rows(conn, query.as_str()),
            None => {
                return Err(AppError::Connection { message: "connection is not set".to_owned() });
            },
        };
        self.apply_table_lookup(text, found)
    }
}

} // verus!
