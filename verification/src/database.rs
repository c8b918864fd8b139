//! A connection to a private snapshot of the places database.
//!
//! The lifecycle is carried by the type: a `DataBase<NotConnected>` knows
//! only where the database lies, a `DataBase<Connected>` owns the snapshot
//! and the handle that was opened on it. Connecting and closing consume
//! the value, so nothing can be connected twice or used after it was
//! closed. Copying the file, opening the handle and releasing both happen
//! outside this module; it is told what came of them and decides what
//! follows.

use crate::cli::FirefoxType;
use crate::export::{emit, emitted, decoded, RawRow, RecordKind};
use crate::locator::{locate, located, option_view, result_view, LocateError, LocateFailure};
use vstd::prelude::*;

verus! {

/// `rusqlite::Connection`, the handle on an open database. Nothing is
/// known of its inside here; it is held and handed on.
#[verifier::external_type_specification]
#[verifier::external_body]
pub struct ExConnection(rusqlite::Connection);

/// `tempfile::TempPath`, the path of a temporary file that is removed when
/// the value is closed or dropped. Nothing is known of its inside here; it
/// is held and handed on.
#[verifier::external_type_specification]
#[verifier::external_body]
pub struct ExTempPath(tempfile::TempPath);

/// The state of a database that has not been opened.
pub struct NotConnected;

/// The state of an open database: the snapshot and the handle on it.
pub struct Connected {
    snapshot: tempfile::TempPath,
    handle: rusqlite::Connection,
}

/// The places database of a profile, in the state `State`.
pub struct DataBase<State = NotConnected> {
    database_location: String,
    state: State,
}

/// Why no snapshot of the database could be taken.
#[derive(PartialEq, Eq, Clone, Copy, Debug, Structural)]
pub enum SnapshotError {
    /// The database is missing, may not be read or is no regular file.
    LocationUnreadable,
    /// No temporary file could be made or written.
    SnapshotWriteFailed,
}

/// Why a database could not be opened.
#[derive(PartialEq, Eq, Clone, Copy, Debug, Structural)]
pub enum ConnectError {
    SnapshotFailed(SnapshotError),
    HandleOpenFailed,
}

/// What came of the attempt to take a snapshot and to open a handle on it.
pub enum Opening {
    /// No snapshot could be taken.
    NoSnapshot(SnapshotError),
    /// The snapshot was taken, but no handle could be opened on it.
    NoHandle(tempfile::TempPath),
    /// The snapshot was taken and the handle was opened on it.
    Opened(tempfile::TempPath, rusqlite::Connection),
}

/// What a closed database leaves to be released: first the handle is to
/// be closed, then the snapshot is to be removed, also where closing the
/// handle failed.
pub struct Closing {
    pub handle: rusqlite::Connection,
    pub snapshot: tempfile::TempPath,
}

/// Why closing failed; the reason is kept.
#[derive(Debug, Clone, PartialEq, Eq)]
pub enum CloseError {
    HandleCloseFailed(String),
    SnapshotRemoveFailed(String),
}

/// A `CloseError` as text.
pub ghost enum CloseFailure {
    HandleCloseFailed(Seq<char>),
    SnapshotRemoveFailed(Seq<char>),
}

impl View for CloseError {
    type V = CloseFailure;

    open spec fn view(&self) -> CloseFailure {
        match self {
            CloseError::HandleCloseFailed(why) => CloseFailure::HandleCloseFailed(why@),
            CloseError::SnapshotRemoveFailed(why) => CloseFailure::SnapshotRemoveFailed(why@),
        }
    }
}

/// The outcome of closing, from the outcomes of its two steps: the first
/// failure, or success where both steps succeeded.
pub open spec fn closed(handle: Result<(), Seq<char>>, snapshot: Result<(), Seq<char>>) -> Result<
    (),
    CloseFailure,
> {
    match handle {
        Err(why) => Err(CloseFailure::HandleCloseFailed(why)),
        Ok(_) => match snapshot {
            Err(why) => Err(CloseFailure::SnapshotRemoveFailed(why)),
            Ok(_) => Ok(()),
        },
    }
}

/// The outcome of a step, with its complaint as text.
pub open spec fn step_view(step: Result<(), String>) -> Result<(), Seq<char>> {
    match step {
        Ok(_) => Ok(()),
        Err(why) => Err(why@),
    }
}

impl<State> DataBase<State> {
    /// Where the database lies.
    pub closed spec fn spec_location(&self) -> Seq<char> {
        self.database_location@
    }

    /// Where the database lies. An open database keeps this for
    /// diagnostics; it reads its snapshot.
    pub fn location(&self) -> (location: &str)
        ensures
            location@ == self.spec_location(),
    {
        self.database_location.as_str()
    }
}

impl DataBase<NotConnected> {
    /// Locates the places database in the profile store
    /// `firefox_home_path`: that of the profile `custom_profile_path`
    /// where one is named, else that of the default profile which the
    /// manifest gives for `firefox_type`, or for the release flavour where
    /// none is named. `manifest` is the text of the store's manifest, or
    /// the reason why it could not be read.
    pub fn new(
        firefox_type: Option<FirefoxType>,
        firefox_home_path: &str,
        custom_profile_path: Option<String>,
        manifest: Result<String, String>,
    ) -> (database: Result<DataBase<NotConnected>, LocateError>)
        ensures
            match database {
                Ok(database) => located(
                    firefox_type,
                    firefox_home_path@,
                    option_view(custom_profile_path),
                    result_view(manifest),
                ) == Ok::<Seq<char>, LocateFailure>(database.spec_location()),
                Err(error) => located(
                    firefox_type,
                    firefox_home_path@,
                    option_view(custom_profile_path),
                    result_view(manifest),
                ) == Err::<Seq<char>, LocateFailure>(error@),
            },
    {
        match locate(firefox_type, firefox_home_path, custom_profile_path, manifest) {
            Ok(database_location) => Ok(DataBase { database_location, state: NotConnected }),
            Err(error) => Err(error),
        }
    }

    /// Opens the database from what came of taking the snapshot and
    /// opening the handle. Where both were had, the open database owns
    /// them. Where only the snapshot was had, it is dropped, which removes
    /// its file, and the failure is reported.
    pub fn connect(self, opening: Opening) -> (database: Result<DataBase<Connected>, ConnectError>)
        ensures
            match opening {
                Opening::NoSnapshot(error) => database matches Err(
                    ConnectError::SnapshotFailed(reported),
                ) && reported == error,
                Opening::NoHandle(_) => database matches Err(ConnectError::HandleOpenFailed),
                Opening::Opened(snapshot, handle) => database matches Ok(opened)
                    && opened.spec_location() == self.spec_location() && opened.spec_snapshot()
                    == snapshot && opened.spec_handle() == handle,
            },
    {
        match opening {
            Opening::NoSnapshot(error) => Err(ConnectError::SnapshotFailed(error)),
            Opening::NoHandle(_) => Err(ConnectError::HandleOpenFailed),
            Opening::Opened(snapshot, handle) => Ok(
                DataBase {
                    database_location: self.database_location,
                    state: Connected { snapshot, handle },
                },
            ),
        }
    }
}

/// What is needed to run one export: the handle to query, the statement to
/// run on it, and the delimiters to write.
pub struct Export<'a> {
    pub handle: &'a rusqlite::Connection,
    pub kind: RecordKind,
    pub column_delimiter: String,
    pub row_delimiter: String,
}

impl<'a> Export<'a> {
    /// The statement to run on the handle.
    pub fn query(&self) -> (statement: &'static str)
        ensures
            statement@ == self.kind.spec_query(),
    {
        self.kind.query()
    }

    /// The text to write for the next row that the statement yielded:
    /// title, column delimiter, address, row delimiter, with the empty
    /// string for a column that is missing, and `None` for a row that could
    /// not be read and is passed over.
    pub fn emit(&self, row: &RawRow) -> (text: Option<String>)
        ensures
            text is Some <==> decoded(row@) is Some,
            text matches Some(line) ==> line@ == emitted(
                row@,
                self.column_delimiter@,
                self.row_delimiter@,
            ),
    {
        emit(row, self.column_delimiter.as_str(), self.row_delimiter.as_str())
    }
}

impl DataBase<Connected> {
    /// The snapshot that this database owns.
    pub closed spec fn spec_snapshot(&self) -> tempfile::TempPath {
        self.state.snapshot
    }

    /// The handle that this database owns.
    pub closed spec fn spec_handle(&self) -> rusqlite::Connection {
        self.state.handle
    }

    /// Closes the database and hands out what it owned, to be released in
    /// the order that `Closing` gives.
    pub fn close(self) -> (closing: Closing)
        ensures
            closing.handle == self.spec_handle(),
            closing.snapshot == self.spec_snapshot(),
    {
        Closing { handle: self.state.handle, snapshot: self.state.snapshot }
    }

    /// Sets up the export of the bookmarks with the given delimiters.
    pub fn fetch_bookmarks(&self, column_delimiter: &str, row_delimiter: &str) -> (export: Export<
        '_,
    >)
        ensures
            *export.handle == self.spec_handle(),
            export.kind == RecordKind::Bookmarks,
            export.column_delimiter@ == column_delimiter@,
            export.row_delimiter@ == row_delimiter@,
    {
        Export {
            handle: &self.state.handle,
            kind: RecordKind::Bookmarks,
            column_delimiter: column_delimiter.to_owned(),
            row_delimiter: row_delimiter.to_owned(),
        }
    }

    /// Sets up the export of the history with the given delimiters.
    pub fn fetch_history(&self, column_delimiter: &str, row_delimiter: &str) -> (export: Export<
        '_,
    >)
        ensures
            *export.handle == self.spec_handle(),
            export.kind == RecordKind::History,
            export.column_delimiter@ == column_delimiter@,
            export.row_delimiter@ == row_delimiter@,
    {
        Export {
            handle: &self.state.handle,
            kind: RecordKind::History,
            column_delimiter: column_delimiter.to_owned(),
            row_delimiter: row_delimiter.to_owned(),
        }
    }
}

/// The outcome of closing a database, from what came of closing its
/// handle and of removing its snapshot. Both steps have been attempted;
/// the first failure is reported.
pub fn close_outcome(handle: Result<(), String>, snapshot: Result<(), String>) -> (outcome: Result<
    (),
    CloseError,
>)
    ensures
        match outcome {
            Ok(_) => closed(step_view(handle), step_view(snapshot)) is Ok,
            Err(error) => closed(step_view(handle), step_view(snapshot)) == Err::<
                (),
                CloseFailure,
            >(error@),
        },
{
    match handle {
        Err(why) => Err(CloseError::HandleCloseFailed(why)),
        Ok(_) => match snapshot {
            Err(why) => Err(CloseError::SnapshotRemoveFailed(why)),
            Ok(_) => Ok(()),
        },
    }
}

} // verus!
