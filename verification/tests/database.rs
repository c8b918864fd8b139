use foxmarks::cli::FirefoxType;
use foxmarks::database::{
    close_outcome, CloseError, ConnectError, Connected, DataBase, NotConnected, Opening, SnapshotError,
};
use foxmarks::export::{RawRow, RecordKind};
use foxmarks::locator::LocateError;
use rusqlite::Connection;
use std::path::PathBuf;
use tempfile::{NamedTempFile, TempPath};

fn unopened() -> DataBase<NotConnected> {
    DataBase::new(None, "/store", Some("abcd.work".to_owned()), Err("not read".to_owned())).unwrap()
}

fn snapshot() -> (TempPath, PathBuf) {
    let file = NamedTempFile::new().unwrap();
    let path = file.path().to_path_buf();
    (file.into_temp_path(), path)
}

fn opened() -> (DataBase<Connected>, PathBuf) {
    let (snapshot, path) = snapshot();
    let handle = Connection::open(&path).unwrap();
    (unopened().connect(Opening::Opened(snapshot, handle)).ok().unwrap(), path)
}

#[test]
fn new_locates_the_database() {
    let database: DataBase = DataBase::new(
        Some(FirefoxType::Esr),
        "/home/u/.mozilla/firefox",
        None,
        Ok("[Install1]\nDefault=abcd.default-esr\n".to_owned()),
    )
    .ok()
    .unwrap();
    assert_eq!(database.location(), "/home/u/.mozilla/firefox/abcd.default-esr/places.sqlite");
    assert_eq!(unopened().location(), "/store/abcd.work/places.sqlite");
}

#[test]
fn new_reports_why_nothing_was_located() {
    assert_eq!(
        DataBase::new(Some(FirefoxType::Esr), "/store", Some("abcd.work".to_owned()), Ok(String::new())).err(),
        Some(LocateError::ConfigurationError)
    );
    assert_eq!(
        DataBase::new(Some(FirefoxType::Esr), "/store", None, Ok(String::new())).err(),
        Some(LocateError::NoDefaultProfile(FirefoxType::Esr))
    );
    assert_eq!(
        DataBase::new(None, "/store", None, Err("no such file".to_owned())).err(),
        Some(LocateError::ManifestUnreadable("no such file".to_owned()))
    );
}

#[test]
fn connect_reports_a_snapshot_that_failed() {
    assert_eq!(
        unopened().connect(Opening::NoSnapshot(SnapshotError::LocationUnreadable)).err(),
        Some(ConnectError::SnapshotFailed(SnapshotError::LocationUnreadable))
    );
    assert_eq!(
        unopened().connect(Opening::NoSnapshot(SnapshotError::SnapshotWriteFailed)).err(),
        Some(ConnectError::SnapshotFailed(SnapshotError::SnapshotWriteFailed))
    );
}

#[test]
fn connect_without_a_handle_removes_the_snapshot() {
    let (snapshot, path) = snapshot();
    assert!(path.exists());
    assert_eq!(unopened().connect(Opening::NoHandle(snapshot)).err(), Some(ConnectError::HandleOpenFailed));
    assert!(!path.exists());
}

#[test]
fn connect_keeps_the_location() {
    let (database, path) = opened();
    assert_eq!(database.location(), "/store/abcd.work/places.sqlite");
    assert!(path.exists());
}

#[test]
fn an_open_database_is_queried_through_its_handle() {
    let (database, _) = opened();
    let export = database.fetch_bookmarks(",", "\n");
    export
        .handle
        .execute_batch(
            "CREATE TABLE moz_places (id INTEGER PRIMARY KEY, url TEXT, title TEXT, visit_count INTEGER);
             CREATE TABLE moz_bookmarks (id INTEGER PRIMARY KEY, fk INTEGER, title TEXT, lastModified INTEGER);
             INSERT INTO moz_places (id, url, title, visit_count) VALUES (1, 'a.com', 'site a', 5);
             INSERT INTO moz_places (id, url, title, visit_count) VALUES (2, 'b.com', 'site b', 1);
             INSERT INTO moz_bookmarks (id, fk, title, lastModified) VALUES (1, 2, 'B', 1);
             INSERT INTO moz_bookmarks (id, fk, title, lastModified) VALUES (2, 1, 'A', 1);",
        )
        .unwrap();
    let mut written = String::new();
    {
        let mut statement = export.handle.prepare(export.query()).unwrap();
        let mut rows = statement.query([]).unwrap();
        while let Ok(Some(found)) = rows.next() {
            let row = RawRow::Columns { title: found.get(0).ok(), url: found.get(1).ok() };
            if let Some(line) = export.emit(&row) {
                written.push_str(&line);
            }
        }
    }
    assert_eq!(written, "A,a.com\nB,b.com\n");
    let closing = database.close();
    assert!(closing.handle.close().is_ok());
    assert!(closing.snapshot.close().is_ok());
}

#[test]
fn fetch_sets_up_the_export_that_was_asked_for() {
    let (database, _) = opened();
    let bookmarks = database.fetch_bookmarks(";", "\n");
    assert_eq!(bookmarks.kind, RecordKind::Bookmarks);
    assert_eq!(bookmarks.query(), RecordKind::Bookmarks.query());
    assert_eq!(bookmarks.column_delimiter, ";");
    assert_eq!(bookmarks.row_delimiter, "\n");
    let history = database.fetch_history("\t", "\r\n");
    assert_eq!(history.kind, RecordKind::History);
    assert_eq!(history.query(), RecordKind::History.query());
    assert_eq!(history.column_delimiter, "\t");
    assert_eq!(history.row_delimiter, "\r\n");
    assert_eq!(history.emit(&RawRow::Malformed), None);
    assert_eq!(
        history.emit(&RawRow::Columns { title: None, url: Some("a.com".to_owned()) }),
        Some("\ta.com\r\n".to_owned())
    );
}

#[test]
fn after_close_the_snapshot_is_gone() {
    let (database, path) = opened();
    assert!(path.exists());
    let closing = database.close();
    let handle = closing.handle.close().map_err(|(_, why)| why.to_string());
    let snapshot = closing.snapshot.close().map_err(|why| why.to_string());
    assert_eq!(close_outcome(handle, snapshot), Ok(()));
    assert!(!path.exists());
}

#[test]
fn close_outcome_reports_the_first_failure() {
    assert_eq!(close_outcome(Ok(()), Ok(())), Ok(()));
    assert_eq!(
        close_outcome(Err("busy".to_owned()), Ok(())),
        Err(CloseError::HandleCloseFailed("busy".to_owned()))
    );
    assert_eq!(
        close_outcome(Ok(()), Err("denied".to_owned())),
        Err(CloseError::SnapshotRemoveFailed("denied".to_owned()))
    );
    assert_eq!(
        close_outcome(Err("busy".to_owned()), Err("denied".to_owned())),
        Err(CloseError::HandleCloseFailed("busy".to_owned()))
    );
}
