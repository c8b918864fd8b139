use foxmarks::export::{decode, emit, records, render, RawRow, Record, RecordKind, BOOKMARKS_QUERY, HISTORY_QUERY};
use rusqlite::Connection;

fn row(title: Option<&str>, url: Option<&str>) -> RawRow {
    RawRow::Columns { title: title.map(str::to_owned), url: url.map(str::to_owned) }
}

fn record(title: &str, url: &str) -> Record {
    Record { title: title.to_owned(), url: url.to_owned() }
}

fn places() -> Connection {
    let database = Connection::open_in_memory().unwrap();
    database
        .execute_batch(
            "CREATE TABLE moz_places (id INTEGER PRIMARY KEY, url TEXT, title TEXT, visit_count INTEGER);
             CREATE TABLE moz_bookmarks (id INTEGER PRIMARY KEY, fk INTEGER, title TEXT, lastModified INTEGER);
             CREATE TABLE moz_historyvisits (id INTEGER PRIMARY KEY, place_id INTEGER, visit_date INTEGER);",
        )
        .unwrap();
    database
}

fn run(database: &Connection, kind: RecordKind) -> Vec<RawRow> {
    let mut statement = database.prepare(kind.query()).unwrap();
    let mut rows = statement.query([]).unwrap();
    let mut read = Vec::new();
    loop {
        match rows.next() {
            Ok(Some(found)) => read.push(RawRow::Columns { title: found.get(0).ok(), url: found.get(1).ok() }),
            Ok(None) => break,
            Err(_) => read.push(RawRow::Malformed),
        }
    }
    read
}

#[test]
fn query_is_the_statement_of_the_kind() {
    assert_eq!(RecordKind::Bookmarks.query(), BOOKMARKS_QUERY);
    assert_eq!(RecordKind::History.query(), HISTORY_QUERY);
    assert!(BOOKMARKS_QUERY.contains("ORDER BY B.visit_count DESC, A.lastModified DESC"));
    assert!(HISTORY_QUERY.contains("ORDER BY A.visit_date DESC, B.visit_count DESC"));
}

#[test]
fn line_is_title_delimiter_address_delimiter() {
    assert_eq!(record("A", "a.com").line(",", "\n"), "A,a.com\n");
    assert_eq!(record("A", "a.com").line(";", "\r\n"), "A;a.com\r\n");
    assert_eq!(record("A", "a.com").line("", ""), "Aa.com");
    assert_eq!(record("", "").line(" | ", "."), " | .");
}

#[test]
fn a_tab_delimiter_is_written_as_one_tab_byte() {
    let delimiter = foxmarks::text::unescape("\\t");
    let text = render(&vec![row(Some("A"), Some("a.com"))], &delimiter, "\n");
    assert_eq!(text.as_bytes(), b"A\x09a.com\x0a");
}

#[test]
fn a_missing_column_is_the_empty_string() {
    assert_eq!(Record::from_columns(Some("A".to_owned()), Some("a.com".to_owned())), record("A", "a.com"));
    assert_eq!(Record::from_columns(None, Some("a.com".to_owned())), record("", "a.com"));
    assert_eq!(Record::from_columns(Some("A".to_owned()), None), record("A", ""));
    assert_eq!(Record::from_columns(None, None), record("", ""));
    assert_eq!(decode(&row(None, Some("a.com"))), Some(record("", "a.com")));
    assert_eq!(decode(&row(Some("A"), None)), Some(record("A", "")));
}

#[test]
fn a_malformed_row_is_passed_over() {
    assert_eq!(decode(&RawRow::Malformed), None);
    assert_eq!(emit(&RawRow::Malformed, ",", "\n"), None);
    let rows = vec![row(Some("A"), Some("a.com")), RawRow::Malformed, row(Some("B"), Some("b.com"))];
    assert_eq!(records(&rows), vec![record("A", "a.com"), record("B", "b.com")]);
    assert_eq!(render(&rows, ",", "\n"), "A,a.com\nB,b.com\n");
    assert_eq!(render(&vec![RawRow::Malformed], ",", "\n"), "");
}

#[test]
fn emit_is_the_line_of_the_record() {
    assert_eq!(emit(&row(Some("A"), Some("a.com")), ",", "\n"), Some("A,a.com\n".to_owned()));
    assert_eq!(emit(&row(None, None), ",", "\n"), Some(",\n".to_owned()));
}

#[test]
fn render_keeps_the_order_of_the_rows() {
    assert_eq!(render(&Vec::new(), ",", "\n"), "");
    let rows = vec![row(Some("B"), Some("b.com")), row(Some("A"), Some("a.com")), row(Some("B"), Some("b.com"))];
    assert_eq!(render(&rows, "\t", ";"), "B\tb.com;A\ta.com;B\tb.com;");
    assert_eq!(records(&rows).len(), 3);
}

#[test]
fn two_bookmarks_end_to_end() {
    let database = places();
    database
        .execute_batch(
            "INSERT INTO moz_places (id, url, title, visit_count) VALUES (1, 'b.com', 'site b', 1);
             INSERT INTO moz_places (id, url, title, visit_count) VALUES (2, 'a.com', 'site a', 5);
             INSERT INTO moz_bookmarks (id, fk, title, lastModified) VALUES (1, 1, 'B', 10);
             INSERT INTO moz_bookmarks (id, fk, title, lastModified) VALUES (2, 2, 'A', 20);",
        )
        .unwrap();
    let rows = run(&database, RecordKind::Bookmarks);
    assert_eq!(render(&rows, ",", "\n"), "A,a.com\nB,b.com\n");
}

#[test]
fn bookmarks_round_trip_in_order() {
    let database = places();
    let count: i64 = 25;
    for n in 0..count {
        database
            .execute(
                "INSERT INTO moz_places (id, url, title, visit_count) VALUES (?1, ?2, ?3, ?4)",
                (n, format!("site{n}.example"), format!("place {n}"), n / 2),
            )
            .unwrap();
        database
            .execute(
                "INSERT INTO moz_bookmarks (id, fk, title, lastModified) VALUES (?1, ?2, ?3, ?4)",
                (n, n, format!("bookmark {n}"), 1000 + n),
            )
            .unwrap();
    }
    let found = records(&run(&database, RecordKind::Bookmarks));
    // More visits first; among equal visit counts, the later change first.
    let expected: Vec<Record> = (0..count)
        .rev()
        .map(|n| record(&format!("bookmark {n}"), &format!("site{n}.example")))
        .collect();
    assert_eq!(found.len(), 25);
    assert_eq!(found, expected);
}

#[test]
fn bookmarks_order_by_visits_then_by_change() {
    let database = places();
    database
        .execute_batch(
            "INSERT INTO moz_places (id, url, title, visit_count) VALUES (1, 'one', 'first place', 3);
             INSERT INTO moz_places (id, url, title, visit_count) VALUES (2, 'two', 'second place', 7);
             INSERT INTO moz_places (id, url, title, visit_count) VALUES (3, 'three', 'third place', 3);
             INSERT INTO moz_bookmarks (id, fk, title, lastModified) VALUES (1, 1, 'old', 100);
             INSERT INTO moz_bookmarks (id, fk, title, lastModified) VALUES (2, 2, 'busy', 50);
             INSERT INTO moz_bookmarks (id, fk, title, lastModified) VALUES (3, 3, 'new', 200);
             INSERT INTO moz_bookmarks (id, fk, title, lastModified) VALUES (4, 99, 'orphan', 300);",
        )
        .unwrap();
    assert_eq!(render(&run(&database, RecordKind::Bookmarks), ",", ";"), "busy,two;new,three;old,one;");
}

#[test]
fn history_orders_by_visit_then_by_count() {
    let database = places();
    database
        .execute_batch(
            "INSERT INTO moz_places (id, url, title, visit_count) VALUES (1, 'one', 'first place', 3);
             INSERT INTO moz_places (id, url, title, visit_count) VALUES (2, 'two', 'second place', 7);
             INSERT INTO moz_historyvisits (id, place_id, visit_date) VALUES (1, 1, 500);
             INSERT INTO moz_historyvisits (id, place_id, visit_date) VALUES (2, 2, 900);
             INSERT INTO moz_historyvisits (id, place_id, visit_date) VALUES (3, 1, 900);
             INSERT INTO moz_historyvisits (id, place_id, visit_date) VALUES (4, 2, 100);",
        )
        .unwrap();
    assert_eq!(render(&run(&database, RecordKind::History), ",", ";"), "second place,two;first place,one;first place,one;second place,two;");
}

#[test]
fn null_columns_are_exported_as_empty() {
    let database = places();
    database
        .execute_batch(
            "INSERT INTO moz_places (id, url, title, visit_count) VALUES (1, NULL, 'first place', 2);
             INSERT INTO moz_places (id, url, title, visit_count) VALUES (2, 'two', 'second place', 1);
             INSERT INTO moz_bookmarks (id, fk, title, lastModified) VALUES (1, 1, 'A', 1);
             INSERT INTO moz_bookmarks (id, fk, title, lastModified) VALUES (2, 2, NULL, 1);",
        )
        .unwrap();
    assert_eq!(render(&run(&database, RecordKind::Bookmarks), ",", "\n"), "A,\n,two\n");
}
