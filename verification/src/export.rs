//! Records of an export: the two fixed queries, what becomes of a row that
//! a query yields, and the text that is written for it.

use vstd::prelude::*;

verus! {

/// The two things that can be exported.
#[derive(PartialEq, Eq, Clone, Copy, Debug, Structural)]
pub enum RecordKind {
    Bookmarks,
    History,
}

/// Bookmarks joined to the place they point to, the most visited first and,
/// among equally visited ones, the most recently modified first.
pub const BOOKMARKS_QUERY: &'static str =
    "SELECT A.title, B.url FROM moz_bookmarks AS A JOIN moz_places AS B ON(A.fk = B.id) ORDER BY B.visit_count DESC, A.lastModified DESC;";

/// Visits joined to the place that was visited, the latest visit first and,
/// among visits of one moment, the most visited place first.
pub const HISTORY_QUERY: &'static str =
    "SELECT B.title, B.url FROM moz_historyvisits AS A JOIN moz_places AS B ON(A.place_id = B.id) ORDER BY A.visit_date DESC, B.visit_count DESC;";

impl RecordKind {
    /// The statement that yields the rows of this kind, title first and
    /// address second.
    pub open spec fn spec_query(self) -> Seq<char> {
        match self {
            RecordKind::Bookmarks => BOOKMARKS_QUERY@,
            RecordKind::History => HISTORY_QUERY@,
        }
    }

    /// The statement that yields the rows of this kind.
    pub fn query(self) -> (statement: &'static str)
        ensures
            statement@ == self.spec_query(),
    {
        match self {
            RecordKind::Bookmarks => BOOKMARKS_QUERY,
            RecordKind::History => HISTORY_QUERY,
        }
    }
}

/// A title and an address.
#[derive(Debug, Clone, PartialEq, Eq)]
pub struct Record {
    pub title: String,
    pub url: String,
}

/// A record as text.
pub ghost struct RecordView {
    pub title: Seq<char>,
    pub url: Seq<char>,
}

impl View for Record {
    type V = RecordView;

    open spec fn view(&self) -> RecordView {
        RecordView { title: self.title@, url: self.url@ }
    }
}

/// What came of reading one row of a query's result.
#[derive(Debug, Clone, PartialEq, Eq)]
pub enum RawRow {
    /// The row was read. A column that is absent, null or not text is
    /// `None`.
    Columns { title: Option<String>, url: Option<String> },
    /// The row could not be read at all.
    Malformed,
}

/// A row as text.
pub ghost enum RawRowView {
    Columns { title: Option<Seq<char>>, url: Option<Seq<char>> },
    Malformed,
}

impl View for RawRow {
    type V = RawRowView;

    open spec fn view(&self) -> RawRowView {
        match self {
            RawRow::Columns { title, url } => RawRowView::Columns {
                title: match title {
                    Some(title) => Some(title@),
                    None => None,
                },
                url: match url {
                    Some(url) => Some(url@),
                    None => None,
                },
            },
            RawRow::Malformed => RawRowView::Malformed,
        }
    }
}

/// The rows of a result as text, in the order in which they came.
pub open spec fn rows_view(rows: Seq<RawRow>) -> Seq<RawRowView> {
    rows.map_values(|row: RawRow| row@)
}

/// The text of a column, or the empty text where the column is missing.
pub open spec fn text_or_empty(column: Option<Seq<char>>) -> Seq<char> {
    match column {
        Some(text) => text,
        None => Seq::empty(),
    }
}

/// The record that a row stands for. A row that could not be read stands
/// for none and is passed over.
pub open spec fn decoded(row: RawRowView) -> Option<RecordView> {
    match row {
        RawRowView::Columns { title, url } => Some(
            RecordView { title: text_or_empty(title), url: text_or_empty(url) },
        ),
        RawRowView::Malformed => None,
    }
}

/// The text written for one record: title, column delimiter, address, row
/// delimiter.
pub open spec fn line_of(record: RecordView, column_delimiter: Seq<char>, row_delimiter: Seq<char>)
    -> Seq<char> {
    record.title + column_delimiter + record.url + row_delimiter
}

/// The text written for one row: its record's line, or nothing for a row
/// that is passed over.
pub open spec fn emitted(row: RawRowView, column_delimiter: Seq<char>, row_delimiter: Seq<char>)
    -> Seq<char> {
    match decoded(row) {
        Some(record) => line_of(record, column_delimiter, row_delimiter),
        None => Seq::empty(),
    }
}

/// The records that a result stands for, in the order of its rows.
pub open spec fn records_of(rows: Seq<RawRowView>) -> Seq<RecordView>
    decreases rows.len(),
{
    if rows.len() == 0 {
        Seq::empty()
    } else {
        match decoded(rows.last()) {
            Some(record) => records_of(rows.drop_last()).push(record),
            None => records_of(rows.drop_last()),
        }
    }
}

/// The text written for a whole result: what is written for each of its
/// rows, in their order, with nothing in between.
pub open spec fn rendered(
    rows: Seq<RawRowView>,
    column_delimiter: Seq<char>,
    row_delimiter: Seq<char>,
) -> Seq<char>
    decreases rows.len(),
{
    if rows.len() == 0 {
        Seq::empty()
    } else {
        rendered(rows.drop_last(), column_delimiter, row_delimiter) + emitted(
            rows.last(),
            column_delimiter,
            row_delimiter,
        )
    }
}

/// Rows that were all read give as many records as there are rows, each
/// row its own record, in the order of the rows.
pub proof fn lemma_records_keep_rows(rows: Seq<RawRowView>)
    requires
        forall|at: int| 0 <= at < rows.len() ==> #[trigger] rows[at] is Columns,
    ensures
        records_of(rows).len() == rows.len(),
        forall|at: int|
            0 <= at < rows.len() ==> Some(#[trigger] records_of(rows)[at]) == decoded(rows[at]),
    decreases rows.len(),
{
    if rows.len() > 0 {
        lemma_records_keep_rows(rows.drop_last());
    }
}

impl Record {
    /// Makes a record of the two columns of a row, with the empty string
    /// for a column that is missing.
    pub fn from_columns(title: Option<String>, url: Option<String>) -> (record: Record)
        ensures
            record@ == decoded(RawRow::Columns { title, url }@)->0,
    {
        Record {
            title: match title {
                Some(title) => title,
                None => String::new(),
            },
            url: match url {
                Some(url) => url,
                None => String::new(),
            },
        }
    }

    /// The text that is written for this record.
    pub fn line(&self, column_delimiter: &str, row_delimiter: &str) -> (text: String)
        ensures
            text@ == line_of(self@, column_delimiter@, row_delimiter@),
    {
        let mut text = self.title.clone();
        text.append(column_delimiter);
        text.append(self.url.as_str());
        text.append(row_delimiter);
        text
    }
}

/// The text of a column that was read, or the empty string.
fn column_text(column: &Option<String>) -> (text: String)
    ensures
        text@ == text_or_empty(
            match column {
                Some(text) => Some(text@),
                None => None,
            },
        ),
{
    match column {
        Some(text) => text.clone(),
        None => String::new(),
    }
}

/// Decodes one row: a row that was read gives a record, a row that could
/// not be read gives none.
pub fn decode(row: &RawRow) -> (record: Option<Record>)
    ensures
        match record {
            Some(record) => decoded(row@) == Some(record@),
            None => decoded(row@) is None,
        },
{
    match row {
        RawRow::Columns { title, url } => Some(
            Record { title: column_text(title), url: column_text(url) },
        ),
        RawRow::Malformed => None,
    }
}

/// The text to write for one row: `None` for a row that is passed over.
pub fn emit(row: &RawRow, column_delimiter: &str, row_delimiter: &str) -> (text: Option<String>)
    ensures
        text is Some <==> decoded(row@) is Some,
        text matches Some(line) ==> line@ == emitted(row@, column_delimiter@, row_delimiter@),
{
    match decode(row) {
        Some(record) => Some(record.line(column_delimiter, row_delimiter)),
        None => None,
    }
}

/// The records of a whole result, in the order of its rows.
pub fn records(rows: &Vec<RawRow>) -> (found: Vec<Record>)
    ensures
        found@.map_values(|record: Record| record@) == records_of(rows_view(rows@)),
{
    let ghost all = rows_view(rows@);
    let mut found: Vec<Record> = Vec::new();
    let mut i: usize = 0;
    while i < rows.len()
        invariant
            i <= rows.len(),
            all == rows_view(rows@),
            found@.map_values(|record: Record| record@) == records_of(all.subrange(0, i as int)),
        decreases rows.len() - i,
    {
        assert(all.subrange(0, i + 1).drop_last() =~= all.subrange(0, i as int));
        match decode(&rows[i]) {
            Some(record) => {
                found.push(record);
            },
            None => {},
        }
        i += 1;
    }
    assert(all.subrange(0, i as int) =~= all);
    found
}

/// The text of a whole result.
pub fn render(rows: &Vec<RawRow>, column_delimiter: &str, row_delimiter: &str) -> (text: String)
    ensures
        text@ == rendered(rows_view(rows@), column_delimiter@, row_delimiter@),
{
    let ghost all = rows_view(rows@);
    let mut text = String::new();
    let mut i: usize = 0;
    while i < rows.len()
        invariant
            i <= rows.len(),
            all == rows_view(rows@),
            text@ == rendered(all.subrange(0, i as int), column_delimiter@, row_delimiter@),
        decreases rows.len() - i,
    {
        assert(all.subrange(0, i + 1).drop_last() =~= all.subrange(0, i as int));
        match emit(&rows[i], column_delimiter, row_delimiter) {
            Some(line) => {
                text.append(line.as_str());
            },
            None => {
            },
        }
        i += 1;
    }
    assert(all.subrange(0, i as int) =~= all);
    text
}

} // verus!
