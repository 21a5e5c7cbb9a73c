//! The timetable page as the parser reads it: the text of the active-week
//! marker and, for each table row, the raw texts of its fields and cells.

use vstd::prelude::*;
use crate::parse::ParseError;
use crate::scrape::{
    document_texts,
    selected_table,
    selected_texts,
    table_texts,
    MAX_DOCUMENT_CHARS,
};

verus! {

/// For each field selector in order, the texts of the elements it selected.
pub type Matches = Seq<Seq<Seq<char>>>;

/// The selectors of the fields, in the order in which `row_of` and `cell_of`
/// read them: day header, short and long clock range, lesson info, kind of
/// class, teacher.
pub open spec fn field_selectors() -> Seq<Seq<char>> {
    seq![
        "td.day-header"@,
        "td .time"@,
        "td .extend_time"@,
        ".mainScheduleInfo"@,
        ".small.text-muted"@,
        ".Teacher a"@,
    ]
}

/// The text of the first element that field `index` selected, if any.
pub open spec fn first_match(fields: Matches, index: int) -> Option<Seq<char>> {
    if 0 <= index < fields.len() && fields[index].len() > 0 {
        Some(fields[index][0])
    } else {
        None
    }
}

/// The first text of a list, if any.
pub open spec fn first_text(texts: Seq<Seq<char>>) -> Option<Seq<char>> {
    if texts.len() > 0 {
        Some(texts[0])
    } else {
        None
    }
}

/// The cell that the matches inside it describe.
pub open spec fn cell_of(fields: Matches) -> CellView {
    CellView {
        info: first_match(fields, 3),
        lesson_type: first_match(fields, 4),
        teacher: first_match(fields, 5),
    }
}

/// The row that the matches inside it and inside its cells describe.
pub open spec fn row_of(row: (Matches, Seq<Matches>)) -> RowView {
    RowView {
        day: first_match(row.0, 0),
        time: first_match(row.0, 1),
        time_extended: first_match(row.0, 2),
        cells: Seq::new(row.1.len(), |i: int| cell_of(row.1[i])),
    }
}

/// The page that the marker's matches and the table's matches describe.
pub open spec fn page_of(marker: Seq<Seq<char>>, rows: Seq<(Matches, Seq<Matches>)>) -> PageView {
    PageView { week_marker: first_text(marker), rows: Seq::new(rows.len(), |i: int| row_of(rows[i])) }
}

/// The page that the markup `html` holds: the active-week marker is the
/// first `td#blink`, the rows are the `tr` of `table.table`, their cells the
/// `td` inside them. Markup of more than `MAX_DOCUMENT_CHARS` characters is
/// refused as too long; failing that, the page is refused where the markup
/// engine rejects a selector.
pub open spec fn scraped_page(html: Seq<char>) -> Result<PageView, ParseError> {
    if html.len() > MAX_DOCUMENT_CHARS {
        Err(ParseError::DocumentTooLong)
    } else {
        match (
            selected_texts(html, "td#blink"@),
            selected_table(html, "table.table tr"@, "td"@, field_selectors()),
        ) {
            (Some(marker), Some(rows)) => Ok(page_of(marker, rows)),
            _ => Err(ParseError::SelectorRejected),
        }
    }
}

/// The raw texts found inside one table cell; `None` where the cell has no
/// such element.
#[derive(Debug, Default, Clone, PartialEq, Eq, Hash)]
pub struct Cell {
    /// The lesson-info block. A cell without one holds no lesson.
    pub info: Option<String>,
    pub lesson_type: Option<String>,
    pub teacher: Option<String>,
}

/// What a `Cell` stands for.
pub ghost struct CellView {
    pub info: Option<Seq<char>>,
    pub lesson_type: Option<Seq<char>>,
    pub teacher: Option<Seq<char>>,
}

impl View for Cell {
    type V = CellView;

    open spec fn view(&self) -> CellView {
        CellView {
            info: self.info.deep_view(),
            lesson_type: self.lesson_type.deep_view(),
            teacher: self.teacher.deep_view(),
        }
    }
}

/// One table row: the raw texts of its day header and of its two clock
/// fields, `None` where the row has none, and its cells in order.
#[derive(Debug, Default, Clone, PartialEq, Eq, Hash)]
pub struct Row {
    pub day: Option<String>,
    pub time: Option<String>,
    pub time_extended: Option<String>,
    pub cells: Vec<Cell>,
}

/// What a `Row` stands for.
pub ghost struct RowView {
    pub day: Option<Seq<char>>,
    pub time: Option<Seq<char>>,
    pub time_extended: Option<Seq<char>>,
    pub cells: Seq<CellView>,
}

impl View for Row {
    type V = RowView;

    open spec fn view(&self) -> RowView {
        RowView {
            day: self.day.deep_view(),
            time: self.time.deep_view(),
            time_extended: self.time_extended.deep_view(),
            cells: Seq::new(self.cells@.len(), |i: int| self.cells@[i]@),
        }
    }
}

/// A timetable page: the raw text of the active-week marker, `None` where the
/// page has none, and the rows of the table in order.
#[derive(Debug, Default, Clone, PartialEq, Eq, Hash)]
pub struct Page {
    pub week_marker: Option<String>,
    pub rows: Vec<Row>,
}

/// What a `Page` stands for.
pub ghost struct PageView {
    pub week_marker: Option<Seq<char>>,
    pub rows: Seq<RowView>,
}

impl View for Page {
    type V = PageView;

    open spec fn view(&self) -> PageView {
        PageView {
            week_marker: self.week_marker.deep_view(),
            rows: Seq::new(self.rows@.len(), |i: int| self.rows@[i]@),
        }
    }
}

fn first_of(fields: &Vec<Vec<String>>, index: usize) -> (text: Option<String>)
    ensures
        text.deep_view() == first_match(fields.deep_view(), index as int),
{
    if index < fields.len() && fields[index].len() > 0 {
        let text = fields[index][0].clone();
        assert(fields.deep_view()[index as int][0] == fields@[index as int]@[0]@);
        Some(text)
    } else {
        None
    }
}

fn cell_from(fields: &Vec<Vec<String>>) -> (cell: Cell)
    ensures
        cell@ == cell_of(fields.deep_view()),
{
    Cell { info: first_of(fields, 3), lesson_type: first_of(fields, 4), teacher: first_of(fields, 5) }
}

fn row_from(row: &(Vec<Vec<String>>, Vec<Vec<Vec<String>>>)) -> (out: Row)
    ensures
        out@ == row_of(row.deep_view()),
{
    let mut cells: Vec<Cell> = Vec::new();
    let mut i: usize = 0;
    while i < row.1.len()
        invariant
            i <= row.1.len(),
            cells.len() == i,
            forall|k: int| 0 <= k < i ==> cells@[k]@ == cell_of(row.1.deep_view()[k]),
        decreases row.1.len() - i,
    {
        let cell = cell_from(&row.1[i]);
        assert(row.1.deep_view()[i as int] == row.1@[i as int].deep_view());
        cells.push(cell);
        i += 1;
    }
    let out = Row {
        day: first_of(&row.0, 0),
        time: first_of(&row.0, 1),
        time_extended: first_of(&row.0, 2),
        cells,
    };
    assert(out@.cells =~= row_of(row.deep_view()).cells);
    out
}

impl Page {
    /// Builds the page from the texts that were selected in the markup.
    pub fn from_texts(
        marker: &Vec<String>,
        rows: &Vec<(Vec<Vec<String>>, Vec<Vec<Vec<String>>>)>,
    ) -> (page: Page)
        ensures
            page@ == page_of(marker.deep_view(), rows.deep_view()),
    {
        let week_marker = if marker.len() > 0 {
            assert(marker.deep_view()[0] == marker@[0]@);
            Some(marker[0].clone())
        } else {
            None
        };
        let mut out: Vec<Row> = Vec::new();
        let mut i: usize = 0;
        while i < rows.len()
            invariant
                i <= rows.len(),
                out.len() == i,
                forall|k: int| 0 <= k < i ==> out@[k]@ == row_of(rows.deep_view()[k]),
            decreases rows.len() - i,
        {
            let row = row_from(&rows[i]);
            assert(rows.deep_view()[i as int] == rows@[i as int].deep_view());
            out.push(row);
            i += 1;
        }
        let page = Page { week_marker, rows: out };
        assert(page@.rows =~= page_of(marker.deep_view(), rows.deep_view()).rows);
        page
    }

    /// Reads the page out of the markup `html`. Fails where the markup is
    /// too long for the markup engine, and where the engine rejects one of
    /// the selectors.
    pub fn scrape(html: &str) -> (page: Result<Page, ParseError>)
        ensures
            match scraped_page(html@) {
                Ok(view) => page matches Ok(found) && found@ == view,
                Err(error) => page == Err::<Page, ParseError>(error),
            },
    {
        if html.unicode_len() > MAX_DOCUMENT_CHARS {
            return Err(ParseError::DocumentTooLong);
        }
        let mut fields: Vec<&str> = Vec::new();
        fields.push("td.day-header");
        fields.push("td .time");
        fields.push("td .extend_time");
        fields.push(".mainScheduleInfo");
        fields.push(".small.text-muted");
        fields.push(".Teacher a");
        assert(fields.deep_view() =~= field_selectors());
        proof {
            reveal_strlit("td#blink");
            reveal_strlit("table.table tr");
            reveal_strlit("td");
            reveal_strlit("td.day-header");
            reveal_strlit("td .time");
            reveal_strlit("td .extend_time");
            reveal_strlit(".mainScheduleInfo");
            reveal_strlit(".small.text-muted");
            reveal_strlit(".Teacher a");
        }
        let marker = document_texts(html, "td#blink");
        let rows = table_texts(html, "table.table tr", "td", &fields);
        match (marker, rows) {
            (Some(marker), Some(rows)) => Ok(Page::from_texts(&marker, &rows)),
            _ => Err(ParseError::SelectorRejected),
        }
    }
}

} // verus!
