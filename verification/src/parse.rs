//! From a page to a schedule: field clean-up, the weekday table, the
//! active-week rule and the filling of the two-week grid.

use vstd::prelude::*;
use crate::page::{scraped_page, Cell, CellView, Page, PageView, Row, RowView};
use crate::schedule::{Day, DayView, Lesson, LessonView, Schedule, ScheduleView, Week, WeekView};
use crate::text::{
    collapse_dashes,
    collapse_double_dash,
    first_line,
    from_chars,
    take_first_line,
    to_chars,
    trim,
    trimmed,
};

verus! {

/// Why no schedule could be made.
#[derive(Debug, Clone, Copy, PartialEq, Eq, Hash)]
pub enum ParseError {
    /// A day header holds a label that is no weekday's.
    MalformedDocument,
    /// The day given as today is none of the seven slots.
    OutOfRangeDayIndex,
    /// The markup is too long for the markup engine.
    DocumentTooLong,
    /// The markup engine did not accept one of the selectors.
    SelectorRejected,
}

/// What the active-week marker of a page says.
#[derive(Debug, Clone, Copy, PartialEq, Eq, Hash)]
pub enum WeekMarker {
    /// The marker names the first week.
    First,
    /// The marker names the second week.
    Second,
    /// The page has no marker.
    Absent,
    /// The marker's text names neither week.
    Unknown,
}

/// The slot of the weekday whose short label is `label`, Monday being 0.
pub open spec fn day_index(label: Seq<char>) -> Option<nat> {
    if label == "пн"@ {
        Some(0)
    } else if label == "вт"@ {
        Some(1)
    } else if label == "ср"@ {
        Some(2)
    } else if label == "чт"@ {
        Some(3)
    } else if label == "пт"@ {
        Some(4)
    } else if label == "сб"@ {
        Some(5)
    } else if label == "вс"@ {
        Some(6)
    } else {
        None
    }
}

/// What a marker with the raw text `marker` says: its trimmed text is held
/// against the two labels.
pub open spec fn marker_status(marker: Option<Seq<char>>) -> WeekMarker {
    match marker {
        None => WeekMarker::Absent,
        Some(text) => if trimmed(text) == "Вторая неделя"@ {
            WeekMarker::Second
        } else if trimmed(text) == "Первая неделя"@ {
            WeekMarker::First
        } else {
            WeekMarker::Unknown
        },
    }
}

/// The number of the active week: 2 where the marker names the second week,
/// 1 in every other case.
pub open spec fn week_number(status: WeekMarker) -> nat {
    if status == WeekMarker::Second {
        2
    } else {
        1
    }
}

/// A field's text: the raw text trimmed, or the empty text where the element
/// is absent.
pub open spec fn field_text(raw: Option<Seq<char>>) -> Seq<char> {
    match raw {
        Some(text) => trimmed(text),
        None => Seq::empty(),
    }
}

/// The long clock range: doubled hyphens made single, then trimmed.
pub open spec fn time_extended_text(raw: Option<Seq<char>>) -> Seq<char> {
    match raw {
        Some(text) => trimmed(collapse_double_dash(text)),
        None => Seq::empty(),
    }
}

/// The subject: the first line of the info block, trimmed.
pub open spec fn subject_text(raw: Option<Seq<char>>) -> Seq<char> {
    match raw {
        Some(text) => trimmed(first_line(text)),
        None => Seq::empty(),
    }
}

/// The lesson that `cell` of `row` describes: the clock fields are the row's,
/// the others the cell's.
pub open spec fn lesson_of(row: RowView, cell: CellView) -> LessonView {
    LessonView {
        time: field_text(row.time),
        time_extended: time_extended_text(row.time_extended),
        subject: subject_text(cell.info),
        lesson_type: field_text(cell.lesson_type),
        teacher: field_text(cell.teacher),
    }
}

/// `week` with `lesson` appended to the day of slot `day`; the day is made
/// where the slot was empty.
pub open spec fn with_lesson(week: WeekView, day: int, lesson: LessonView) -> WeekView {
    week.update(
        day,
        Some(
            match week[day] {
                Some(lessons) => lessons.push(lesson),
                None => seq![lesson],
            },
        ),
    )
}

/// `week` after `cell` of `row` was read for slot `day`: a cell without an
/// info block changes nothing.
pub open spec fn with_cell(week: WeekView, day: int, row: RowView, cell: CellView) -> WeekView {
    if cell.info is Some {
        with_lesson(week, day, lesson_of(row, cell))
    } else {
        week
    }
}

/// The parser's state between rows: the two weeks and the current day.
pub ghost struct Grid {
    pub first: WeekView,
    pub second: WeekView,
    pub day: nat,
}

/// A week of seven empty slots.
pub open spec fn empty_week() -> WeekView {
    Seq::new(7, |i: int| None::<DayView>)
}

/// The state before the first row: nothing scheduled, the day is Monday.
pub open spec fn empty_grid() -> Grid {
    Grid { first: empty_week(), second: empty_week(), day: 0 }
}

/// The state after `row`, or `None` where its day header names no weekday.
/// A row of fewer than four cells is passed over whole. In any other row a
/// day header sets the current day, and the third and fourth cell are read
/// for the first and second week.
pub open spec fn with_row(grid: Grid, row: RowView) -> Option<Grid> {
    if row.cells.len() < 4 {
        Some(grid)
    } else {
        let day = match row.day {
            Some(label) => day_index(trimmed(label)),
            None => Some(grid.day),
        };
        match day {
            Some(day) => Some(
                Grid {
                    first: with_cell(grid.first, day as int, row, row.cells[2]),
                    second: with_cell(grid.second, day as int, row, row.cells[3]),
                    day,
                },
            ),
            None => None,
        }
    }
}

/// The state after all of `rows`, read in order, or `None` where one of them
/// has a day header that names no weekday.
pub open spec fn filled(rows: Seq<RowView>) -> Option<Grid>
    decreases rows.len(),
{
    if rows.len() == 0 {
        Some(empty_grid())
    } else {
        match filled(rows.drop_last()) {
            Some(grid) => with_row(grid, rows.last()),
            None => None,
        }
    }
}

/// The schedule that `page` holds when today is slot `today`, or the reason
/// why it holds none.
pub open spec fn parsed(page: PageView, today: nat) -> Result<ScheduleView, ParseError> {
    if today > 6 {
        Err(ParseError::OutOfRangeDayIndex)
    } else {
        match filled(page.rows) {
            Some(grid) => Ok(
                ScheduleView {
                    weeks: seq![grid.first, grid.second],
                    current_week: week_number(marker_status(page.week_marker)),
                    today_day_id: today,
                },
            ),
            None => Err(ParseError::MalformedDocument),
        }
    }
}

/// The shape of a state: two weeks of seven slots, a day among the seven,
/// and no populated slot without a lesson.
pub open spec fn grid_wf(grid: Grid) -> bool {
    &&& grid.first.len() == 7
    &&& grid.second.len() == 7
    &&& grid.day <= 6
    &&& forall|d: int| 0 <= d < 7 && (#[trigger] grid.first[d]) is Some ==> grid.first[d]->0.len() > 0
    &&& forall|d: int|
        0 <= d < 7 && (#[trigger] grid.second[d]) is Some ==> grid.second[d]->0.len() > 0
}

/// Every state that rows lead to has that shape.
pub proof fn lemma_filled_wf(rows: Seq<RowView>)
    ensures
        filled(rows) matches Some(grid) ==> grid_wf(grid),
    decreases rows.len(),
{
    if rows.len() > 0 {
        lemma_filled_wf(rows.drop_last());
    }
}

/// Every schedule that a page yields has exactly two weeks of exactly seven
/// slots, an active week of 1 or 2, and today among the seven slots.
pub proof fn lemma_parsed_wf(page: PageView, today: nat)
    ensures
        parsed(page, today) matches Ok(schedule) ==> schedule.wf(),
{
    lemma_filled_wf(page.rows);
}

/// No schedule that a page yields has a populated slot without a lesson.
pub proof fn lemma_parsed_days_not_empty(page: PageView, today: nat, week: int, day: int)
    requires
        0 <= week < 2,
        0 <= day < 7,
    ensures
        parsed(page, today) matches Ok(schedule) ==> (schedule.weeks[week][day] matches Some(
            lessons,
        ) ==> lessons.len() > 0),
{
    lemma_filled_wf(page.rows);
}

fn trimmed_string(chars: &Vec<char>) -> (out: String)
    ensures
        out@ == trimmed(chars@),
{
    let kept = trim(chars);
    from_chars(&kept)
}

fn clean(raw: &Option<String>) -> (out: String)
    ensures
        out@ == field_text(raw.deep_view()),
{
    match raw {
        Some(text) => {
            let chars = to_chars(text.as_str());
            trimmed_string(&chars)
        },
        None => String::new(),
    }
}

fn clean_time_extended(raw: &Option<String>) -> (out: String)
    ensures
        out@ == time_extended_text(raw.deep_view()),
{
    match raw {
        Some(text) => {
            let chars = to_chars(text.as_str());
            let single = collapse_dashes(&chars);
            trimmed_string(&single)
        },
        None => String::new(),
    }
}

fn clean_subject(raw: &Option<String>) -> (out: String)
    ensures
        out@ == subject_text(raw.deep_view()),
{
    match raw {
        Some(text) => {
            let chars = to_chars(text.as_str());
            let line = take_first_line(&chars);
            trimmed_string(&line)
        },
        None => String::new(),
    }
}

fn is_text(label: &String, literal: &str) -> (b: bool)
    ensures
        b == (label@ == literal@),
{
    let other = String::from_str(literal);
    *label == other
}

/// Looks `label` up in the table of short weekday labels.
pub fn day_index_of(label: &String) -> (index: Option<usize>)
    ensures
        match index {
            Some(i) => day_index(label@) == Some(i as nat),
            None => day_index(label@) is None,
        },
{
    if is_text(label, "пн") {
        Some(0)
    } else if is_text(label, "вт") {
        Some(1)
    } else if is_text(label, "ср") {
        Some(2)
    } else if is_text(label, "чт") {
        Some(3)
    } else if is_text(label, "пт") {
        Some(4)
    } else if is_text(label, "сб") {
        Some(5)
    } else if is_text(label, "вс") {
        Some(6)
    } else {
        None
    }
}

/// Reads the active-week marker.
pub fn read_week_marker(marker: &Option<String>) -> (status: WeekMarker)
    ensures
        status == marker_status(marker.deep_view()),
{
    match marker {
        None => WeekMarker::Absent,
        Some(text) => {
            let chars = to_chars(text.as_str());
            let label = trimmed_string(&chars);
            if is_text(&label, "Вторая неделя") {
                WeekMarker::Second
            } else if is_text(&label, "Первая неделя") {
                WeekMarker::First
            } else {
                WeekMarker::Unknown
            }
        },
    }
}

impl WeekMarker {
    /// The number of the active week that this marker stands for.
    pub fn number(&self) -> (n: usize)
        ensures
            n == week_number(*self),
    {
        match self {
            WeekMarker::Second => 2,
            _ => 1,
        }
    }
}

fn lesson_from(row: &Row, cell: &Cell) -> (lesson: Lesson)
    ensures
        lesson@ == lesson_of(row@, cell@),
{
    Lesson {
        time: clean(&row.time),
        time_extended: clean_time_extended(&row.time_extended),
        subject: clean_subject(&cell.info),
        lesson_type: clean(&cell.lesson_type),
        teacher: clean(&cell.teacher),
    }
}

fn new_week() -> (week: Week)
    ensures
        week@ == empty_week(),
{
    let mut days: Vec<Option<Day>> = Vec::new();
    let mut i: usize = 0;
    while i < 7
        invariant
            i <= 7,
            days.len() == i,
            forall|k: int| 0 <= k < i ==> days@[k] is None,
        decreases 7 - i,
    {
        days.push(None);
        i += 1;
    }
    let week = Week { days };
    assert(week@ =~= empty_week());
    week
}

fn add_lesson(week: &mut Week, day: usize, lesson: Lesson)
    requires
        old(week)@.len() == 7,
        day < 7,
    ensures
        final(week)@ == with_lesson(old(week)@, day as int, lesson@),
{
    let ghost before = week@;
    match &mut week.days[day] {
        Some(existing) => {
            existing.lessons.push(lesson);
        },
        None => {
            let mut lessons: Vec<Lesson> = Vec::new();
            lessons.push(lesson);
            week.days[day] = Some(Day { lessons });
        },
    }
    assert(week@ =~= with_lesson(before, day as int, lesson@)) by {
        assert(week@.len() == 7);
        assert forall|k: int| 0 <= k < 7 implies week@[k] == with_lesson(
            before,
            day as int,
            lesson@,
        )[k] by {
            if k == day as int {
                match before[k] {
                    Some(lessons) => {
                        assert(week@[k]->0 =~= lessons.push(lesson@));
                    },
                    None => {
                        assert(week@[k]->0 =~= seq![lesson@]);
                    },
                }
            }
        }
    }
}

fn add_cell(week: &mut Week, day: usize, row: &Row, cell: &Cell)
    requires
        old(week)@.len() == 7,
        day < 7,
    ensures
        final(week)@ == with_cell(old(week)@, day as int, row@, cell@),
        final(week)@.len() == 7,
{
    if cell.info.is_some() {
        let lesson = lesson_from(row, cell);
        add_lesson(week, day, lesson);
    }
}

impl Schedule {
    /// Builds the schedule that `page` holds, with `today_day_id` as today.
    /// Fails where `today_day_id` is none of the seven slots, and where a day
    /// header of a row of four or more cells names no weekday.
    pub fn from_page(page: &Page, today_day_id: usize) -> (result: Result<Schedule, ParseError>)
        ensures
            match parsed(page@, today_day_id as nat) {
                Ok(schedule) => result matches Ok(built) && built@ == schedule,
                Err(error) => result == Err::<Schedule, ParseError>(error),
            },
    {
        if today_day_id > 6 {
            return Err(ParseError::OutOfRangeDayIndex);
        }
        let mut first = new_week();
        let mut second = new_week();
        let mut day: usize = 0;
        let mut i: usize = 0;
        assert(page@.rows.take(0) =~= Seq::<RowView>::empty());
        while i < page.rows.len()
            invariant
                i <= page.rows.len(),
                today_day_id <= 6,
                filled(page@.rows.take(i as int)) == Some(
                    Grid { first: first@, second: second@, day: day as nat },
                ),
                first@.len() == 7,
                second@.len() == 7,
                day < 7,
            decreases page.rows.len() - i,
        {
            let row = &page.rows[i];
            let ghost grid = Grid { first: first@, second: second@, day: day as nat };
            assert(page@.rows.take(i as int + 1).drop_last() =~= page@.rows.take(i as int));
            assert(page@.rows.take(i as int + 1).last() == row@);
            assert(filled(page@.rows.take(i as int + 1)) == with_row(grid, row@));
            assert(page@.rows.take(page.rows.len() as int) =~= page@.rows);
            if row.cells.len() >= 4 {
                assert(row@.cells[2] == row.cells@[2]@);
                assert(row@.cells[3] == row.cells@[3]@);
                match &row.day {
                    Some(raw) => {
                        let chars = to_chars(raw.as_str());
                        let label = trimmed_string(&chars);
                        match day_index_of(&label) {
                            Some(index) => {
                                day = index;
                            },
                            None => {
                                proof {
                                    assert(row@.day == Some(raw@));
                                    assert(with_row(grid, row@) is None);
                                    lemma_filled_none(page@.rows, i as int + 1);
                                }
                                return Err(ParseError::MalformedDocument);
                            },
                        }
                    },
                    None => {},
                }
                add_cell(&mut first, day, row, &row.cells[2]);
                add_cell(&mut second, day, row, &row.cells[3]);
            }
            i += 1;
        }
        assert(page@.rows.take(page.rows.len() as int) =~= page@.rows);
        let current_week = read_week_marker(&page.week_marker).number();
        let mut weeks: Vec<Week> = Vec::new();
        weeks.push(first);
        weeks.push(second);
        let schedule = Schedule { weeks, current_week, today_day_id };
        assert(schedule@.weeks =~= seq![first@, second@]);
        Ok(schedule)
    }
}

/// What parsing the markup `html` gives when today is slot `today`: the day
/// is checked first, then the page is read out of the markup, then the grid
/// is filled.
pub open spec fn parse_outcome(html: Seq<char>, today: nat) -> Result<ScheduleView, ParseError> {
    if today > 6 {
        Err(ParseError::OutOfRangeDayIndex)
    } else {
        match scraped_page(html) {
            Ok(page) => parsed(page, today),
            Err(error) => Err(error),
        }
    }
}

impl Schedule {
    /// Parses the markup of a timetable page, with `today_day_id` as today.
    pub fn parse(html: &str, today_day_id: usize) -> (result: Result<Schedule, ParseError>)
        ensures
            match parse_outcome(html@, today_day_id as nat) {
                Ok(schedule) => result matches Ok(built) && built@ == schedule,
                Err(error) => result == Err::<Schedule, ParseError>(error),
            },
    {
        if today_day_id > 6 {
            return Err(ParseError::OutOfRangeDayIndex);
        }
        match Page::scrape(html) {
            Ok(page) => Schedule::from_page(&page, today_day_id),
            Err(error) => Err(error),
        }
    }
}

/// Parsing the same markup for the same day twice gives the same outcome:
/// equal schedules, or the same error.
pub proof fn lemma_parse_is_repeatable(
    html: Seq<char>,
    today: nat,
    first: Result<ScheduleView, ParseError>,
    second: Result<ScheduleView, ParseError>,
)
    requires
        first == parse_outcome(html, today),
        second == parse_outcome(html, today),
    ensures
        first == second,
{
}

/// Every schedule parsed out of markup has exactly two weeks of exactly
/// seven slots, an active week of 1 or 2, and today among the seven slots.
pub proof fn lemma_parse_outcome_wf(html: Seq<char>, today: nat)
    ensures
        parse_outcome(html, today) matches Ok(schedule) ==> schedule.wf(),
{
    if today <= 6 {
        match scraped_page(html) {
            Ok(page) => lemma_parsed_wf(page, today),
            Err(_) => {},
        }
    }
}

/// Once a prefix of the rows has failed, so has every longer one.
pub proof fn lemma_filled_none(rows: Seq<RowView>, count: int)
    requires
        0 <= count <= rows.len(),
        filled(rows.take(count)) is None,
    ensures
        filled(rows) is None,
    decreases rows.len() - count,
{
    if count < rows.len() {
        assert(rows.take(count + 1).drop_last() =~= rows.take(count));
        lemma_filled_none(rows, count + 1);
    } else {
        assert(rows.take(count) =~= rows);
    }
}

} // verus!
