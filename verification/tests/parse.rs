use nsuem_rasp_bot::parse::{day_index_of, read_week_marker};
use nsuem_rasp_bot::{Cell, Day, Lesson, Page, ParseError, Row, Schedule, WeekMarker};

fn text(s: &str) -> Option<String> {
    Some(s.to_string())
}

fn lesson_cell(info: &str, kind: &str, teacher: &str) -> Cell {
    Cell { info: text(info), lesson_type: text(kind), teacher: text(teacher) }
}

fn empty_cell() -> Cell {
    Cell { info: None, lesson_type: None, teacher: None }
}

fn body_row(day: Option<&str>, time: &str, extended: &str, first: Cell, second: Cell) -> Row {
    Row {
        day: day.map(|d| d.to_string()),
        time: text(time),
        time_extended: text(extended),
        cells: vec![empty_cell(), empty_cell(), first, second],
    }
}

fn lesson(time: &str, extended: &str, subject: &str, kind: &str, teacher: &str) -> Lesson {
    Lesson {
        time: time.to_string(),
        time_extended: extended.to_string(),
        subject: subject.to_string(),
        lesson_type: kind.to_string(),
        teacher: teacher.to_string(),
    }
}

fn cell_markup(subject: &str, kind: &str, teacher: &str) -> String {
    format!(
        "<td><div class=\"mainScheduleInfo\">{}</div><span class=\"small text-muted\"> {} </span><div class=\"Teacher\"><a href=\"#\">{}</a></div></td>",
        subject, kind, teacher
    )
}

fn row_markup(day: &str, time: &str, extended: &str, first: &str, second: &str) -> String {
    format!(
        "<tr><td class=\"day-header\">{}</td><td><span class=\"time\">{}</span><span class=\"extend_time\">{}</span></td>{}{}</tr>",
        day, time, extended, first, second
    )
}

fn page_markup(marker: Option<&str>, rows: &[String]) -> String {
    let marker = match marker {
        Some(label) => format!("<table><tr><td id=\"blink\"> {} </td></tr></table>", label),
        None => String::new(),
    };
    format!(
        "<!DOCTYPE html><html><head><title>t</title></head><body>{}<table class=\"table\"><tr><th>d</th><th>t</th></tr>{}</table></body></html>",
        marker,
        rows.concat()
    )
}

#[test]
fn both_week_columns_get_the_monday_lesson() {
    let header = Row { day: text("пн"), time: None, time_extended: None, cells: vec![empty_cell()] };
    let body = body_row(
        None,
        "1",
        "09:00--10:30",
        lesson_cell("Математика\nдоп.инфо", "лек.", "Иванов И.И."),
        lesson_cell("Математика\nдоп.инфо", "пр.", "Петров П.П."),
    );
    let page = Page { week_marker: None, rows: vec![header, body] };
    let schedule = Schedule::from_page(&page, 2).unwrap();
    for week in 0..2 {
        let day = schedule.weeks[week].days[0].as_ref().unwrap();
        assert_eq!(day.lessons.len(), 1);
        assert_eq!(day.lessons[0].subject, "Математика");
        assert_eq!(day.lessons[0].time_extended, "09:00-10:30");
        assert_eq!(day.lessons[0].time, "1");
    }
    assert_eq!(schedule.weeks[0].days[0].as_ref().unwrap().lessons[0].lesson_type, "лек.");
    assert_eq!(schedule.weeks[1].days[0].as_ref().unwrap().lessons[0].teacher, "Петров П.П.");
    for week in 0..2 {
        for day in 1..7 {
            assert_eq!(schedule.weeks[week].days[day], None);
        }
    }
}

#[test]
fn markup_with_monday_row_is_parsed() {
    let cell = cell_markup("Математика\nдоп.инфо", "лек.", " Иванов И.И. ");
    let html = page_markup(None, &[row_markup(" пн ", " 1 ", " 09:00--10:30 ", &cell, &cell)]);
    let schedule = Schedule::parse(&html, 2).unwrap();
    assert_eq!(schedule.weeks.len(), 2);
    let expected = Day { lessons: vec![lesson("1", "09:00-10:30", "Математика", "лек.", "Иванов И.И.")] };
    assert_eq!(schedule.weeks[0].days[0], Some(expected.clone()));
    assert_eq!(schedule.weeks[1].days[0], Some(expected));
    assert_eq!(schedule.current_week, 1);
    assert_eq!(schedule.today_day_id, 2);
}

#[test]
fn parsed_schedule_has_two_weeks_of_seven_slots() {
    let cell = cell_markup("Физика", "лаб.", "Сидоров");
    let empty = "<td></td>";
    let documents = [
        page_markup(None, &[]),
        page_markup(Some("Вторая неделя"), &[row_markup("ср", "2", "10:45--12:15", &cell, empty)]),
        page_markup(
            Some("Первая неделя"),
            &[
                row_markup("пн", "1", "09:00--10:30", &cell, &cell),
                row_markup("вс", "5", "16:00--17:30", empty, &cell),
            ],
        ),
        String::from("not markup at all"),
        String::new(),
    ];
    for html in documents.iter() {
        let schedule = Schedule::parse(html, 0).unwrap();
        assert_eq!(schedule.weeks.len(), 2);
        assert_eq!(schedule.weeks[0].days.len(), 7);
        assert_eq!(schedule.weeks[1].days.len(), 7);
        assert!(schedule.current_week == 1 || schedule.current_week == 2);
        assert!(schedule.is_valid());
        for week in schedule.weeks.iter() {
            for day in week.days.iter().flatten() {
                assert!(!day.lessons.is_empty());
            }
        }
    }
}

#[test]
fn parsing_twice_gives_equal_schedules() {
    let cell = cell_markup("Химия\nауд. 5", "лек.", "Кузнецов");
    let html = page_markup(
        Some("Вторая неделя"),
        &[
            row_markup("вт", "1", "09:00--10:30", &cell, "<td></td>"),
            row_markup("вт", "2", "10:45--12:15", &cell, &cell),
        ],
    );
    let first = Schedule::parse(&html, 3).unwrap();
    let second = Schedule::parse(&html, 3).unwrap();
    assert_eq!(first, second);
    assert!(first.same(&second));
}

#[test]
fn second_week_marker_sets_current_week() {
    let page = Page { week_marker: text("Вторая неделя"), rows: Vec::new() };
    assert_eq!(Schedule::from_page(&page, 0).unwrap().current_week, 2);
    let html = page_markup(Some("Вторая неделя"), &[]);
    assert_eq!(Schedule::parse(&html, 0).unwrap().current_week, 2);
}

#[test]
fn absent_marker_means_first_week() {
    let page = Page { week_marker: None, rows: Vec::new() };
    assert_eq!(Schedule::from_page(&page, 0).unwrap().current_week, 1);
    let html = page_markup(None, &[]);
    assert_eq!(Schedule::parse(&html, 0).unwrap().current_week, 1);
}

#[test]
fn other_markers_mean_first_week() {
    for marker in ["Первая неделя", "Третья неделя", "", "вторая неделя", "Вторая  неделя"] {
        let page = Page { week_marker: text(marker), rows: Vec::new() };
        assert_eq!(Schedule::from_page(&page, 0).unwrap().current_week, 1, "{:?}", marker);
    }
}

#[test]
fn week_marker_status_is_observable() {
    assert_eq!(read_week_marker(&None), WeekMarker::Absent);
    assert_eq!(read_week_marker(&text(" Вторая неделя\n")), WeekMarker::Second);
    assert_eq!(read_week_marker(&text("Первая неделя")), WeekMarker::First);
    assert_eq!(read_week_marker(&text("каникулы")), WeekMarker::Unknown);
    assert_eq!(WeekMarker::Second.number(), 2);
    assert_eq!(WeekMarker::First.number(), 1);
    assert_eq!(WeekMarker::Absent.number(), 1);
    assert_eq!(WeekMarker::Unknown.number(), 1);
}

#[test]
fn weekday_labels_map_to_slots() {
    let labels = ["пн", "вт", "ср", "чт", "пт", "сб", "вс"];
    for (slot, label) in labels.iter().enumerate() {
        assert_eq!(day_index_of(&label.to_string()), Some(slot));
    }
    for label in ["", "Пн", "пн ", "mon", "понедельник"] {
        assert_eq!(day_index_of(&label.to_string()), None);
    }
}

#[test]
fn unknown_day_label_is_malformed() {
    let row = body_row(Some("xx"), "1", "a", lesson_cell("s", "t", "p"), empty_cell());
    let page = Page { week_marker: None, rows: vec![row] };
    assert_eq!(Schedule::from_page(&page, 0), Err(ParseError::MalformedDocument));
    let cell = cell_markup("s", "t", "p");
    let html = page_markup(None, &[row_markup("день", "1", "a", &cell, &cell)]);
    assert_eq!(Schedule::parse(&html, 0), Err(ParseError::MalformedDocument));
}

#[test]
fn today_outside_the_week_is_refused() {
    let page = Page { week_marker: None, rows: Vec::new() };
    assert_eq!(Schedule::from_page(&page, 7), Err(ParseError::OutOfRangeDayIndex));
    assert_eq!(Schedule::parse("", 7), Err(ParseError::OutOfRangeDayIndex));
    assert_eq!(Schedule::from_page(&page, 6).unwrap().today_day_id, 6);
}

#[test]
fn markup_beyond_the_engine_limit_is_refused() {
    let long = "a".repeat(0x2000_0000);
    assert_eq!(Page::scrape(&long), Err(ParseError::DocumentTooLong));
    assert_eq!(Schedule::parse(&long, 0), Err(ParseError::DocumentTooLong));
    assert_eq!(Schedule::parse(&long, 7), Err(ParseError::OutOfRangeDayIndex));
}

#[test]
fn short_rows_are_passed_over() {
    let short = Row {
        day: text("чт"),
        time: text("1"),
        time_extended: text("x"),
        cells: vec![empty_cell(), empty_cell(), lesson_cell("s", "t", "p")],
    };
    let unknown = Row { day: text("??"), time: None, time_extended: None, cells: Vec::new() };
    let body = body_row(None, "1", "x", lesson_cell("s", "t", "p"), empty_cell());
    let page = Page { week_marker: None, rows: vec![short, unknown, body] };
    let schedule = Schedule::from_page(&page, 0).unwrap();
    assert!(schedule.weeks[0].days[0].is_some());
    assert!(schedule.weeks[0].days[3].is_none());
    assert!(schedule.weeks[1].days[0].is_none());
}

#[test]
fn later_rows_append_to_the_same_day() {
    let rows = vec![
        body_row(Some("ср"), "1", "09:00--10:30", lesson_cell("A", "", ""), empty_cell()),
        body_row(None, "2", "10:45--12:15", lesson_cell("B", "", ""), lesson_cell("C", "", "")),
        body_row(Some("пт"), "1", "09:00--10:30", empty_cell(), lesson_cell("D", "", "")),
        body_row(Some("ср"), "3", "13:00--14:30", lesson_cell("E", "", ""), empty_cell()),
    ];
    let page = Page { week_marker: None, rows };
    let schedule = Schedule::from_page(&page, 0).unwrap();
    let subjects = |week: usize, day: usize| -> Vec<String> {
        match &schedule.weeks[week].days[day] {
            Some(day) => day.lessons.iter().map(|l| l.subject.clone()).collect(),
            None => Vec::new(),
        }
    };
    assert_eq!(subjects(0, 2), vec!["A", "B", "E"]);
    assert_eq!(subjects(1, 2), vec!["C"]);
    assert_eq!(subjects(1, 4), vec!["D"]);
    assert_eq!(schedule.weeks[0].days[4], None);
    assert_eq!(schedule.weeks[0].days[2].as_ref().unwrap().lessons[1].time, "2");
    assert_eq!(schedule.weeks[0].days[2].as_ref().unwrap().lessons[1].time_extended, "10:45-12:15");
}

#[test]
fn absent_fields_are_empty_texts() {
    let row = Row {
        day: None,
        time: None,
        time_extended: None,
        cells: vec![
            empty_cell(),
            empty_cell(),
            Cell { info: text(""), lesson_type: None, teacher: None },
            empty_cell(),
        ],
    };
    let page = Page { week_marker: None, rows: vec![row] };
    let schedule = Schedule::from_page(&page, 0).unwrap();
    assert_eq!(
        schedule.weeks[0].days[0],
        Some(Day { lessons: vec![lesson("", "", "", "", "")] })
    );
    assert_eq!(schedule.weeks[1].days[0], None);
}

#[test]
fn scrape_reads_rows_and_cells() {
    let first = cell_markup("Математика\nдоп.инфо", "лек.", "Иванов И.И.");
    let html = page_markup(
        Some("Вторая неделя"),
        &[row_markup("пн", "1", "09:00--10:30", &first, "<td><b>нет</b></td>")],
    );
    let page = Page::scrape(&html).unwrap();
    assert_eq!(page.week_marker, text(" Вторая неделя "));
    assert_eq!(page.rows.len(), 2);
    assert_eq!(page.rows[0].cells.len(), 0);
    assert_eq!(page.rows[0].day, None);
    let row = &page.rows[1];
    assert_eq!(row.day, text("пн"));
    assert_eq!(row.time, text("1"));
    assert_eq!(row.time_extended, text("09:00--10:30"));
    assert_eq!(row.cells.len(), 4);
    assert_eq!(row.cells[2].info, text("Математика\nдоп.инфо"));
    assert_eq!(row.cells[2].lesson_type, text(" лек. "));
    assert_eq!(row.cells[2].teacher, text("Иванов И.И."));
    assert_eq!(row.cells[3], Cell { info: None, lesson_type: None, teacher: None });
    assert_ne!(page.week_marker, Some(html.clone()));
}

#[test]
fn scrape_of_markup_without_table_is_empty() {
    let page = Page::scrape("<p>td#blink</p>").unwrap();
    assert_eq!(page, Page { week_marker: None, rows: Vec::new() });
}
