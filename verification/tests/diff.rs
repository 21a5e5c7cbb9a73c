use nsuem_rasp_bot::{Day, Lesson, Schedule, Week};

fn lesson(extended: &str, subject: &str, kind: &str, teacher: &str) -> Lesson {
    Lesson {
        time: "1".to_string(),
        time_extended: extended.to_string(),
        subject: subject.to_string(),
        lesson_type: kind.to_string(),
        teacher: teacher.to_string(),
    }
}

fn day(subjects: &[&str]) -> Day {
    Day { lessons: subjects.iter().map(|s| lesson("09:00-10:30", s, "лек.", "Иванов")).collect() }
}

fn week(days: Vec<(usize, Day)>) -> Week {
    let mut slots: Vec<Option<Day>> = vec![None; 7];
    for (index, d) in days {
        slots[index] = Some(d);
    }
    Week { days: slots }
}

fn schedule(first: Week, second: Week, current_week: usize, today_day_id: usize) -> Schedule {
    Schedule { weeks: vec![first, second], current_week, today_day_id }
}

#[test]
fn lesson_renders_on_one_line() {
    let l = lesson("09:00-10:30", "Математика", "лек.", "Иванов И.И.");
    assert_eq!(l.render(), "<code>09:00-10:30</code> Математика (лек.) | Иванов И.И.");
    let blank = lesson("", "", "", "");
    assert_eq!(blank.render(), "<code></code>  () | ");
}

#[test]
fn day_renders_lessons_joined_by_line_feeds() {
    assert_eq!(Day { lessons: Vec::new() }.render(), "");
    assert_eq!(day(&["A"]).render(), "<code>09:00-10:30</code> A (лек.) | Иванов");
    assert_eq!(
        day(&["A", "B", "C"]).render(),
        "<code>09:00-10:30</code> A (лек.) | Иванов\n<code>09:00-10:30</code> B (лек.) | Иванов\n<code>09:00-10:30</code> C (лек.) | Иванов"
    );
}

#[test]
fn week_renders_populated_days_under_their_names() {
    assert_eq!(week(Vec::new()).render(), "");
    let w = week(vec![(0, day(&["A"])), (3, day(&["B", "C"])), (6, day(&["D"]))]);
    assert_eq!(
        w.render(),
        "Понедельник:\n<code>09:00-10:30</code> A (лек.) | Иванов\n\nЧетверг:\n<code>09:00-10:30</code> B (лек.) | Иванов\n<code>09:00-10:30</code> C (лек.) | Иванов\n\nВоскресенье:\n<code>09:00-10:30</code> D (лек.) | Иванов\n\n"
    );
    let names = ["Понедельник", "Вторник", "Среда", "Четверг", "Пятница", "Суббота", "Воскресенье"];
    for (index, name) in names.iter().enumerate() {
        let one = week(vec![(index, day(&["A"]))]).render();
        assert!(one.starts_with(&format!("{}:\n", name)), "{}", one);
    }
}

#[test]
fn day_lines_end_every_lesson_with_a_line_feed() {
    assert_eq!(Day { lessons: Vec::new() }.render_lines(), "");
    assert_eq!(day(&["A"]).render_lines(), "<code>09:00-10:30</code> A (лек.) | Иванов\n");
    assert_eq!(
        day(&["A", "B"]).render_lines(),
        "<code>09:00-10:30</code> A (лек.) | Иванов\n<code>09:00-10:30</code> B (лек.) | Иванов\n"
    );
    assert_eq!(day(&["A", "B"]).render_lines(), format!("{}\n", day(&["A", "B"]).render()));
}

#[test]
fn week_renders_a_day_without_lessons_as_its_name_and_an_empty_line() {
    let w = week(vec![(0, Day { lessons: Vec::new() })]);
    assert_eq!(w.render(), "Понедельник:\n\n");
    let mixed = week(vec![(1, Day { lessons: Vec::new() }), (2, day(&["A"]))]);
    assert_eq!(
        mixed.render(),
        "Вторник:\n\nСреда:\n<code>09:00-10:30</code> A (лек.) | Иванов\n\n"
    );
}

#[test]
fn schedule_renders_header_and_both_weeks() {
    let s = schedule(week(vec![(1, day(&["A"]))]), week(Vec::new()), 2, 0);
    assert_eq!(
        s.render(),
        "Текущая неделя: 2\nНеделя 1:\nВторник:\n<code>09:00-10:30</code> A (лек.) | Иванов\n\nНеделя 2:\n"
    );
}

#[test]
fn diff_of_a_schedule_with_itself_is_none() {
    let s = schedule(
        week(vec![(0, day(&["A"])), (1, day(&["B"])), (5, day(&["C"]))]),
        week(vec![(2, day(&["D"]))]),
        1,
        0,
    );
    for today in 0..=5 {
        assert_eq!(s.find_diff_at(&s, today), None);
        let mut t = s.clone();
        t.today_day_id = today;
        assert_eq!(t.find_diff(&t), None);
        let mut second = t.clone();
        second.current_week = 2;
        assert_eq!(second.find_diff(&second), None);
    }
}

#[test]
fn today_change_hides_tomorrow_change() {
    let previous = schedule(week(vec![(2, day(&["A"])), (3, day(&["B"]))]), week(Vec::new()), 1, 2);
    let fresh = schedule(week(vec![(2, day(&["X"])), (3, day(&["Y"]))]), week(Vec::new()), 1, 2);
    assert_eq!(
        fresh.find_diff(&previous),
        Some("Изменилось расписание на сегодня: <code>09:00-10:30</code> X (лек.) | Иванов".to_string())
    );
}

#[test]
fn tomorrow_change_is_reported_when_today_is_unchanged() {
    let previous = schedule(week(vec![(2, day(&["A"])), (3, day(&["B"]))]), week(Vec::new()), 1, 2);
    let fresh = schedule(week(vec![(2, day(&["A"])), (3, day(&["B", "Y"]))]), week(Vec::new()), 1, 2);
    assert_eq!(
        fresh.find_diff(&previous),
        Some(
            "Изменилось расписание на завтра: <code>09:00-10:30</code> B (лек.) | Иванов\n<code>09:00-10:30</code> Y (лек.) | Иванов"
                .to_string()
        )
    );
    let gone = schedule(week(vec![(2, day(&["A"]))]), week(Vec::new()), 1, 2);
    assert_eq!(gone.find_diff(&previous), Some("Расписание на завтра пропало...".to_string()));
}

#[test]
fn disappeared_day_is_reported_for_today() {
    let previous = schedule(week(vec![(3, day(&["A"]))]), week(Vec::new()), 1, 3);
    let fresh = schedule(week(Vec::new()), week(Vec::new()), 1, 3);
    assert_eq!(fresh.find_diff(&previous), Some("Расписание на сегодня пропало...".to_string()));
    assert_eq!(fresh.find_diff_at(&previous, 3), Some("Расписание на сегодня пропало...".to_string()));
}

#[test]
fn changes_on_other_days_are_not_reported() {
    let previous = schedule(week(vec![(0, day(&["A"])), (5, day(&["B"]))]), week(vec![(2, day(&["C"]))]), 1, 2);
    let fresh = schedule(week(vec![(0, day(&["X"])), (5, day(&["Y"]))]), week(vec![(2, day(&["Z"]))]), 1, 2);
    assert_eq!(fresh.find_diff(&previous), None);
    assert_eq!(fresh.find_diff_at(&previous, 4), Some("Изменилось расписание на завтра: <code>09:00-10:30</code> Y (лек.) | Иванов".to_string()));
}

#[test]
fn each_schedule_is_read_in_its_own_active_week() {
    let grid_first = week(vec![(2, day(&["A"]))]);
    let grid_second = week(vec![(2, day(&["B"]))]);
    let previous = schedule(grid_first.clone(), grid_second.clone(), 1, 2);
    let fresh = schedule(grid_first.clone(), grid_second.clone(), 2, 2);
    assert_eq!(
        fresh.find_diff(&previous),
        Some("Изменилось расписание на сегодня: <code>09:00-10:30</code> B (лек.) | Иванов".to_string())
    );
    let swapped = schedule(grid_second, grid_first, 2, 2);
    assert_eq!(swapped.find_diff(&previous), None);
}

#[test]
fn the_day_of_the_fresh_schedule_counts() {
    let previous = schedule(week(vec![(0, day(&["A"]))]), week(Vec::new()), 1, 4);
    let fresh = schedule(week(vec![(0, day(&["B"]))]), week(Vec::new()), 1, 0);
    assert!(fresh.find_diff(&previous).is_some());
    let later = schedule(week(vec![(0, day(&["B"]))]), week(Vec::new()), 1, 4);
    assert_eq!(later.find_diff(&previous), None);
}

#[test]
fn structural_equality_and_copies() {
    let a = schedule(week(vec![(0, day(&["A", "B"]))]), week(vec![(6, day(&["C"]))]), 2, 5);
    let b = a.duplicate();
    assert_eq!(a, b);
    assert!(a.same(&b));
    let mut c = a.duplicate();
    c.weeks[1].days[6].as_mut().unwrap().lessons[0].teacher.push('!');
    assert!(!a.same(&c));
    assert_ne!(a, c);
    let mut d = a.duplicate();
    d.today_day_id = 4;
    assert!(!a.same(&d));
    let mut e = a.duplicate();
    e.weeks[0].days[1] = Some(Day { lessons: Vec::new() });
    assert!(!a.same(&e));
    assert!(a.weeks[0].same(&b.weeks[0]));
    assert!(!a.weeks[0].same(&a.weeks[1]));
    assert!(day(&["A"]).same(&day(&["A"]).duplicate()));
    assert!(!day(&["A"]).same(&day(&["A", "A"])));
    let l = lesson("1", "2", "3", "4");
    assert!(l.same(&l.duplicate()));
    assert!(!l.same(&lesson("1", "2", "3", "5")));
}

#[test]
fn validity_is_the_shape_of_the_grid() {
    let good = schedule(week(Vec::new()), week(Vec::new()), 1, 6);
    assert!(good.is_valid());
    assert!(!schedule(week(Vec::new()), week(Vec::new()), 0, 0).is_valid());
    assert!(!schedule(week(Vec::new()), week(Vec::new()), 3, 0).is_valid());
    assert!(!schedule(week(Vec::new()), week(Vec::new()), 1, 7).is_valid());
    assert!(!Schedule { weeks: vec![week(Vec::new())], current_week: 1, today_day_id: 0 }.is_valid());
    assert!(!schedule(Week { days: vec![None; 6] }, week(Vec::new()), 1, 0).is_valid());
    assert!(!Schedule::default().is_valid());
}
