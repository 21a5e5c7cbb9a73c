//! Display text of lessons, days, weeks and schedules.

use vstd::prelude::*;
use crate::schedule::{Day, DayView, Lesson, LessonView, Schedule, ScheduleView, Week, WeekView};
use crate::text::{decimal, push_decimal};

verus! {

/// One lesson on one line: the long clock range as code, the subject, the
/// kind of class in brackets, a bar and the teacher.
pub open spec fn lesson_line(lesson: LessonView) -> Seq<char> {
    "<code>"@ + lesson.time_extended + "</code> "@ + lesson.subject + " ("@ + lesson.lesson_type
        + ") | "@ + lesson.teacher
}

/// The lines of a day's lessons in order, joined by line feeds.
pub open spec fn day_text(day: DayView) -> Seq<char>
    decreases day.len(),
{
    if day.len() == 0 {
        Seq::empty()
    } else if day.len() == 1 {
        lesson_line(day[0])
    } else {
        day_text(day.drop_last()) + seq!['\n'] + lesson_line(day.last())
    }
}

/// The lines of a day's lessons in order, each ended by a line feed.
pub open spec fn day_lines(day: DayView) -> Seq<char>
    decreases day.len(),
{
    if day.len() == 0 {
        Seq::empty()
    } else {
        day_lines(day.drop_last()) + lesson_line(day.last()) + seq!['\n']
    }
}

/// The lines of a day with lessons are the day's text and a line feed.
pub proof fn lemma_day_lines(day: DayView)
    ensures
        day.len() > 0 ==> day_lines(day) == day_text(day) + seq!['\n'],
        day.len() == 0 ==> day_lines(day) == Seq::<char>::empty(),
    decreases day.len(),
{
    if day.len() == 1 {
        assert(day_lines(day.drop_last()) == Seq::<char>::empty());
        assert(day[0] == day.last());
        assert(day_lines(day) =~= day_text(day) + seq!['\n']);
    } else if day.len() > 1 {
        let rest = day.drop_last();
        lemma_day_lines(rest);
        assert(day_lines(day) == day_lines(rest) + lesson_line(day.last()) + seq!['\n']);
        assert(day_text(day) == day_text(rest) + seq!['\n'] + lesson_line(day.last()));
        assert(day_lines(day) =~= day_text(day) + seq!['\n']);
    }
}

/// The name of the weekday of slot `index`, Monday being slot 0.
pub open spec fn day_name(index: int) -> Seq<char> {
    if index == 0 {
        "Понедельник"@
    } else if index == 1 {
        "Вторник"@
    } else if index == 2 {
        "Среда"@
    } else if index == 3 {
        "Четверг"@
    } else if index == 4 {
        "Пятница"@
    } else if index == 5 {
        "Суббота"@
    } else {
        "Воскресенье"@
    }
}

/// The block of slot `index`: nothing for an empty slot; else the weekday's
/// name and a colon on a line, the day's lines and an empty line.
pub open spec fn slot_text(index: int, slot: Option<DayView>) -> Seq<char> {
    match slot {
        Some(day) => day_name(index) + ":\n"@ + day_lines(day) + seq!['\n'],
        None => Seq::empty(),
    }
}

/// The blocks of a week's slots in order.
pub open spec fn week_text(week: WeekView) -> Seq<char>
    decreases week.len(),
{
    if week.len() == 0 {
        Seq::empty()
    } else {
        week_text(week.drop_last()) + slot_text(week.len() - 1, week.last())
    }
}

/// The blocks of the first `count` weeks, each under a line with its number.
pub open spec fn weeks_text(weeks: Seq<WeekView>, count: nat) -> Seq<char>
    decreases count,
{
    if count == 0 {
        Seq::empty()
    } else {
        weeks_text(weeks, (count - 1) as nat) + "Неделя "@ + decimal(count) + ":\n"@ + week_text(
            weeks[count - 1],
        )
    }
}

/// A line naming the active week, then every week's block.
pub open spec fn schedule_text(schedule: ScheduleView) -> Seq<char> {
    "Текущая неделя: "@ + decimal(schedule.current_week) + seq!['\n'] + weeks_text(
        schedule.weeks,
        schedule.weeks.len(),
    )
}

fn weekday(index: usize) -> (name: &'static str)
    ensures
        name@ == day_name(index as int),
{
    if index == 0 {
        "Понедельник"
    } else if index == 1 {
        "Вторник"
    } else if index == 2 {
        "Среда"
    } else if index == 3 {
        "Четверг"
    } else if index == 4 {
        "Пятница"
    } else if index == 5 {
        "Суббота"
    } else {
        "Воскресенье"
    }
}

impl Lesson {
    /// The lesson's line.
    pub fn render(&self) -> (out: String)
        ensures
            out@ == lesson_line(self@),
    {
        let mut out = String::new();
        out.append("<code>");
        out.append(self.time_extended.as_str());
        out.append("</code> ");
        out.append(self.subject.as_str());
        out.append(" (");
        out.append(self.lesson_type.as_str());
        out.append(") | ");
        out.append(self.teacher.as_str());
        assert(out@ =~= lesson_line(self@));
        out
    }
}

impl Day {
    /// The day's lessons, one per line.
    pub fn render(&self) -> (out: String)
        ensures
            out@ == day_text(self@),
    {
        let mut out = String::new();
        let mut i: usize = 0;
        assert(self@.take(0) =~= Seq::<LessonView>::empty());
        while i < self.lessons.len()
            invariant
                i <= self.lessons.len(),
                out@ == day_text(self@.take(i as int)),
            decreases self.lessons.len() - i,
        {
            let ghost before = self@.take(i as int);
            let ghost after = self@.take(i as int + 1);
            assert(after.drop_last() =~= before);
            assert(after.last() == self.lessons@[i as int]@);
            if i > 0 {
                out.push('\n');
            }
            let line = self.lessons[i].render();
            out.append(line.as_str());
            assert(out@ =~= day_text(after)) by {
                if i > 0 {
                    assert(before.len() >= 1);
                    assert(day_text(before).push('\n') =~= day_text(before) + seq!['\n']);
                } else {
                    assert(after.len() == 1);
                    assert(after[0] == after.last());
                }
            }
            i += 1;
        }
        assert(self@.take(self.lessons.len() as int) =~= self@);
        out
    }
}

impl Day {
    /// The day's lessons, each on a line that a line feed ends.
    pub fn render_lines(&self) -> (out: String)
        ensures
            out@ == day_lines(self@),
    {
        let mut out = String::new();
        let mut i: usize = 0;
        assert(self@.take(0) =~= Seq::<LessonView>::empty());
        while i < self.lessons.len()
            invariant
                i <= self.lessons.len(),
                out@ == day_lines(self@.take(i as int)),
            decreases self.lessons.len() - i,
        {
            let ghost before = self@.take(i as int);
            let ghost after = self@.take(i as int + 1);
            assert(after.drop_last() =~= before);
            assert(after.last() == self.lessons@[i as int]@);
            let line = self.lessons[i].render();
            out.append(line.as_str());
            out.push('\n');
            assert(out@ =~= day_lines(after));
            i += 1;
        }
        assert(self@.take(self.lessons.len() as int) =~= self@);
        out
    }
}

impl Week {
    /// The week's populated days, each under its weekday's name.
    pub fn render(&self) -> (out: String)
        requires
            self@.len() <= 7,
        ensures
            out@ == week_text(self@),
    {
        let mut out = String::new();
        let mut i: usize = 0;
        assert(self@.take(0) =~= Seq::<Option<DayView>>::empty());
        while i < self.days.len()
            invariant
                i <= self.days.len(),
                out@ == week_text(self@.take(i as int)),
            decreases self.days.len() - i,
        {
            let ghost before = self@.take(i as int);
            let ghost after = self@.take(i as int + 1);
            assert(after.drop_last() =~= before);
            match &self.days[i] {
                Some(day) => {
                    assert(after.last() == Some(day@));
                    out.append(weekday(i));
                    out.append(":\n");
                    let block = day.render_lines();
                    out.append(block.as_str());
                    out.push('\n');
                    assert(out@ =~= week_text(after));
                },
                None => {
                    assert(after.last() == None::<DayView>);
                    assert(out@ =~= week_text(after));
                },
            }
            i += 1;
        }
        assert(self@.take(self.days.len() as int) =~= self@);
        out
    }
}

impl Schedule {
    /// The active week's number, then both weeks.
    pub fn render(&self) -> (out: String)
        requires
            forall|w: int| 0 <= w < self@.weeks.len() ==> (#[trigger] self@.weeks[w]).len() <= 7,
        ensures
            out@ == schedule_text(self@),
    {
        let mut out = String::new();
        out.append("Текущая неделя: ");
        push_decimal(&mut out, self.current_week);
        out.push('\n');
        let ghost head = out@;
        assert(head =~= "Текущая неделя: "@ + decimal(self@.current_week) + seq!['\n']);
        let mut i: usize = 0;
        while i < self.weeks.len()
            invariant
                i <= self.weeks.len(),
                out@ == head + weeks_text(self@.weeks, i as nat),
                forall|w: int|
                    0 <= w < self@.weeks.len() ==> (#[trigger] self@.weeks[w]).len() <= 7,
            decreases self.weeks.len() - i,
        {
            assert(self@.weeks[i as int] == self.weeks@[i as int]@);
            out.append("Неделя ");
            push_decimal(&mut out, i + 1);
            out.append(":\n");
            let block = self.weeks[i].render();
            out.append(block.as_str());
            assert(out@ =~= head + weeks_text(self@.weeks, (i + 1) as nat));
            i += 1;
        }
        out
    }
}

} // verus!
