//! Change detection between two snapshots of a schedule, for today and
//! tomorrow.

use vstd::prelude::*;
use crate::render::day_text;
use crate::schedule::{same_slot, slot_view, Day, DayView, Schedule, ScheduleView};

verus! {

/// The notice for a changed slot of today: the day's text after a lead-in, or
/// the statement that the day's schedule is gone.
pub open spec fn today_notice(slot: Option<DayView>) -> Seq<char> {
    match slot {
        Some(day) => "Изменилось расписание на сегодня: "@ + day_text(day),
        None => "Расписание на сегодня пропало..."@,
    }
}

/// The notice for a changed slot of tomorrow.
pub open spec fn tomorrow_notice(slot: Option<DayView>) -> Seq<char> {
    match slot {
        Some(day) => "Изменилось расписание на завтра: "@ + day_text(day),
        None => "Расписание на завтра пропало..."@,
    }
}

/// What a comparison of `fresh` with `previous` reports when today is slot
/// `today`: each schedule is read in its own active week. A change of today's
/// slot is reported and nothing else; failing that, a change of tomorrow's
/// slot; failing that, nothing.
pub open spec fn diff_notice(fresh: ScheduleView, previous: ScheduleView, today: int) -> Option<
    Seq<char>,
> {
    let now = fresh.active_week();
    let before = previous.active_week();
    if now[today] != before[today] {
        Some(today_notice(now[today]))
    } else if now[today + 1] != before[today + 1] {
        Some(tomorrow_notice(now[today + 1]))
    } else {
        None
    }
}

/// Where both today's and tomorrow's slot have changed, only today's change
/// is reported.
pub proof fn lemma_today_takes_precedence(fresh: ScheduleView, previous: ScheduleView, today: int)
    requires
        fresh.wf(),
        previous.wf(),
        0 <= today <= 5,
        fresh.active_week()[today] != previous.active_week()[today],
        fresh.active_week()[today + 1] != previous.active_week()[today + 1],
    ensures
        diff_notice(fresh, previous, today) == Some(today_notice(fresh.active_week()[today])),
{
}

/// A schedule compared with itself reports nothing, whatever the day.
pub proof fn lemma_no_change_against_itself(schedule: ScheduleView, today: int)
    requires
        schedule.wf(),
        0 <= today <= 5,
    ensures
        diff_notice(schedule, schedule, today) == None::<Seq<char>>,
{
}

/// Something is reported exactly when today's or tomorrow's slot has
/// changed.
pub proof fn lemma_notice_when_changed(fresh: ScheduleView, previous: ScheduleView, today: int)
    requires
        fresh.wf(),
        previous.wf(),
        0 <= today <= 5,
    ensures
        diff_notice(fresh, previous, today) is Some <==> (fresh.active_week()[today]
            != previous.active_week()[today] || fresh.active_week()[today + 1]
            != previous.active_week()[today + 1]),
{
}

fn today_text(slot: &Option<Day>) -> (out: String)
    ensures
        out@ == today_notice(slot_view(*slot)),
{
    match slot {
        Some(day) => {
            let mut out = String::new();
            out.append("Изменилось расписание на сегодня: ");
            let block = day.render();
            out.append(block.as_str());
            assert(out@ =~= today_notice(Some(day@)));
            out
        },
        None => String::from_str("Расписание на сегодня пропало..."),
    }
}

fn tomorrow_text(slot: &Option<Day>) -> (out: String)
    ensures
        out@ == tomorrow_notice(slot_view(*slot)),
{
    match slot {
        Some(day) => {
            let mut out = String::new();
            out.append("Изменилось расписание на завтра: ");
            let block = day.render();
            out.append(block.as_str());
            assert(out@ =~= tomorrow_notice(Some(day@)));
            out
        },
        None => String::from_str("Расписание на завтра пропало..."),
    }
}

impl Schedule {
    /// Compares this fresh schedule with `old_schedule` for the day
    /// `today_day_id` and the day after it.
    pub fn find_diff_at(&self, old_schedule: &Schedule, today_day_id: usize) -> (notice: Option<
        String,
    >)
        requires
            self@.wf(),
            old_schedule@.wf(),
            today_day_id <= 5,
        ensures
            notice.deep_view() == diff_notice(self@, old_schedule@, today_day_id as int),
    {
        let now = &self.weeks[self.current_week - 1];
        let before = &old_schedule.weeks[old_schedule.current_week - 1];
        assert(now@ == self@.active_week());
        assert(before@ == old_schedule@.active_week());
        let today = &now.days[today_day_id];
        assert(slot_view(*today) == now@[today_day_id as int]);
        assert(slot_view(before.days@[today_day_id as int]) == before@[today_day_id as int]);
        if !same_slot(today, &before.days[today_day_id]) {
            return Some(today_text(today));
        }
        let tomorrow = &now.days[today_day_id + 1];
        assert(slot_view(*tomorrow) == now@[today_day_id + 1]);
        assert(slot_view(before.days@[today_day_id + 1]) == before@[today_day_id + 1]);
        if !same_slot(tomorrow, &before.days[today_day_id + 1]) {
            return Some(tomorrow_text(tomorrow));
        }
        None
    }

    /// Compares this fresh schedule with `old_schedule` for the day that this
    /// schedule calls today and the day after it.
    pub fn find_diff(&self, old_schedule: &Schedule) -> (notice: Option<String>)
        requires
            self@.wf(),
            old_schedule@.wf(),
            self.today_day_id <= 5,
        ensures
            notice.deep_view() == diff_notice(self@, old_schedule@, self@.today_day_id as int),
    {
        self.find_diff_at(old_schedule, self.today_day_id)
    }
}

} // verus!
