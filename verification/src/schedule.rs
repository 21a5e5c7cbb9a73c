//! The timetable grid: lessons, days, weeks and the two-week schedule, with
//! their mathematical views and structural equality.

use vstd::prelude::*;

verus! {

/// One class: its clock range in short and long form, the subject, the kind
/// of class and the teacher. A field that the source lacks is the empty text.
#[derive(Debug, Default, Clone, PartialEq, Eq, Hash)]
pub struct Lesson {
    pub time: String,
    pub time_extended: String,
    pub subject: String,
    pub lesson_type: String,
    pub teacher: String,
}

/// What a `Lesson` stands for: its five texts.
pub ghost struct LessonView {
    pub time: Seq<char>,
    pub time_extended: Seq<char>,
    pub subject: Seq<char>,
    pub lesson_type: Seq<char>,
    pub teacher: Seq<char>,
}

impl View for Lesson {
    type V = LessonView;

    open spec fn view(&self) -> LessonView {
        LessonView {
            time: self.time@,
            time_extended: self.time_extended@,
            subject: self.subject@,
            lesson_type: self.lesson_type@,
            teacher: self.teacher@,
        }
    }
}

/// The lessons of one day, in the order of the source's rows.
#[derive(Debug, Default, Clone, PartialEq, Eq, Hash)]
pub struct Day {
    pub lessons: Vec<Lesson>,
}

/// What a `Day` stands for: the sequence of its lessons.
pub type DayView = Seq<LessonView>;

impl View for Day {
    type V = DayView;

    open spec fn view(&self) -> DayView {
        Seq::new(self.lessons@.len(), |i: int| self.lessons@[i]@)
    }
}

/// What a day slot stands for: nothing, or a day.
pub open spec fn slot_view(slot: Option<Day>) -> Option<DayView> {
    match slot {
        Some(day) => Some(day@),
        None => None,
    }
}

/// Seven day slots, Monday first; a slot is empty or holds a `Day`.
#[derive(Debug, Default, Clone, PartialEq, Eq, Hash)]
pub struct Week {
    pub days: Vec<Option<Day>>,
}

/// What a `Week` stands for: the sequence of its slots.
pub type WeekView = Seq<Option<DayView>>;

impl View for Week {
    type V = WeekView;

    open spec fn view(&self) -> WeekView {
        Seq::new(self.days@.len(), |i: int| slot_view(self.days@[i]))
    }
}

/// The two weeks of a biweekly rotation, the number of the week that is
/// active (1 or 2) and the slot that is today (0 to 6).
#[derive(Debug, Default, Clone, PartialEq, Eq, Hash)]
pub struct Schedule {
    pub weeks: Vec<Week>,
    pub current_week: usize,
    pub today_day_id: usize,
}

/// What a `Schedule` stands for.
pub ghost struct ScheduleView {
    pub weeks: Seq<WeekView>,
    pub current_week: nat,
    pub today_day_id: nat,
}

impl ScheduleView {
    /// The grid is two weeks of seven slots, the active week is 1 or 2 and
    /// today is one of the seven slots.
    pub open spec fn wf(self) -> bool {
        &&& self.weeks.len() == 2
        &&& forall|w: int| 0 <= w < 2 ==> (#[trigger] self.weeks[w]).len() == 7
        &&& 1 <= self.current_week <= 2
        &&& self.today_day_id <= 6
    }

    /// The slots of the active week.
    pub open spec fn active_week(self) -> WeekView
        recommends
            self.wf(),
    {
        self.weeks[self.current_week - 1]
    }
}

impl View for Schedule {
    type V = ScheduleView;

    open spec fn view(&self) -> ScheduleView {
        ScheduleView {
            weeks: Seq::new(self.weeks@.len(), |i: int| self.weeks@[i]@),
            current_week: self.current_week as nat,
            today_day_id: self.today_day_id as nat,
        }
    }
}

impl Lesson {
    /// A copy with the same texts.
    pub fn duplicate(&self) -> (copy: Lesson)
        ensures
            copy@ == self@,
    {
        Lesson {
            time: self.time.clone(),
            time_extended: self.time_extended.clone(),
            subject: self.subject.clone(),
            lesson_type: self.lesson_type.clone(),
            teacher: self.teacher.clone(),
        }
    }

    /// Structural equality: the five texts agree.
    pub fn same(&self, other: &Lesson) -> (b: bool)
        ensures
            b == (self@ == other@),
    {
        self.time == other.time && self.time_extended == other.time_extended && self.subject
            == other.subject && self.lesson_type == other.lesson_type && self.teacher
            == other.teacher
    }
}

impl Day {
    /// A copy with the same lessons.
    pub fn duplicate(&self) -> (copy: Day)
        ensures
            copy@ == self@,
    {
        let mut lessons: Vec<Lesson> = Vec::new();
        let mut i: usize = 0;
        while i < self.lessons.len()
            invariant
                i <= self.lessons.len(),
                lessons.len() == i,
                forall|k: int| 0 <= k < i ==> lessons@[k]@ == self.lessons@[k]@,
            decreases self.lessons.len() - i,
        {
            lessons.push(self.lessons[i].duplicate());
            i += 1;
        }
        let copy = Day { lessons };
        assert(copy@ =~= self@);
        copy
    }

    /// Structural equality: the same lessons in the same order.
    pub fn same(&self, other: &Day) -> (b: bool)
        ensures
            b == (self@ == other@),
    {
        if self.lessons.len() != other.lessons.len() {
            assert(self@.len() != other@.len());
            return false;
        }
        let mut i: usize = 0;
        while i < self.lessons.len()
            invariant
                i <= self.lessons.len(),
                self.lessons.len() == other.lessons.len(),
                forall|k: int| 0 <= k < i ==> self@[k] == other@[k],
            decreases self.lessons.len() - i,
        {
            if !self.lessons[i].same(&other.lessons[i]) {
                assert(self@[i as int] != other@[i as int]);
                return false;
            }
            i += 1;
        }
        assert(self@ =~= other@);
        true
    }
}

/// A copy of a day slot.
pub fn duplicate_slot(slot: &Option<Day>) -> (copy: Option<Day>)
    ensures
        slot_view(copy) == slot_view(*slot),
{
    match slot {
        Some(day) => Some(day.duplicate()),
        None => None,
    }
}

/// Structural equality of two day slots: both empty, or both days and equal.
pub fn same_slot(a: &Option<Day>, b: &Option<Day>) -> (same: bool)
    ensures
        same == (slot_view(*a) == slot_view(*b)),
{
    match (a, b) {
        (Some(x), Some(y)) => x.same(y),
        (None, None) => true,
        _ => false,
    }
}

impl Week {
    /// A copy with the same slots.
    pub fn duplicate(&self) -> (copy: Week)
        ensures
            copy@ == self@,
    {
        let mut days: Vec<Option<Day>> = Vec::new();
        let mut i: usize = 0;
        while i < self.days.len()
            invariant
                i <= self.days.len(),
                days.len() == i,
                forall|k: int| 0 <= k < i ==> slot_view(days@[k]) == slot_view(self.days@[k]),
            decreases self.days.len() - i,
        {
            days.push(duplicate_slot(&self.days[i]));
            i += 1;
        }
        let copy = Week { days };
        assert(copy@ =~= self@);
        copy
    }

    /// Structural equality: the same slots in the same order.
    pub fn same(&self, other: &Week) -> (b: bool)
        ensures
            b == (self@ == other@),
    {
        if self.days.len() != other.days.len() {
            assert(self@.len() != other@.len());
            return false;
        }
        let mut i: usize = 0;
        while i < self.days.len()
            invariant
                i <= self.days.len(),
                self.days.len() == other.days.len(),
                forall|k: int| 0 <= k < i ==> self@[k] == other@[k],
            decreases self.days.len() - i,
        {
            if !same_slot(&self.days[i], &other.days[i]) {
                assert(self@[i as int] != other@[i as int]);
                return false;
            }
            i += 1;
        }
        assert(self@ =~= other@);
        true
    }
}

impl Schedule {
    /// A copy with the same grid, active week and day.
    pub fn duplicate(&self) -> (copy: Schedule)
        ensures
            copy@ == self@,
    {
        let mut weeks: Vec<Week> = Vec::new();
        let mut i: usize = 0;
        while i < self.weeks.len()
            invariant
                i <= self.weeks.len(),
                weeks.len() == i,
                forall|k: int| 0 <= k < i ==> weeks@[k]@ == self.weeks@[k]@,
            decreases self.weeks.len() - i,
        {
            weeks.push(self.weeks[i].duplicate());
            i += 1;
        }
        let copy = Schedule {
            weeks,
            current_week: self.current_week,
            today_day_id: self.today_day_id,
        };
        assert(copy@.weeks =~= self@.weeks);
        copy
    }

    /// Whether the schedule has two weeks of seven slots, an active week of
    /// 1 or 2 and today among the seven slots.
    pub fn is_valid(&self) -> (valid: bool)
        ensures
            valid == self@.wf(),
    {
        if self.weeks.len() != 2 || self.current_week < 1 || self.current_week > 2
            || self.today_day_id > 6 {
            return false;
        }
        assert(self@.weeks[0] == self.weeks@[0]@);
        assert(self@.weeks[1] == self.weeks@[1]@);
        self.weeks[0].days.len() == 7 && self.weeks[1].days.len() == 7
    }

    /// Structural equality: the same grid, active week and day.
    pub fn same(&self, other: &Schedule) -> (b: bool)
        ensures
            b == (self@ == other@),
    {
        if self.current_week != other.current_week || self.today_day_id != other.today_day_id
            || self.weeks.len() != other.weeks.len() {
            assert(self@.weeks.len() == self.weeks@.len());
            assert(other@.weeks.len() == other.weeks@.len());
            return false;
        }
        let mut i: usize = 0;
        while i < self.weeks.len()
            invariant
                i <= self.weeks.len(),
                self.weeks.len() == other.weeks.len(),
                forall|k: int| 0 <= k < i ==> self@.weeks[k] == other@.weeks[k],
            decreases self.weeks.len() - i,
        {
            if !self.weeks[i].same(&other.weeks[i]) {
                assert(self@.weeks[i as int] != other@.weeks[i as int]);
                return false;
            }
            i += 1;
        }
        assert(self@.weeks =~= other@.weeks);
        true
    }
}

} // verus!
