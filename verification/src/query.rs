//! Answers to what users type: the groups that a query names, and the
//! messages that show a group's timetable.

use vstd::prelude::*;
use crate::render::{day_lines, week_text};
use crate::schedule::{Schedule, ScheduleView};
use crate::text::to_chars;
use crate::utils::cyrillic::{cyrillic_text, ToCyrillic};

verus! {

/// `s` in upper case, as Unicode maps it without regard to a locale.
pub uninterp spec fn uppercase(s: Seq<char>) -> Seq<char>;

/// `str::to_uppercase` returns the upper-case equivalent of the text, which
/// depends on the text alone.
pub assume_specification[ str::to_uppercase ](s: &str) -> (upper: String)
    ensures
        upper@ == uppercase(s@),
;

/// Whether `needle` stands somewhere in `haystack` as a run of adjacent
/// characters.
pub open spec fn occurs_in(needle: Seq<char>, haystack: Seq<char>) -> bool {
    exists|at: int|
        0 <= at <= haystack.len() - needle.len() && #[trigger] haystack.subrange(
            at,
            at + needle.len(),
        ) == needle
}

/// The form in which a query is held against group keys: upper case, with
/// Latin look-alikes read as Cyrillic.
pub open spec fn normalized(query: Seq<char>) -> Seq<char> {
    cyrillic_text(uppercase(query))
}

/// Whether a group whose key in upper case is `upper_key` answers the
/// normalized query `wanted`: an empty query is answered by every group,
/// another by the groups whose key holds it in upper case.
pub open spec fn holds(upper_key: Seq<char>, wanted: Seq<char>) -> bool {
    wanted.len() == 0 || occurs_in(wanted, upper_key)
}

/// Those of the first `count` keys whose upper-case form, which stands at
/// the same place in `upper_keys`, answers `wanted`; in the keys' order.
pub open spec fn holding_among(
    keys: Seq<Seq<char>>,
    upper_keys: Seq<Seq<char>>,
    wanted: Seq<char>,
    count: nat,
) -> Seq<Seq<char>>
    decreases count,
{
    if count == 0 {
        Seq::empty()
    } else if holds(upper_keys[count - 1], wanted) {
        holding_among(keys, upper_keys, wanted, (count - 1) as nat).push(keys[count - 1])
    } else {
        holding_among(keys, upper_keys, wanted, (count - 1) as nat)
    }
}

/// The keys whose upper-case form answers `wanted`, in their order.
pub open spec fn holding(keys: Seq<Seq<char>>, upper_keys: Seq<Seq<char>>, wanted: Seq<char>) -> Seq<
    Seq<char>,
> {
    holding_among(keys, upper_keys, wanted, keys.len())
}

/// The keys in upper case, each at its key's place.
pub open spec fn uppercased(keys: Seq<Seq<char>>) -> Seq<Seq<char>> {
    Seq::new(keys.len(), |i: int| uppercase(keys[i]))
}

/// The keys among `keys` that answer `wanted`, in their order.
pub open spec fn answering(keys: Seq<Seq<char>>, wanted: Seq<char>) -> Seq<Seq<char>> {
    holding(keys, uppercased(keys), wanted)
}

/// Whether `needle` occurs in `haystack`.
pub fn contains(haystack: &Vec<char>, needle: &Vec<char>) -> (found: bool)
    ensures
        found == occurs_in(needle@, haystack@),
{
    let n = haystack.len();
    let m = needle.len();
    if m > n {
        return false;
    }
    let mut at: usize = 0;
    while at <= n - m
        invariant
            m <= n,
            n == haystack.len(),
            m == needle.len(),
            at <= n - m + 1,
            forall|k: int| 0 <= k < at ==> #[trigger] haystack@.subrange(k, k + m) != needle@,
        decreases n - m + 1 - at,
    {
        let mut i: usize = 0;
        while i < m && haystack[at + i] == needle[i]
            invariant
                i <= m,
                m <= n,
                at <= n - m,
                n == haystack.len(),
                m == needle.len(),
                forall|k: int| 0 <= k < i ==> haystack@[at + k] == needle@[k],
            decreases m - i,
        {
            i += 1;
        }
        if i == m {
            assert(haystack@.subrange(at as int, at + m) =~= needle@);
            return true;
        }
        assert(haystack@.subrange(at as int, at + m)[i as int] != needle@[i as int]);
        at += 1;
    }
    false
}

/// The keys whose upper-case form holds `wanted`; `upper_keys` gives that
/// form for each key, at the key's place. Every key is kept where `wanted`
/// is empty.
pub fn groups_holding(keys: &Vec<String>, upper_keys: &Vec<String>, wanted: &Vec<char>) -> (found:
    Vec<String>)
    requires
        upper_keys.len() == keys.len(),
    ensures
        found.deep_view() == holding(keys.deep_view(), upper_keys.deep_view(), wanted@),
{
    let mut found: Vec<String> = Vec::new();
    let mut i: usize = 0;
    while i < keys.len()
        invariant
            i <= keys.len(),
            upper_keys.len() == keys.len(),
            found.deep_view() == holding_among(
                keys.deep_view(),
                upper_keys.deep_view(),
                wanted@,
                i as nat,
            ),
        decreases keys.len() - i,
    {
        let ghost before = found.deep_view();
        assert(upper_keys.deep_view()[i as int] == upper_keys@[i as int]@);
        assert(keys.deep_view()[i as int] == keys@[i as int]@);
        let upper_chars = to_chars(upper_keys[i].as_str());
        if wanted.len() == 0 || contains(&upper_chars, wanted) {
            found.push(keys[i].clone());
            assert(found.deep_view() =~= before.push(keys@[i as int]@));
        }
        i += 1;
    }
    found
}

/// The group keys that the query names.
pub fn matching_groups(keys: &Vec<String>, query: &str) -> (found: Vec<String>)
    ensures
        found.deep_view() == answering(keys.deep_view(), normalized(query@)),
{
    let wanted_text = query.to_uppercase().to_cyrillic();
    let wanted = to_chars(wanted_text.as_str());
    let mut upper_keys: Vec<String> = Vec::new();
    let mut i: usize = 0;
    while i < keys.len()
        invariant
            i <= keys.len(),
            upper_keys.len() == i,
            forall|k: int| 0 <= k < i ==> upper_keys@[k]@ == uppercase(keys@[k]@),
        decreases keys.len() - i,
    {
        upper_keys.push(keys[i].as_str().to_uppercase());
        i += 1;
    }
    assert(upper_keys.deep_view() =~= uppercased(keys.deep_view()));
    groups_holding(keys, &upper_keys, &wanted)
}

/// The message that shows today's lessons of `group`, where today's slot of
/// the active week is populated: a heading, an empty line and the day's
/// lines.
pub open spec fn today_message_text(group: Seq<char>, schedule: ScheduleView) -> Option<Seq<char>> {
    match schedule.active_week()[schedule.today_day_id as int] {
        Some(day) => Some(
            "<i>Расписание для "@ + group + " на сегодня</i>:\n\n"@ + day_lines(day),
        ),
        None => None,
    }
}

/// The message that shows the active week of `group`.
pub open spec fn week_message_text(group: Seq<char>, schedule: ScheduleView) -> Seq<char> {
    "<i>Расписание для "@ + group + "</i>:\n\n"@ + week_text(schedule.active_week())
}

/// The message with today's lessons of `group`; `None` where nothing is
/// scheduled today.
pub fn today_message(group: &str, schedule: &Schedule) -> (message: Option<String>)
    requires
        schedule@.wf(),
    ensures
        message.deep_view() == today_message_text(group@, schedule@),
{
    let week = &schedule.weeks[schedule.current_week - 1];
    assert(week@ == schedule@.active_week());
    assert(week@[schedule.today_day_id as int] == crate::schedule::slot_view(
        week.days@[schedule.today_day_id as int],
    ));
    match &week.days[schedule.today_day_id] {
        Some(day) => {
            let mut message = String::from_str("<i>Расписание для ");
            message.append(group);
            message.append(" на сегодня</i>:\n\n");
            let block = day.render_lines();
            message.append(block.as_str());
            assert(message@ =~= today_message_text(group@, schedule@)->0);
            Some(message)
        },
        None => None,
    }
}

/// The message with the active week of `group`.
pub fn week_message(group: &str, schedule: &Schedule) -> (message: String)
    requires
        schedule@.wf(),
    ensures
        message@ == week_message_text(group@, schedule@),
{
    let week = &schedule.weeks[schedule.current_week - 1];
    assert(week@ == schedule@.active_week());
    let mut message = String::from_str("<i>Расписание для ");
    message.append(group);
    message.append("</i>:\n\n");
    let block = week.render();
    message.append(block.as_str());
    assert(message@ =~= week_message_text(group@, schedule@));
    message
}

} // verus!
