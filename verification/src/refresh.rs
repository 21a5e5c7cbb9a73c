//! One step of a batch refresh: what to do with the page that was fetched
//! for a group. The caller fetches, pauses between groups and delivers the
//! notices.

use vstd::prelude::*;
use crate::diff::diff_notice;
use crate::parse::{parse_outcome, ParseError};
use crate::schedule::{Schedule, ScheduleView};
use crate::schedule_cache::SnapshotStore;

verus! {

/// How the refresh of one group ended.
#[derive(Debug, Clone, PartialEq, Eq, Hash)]
pub enum Refresh {
    /// The fresh snapshot was stored; `notice` is what to tell about it.
    Stored { notice: Option<String> },
    /// The page could not be fetched. The cache is as it was.
    UpstreamUnavailable,
    /// The page or the day was refused. The cache is as it was.
    Rejected(ParseError),
}

/// What a `Refresh` stands for.
pub ghost enum RefreshView {
    Stored { notice: Option<Seq<char>> },
    UpstreamUnavailable,
    Rejected(ParseError),
}

impl View for Refresh {
    type V = RefreshView;

    open spec fn view(&self) -> RefreshView {
        match self {
            Refresh::Stored { notice } => RefreshView::Stored { notice: notice.deep_view() },
            Refresh::UpstreamUnavailable => RefreshView::UpstreamUnavailable,
            Refresh::Rejected(error) => RefreshView::Rejected(*error),
        }
    }
}

/// The notice for a fresh snapshot of `group`: what the comparison with the
/// stored snapshot reports. Nothing is reported where none is stored, or
/// where the stored one is no valid schedule.
pub open spec fn notice_for(
    table: Map<Seq<char>, ScheduleView>,
    group: Seq<char>,
    fresh: ScheduleView,
    today: int,
) -> Option<Seq<char>> {
    if table.contains_key(group) && table[group].wf() {
        diff_notice(fresh, table[group], today)
    } else {
        None
    }
}

/// How the refresh of `group` ends, and the table it leaves, when `fetched`
/// is the markup that was fetched (`None` where the fetch failed) and today
/// is slot `today`. A day after Saturday is refused, as the comparison looks
/// at the day after today. The table changes only where a snapshot is
/// stored.
pub open spec fn refreshed(
    table: Map<Seq<char>, ScheduleView>,
    group: Seq<char>,
    fetched: Option<Seq<char>>,
    today: nat,
) -> (RefreshView, Map<Seq<char>, ScheduleView>) {
    if today > 5 {
        (RefreshView::Rejected(ParseError::OutOfRangeDayIndex), table)
    } else {
        match fetched {
            None => (RefreshView::UpstreamUnavailable, table),
            Some(html) => match parse_outcome(html, today) {
                Err(error) => (RefreshView::Rejected(error), table),
                Ok(fresh) => (
                    RefreshView::Stored { notice: notice_for(table, group, fresh, today as int) },
                    table.insert(group, fresh),
                ),
            },
        }
    }
}

/// Compares `fresh` with the snapshot stored for `group`, then stores it,
/// whether or not there is anything to report.
pub fn apply_snapshot(store: &mut SnapshotStore, group: &str, fresh: Schedule) -> (notice: Option<
    String,
>)
    requires
        fresh@.wf(),
        fresh@.today_day_id <= 5,
    ensures
        notice.deep_view() == notice_for(
            old(store)@,
            group@,
            fresh@,
            fresh@.today_day_id as int,
        ),
        final(store)@ == old(store)@.insert(group@, fresh@),
{
    let notice = match store.get(group) {
        Some(previous) => {
            if previous.is_valid() {
                fresh.find_diff(previous)
            } else {
                None
            }
        },
        None => None,
    };
    store.put(group, fresh);
    notice
}

/// Takes the markup that was fetched for `group`, or `None` where the fetch
/// failed, and brings the cache up to date.
pub fn refresh_group(
    store: &mut SnapshotStore,
    group: &str,
    fetched: Option<&str>,
    today_day_id: usize,
) -> (outcome: Refresh)
    ensures
        (outcome@, final(store)@) == refreshed(
            old(store)@,
            group@,
            fetched.deep_view(),
            today_day_id as nat,
        ),
{
    if today_day_id > 5 {
        return Refresh::Rejected(ParseError::OutOfRangeDayIndex);
    }
    match fetched {
        None => Refresh::UpstreamUnavailable,
        Some(html) => match Schedule::parse(html, today_day_id) {
            Err(error) => Refresh::Rejected(error),
            Ok(fresh) => {
                proof {
                    crate::parse::lemma_parse_outcome_wf(html@, today_day_id as nat);
                }
                let notice = apply_snapshot(store, group, fresh);
                Refresh::Stored { notice }
            },
        },
    }
}

/// A refresh that stores nothing leaves the cache as it was, and one that
/// stores a snapshot leaves every other group's snapshot as it was.
pub proof fn lemma_refresh_touches_one_key(
    table: Map<Seq<char>, ScheduleView>,
    group: Seq<char>,
    fetched: Option<Seq<char>>,
    today: nat,
    other: Seq<char>,
)
    requires
        other != group,
    ensures
        !(refreshed(table, group, fetched, today).0 is Stored) ==> refreshed(
            table,
            group,
            fetched,
            today,
        ).1 == table,
        refreshed(table, group, fetched, today).1.contains_key(other) == table.contains_key(other),
        table.contains_key(other) ==> refreshed(table, group, fetched, today).1[other]
            == table[other],
{
}

} // verus!
