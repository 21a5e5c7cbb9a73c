//! The snapshot cache: the latest schedule of each group, by group key.

use vstd::prelude::*;
use crate::schedule::{Schedule, ScheduleView};

verus! {

/// The table that a sequence of writes leaves: a later write replaces an
/// earlier one for the same key.
pub open spec fn table_of(writes: Seq<(Seq<char>, ScheduleView)>) -> Map<Seq<char>, ScheduleView>
    decreases writes.len(),
{
    if writes.len() == 0 {
        Map::empty()
    } else {
        table_of(writes.drop_last()).insert(writes.last().0, writes.last().1)
    }
}

/// A key that no write after position `from` names is in the table with the
/// value of the write at `from`, if that write names it.
proof fn lemma_last_write_wins(writes: Seq<(Seq<char>, ScheduleView)>, from: int, key: Seq<char>)
    requires
        0 <= from < writes.len(),
        writes[from].0 == key,
        forall|j: int| from < j < writes.len() ==> writes[j].0 != key,
    ensures
        table_of(writes).contains_key(key),
        table_of(writes)[key] == writes[from].1,
    decreases writes.len(),
{
    if from < writes.len() - 1 {
        lemma_last_write_wins(writes.drop_last(), from, key);
    }
}

/// A key that no write names is not in the table.
proof fn lemma_never_written(writes: Seq<(Seq<char>, ScheduleView)>, key: Seq<char>)
    requires
        forall|j: int| 0 <= j < writes.len() ==> writes[j].0 != key,
    ensures
        !table_of(writes).contains_key(key),
    decreases writes.len(),
{
    if writes.len() > 0 {
        lemma_never_written(writes.drop_last(), key);
    }
}

/// Replacing the value of the last write that names `key` is writing `key`
/// anew.
proof fn lemma_replace_last_write(
    writes: Seq<(Seq<char>, ScheduleView)>,
    at: int,
    key: Seq<char>,
    value: ScheduleView,
)
    requires
        0 <= at < writes.len(),
        writes[at].0 == key,
        forall|j: int| at < j < writes.len() ==> writes[j].0 != key,
    ensures
        table_of(writes.update(at, (key, value))) == table_of(writes).insert(key, value),
    decreases writes.len(),
{
    let replaced = writes.update(at, (key, value));
    if at == writes.len() - 1 {
        assert(replaced.drop_last() =~= writes.drop_last());
        assert(table_of(replaced) =~= table_of(writes).insert(key, value));
    } else {
        lemma_replace_last_write(writes.drop_last(), at, key, value);
        assert(replaced.drop_last() =~= writes.drop_last().update(at, (key, value)));
        assert(replaced.last() == writes.last());
        assert(table_of(replaced) =~= table_of(writes).insert(key, value));
    }
}

/// What is left of `table` when only the keys among `keys` are kept.
pub open spec fn carried(table: Map<Seq<char>, ScheduleView>, keys: Seq<Seq<char>>) -> Map<
    Seq<char>,
    ScheduleView,
> {
    Map::new(
        |key: Seq<char>| table.contains_key(key) && keys.contains(key),
        |key: Seq<char>| table[key],
    )
}

/// An in-memory snapshot cache. It keeps its writes in a list, one for each
/// key, from which the table it stands for is read off.
#[derive(Debug, Default, Clone)]
pub struct SnapshotStore {
    entries: Vec<(String, Schedule)>,
}

impl SnapshotStore {
    /// The writes that the store keeps, oldest first.
    pub closed spec fn writes(&self) -> Seq<(Seq<char>, ScheduleView)> {
        Seq::new(self.entries@.len(), |i: int| (self.entries@[i].0@, self.entries@[i].1@))
    }
}

impl View for SnapshotStore {
    type V = Map<Seq<char>, ScheduleView>;

    closed spec fn view(&self) -> Map<Seq<char>, ScheduleView> {
        table_of(self.writes())
    }
}

impl SnapshotStore {
    /// A store without snapshots.
    pub fn new() -> (store: SnapshotStore)
        ensures
            store@ == Map::<Seq<char>, ScheduleView>::empty(),
    {
        let store = SnapshotStore { entries: Vec::new() };
        assert(store.writes() =~= Seq::empty());
        store
    }

    /// The position of the last write that names `key`.
    fn position(&self, key: &String) -> (at: Option<usize>)
        ensures
            match at {
                Some(i) => i < self.entries@.len() && self.entries@[i as int].0@ == key@ && forall|
                    j: int,
                | i < j < self.entries@.len() ==> self.entries@[j].0@ != key@,
                None => forall|j: int| 0 <= j < self.entries@.len() ==> self.entries@[j].0@ != key@,
            },
    {
        let mut i: usize = self.entries.len();
        while i > 0
            invariant
                i <= self.entries@.len(),
                forall|j: int| i <= j < self.entries@.len() ==> self.entries@[j].0@ != key@,
            decreases i,
        {
            i -= 1;
            if self.entries[i].0 == *key {
                return Some(i);
            }
        }
        None
    }

    /// The snapshot stored under `key`, if there is one.
    pub fn get(&self, key: &str) -> (found: Option<&Schedule>)
        ensures
            match found {
                Some(schedule) => self@.contains_key(key@) && self@[key@] == schedule@,
                None => !self@.contains_key(key@),
            },
    {
        let owned = String::from_str(key);
        match self.position(&owned) {
            Some(i) => {
                proof {
                    lemma_last_write_wins(self.writes(), i as int, key@);
                }
                Some(&self.entries[i].1)
            },
            None => {
                proof {
                    lemma_never_written(self.writes(), key@);
                }
                None
            },
        }
    }

    /// The snapshots of this store whose key is among `keys`, in a store of
    /// their own.
    pub fn carried_over(&self, keys: &Vec<String>) -> (kept: SnapshotStore)
        ensures
            kept@ == carried(self@, keys.deep_view()),
    {
        let mut kept = SnapshotStore::new();
        let mut i: usize = 0;
        assert(kept@ =~= carried(self@, keys.deep_view().take(0)));
        while i < keys.len()
            invariant
                i <= keys.len(),
                kept@ == carried(self@, keys.deep_view().take(i as int)),
            decreases keys.len() - i,
        {
            let ghost before = keys.deep_view().take(i as int);
            let ghost after = keys.deep_view().take(i as int + 1);
            let key = keys[i].as_str();
            assert(after =~= before.push(key@));
            assert forall|k: Seq<char>| after.contains(k) <==> before.contains(k) || k == key@ by {
                if before.contains(k) {
                    let at = choose|at: int| 0 <= at < before.len() && before[at] == k;
                    assert(after[at] == k);
                }
                if k == key@ {
                    assert(after[i as int] == k);
                }
            }
            match self.get(key) {
                Some(schedule) => {
                    kept.put(key, schedule.duplicate());
                },
                None => {},
            }
            assert(kept@ =~= carried(self@, after));
            i += 1;
        }
        assert(keys.deep_view().take(keys.len() as int) =~= keys.deep_view());
        kept
    }

    /// Stores `schedule` under `key`, in place of what was stored there.
    pub fn put(&mut self, key: &str, schedule: Schedule)
        ensures
            final(self)@ == old(self)@.insert(key@, schedule@),
    {
        let owned = String::from_str(key);
        let ghost before = self.writes();
        match self.position(&owned) {
            Some(i) => {
                self.entries[i] = (owned, schedule);
                proof {
                    assert(self.writes() =~= before.update(i as int, (key@, schedule@)));
                    lemma_replace_last_write(before, i as int, key@, schedule@);
                }
            },
            None => {
                self.entries.push((owned, schedule));
                proof {
                    assert(self.writes().drop_last() =~= before);
                    assert(self.writes().last() == (key@, schedule@));
                }
            },
        }
    }
}

/// Reading and writing a snapshot through the store.
pub trait ScheduleCache: Sized + View<V = ScheduleView> {
    /// The snapshot of `group`, if the store has one.
    fn fetch_cached(group: &str, store: &SnapshotStore) -> (found: Option<Self>)
        ensures
            match found {
                Some(schedule) => store@.contains_key(group@) && store@[group@] == schedule@,
                None => !store@.contains_key(group@),
            },
    ;

    /// Stores this snapshot as that of `group`, in place of what was stored
    /// there.
    fn write_to_cache(&self, group: &str, store: &mut SnapshotStore)
        ensures
            final(store)@ == old(store)@.insert(group@, self@),
    ;
}

impl ScheduleCache for Schedule {
    fn fetch_cached(group: &str, store: &SnapshotStore) -> (found: Option<Schedule>) {
        match store.get(group) {
            Some(schedule) => Some(schedule.duplicate()),
            None => None,
        }
    }

    fn write_to_cache(&self, group: &str, store: &mut SnapshotStore) {
        store.put(group, self.duplicate());
    }
}

/// What is read after a write is what was written.
pub proof fn lemma_get_after_put(
    table: Map<Seq<char>, ScheduleView>,
    key: Seq<char>,
    schedule: ScheduleView,
)
    ensures
        table.insert(key, schedule).contains_key(key),
        table.insert(key, schedule)[key] == schedule,
{
}

/// A later write replaces an earlier one for the same key whole, and a write
/// leaves every other key as it was.
pub proof fn lemma_put_replaces(
    table: Map<Seq<char>, ScheduleView>,
    key: Seq<char>,
    earlier: ScheduleView,
    later: ScheduleView,
    other: Seq<char>,
)
    requires
        other != key,
    ensures
        table.insert(key, earlier).insert(key, later) == table.insert(key, later),
        table.insert(key, later).contains_key(other) == table.contains_key(other),
        table.contains_key(other) ==> table.insert(key, later)[other] == table[other],
{
    assert(table.insert(key, earlier).insert(key, later) =~= table.insert(key, later));
}

} // verus!
