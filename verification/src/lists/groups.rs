//! The list of groups, and the keys of their subgroups.

use vstd::prelude::*;
use crate::text::{decimal, push_decimal};

verus! {

/// One group of the list: its name and the name of its faculty.
#[derive(Debug, Default, Clone, PartialEq, Eq, Hash)]
pub struct GroupsListItem {
    pub group_name: String,
    pub faculty_name: String,
}

/// The list of groups as the source publishes it.
#[derive(Debug, Default, Clone, PartialEq, Eq, Hash)]
pub struct GroupsList {
    pub data: Vec<GroupsListItem>,
    pub success: bool,
}

/// The key of subgroup `number` of `group`: the group's name, a dot and the
/// number.
pub open spec fn subgroup_key(group: Seq<char>, number: nat) -> Seq<char> {
    group + seq!['.'] + decimal(number)
}

/// The keys of subgroups 1 to 3 of every group, group by group.
pub open spec fn subgroup_keys(groups: Seq<Seq<char>>) -> Seq<Seq<char>> {
    Seq::new(groups.len() * 3, |i: int| subgroup_key(groups[i / 3], (i % 3 + 1) as nat))
}

impl GroupsList {
    /// The names of the groups, in the order of the list.
    pub fn group_names(&self) -> (names: Vec<String>)
        ensures
            names.deep_view() == Seq::new(self.data@.len(), |i: int| self.data@[i].group_name@),
    {
        let mut names: Vec<String> = Vec::new();
        let mut i: usize = 0;
        while i < self.data.len()
            invariant
                i <= self.data.len(),
                names.len() == i,
                forall|k: int| 0 <= k < i ==> names@[k]@ == self.data@[k].group_name@,
            decreases self.data.len() - i,
        {
            names.push(self.data[i].group_name.clone());
            i += 1;
        }
        assert(names.deep_view() =~= Seq::new(
            self.data@.len(),
            |i: int| self.data@[i].group_name@,
        ));
        names
    }
}

/// The key of one subgroup.
pub fn key_of(group: &str, number: usize) -> (key: String)
    ensures
        key@ == subgroup_key(group@, number as nat),
{
    let mut key = String::from_str(group);
    key.push('.');
    push_decimal(&mut key, number);
    assert(key@ =~= subgroup_key(group@, number as nat));
    key
}

/// The keys of the three subgroups of every group, in the order of `groups`.
pub fn with_subgroups(groups: &Vec<String>) -> (keys: Vec<String>)
    ensures
        keys.deep_view() == subgroup_keys(groups.deep_view()),
{
    let mut keys: Vec<String> = Vec::new();
    let mut i: usize = 0;
    while i < groups.len()
        invariant
            i <= groups.len(),
            keys.len() == i * 3,
            forall|k: int|
                0 <= k < i * 3 ==> keys@[k]@ == subgroup_key(
                    groups@[k / 3]@,
                    (k % 3 + 1) as nat,
                ),
        decreases groups.len() - i,
    {
        let group = groups[i].as_str();
        keys.push(key_of(group, 1));
        keys.push(key_of(group, 2));
        keys.push(key_of(group, 3));
        i += 1;
    }
    assert(keys.deep_view() =~= subgroup_keys(groups.deep_view()));
    keys
}

} // verus!
