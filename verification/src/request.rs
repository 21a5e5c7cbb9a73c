//! Where the timetable of a group is requested.

use vstd::prelude::*;
use crate::text::{from_chars, replace_char, replace_each, to_chars};

verus! {

/// The path fragment for a group key: every dot becomes a slash, so that the
/// subgroup number follows the group code as a path segment.
pub open spec fn path_of(group_key: Seq<char>) -> Seq<char> {
    replace_char(group_key, '.', '/')
}

/// The address of the timetable page of a group.
pub open spec fn schedule_address(group_key: Seq<char>) -> Seq<char> {
    "https://rasps.nsuem.ru/group/"@ + path_of(group_key)
}

/// The path fragment under which the page of a group key is requested.
pub fn request_path(group_key: &str) -> (path: String)
    ensures
        path@ == path_of(group_key@),
{
    let chars = to_chars(group_key);
    let replaced = replace_each(&chars, '.', '/');
    from_chars(&replaced)
}

/// The address at which the timetable page of a group is requested.
pub fn schedule_url(group_key: &str) -> (url: String)
    ensures
        url@ == schedule_address(group_key@),
{
    let mut url = String::from_str("https://rasps.nsuem.ru/group/");
    let path = request_path(group_key);
    url.append(path.as_str());
    url
}

} // verus!
