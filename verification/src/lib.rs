//! Two-week class timetables: extraction from a timetable page, change
//! detection between snapshots, and a keyed snapshot cache.

pub mod diff;
pub mod lists;
pub mod page;
pub mod parse;
pub mod query;
pub mod refresh;
pub mod render;
pub mod request;
pub mod schedule;
pub mod schedule_cache;
pub mod scrape;
pub mod text;
pub mod utils;

pub use lists::groups::{GroupsList, GroupsListItem};
pub use page::{Cell, Page, Row};
pub use parse::{ParseError, WeekMarker};
pub use refresh::Refresh;
pub use schedule::{Day, Lesson, Schedule, Week};
pub use schedule_cache::{ScheduleCache, SnapshotStore};
pub use utils::cyrillic::ToCyrillic;
