//! Lists that the timetable source publishes.

pub mod groups;
