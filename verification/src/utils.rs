//! Helpers for text typed by users.

pub mod cyrillic;
