//! Activity and system monitoring ("track your day"): the records the watchers
//! produce, the in-memory log they are kept in, the questions the dashboard asks
//! of it, and the integer side of every hardware reading.

pub mod activity;
pub mod cpu;
pub mod dashboard;
pub mod disk;
pub mod keyboard;
pub mod query;
pub mod smbios;
pub mod store;
pub mod watcher;
