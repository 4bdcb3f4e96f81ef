//! A backup engine for game servers. Jobs say what to save, where to, and how often; a
//! scheduler runs one due job at a time; each run builds a compressed archive, clears away
//! the archives that are older than the job keeps them, and once a month the oldest
//! archives move to a shared place.
//!
//! The library decides and computes; it touches neither disk nor network. Whoever drives
//! it lists directories, reads and writes files, and hands the library what was found.

pub mod app_data;
pub mod archive;
pub mod backup;
pub mod clock;
pub mod commit;
pub mod config;
pub mod job;
pub mod map;
pub mod monthly;
pub mod plugins;
pub mod retention;
pub mod rotation;
pub mod scheduler;
pub mod text;
pub mod update;
pub mod validation;
