//! A scheduled file-rotation uploader, as a library.
//!
//! Once per wake the scheduler decides whether the configured run hour has
//! come. On a due wake the selector picks today's file from a directory by the
//! day of the year, and the caller uploads it and may announce the upload to a
//! webhook with the payload that the notifier builds.

mod clock;
pub mod config;
pub mod notify;
pub mod schedule;
pub mod select;
pub mod transfer;
