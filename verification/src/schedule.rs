//! The scheduler: whether a wake is due, what to do then, and how long to
//! sleep afterwards.

use crate::clock::local_hour;
use crate::config::{RunConfig, ALWAYS_DUE};
use crate::select::{get_next_file, glob_accepts, glob_escaped, listing_pattern, Selection};
use vstd::prelude::*;

verus! {

/// The sleep after a due cycle, in seconds: 24 hours.
pub const POST_RUN_SLEEP_SECS: u64 = 86400;

/// The sleep after a wake that was not due, in seconds: 30 minutes.
pub const IDLE_SLEEP_SECS: u64 = 1800;

/// A wake at local hour `hour` is due when that is the run hour, or when the
/// run hour is "always due".
pub open spec fn due(run_hour: u32, hour: u32) -> bool {
    hour == run_hour || run_hour == ALWAYS_DUE
}

/// The sleep that follows a wake, in seconds.
pub open spec fn sleep_after(due: bool) -> u64 {
    if due {
        POST_RUN_SLEEP_SECS
    } else {
        IDLE_SLEEP_SECS
    }
}

/// What one wake of the scheduler leads to.
#[derive(Debug, PartialEq, Eq)]
pub struct CyclePlan {
    /// The local hour at the wake.
    pub hour: u32,
    /// Whether the wake was due.
    pub due: bool,
    /// The file to upload before sleeping, if there is one.
    pub upload: Option<Selection>,
    /// The sleep that ends the cycle, in seconds, whatever becomes of the
    /// upload and of its notification.
    pub sleep_secs: u64,
}

impl CyclePlan {
    /// This plan is the one for a wake at `hour` under `run_hour`, where
    /// `selection` is what the selector yields on a due wake.
    pub open spec fn follows(
        &self,
        run_hour: u32,
        hour: u32,
        selection: Option<Selection>,
    ) -> bool {
        &&& self.hour == hour
        &&& self.due == due(run_hour, hour)
        &&& self.upload == if self.due {
            selection
        } else {
            None
        }
        &&& self.sleep_secs == sleep_after(self.due)
    }
}

/// Tells whether a wake at local hour `current_hour` is due.
pub fn is_due(run_hour: u32, current_hour: u32) -> (r: bool)
    ensures
        r == due(run_hour, current_hour),
{
    current_hour == run_hour || run_hour == ALWAYS_DUE
}

/// Plans the cycle for a wake at local hour `hour`. On a due wake the
/// selector's file, if any, is uploaded and the sleep is 24 hours; otherwise
/// nothing is uploaded and the sleep is 30 minutes.
pub fn plan(run_hour: u32, hour: u32, selection: Option<Selection>) -> (p: CyclePlan)
    ensures
        p.follows(run_hour, hour, selection),
{
    if is_due(run_hour, hour) {
        CyclePlan { hour, due: true, upload: selection, sleep_secs: POST_RUN_SLEEP_SECS }
    } else {
        CyclePlan { hour, due: false, upload: None, sleep_secs: IDLE_SLEEP_SECS }
    }
}

/// Plans the cycle for a wake that happens now: reads the local hour, and on
/// a due wake asks the selector for today's file.
///
/// The hour and the directory are read from the machine, so the contract
/// states what holds of every outcome. The plan is the one for the hour that
/// it records; the directory is listed on a due wake only; a chosen file
/// comes with the figures that led to it; and where glob refuses the listing
/// pattern nothing is uploaded.
pub fn plan_cycle(config: &RunConfig) -> (p: CyclePlan)
    ensures
        p.hour < 24,
        p.follows(config.run_hour, p.hour, p.upload),
        !glob_accepts(listing_pattern(glob_escaped(config.local_folder@))) ==> p.upload is None,
        p.upload matches Some(s) ==> s.wf() && 1 <= s.day_of_year <= 366,
{
    let hour = local_hour();
    let selection = if is_due(config.run_hour, hour) {
        get_next_file(config.local_folder.as_str())
    } else {
        None
    };
    plan(config.run_hour, hour, selection)
}

/// A cycle is due exactly when the local hour is the run hour, and at every
/// hour when the run hour is "always due".
pub proof fn due_exactly_at_run_hour(run_hour: u32, hour: u32)
    ensures
        due(run_hour, run_hour),
        run_hour != ALWAYS_DUE && hour != run_hour ==> !due(run_hour, hour),
        due(ALWAYS_DUE, hour),
{
}

/// The sleep that ends a cycle depends on the run hour and the local hour
/// alone: whether a file was found does not change it.
pub proof fn sleep_ignores_selection(
    run_hour: u32,
    hour: u32,
    a: CyclePlan,
    found: Option<Selection>,
    b: CyclePlan,
    other: Option<Selection>,
)
    requires
        a.follows(run_hour, hour, found),
        b.follows(run_hour, hour, other),
    ensures
        a.due == b.due,
        a.sleep_secs == b.sleep_secs,
        a.sleep_secs == if due(run_hour, hour) {
            POST_RUN_SLEEP_SECS
        } else {
            IDLE_SLEEP_SECS
        },
{
}

} // verus!
