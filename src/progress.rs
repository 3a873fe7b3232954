//! Progress of a render: a count of completed pixels, reported every
//! `REPORT_EVERY` pixels.
use vstd::prelude::*;

verus! {

/// Completed pixels between two progress reports.
pub const REPORT_EVERY: u64 = 1000;

/// Completed pixels out of the image's total.
#[derive(Clone, Copy, Debug, PartialEq, Eq, Structural)]
pub struct Progress {
    pub done: u64,
    pub total: u64,
}

impl Progress {
    /// No pixel completed yet, out of `total`.
    pub fn new(total: u64) -> (r: Progress)
        ensures
            r.done == 0,
            r.total == total,
    {
        Progress { done: 0, total }
    }

    /// Counts `n` more completed pixels; true when the new count is a
    /// multiple of `REPORT_EVERY`, that is when a report is due.
    pub fn advance(&mut self, n: u64) -> (report: bool)
        requires
            old(self).done + n <= u64::MAX,
        ensures
            final(self).done == old(self).done + n,
            final(self).total == old(self).total,
            report == (final(self).done % REPORT_EVERY == 0),
    {
        self.done = self.done + n;
        self.done % REPORT_EVERY == 0
    }
}

} // verus!
