//! Port discovery over a half-open range of candidate TCP ports.
//!
//! The decision logic lives here and is verified: candidates are tried in
//! ascending order and the first available one wins. Whether a single port is
//! actually bindable is an operating-system probe, so the unverified shell
//! performs the probe and reports its verdict back, either one port at a time
//! through [`PortScanner`] or all at once through [`find_openport`].
//!
//! The result is advisory: a port found available may be taken again before
//! the real bind, which must then fail cleanly on its own.

use vstd::prelude::*;

use crate::errors::CaptureError;

verus! {

/// Walks the candidate ports of a half-open range `[lo, hi)` in ascending
/// order. The caller probes the current candidate and either stops (the
/// probe succeeded) or calls [`PortScanner::advance`] to move on.
pub struct PortScanner {
    /// Lower bound of the range; the first candidate.
    pub lo: u16,
    /// Upper bound of the range, excluded.
    pub hi: u16,
    /// The next candidate to probe; candidates below `cur` were rejected.
    pub cur: u16,
}

impl PortScanner {
    /// The scanner stays between its bounds.
    pub open spec fn wf(self) -> bool {
        self.lo <= self.cur <= self.hi
    }

    /// Starts a scan of the half-open range `[lo, hi)` at its lower end.
    pub fn new(lo: u16, hi: u16) -> (s: Self)
        requires
            lo <= hi,
        ensures
            s.wf(),
            s.lo == lo,
            s.hi == hi,
            s.cur == lo,
    {
        PortScanner { lo, hi, cur: lo }
    }

    /// The candidate to probe next, or `None` once the range is exhausted.
    pub fn candidate(&self) -> (c: Option<u16>)
        ensures
            c == (if self.cur < self.hi {
                Some(self.cur)
            } else {
                None::<u16>
            }),
    {
        if self.cur < self.hi {
            Some(self.cur)
        } else {
            None
        }
    }

    /// Records that the current candidate was not available and moves to the
    /// next one.
    pub fn advance(&mut self)
        requires
            old(self).wf(),
            old(self).cur < old(self).hi,
        ensures
            final(self).wf(),
            final(self).lo == old(self).lo,
            final(self).hi == old(self).hi,
            final(self).cur == old(self).cur + 1,
    {
        self.cur = self.cur + 1;
    }
}

/// Returns the first port of `[lo, hi)` whose availability verdict is true,
/// or [`CaptureError::PortUnavailable`] when every candidate was rejected.
///
/// `available[i]` is the probe verdict for port `lo + i`.
pub fn find_openport(lo: u16, hi: u16, available: &Vec<bool>) -> (r: Result<u16, CaptureError>)
    requires
        lo <= hi,
        available@.len() == hi - lo,
    ensures
        match r {
            Ok(p) => {
                &&& lo <= p < hi
                &&& available@[p - lo]
                &&& forall|j: int| 0 <= j < p - lo ==> !available@[j]
            },
            Err(e) => {
                &&& e == CaptureError::PortUnavailable
                &&& forall|j: int| 0 <= j < available@.len() ==> !available@[j]
            },
        },
{
    let mut scanner = PortScanner::new(lo, hi);
    loop
        invariant
            scanner.wf(),
            scanner.lo == lo,
            scanner.hi == hi,
            lo <= hi,
            available@.len() == hi - lo,
            forall|j: int| 0 <= j < scanner.cur - lo ==> !available@[j],
        decreases hi - scanner.cur,
    {
        match scanner.candidate() {
            None => {
                return Err(CaptureError::PortUnavailable);
            },
            Some(port) => {
                let idx: usize = (port - lo) as usize;
                if available[idx] {
                    return Ok(port);
                }
                scanner.advance();
            },
        }
    }
}

} // verus!
