//! The time range of a summary.

use vstd::prelude::*;
use crate::api::redis::{score, score_of};

verus! {

/// The bounds that a summary was asked for, in microseconds since the Unix
/// epoch. A bound that is absent leaves that side open.
#[derive(Debug, Clone, Copy, PartialEq, Eq, Structural)]
pub struct DateRangeParams {
    pub from: Option<i64>,
    pub to: Option<i64>,
}

impl DateRangeParams {
    /// The range of scores that the summary covers: from the score of `from`,
    /// or 0, to the score of `to`, or the greatest score there is.
    pub open spec fn bounds_of(self) -> (u64, u64) {
        (
            match self.from {
                Some(t) => score_of(t),
                None => 0,
            },
            match self.to {
                Some(t) => score_of(t),
                None => u64::MAX,
            },
        )
    }

    /// Computes `bounds_of`.
    pub fn bounds(&self) -> (range: (u64, u64))
        ensures
            range == self.bounds_of(),
    {
        let from: u64 = match self.from {
            Some(t) => score(t),
            None => 0,
        };
        let to: u64 = match self.to {
            Some(t) => score(t),
            None => u64::MAX,
        };
        (from, to)
    }
}

} // verus!
