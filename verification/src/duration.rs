//! Wall-clock durations, measured in whole milliseconds.
//!
//! Every result produced by the engine carries one of these; they are never
//! negative, and the engine clamps any subtraction that would underflow.

use vstd::prelude::*;
use vstd::string::*;
use crate::text::spec_decimal;
use crate::text::u64_string;

verus! {

/// A non-negative span of wall-clock time in whole milliseconds.
#[derive(Clone, Copy, Debug, PartialEq, Eq, Structural)]
pub struct DurationMs {
    pub millis: u64,
}

impl DurationMs {
    pub fn from_millis(millis: u64) -> (r: DurationMs)
        ensures
            r.millis == millis,
    {
        DurationMs { millis }
    }

    pub fn from_secs(secs: u64) -> (r: DurationMs)
        requires
            secs * 1000 <= u64::MAX,
        ensures
            r.millis == secs * 1000,
    {
        DurationMs { millis: secs * 1000 }
    }

    /// How a duration is reported to the user: whole seconds, with whole
    /// minutes split off once there are any.
    pub open spec fn spec_display(self) -> Seq<char> {
        let total_seconds = self.millis as int / 1000;
        if total_seconds < 60 {
            spec_decimal(total_seconds) + " seconds"@
        } else {
            spec_decimal(total_seconds / 60) + " minutes "@ + spec_decimal(total_seconds % 60)
                + " seconds"@
        }
    }

    /// Renders the duration for the user, as specified by
    /// [`Self::spec_display`].
    pub fn display_string(self) -> (r: String)
        ensures
            r@ == self.spec_display(),
    {
        let total_seconds = self.millis / 1000;
        if total_seconds < 60 {
            let mut s = u64_string(total_seconds);
            s.append(" seconds");
            s
        } else {
            let mut s = u64_string(total_seconds / 60);
            s.append(" minutes ");
            let rest = u64_string(total_seconds % 60);
            s.append(rest.as_str());
            s.append(" seconds");
            proof {
                assert(s@ =~= self.spec_display());
            }
            s
        }
    }

    /// Difference of two durations, clamped to zero instead of underflowing.
    pub fn saturating_sub(self, other: DurationMs) -> (r: DurationMs)
        ensures
            r.millis == if self.millis >= other.millis {
                self.millis - other.millis
            } else {
                0
            },
    {
        if self.millis >= other.millis {
            DurationMs { millis: self.millis - other.millis }
        } else {
            DurationMs { millis: 0 }
        }
    }
}

} // verus!
