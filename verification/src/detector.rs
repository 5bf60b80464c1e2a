use vstd::prelude::*;

use crate::model::PresenceState;

verus! {

/// The binary outcome of comparing a candidate state against the last
/// published one.
#[derive(Clone, Copy, Debug, PartialEq, Eq, Structural)]
pub enum Decision {
    Publish,
    Suppress,
}

/// Poll interval, in seconds, after a published update: fast, to catch the
/// next change promptly.
pub const FAST_POLL_SECS: u64 = 5;

/// Poll interval, in seconds, after a suppressed cycle: slow, while the same
/// item keeps playing.
pub const SLOW_POLL_SECS: u64 = 10;

/// Whether a candidate with this primary line is redundant against the last
/// published state: true exactly when a previous state exists and its primary
/// line is the same. The comparison is deliberately on the title alone, a
/// coarse dedup key, not on the full state.
pub open spec fn suppressed_spec(primary: Seq<char>, last: Option<PresenceState>) -> bool {
    match last {
        Some(p) => p.primary@ == primary,
        None => false,
    }
}

/// Decide whether a freshly built candidate warrants an update. `Suppress`
/// exactly when the candidate's primary line equals the previous published
/// one; `Publish` on the first cycle (no previous state) or whenever the
/// primary line differs, whatever the other fields do.
pub fn should_publish(candidate: &PresenceState, previous: &Option<PresenceState>) -> (d: Decision)
    ensures
        d == (if suppressed_spec(candidate.primary@, *previous) {
            Decision::Suppress
        } else {
            Decision::Publish
        }),
{
    match previous {
        Some(p) => {
            if p.primary == candidate.primary {
                Decision::Suppress
            } else {
                Decision::Publish
            }
        },
        None => Decision::Publish,
    }
}

} // verus!
