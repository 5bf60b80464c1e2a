use vstd::prelude::*;

use crate::builder::build_presence;
use crate::builder::built_item_id;
use crate::builder::built_primary;
use crate::builder::builds_some;
use crate::builder::state_matches;
use crate::detector::Decision;
use crate::detector::FAST_POLL_SECS;
use crate::detector::SLOW_POLL_SECS;
use crate::detector::should_publish;
use crate::detector::suppressed_spec;
use crate::fetch::FetchError;
use crate::model::PresenceState;
use crate::model::Session;

verus! {

/// The state the loop carries from one cycle to the next: the last state that
/// was successfully published (never one that failed mid-publish), and the
/// current sleep interval in seconds.
pub struct PollContext {
    pub last: Option<PresenceState>,
    pub interval_secs: u64,
}

impl PollContext {
    /// A fresh context: nothing published yet, fast polling.
    pub fn new() -> (ctx: PollContext)
        ensures
            ctx.last is None,
            ctx.interval_secs == FAST_POLL_SECS,
    {
        PollContext { last: None, interval_secs: FAST_POLL_SECS }
    }
}

/// What one cycle decides to do after the fetch: skip (nothing relevant is
/// playing, or the fetch failed), suppress a redundant candidate, or publish
/// a fresh state. A publish plan also carries the playing item's identifier,
/// which the image request needs.
pub enum CyclePlan {
    Skip,
    Suppress,
    Publish { state: PresenceState, item_id: String },
}

/// No session in the fetched list yields a state for the target user.
pub open spec fn no_candidate(sessions: Seq<Session>, target: Seq<char>) -> bool {
    forall|i: int| 0 <= i < sessions.len() ==> !builds_some(sessions[i], target)
}

/// Index `i` holds the first session that yields a state for the target user.
pub open spec fn first_candidate_at(sessions: Seq<Session>, target: Seq<char>, i: int) -> bool {
    &&& 0 <= i < sessions.len()
    &&& builds_some(sessions[i], target)
    &&& forall|j: int| 0 <= j < i ==> !builds_some(sessions[j], target)
}

/// The contract of one cycle's decision. A failed fetch is skipped, exactly as
/// an empty list is. Otherwise the plan is `Skip` exactly when no session
/// yields a candidate; with a candidate, the plan suppresses it exactly when
/// its primary line equals the last published one, and publishes it otherwise.
pub open spec fn cycle_plan_ok(
    ctx: PollContext,
    target: Seq<char>,
    fetch: Result<Vec<Session>, FetchError>,
    plan: CyclePlan,
) -> bool {
    match fetch {
        Err(_) => plan is Skip,
        Ok(sessions) => {
            &&& (plan is Skip <==> no_candidate(sessions@, target))
            &&& (plan is Suppress ==> exists|i: int|
                #[trigger] first_candidate_at(sessions@, target, i) && suppressed_spec(
                    built_primary(sessions@[i]),
                    ctx.last,
                ))
            &&& (plan matches CyclePlan::Publish { state, item_id } ==> exists|i: int|
                #[trigger] first_candidate_at(sessions@, target, i) && state_matches(
                    state,
                    sessions@[i],
                ) && item_id@ == built_item_id(sessions@[i]) && !suppressed_spec(
                    state.primary@,
                    ctx.last,
                ))
        },
    }
}

/// Scan the fetched sessions in order and build a state from the first one
/// that belongs to the target user and is playing something, handing back the
/// playing item's identifier beside the state.
pub fn select_candidate(sessions: &Vec<Session>, target: &str) -> (r: Option<
    (PresenceState, String),
>)
    ensures
        (r is None) <==> no_candidate(sessions@, target@),
        r matches Some(pair) ==> exists|i: int|
            #[trigger] first_candidate_at(sessions@, target@, i) && state_matches(
                pair.0,
                sessions@[i],
            ) && pair.1@ == built_item_id(sessions@[i]),
{
    let mut idx: usize = 0;
    while idx < sessions.len()
        invariant
            0 <= idx <= sessions@.len(),
            forall|j: int| 0 <= j < idx ==> !builds_some(sessions@[j], target@),
        decreases sessions@.len() - idx,
    {
        let built = build_presence(&sessions[idx], target);
        match built {
            Some(p) => {
                let item_id = match &sessions[idx].now_playing {
                    Some(item) => item.item_id.clone(),
                    None => String::new(),
                };
                proof {
                    assert(first_candidate_at(sessions@, target@, idx as int));
                }
                return Some((p, item_id));
            },
            None => {
                idx += 1;
            },
        }
    }
    None
}

/// Decide one cycle: fetch outcome in, plan out. The decision logic is exactly
/// `cycle_plan_ok`; the caller performs the plan (sleep, or resolve an image
/// and publish) and then records it with `note_suppressed` or
/// `note_published`.
pub fn plan_cycle(
    ctx: &PollContext,
    target: &str,
    fetch: &Result<Vec<Session>, FetchError>,
) -> (plan: CyclePlan)
    ensures
        cycle_plan_ok(*ctx, target@, *fetch, plan),
{
    match fetch {
        Err(_) => CyclePlan::Skip,
        Ok(sessions) => {
            match select_candidate(sessions, target) {
                None => CyclePlan::Skip,
                Some((state, item_id)) => {
                    match should_publish(&state, &ctx.last) {
                        Decision::Suppress => CyclePlan::Suppress,
                        Decision::Publish => CyclePlan::Publish { state, item_id },
                    }
                },
            }
        },
    }
}

/// Record a suppressed cycle: the last published state is untouched and the
/// loop slows down while the same item keeps playing.
pub fn note_suppressed(ctx: &mut PollContext)
    ensures
        final (ctx).last == old(ctx).last,
        final (ctx).interval_secs == SLOW_POLL_SECS,
{
    ctx.interval_secs = SLOW_POLL_SECS;
}

/// Record the outcome of a publish attempt: the loop returns to fast polling
/// either way, but the remembered state changes only on success — the context
/// always reflects the last state that was actually published.
pub fn note_published(ctx: &mut PollContext, state: PresenceState, publish_ok: bool)
    ensures
        final (ctx).interval_secs == FAST_POLL_SECS,
        publish_ok ==> final (ctx).last == Some(state),
        !publish_ok ==> final (ctx).last == old(ctx).last,
{
    ctx.interval_secs = FAST_POLL_SECS;
    if publish_ok {
        ctx.last = Some(state);
    }
}

} // verus!
