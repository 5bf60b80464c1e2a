use vstd::prelude::*;

use crate::detector::suppressed_spec;
use crate::fetch::FetchError;
use crate::model::Session;
use crate::poll::CyclePlan;
use crate::poll::PollContext;
use crate::poll::cycle_plan_ok;

verus! {

/// A suppressed candidate is never published: any plan that `plan_cycle` may
/// return carries a state to publish only when that state's primary line
/// differs from the last published one. Re-publishing an identical state after
/// a `Suppress` decision therefore never occurs — a suppressed cycle yields a
/// `Suppress` plan, which carries nothing for the publisher.
pub proof fn lemma_suppressed_cycle_never_publishes(
    ctx: PollContext,
    target: Seq<char>,
    fetch: Result<Vec<Session>, FetchError>,
    plan: CyclePlan,
)
    requires
        cycle_plan_ok(ctx, target, fetch, plan),
    ensures
        plan matches CyclePlan::Publish { state, .. } ==> !suppressed_spec(state.primary@, ctx.last),
        plan matches CyclePlan::Publish { state, .. } ==> (ctx.last matches Some(prev)
            ==> state.primary@ != prev.primary@),
{
}

} // verus!
