//! Garbage collection of measurement campaigns: the decision taken on each
//! wake of the collector, and the period of its timer
use vstd::prelude::*;

use crate::energy::{taken_since, BMId, BaseMeasurement, BaseMeasurements, StoreView};
use crate::util::{Nanos, NANOS_PER_SEC};

verus! {

/// Shortest period of the collector's timer
pub const MIN_GC_TICK: Nanos = 60 * NANOS_PER_SEC;

/// Period of the collector's timer: a quarter of the minimum age, but not
/// less than [MIN_GC_TICK]
pub open spec fn tick_spec(min_age: Nanos) -> Nanos {
    if min_age / 4 >= MIN_GC_TICK {
        min_age / 4
    } else {
        MIN_GC_TICK
    }
}

/// The campaigns of `m` that are not older than `min_age` at `now`
pub open spec fn young_at(
    m: Map<BMId, BaseMeasurement>,
    now: Nanos,
    min_age: Nanos,
) -> Map<BMId, BaseMeasurement> {
    m.restrict(m.dom().filter(|id: BMId| m[id]@.time + min_age >= now))
}

/// The store after the collector woke at `now`: once it holds
/// `min_campaigns` campaigns or more, those older than `min_age` are gone
pub open spec fn collected(
    s: StoreView,
    now: Nanos,
    min_age: Nanos,
    min_campaigns: usize,
) -> StoreView {
    if s.campaigns.len() >= min_campaigns {
        StoreView { next_id: s.next_id, campaigns: young_at(s.campaigns, now, min_age) }
    } else {
        s
    }
}

/// Period of the garbage collector's timer
pub fn tick_duration(min_age: Nanos) -> (r: Nanos)
    ensures
        r == tick_spec(min_age),
{
    let quarter = min_age / 4;
    if quarter >= MIN_GC_TICK {
        quarter
    } else {
        MIN_GC_TICK
    }
}

/// Run one round of garbage collection at `now`: when the store holds at
/// least `min_campaigns` campaigns, delete those older than `min_age`.
/// Returns whether the store was swept.
pub fn collect_garbage(
    campaigns: &mut BaseMeasurements,
    now: Nanos,
    min_age: Nanos,
    min_campaigns: usize,
) -> (swept: bool)
    ensures
        swept == (old(campaigns)@.campaigns.len() >= min_campaigns),
        final(campaigns)@ == collected(old(campaigns)@, now, min_age, min_campaigns),
{
    let count = campaigns.len();
    // Nothing is worth doing until there is a certain number of campaigns.
    if count < min_campaigns {
        return false;
    }
    let ghost start = campaigns@.campaigns;
    match now.checked_sub(min_age) {
        Some(cutoff) => {
            campaigns.delete_older_than(cutoff);
            assert(taken_since(start, cutoff) =~= young_at(start, now, min_age));
        },
        None => {
            // No campaign can be older than the time since the origin.
            assert(start =~= young_at(start, now, min_age));
        },
    }
    true
}

} // verus!

verus! {

/// Collection removes only what is strictly older than the minimum age: once
/// the threshold is met, a campaign whose age is exactly `min_age` survives
/// a collection, and one a nanosecond older is removed.
pub proof fn lemma_gc_age_boundary(
    s: StoreView,
    now: Nanos,
    min_age: Nanos,
    min_campaigns: usize,
    id: BMId,
)
    requires
        s.campaigns.contains_key(id),
        s.campaigns.len() >= min_campaigns,
    ensures
        s.campaigns[id]@.time + min_age == now ==> collected(
            s,
            now,
            min_age,
            min_campaigns,
        ).campaigns.contains_key(id),
        s.campaigns[id]@.time + min_age + 1 == now ==> !collected(
            s,
            now,
            min_age,
            min_campaigns,
        ).campaigns.contains_key(id),
{
}

/// Below the threshold, collection leaves the store as it is, however old
/// its campaigns are.
pub proof fn lemma_gc_threshold(s: StoreView, now: Nanos, min_age: Nanos, min_campaigns: usize)
    requires
        s.campaigns.len() < min_campaigns,
    ensures
        collected(s, now, min_age, min_campaigns) == s,
{
}

} // verus!
