//! From a nested response to the flat sequence of its instances.

use vstd::prelude::*;
use crate::instance::{Grouping, GroupingView, RawInstance, RawInstanceView, Response, ResponseView};

verus! {

/// The instances that a grouping holds: none where its list is absent.
pub open spec fn instances_of(grouping: GroupingView) -> Seq<RawInstanceView> {
    match grouping.instances {
        Some(instances) => instances,
        None => Seq::empty(),
    }
}

/// The instances of all groupings, one grouping's after the other's, each in
/// its own order.
pub open spec fn flattened(groupings: Seq<GroupingView>) -> Seq<RawInstanceView>
    decreases groupings.len(),
{
    if groupings.len() == 0 {
        Seq::empty()
    } else {
        flattened(groupings.drop_last()) + instances_of(groupings.last())
    }
}

/// The instances that a response holds: none where its list of groupings is
/// absent.
pub open spec fn walked(response: ResponseView) -> Seq<RawInstanceView> {
    match response.reservations {
        Some(groupings) => flattened(groupings),
        None => Seq::empty(),
    }
}

/// Appends the instances of one grouping to `found`.
pub fn collect_instances<'a>(grouping: &'a Grouping, found: &mut Vec<&'a RawInstance>)
    ensures
        final(found).deep_view() == old(found).deep_view() + instances_of(grouping@),
{
    if let Some(instances) = &grouping.instances {
        let ghost before = found.deep_view();
        let mut j: usize = 0;
        while j < instances.len()
            invariant
                j <= instances.len(),
                found.deep_view() == before + instances.deep_view().take(j as int),
            decreases instances.len() - j,
        {
            let ghost so_far = found.deep_view();
            found.push(&instances[j]);
            assert(found.deep_view() == so_far.push(instances[j as int]@));
            j += 1;
        }
    }
}

/// Lists the instances of a response in the order in which it holds them:
/// grouping by grouping, and within a grouping as they stand there.
pub fn walk<'a>(response: &'a Response) -> (instances: Vec<&'a RawInstance>)
    ensures
        instances.deep_view() == walked(response@),
{
    let mut found: Vec<&RawInstance> = Vec::new();
    if let Some(groupings) = &response.reservations {
        let mut i: usize = 0;
        while i < groupings.len()
            invariant
                i <= groupings.len(),
                found.deep_view() == flattened(groupings.deep_view().take(i as int)),
            decreases groupings.len() - i,
        {
            collect_instances(&groupings[i], &mut found);
            proof {
                let next = groupings.deep_view().take(i + 1);
                assert(next.drop_last() == groupings.deep_view().take(i as int));
            }
            i += 1;
        }
        assert(groupings.deep_view().take(i as int) == groupings.deep_view());
    }
    found
}

/// Flattening keeps the order of the groupings: the instances of a sequence
/// of groupings are those of any front part of it, followed by those of the
/// rest.
pub proof fn law_flatten_in_order(front: Seq<GroupingView>, back: Seq<GroupingView>)
    ensures
        flattened(front + back) == flattened(front) + flattened(back),
    decreases back.len(),
{
    if back.len() > 0 {
        assert((front + back).drop_last() == front + back.drop_last());
        law_flatten_in_order(front, back.drop_last());
    }
}

/// A single grouping flattens to its own instances, in their own order.
pub proof fn law_flatten_one(grouping: GroupingView)
    ensures
        flattened(seq![grouping]) == instances_of(grouping),
{
    let one = seq![grouping];
    assert(flattened(one) == flattened(one.drop_last()) + instances_of(one.last()));
}

/// Flattening is the concatenation of the groupings' instance sequences in
/// grouping order: the instance at place `j` of the grouping at place `k`
/// comes out after all instances of the groupings before `k` and after the
/// first `j` instances of its own grouping.
pub proof fn law_flatten_position(groupings: Seq<GroupingView>, k: int, j: int)
    requires
        0 <= k < groupings.len(),
        0 <= j < instances_of(groupings[k]).len(),
    ensures
        flattened(groupings.take(k)).len() + j < flattened(groupings).len(),
        flattened(groupings)[flattened(groupings.take(k)).len() + j] == instances_of(
            groupings[k],
        )[j],
{
    let before = groupings.take(k);
    let after = groupings.skip(k + 1);
    assert(groupings == before + seq![groupings[k]] + after);
    law_flatten_in_order(before + seq![groupings[k]], after);
    law_flatten_in_order(before, seq![groupings[k]]);
    law_flatten_one(groupings[k]);
}

/// A grouping without instances, whether its list is absent or empty, adds
/// nothing and leaves the instances of its neighbours in their order.
pub proof fn law_empty_grouping_adds_nothing(
    front: Seq<GroupingView>,
    grouping: GroupingView,
    back: Seq<GroupingView>,
)
    requires
        instances_of(grouping).len() == 0,
    ensures
        flattened(front + seq![grouping] + back) == flattened(front + back),
        flattened(front + seq![grouping] + back) == flattened(front) + flattened(back),
{
    law_flatten_in_order(front + seq![grouping], back);
    law_flatten_in_order(front, seq![grouping]);
    law_flatten_one(grouping);
    law_flatten_in_order(front, back);
}

} // verus!
