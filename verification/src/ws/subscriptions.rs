//! The channels a client wants, as a list without repeats in the order they
//! were first asked for.

use vstd::prelude::*;
use crate::ws::models::{ChannelView, WsChannel};

verus! {

/// The channels of a list as mathematical values, in the same order.
pub open spec fn channel_views(channels: Seq<WsChannel>) -> Seq<ChannelView> {
    channels.map_values(|channel: WsChannel| channel@)
}

/// The list with `channel` in it: appended where it is new, untouched where it
/// is there already.
pub open spec fn insert(desired: Seq<ChannelView>, channel: ChannelView) -> Seq<ChannelView> {
    if desired.contains(channel) {
        desired
    } else {
        desired.push(channel)
    }
}

/// The list after inserting `channels` one by one, first to last.
pub open spec fn insert_all(desired: Seq<ChannelView>, channels: Seq<ChannelView>) -> Seq<
    ChannelView,
>
    decreases channels.len(),
{
    if channels.len() == 0 {
        desired
    } else {
        insert(insert_all(desired, channels.drop_last()), channels.last())
    }
}

/// The list without any of `channels`; what stays keeps its order.
pub open spec fn remove_all(desired: Seq<ChannelView>, channels: Seq<ChannelView>) -> Seq<
    ChannelView,
> {
    desired.filter(|channel: ChannelView| !channels.contains(channel))
}

/// How many channels at the start of the list pass `accepts` before the first
/// one that does not; the length of the list where all pass.
pub open spec fn accepted_len(channels: Seq<ChannelView>, accepts: spec_fn(ChannelView) -> bool) -> nat
    decreases channels.len(),
{
    if channels.len() == 0 || !accepts(channels[0]) {
        0
    } else {
        1 + accepted_len(channels.drop_first(), accepts)
    }
}

/// `accepted_len` is the one index before which every channel passes and at
/// which the list ends or a channel fails.
pub proof fn lemma_accepted_len(
    channels: Seq<ChannelView>,
    accepts: spec_fn(ChannelView) -> bool,
    k: int,
)
    requires
        0 <= k <= channels.len(),
        forall|j: int| 0 <= j < k ==> accepts(#[trigger] channels[j]),
        k == channels.len() || !accepts(channels[k]),
    ensures
        accepted_len(channels, accepts) == k,
    decreases k,
{
    if k > 0 {
        lemma_accepted_len(channels.drop_first(), accepts, k - 1);
    }
}

/// `accepted_len` stops at or before any channel that does not pass.
pub proof fn lemma_accepted_len_bound(
    channels: Seq<ChannelView>,
    accepts: spec_fn(ChannelView) -> bool,
    i: int,
)
    requires
        0 <= i < channels.len(),
        !accepts(channels[i]),
    ensures
        accepted_len(channels, accepts) <= i,
    decreases i,
{
    if i > 0 && accepts(channels[0]) {
        lemma_accepted_len_bound(channels.drop_first(), accepts, i - 1);
    }
}

/// Inserting a list that ends in `channel` is inserting the list before it and
/// then `channel`.
pub proof fn lemma_insert_all_push(
    desired: Seq<ChannelView>,
    channels: Seq<ChannelView>,
    channel: ChannelView,
)
    ensures
        insert_all(desired, channels.push(channel)) == insert(
            insert_all(desired, channels),
            channel,
        ),
{
    assert(channels.push(channel).drop_last() =~= channels);
}

/// Inserting channels adds nothing twice.
pub proof fn lemma_insert_all_no_duplicates(desired: Seq<ChannelView>, channels: Seq<ChannelView>)
    requires
        desired.no_duplicates(),
    ensures
        insert_all(desired, channels).no_duplicates(),
    decreases channels.len(),
{
    if channels.len() > 0 {
        lemma_insert_all_no_duplicates(desired, channels.drop_last());
    }
}

/// Removing channels adds nothing twice.
pub proof fn lemma_remove_all_no_duplicates(desired: Seq<ChannelView>, channels: Seq<ChannelView>)
    requires
        desired.no_duplicates(),
    ensures
        remove_all(desired, channels).no_duplicates(),
    decreases desired.len(),
{
    let keep = |channel: ChannelView| !channels.contains(channel);
    reveal(Seq::filter);
    if desired.len() > 0 {
        let front = desired.drop_last();
        lemma_remove_all_no_duplicates(front, channels);
        if keep(desired.last()) {
            let kept = front.filter(keep);
            assert forall|i: int| 0 <= i < kept.len() implies kept[i] != desired.last() by {
                front.lemma_filter_contains_rev(keep, kept[i]);
            }
        }
    }
}

/// After inserting channels, each of them is in the list, and whatever was in
/// the list before still is.
pub proof fn lemma_insert_all_contains(desired: Seq<ChannelView>, channels: Seq<ChannelView>)
    ensures
        forall|i: int|
            0 <= i < channels.len() ==> insert_all(desired, channels).contains(
                #[trigger] channels[i],
            ),
        forall|channel: ChannelView| #[trigger]
            desired.contains(channel) ==> insert_all(desired, channels).contains(channel),
    decreases channels.len(),
{
    if channels.len() > 0 {
        let front = channels.drop_last();
        let before = insert_all(desired, front);
        let after = insert_all(desired, channels);
        lemma_insert_all_contains(desired, front);
        assert forall|channel: ChannelView| before.contains(channel) implies after.contains(
            channel,
        ) by {
            let j = choose|j: int| 0 <= j < before.len() && before[j] == channel;
            assert(after[j] == channel);
        }
        assert forall|i: int| 0 <= i < channels.len() implies after.contains(
            #[trigger] channels[i],
        ) by {
            if i < channels.len() - 1 {
                assert(front[i] == channels[i]);
            } else if !before.contains(channels.last()) {
                assert(after[before.len() as int] == channels.last());
            }
        }
    }
}

/// What inserting adds to a list comes after what was there, and every
/// channel added is one of those inserted.
pub proof fn lemma_insert_all_extends(desired: Seq<ChannelView>, channels: Seq<ChannelView>)
    ensures
        exists|added: Seq<ChannelView>|
            {
                &&& #[trigger] insert_all(desired, channels) == desired + added
                &&& forall|i: int| 0 <= i < added.len() ==> channels.contains(#[trigger] added[i])
            },
    decreases channels.len(),
{
    if channels.len() == 0 {
        let added = Seq::<ChannelView>::empty();
        assert(insert_all(desired, channels) =~= desired + added);
    } else {
        let front = channels.drop_last();
        lemma_insert_all_extends(desired, front);
        let added_before = choose|added: Seq<ChannelView>|
            {
                &&& #[trigger] insert_all(desired, front) == desired + added
                &&& forall|i: int| 0 <= i < added.len() ==> front.contains(#[trigger] added[i])
            };
        assert forall|i: int| 0 <= i < added_before.len() implies channels.contains(
            #[trigger] added_before[i],
        ) by {
            let j = choose|j: int| 0 <= j < front.len() && front[j] == added_before[i];
            assert(channels[j] == added_before[i]);
        }
        if !insert_all(desired, front).contains(channels.last()) {
            let added = added_before.push(channels.last());
            assert(insert_all(desired, channels) =~= desired + added);
            assert(channels[channels.len() - 1] == channels.last());
        }
    }
}

/// Subscribing to channels and then unsubscribing from the same channels
/// gives back the list there was before, provided none of the channels was in
/// it: what was in it before goes with the rest.
pub proof fn lemma_insert_then_remove(desired: Seq<ChannelView>, channels: Seq<ChannelView>)
    requires
        forall|i: int| 0 <= i < channels.len() ==> !desired.contains(#[trigger] channels[i]),
    ensures
        remove_all(insert_all(desired, channels), channels) == desired,
{
    let keep = |channel: ChannelView| !channels.contains(channel);
    lemma_insert_all_extends(desired, channels);
    let added = choose|added: Seq<ChannelView>|
        {
            &&& #[trigger] insert_all(desired, channels) == desired + added
            &&& forall|i: int| 0 <= i < added.len() ==> channels.contains(#[trigger] added[i])
        };
    Seq::filter_distributes_over_add(desired, added, keep);
    assert forall|i: int| 0 <= i < desired.len() implies keep(#[trigger] desired[i]) by {
        if channels.contains(desired[i]) {
            let j = choose|j: int| 0 <= j < channels.len() && channels[j] == desired[i];
            assert(desired.contains(channels[j]));
        }
    }
    lemma_filter_all(desired, keep);
    lemma_filter_none(added, keep);
}

proof fn lemma_filter_all(list: Seq<ChannelView>, keep: spec_fn(ChannelView) -> bool)
    requires
        forall|i: int| 0 <= i < list.len() ==> keep(#[trigger] list[i]),
    ensures
        list.filter(keep) == list,
    decreases list.len(),
{
    reveal(Seq::filter);
    if list.len() > 0 {
        lemma_filter_all(list.drop_last(), keep);
    }
}

proof fn lemma_filter_none(list: Seq<ChannelView>, keep: spec_fn(ChannelView) -> bool)
    requires
        forall|i: int| 0 <= i < list.len() ==> !keep(#[trigger] list[i]),
    ensures
        list.filter(keep) == Seq::<ChannelView>::empty(),
    decreases list.len(),
{
    reveal(Seq::filter);
    if list.len() > 0 {
        lemma_filter_none(list.drop_last(), keep);
    }
}

/// Whether `channel` is among `channels`.
pub fn contains(channels: &[WsChannel], channel: &WsChannel) -> (found: bool)
    ensures
        found == channel_views(channels@).contains(channel@),
{
    let mut i: usize = 0;
    while i < channels.len()
        invariant
            i <= channels@.len(),
            forall|j: int| 0 <= j < i ==> (#[trigger] channels@[j])@ != channel@,
        decreases channels@.len() - i,
    {
        if channels[i] == *channel {
            assert(channel_views(channels@)[i as int] == channel@);
            return true;
        }
        i += 1;
    }
    false
}

/// Puts `channel` into the list unless it is there.
pub fn insert_channel(desired: &mut Vec<WsChannel>, channel: &WsChannel)
    ensures
        channel_views(final(desired)@) == insert(channel_views(old(desired)@), channel@),
{
    if !contains(desired.as_slice(), channel) {
        desired.push(channel.clone());
    }
}

/// Takes every channel that is among `channels` out of the list.
pub fn remove_channels(desired: &mut Vec<WsChannel>, channels: &[WsChannel])
    ensures
        channel_views(final(desired)@) == remove_all(
            channel_views(old(desired)@),
            channel_views(channels@),
        ),
{
    let ghost keep = |channel: ChannelView| !channel_views(channels@).contains(channel);
    let mut kept: Vec<WsChannel> = Vec::new();
    let mut i: usize = 0;
    proof {
        reveal(Seq::filter);
    }
    while i < desired.len()
        invariant
            i <= desired@.len(),
            keep == |channel: ChannelView| !channel_views(channels@).contains(channel),
            channel_views(kept@) == channel_views(desired@.take(i as int)).filter(keep),
        decreases desired@.len() - i,
    {
        let ghost before = channel_views(desired@.take(i as int));
        proof {
            before.lemma_filter_push(desired@[i as int]@, keep);
            assert(channel_views(desired@.take(i + 1)) =~= before.push(desired@[i as int]@));
        }
        if !contains(channels, &desired[i]) {
            kept.push(desired[i].clone());
        }
        i += 1;
    }
    assert(desired@.take(i as int) =~= desired@);
    *desired = kept;
}

} // verus!
