//! What holds of every universe and every registry, proved from the
//! definitions that the contracts use.

use vstd::prelude::*;
use crate::dispatch::BatchView;
use crate::error::RegisterError;
use crate::fixture::{
    described_fixture, method_name, FixtureView, TargetHandle, UNIVERSE_CHANNELS,
};
use crate::registry::{
    ingest_dispatch, ingested, registered, registration, universe_at, MAX_PORT_ADDRESS,
};
use crate::universe::UniverseView;

verus! {

/// A value is in a filtered sequence exactly if it is in the sequence and
/// meets the predicate.
proof fn lemma_filter_membership<A>(s: Seq<A>, pred: spec_fn(A) -> bool, x: A)
    ensures
        s.filter(pred).contains(x) <==> s.contains(x) && pred(x),
    decreases s.len(),
{
    reveal(Seq::filter);
    if s.len() > 0 {
        let front = s.drop_last();
        lemma_filter_membership(front, pred, x);
        let kept = front.filter(pred);
        if front.contains(x) {
            let i = choose|i: int| 0 <= i < front.len() && front[i] == x;
            assert(s[i] == x);
        }
        if s.contains(x) {
            let i = choose|i: int| 0 <= i < s.len() && s[i] == x;
            if i < s.len() - 1 {
                assert(front[i] == x);
            }
        }
        if pred(s.last()) {
            let out = kept.push(s.last());
            if kept.contains(x) {
                let i = choose|i: int| 0 <= i < kept.len() && kept[i] == x;
                assert(out[i] == x);
            }
            if out.contains(x) {
                let i = choose|i: int| 0 <= i < out.len() && out[i] == x;
                if i < kept.len() {
                    assert(kept[i] == x);
                }
            }
            assert(out[kept.len() as int] == s.last());
            assert(s[s.len() - 1] == s.last());
        }
    }
}

/// Filtering keeps a sequence whole where every element meets the predicate.
proof fn lemma_filter_keeps_all<A>(s: Seq<A>, pred: spec_fn(A) -> bool)
    requires
        forall|i: int| 0 <= i < s.len() ==> pred(#[trigger] s[i]),
    ensures
        s.filter(pred) == s,
    decreases s.len(),
{
    reveal(Seq::filter);
    if s.len() > 0 {
        let front = s.drop_last();
        assert forall|i: int| 0 <= i < front.len() implies pred(#[trigger] front[i]) by {
            assert(front[i] == s[i]);
        }
        lemma_filter_keeps_all(front, pred);
        assert(pred(s[s.len() - 1]));
        assert(front.push(s.last()) =~= s);
    }
}

/// Filtering leaves nothing where no element meets the predicate.
proof fn lemma_filter_keeps_none<A>(s: Seq<A>, pred: spec_fn(A) -> bool)
    requires
        forall|i: int| 0 <= i < s.len() ==> !pred(#[trigger] s[i]),
    ensures
        s.filter(pred).len() == 0,
    decreases s.len(),
{
    reveal(Seq::filter);
    if s.len() > 0 {
        let front = s.drop_last();
        assert forall|i: int| 0 <= i < front.len() implies !pred(#[trigger] front[i]) by {
            assert(front[i] == s[i]);
        }
        lemma_filter_keeps_none(front, pred);
        assert(!pred(s[s.len() - 1]));
    }
}

/// First frame: a universe that has seen no frame hands its first one to
/// every registered fixture, whatever the frame holds, as long as each
/// fixture's range starts inside the frame. A frame of all 512 channels
/// reaches every fixture.
pub proof fn first_frame_reaches_every_fixture(universe: UniverseView, frame: Seq<u8>)
    requires
        universe.wf(),
        universe.last_frame.len() == 0,
        forall|i: int|
            0 <= i < universe.receivers.len() ==> (#[trigger] universe.receivers[i]).start_channel
                < frame.len(),
    ensures
        universe.affected(frame) == universe.receivers,
        universe.receivers.len() > 0 ==> universe.dispatch(frame) == Some(
            BatchView { receivers: universe.receivers, channels: frame },
        ),
        universe.receivers.len() == 0 ==> universe.dispatch(frame) is None,
{
    let pred = |fixture: FixtureView| universe.affects(frame, fixture);
    assert forall|i: int| 0 <= i < universe.receivers.len() implies pred(
        #[trigger] universe.receivers[i],
    ) by {
        let fixture = universe.receivers[i];
        assert(fixture.wf());
        assert(universe.channel_changed(frame, fixture.start_channel));
        assert(fixture.covers(fixture.start_channel));
    }
    lemma_filter_keeps_all(universe.receivers, pred);
}

/// The part of `first_frame_reaches_every_fixture` for a whole frame: with
/// 512 channels no fixture starts outside it.
pub proof fn first_whole_frame_reaches_every_fixture(universe: UniverseView, frame: Seq<u8>)
    requires
        universe.wf(),
        universe.last_frame.len() == 0,
        frame.len() == UNIVERSE_CHANNELS,
    ensures
        universe.affected(frame) == universe.receivers,
{
    assert forall|i: int| 0 <= i < universe.receivers.len() implies (
    #[trigger] universe.receivers[i]).start_channel < frame.len() by {
        assert(universe.receivers[i].wf());
    }
    first_frame_reaches_every_fixture(universe, frame);
}

/// The channels at which two frames of one length differ.
pub open spec fn differing_channels(earlier: Seq<u8>, later: Seq<u8>) -> Set<int> {
    Set::new(|i: int| 0 <= i < later.len() && earlier[i] != later[i])
}

/// The range of the fixture holds one of the channels.
pub open spec fn range_meets(fixture: FixtureView, channels: Set<int>) -> bool {
    exists|c: int| #[trigger] channels.contains(c) && fixture.covers(c)
}

/// Delta: of two frames of equal length that follow each other, the delta
/// set of the second is exactly the set of channels at which they differ,
/// and a registered fixture is in the batch exactly if its range meets that
/// set.
pub proof fn delta_is_where_frames_differ(universe: UniverseView, earlier: Seq<u8>, later: Seq<u8>)
    requires
        earlier.len() == later.len(),
    ensures
        universe.after_send(earlier).delta(later) == differing_channels(earlier, later),
        forall|fixture: FixtureView|
            universe.after_send(earlier).affected(later).contains(fixture) <==> (
            universe.receivers.contains(fixture) && range_meets(
                fixture,
                differing_channels(earlier, later),
            )),
{
    let seen = universe.after_send(earlier);
    assert(seen.delta(later) =~= differing_channels(earlier, later));
    let pred = |fixture: FixtureView| seen.affects(later, fixture);
    assert forall|fixture: FixtureView|
        seen.affected(later).contains(fixture) <==> (universe.receivers.contains(fixture)
            && range_meets(fixture, differing_channels(earlier, later))) by {
        lemma_filter_membership(seen.receivers, pred, fixture);
        if seen.affects(later, fixture) {
            let c = choose|c: int| #[trigger] seen.channel_changed(later, c) && fixture.covers(c);
            assert(differing_channels(earlier, later).contains(c));
        }
        if range_meets(fixture, differing_channels(earlier, later)) {
            let c = choose|c: int| #[trigger]
                differing_channels(earlier, later).contains(c) && fixture.covers(c);
            assert(seen.channel_changed(later, c));
        }
    }
}

/// No-op: a frame that equals the one just before it changes no channel and
/// hands nothing to the host.
pub proof fn repeated_frame_dispatches_nothing(universe: UniverseView, frame: Seq<u8>)
    ensures
        universe.after_send(frame).delta(frame) == Set::<int>::empty(),
        universe.after_send(frame).dispatch(frame) is None,
{
    let seen = universe.after_send(frame);
    assert(seen.delta(frame) =~= Set::<int>::empty());
    let pred = |fixture: FixtureView| seen.affects(frame, fixture);
    assert(forall|c: int| !seen.channel_changed(frame, c));
    assert forall|i: int| 0 <= i < seen.receivers.len() implies !pred(
        #[trigger] seen.receivers[i],
    ) by {}
    lemma_filter_keeps_none(seen.receivers, pred);
}

/// Range fidelity: a fixture with range `[s, e]` is called with exactly
/// `e - s + 1` values, which are the frame's bytes `s..=e` in the frame's
/// order, whenever the frame reaches channel `e`.
pub proof fn values_are_the_range(fixture: FixtureView, channels: Seq<u8>)
    requires
        fixture.wf(),
        fixture.end_channel < channels.len(),
    ensures
        fixture.values(channels) matches Some(values) && {
            &&& values.len() == fixture.footprint()
            &&& fixture.footprint() == fixture.end_channel - fixture.start_channel + 1
            &&& forall|j: int|
                0 <= j < values.len() ==> #[trigger] values[j] == channels[fixture.start_channel
                    + j]
        },
{
}

/// Every call of a batch carries the target, the method and the range of
/// the fixture at the same place in the batch: calls come in the order of
/// registration.
pub proof fn calls_follow_the_batch(batch: BatchView, i: int)
    requires
        0 <= i < batch.receivers.len(),
    ensures
        batch.invocations().len() == batch.receivers.len(),
        batch.invocations()[i].target == batch.receivers[i].target,
        batch.invocations()[i].method == batch.receivers[i].method,
        batch.invocations()[i].values == batch.receivers[i].values(batch.channels),
{
}

/// Registration with start channel 0 is refused as `InvalidChannel`, for a
/// target and a method path that are in order.
pub proof fn start_channel_zero_is_refused(
    target: TargetHandle,
    method_path: Seq<char>,
    universe_id: u16,
    footprint: int,
)
    requires
        !target.names_nothing(),
        method_name(method_path).len() > 0,
    ensures
        registration(target, method_path, universe_id, 0, footprint) matches Err(
            RegisterError::InvalidChannel,
        ),
{
}

/// Registration with footprint 0 is refused as `InvalidFootprint`, for a
/// target, a method path and a start channel that are in order.
pub proof fn footprint_zero_is_refused(
    target: TargetHandle,
    method_path: Seq<char>,
    universe_id: u16,
    start_channel: int,
)
    requires
        !target.names_nothing(),
        method_name(method_path).len() > 0,
        1 <= start_channel <= UNIVERSE_CHANNELS,
    ensures
        registration(target, method_path, universe_id, start_channel, 0) matches Err(
            RegisterError::InvalidFootprint,
        ),
{
}

/// Registration on a universe id beyond 15 bits is refused as
/// `InvalidUniverseId`, for a fixture that is in order.
pub proof fn wide_universe_id_is_refused(
    target: TargetHandle,
    method_path: Seq<char>,
    universe_id: u16,
    start_channel: int,
    footprint: int,
)
    requires
        described_fixture(target, method_path, start_channel, footprint) is Ok,
        universe_id > MAX_PORT_ADDRESS,
    ensures
        registration(target, method_path, universe_id, start_channel, footprint) matches Err(
            RegisterError::InvalidUniverseId,
        ),
{
}

/// A registration is accepted exactly if the target names an object, the
/// path has a final segment, the channels `start_channel ..
/// start_channel + footprint` lie in `1..=512`, and the universe id fits 15
/// bits; the fixture then has the 0-based range of those channels.
pub proof fn accepted_registrations(
    target: TargetHandle,
    method_path: Seq<char>,
    universe_id: u16,
    start_channel: int,
    footprint: int,
)
    ensures
        registration(target, method_path, universe_id, start_channel, footprint) is Ok <==> {
            &&& !target.names_nothing()
            &&& method_name(method_path).len() > 0
            &&& 1 <= start_channel
            &&& 1 <= footprint
            &&& start_channel + footprint - 1 <= UNIVERSE_CHANNELS
            &&& universe_id <= MAX_PORT_ADDRESS
        },
        registration(target, method_path, universe_id, start_channel, footprint) matches Ok(
            fixture,
        ) ==> {
            &&& fixture.wf()
            &&& fixture.target == target
            &&& fixture.method == method_name(method_path)
            &&& fixture.start_channel == start_channel - 1
            &&& fixture.end_channel == start_channel - 1 + footprint - 1
        },
{
}

/// A registered fixture is seen by the very next frame: the fixture is the
/// last receiver of its universe, and a frame for that universe that
/// changes a channel of its range yields a batch that ends with it.
pub proof fn registration_shows_in_next_frame(
    universes: Map<u16, UniverseView>,
    universe_id: u16,
    fixture: FixtureView,
    frame: Seq<u8>,
)
    ensures
        registered(universes, universe_id, fixture).contains_key(universe_id),
        registered(universes, universe_id, fixture)[universe_id].receivers == universe_at(
            universes,
            universe_id,
        ).receivers.push(fixture),
        universe_at(universes, universe_id).affects(frame, fixture) ==> (ingest_dispatch(
            registered(universes, universe_id, fixture),
            universe_id,
            frame,
        ) matches Some(batch) && batch.receivers.len() > 0 && batch.receivers.last() == fixture),
        !universe_at(universes, universe_id).affects(frame, fixture) ==> ingest_dispatch(
            registered(universes, universe_id, fixture),
            universe_id,
            frame,
        ) == universe_at(universes, universe_id).dispatch(frame),
{
    reveal(Seq::filter);
    let before = universe_at(universes, universe_id);
    let after = before.with_receiver(fixture);
    assert(after.receivers.drop_last() =~= before.receivers);
    let pred_after = |other: FixtureView| after.affects(frame, other);
    let pred_before = |other: FixtureView| before.affects(frame, other);
    assert forall|other: FixtureView| #[trigger]
        after.affects(frame, other) == before.affects(frame, other) by {
        if after.affects(frame, other) {
            let c = choose|c: int| #[trigger] after.channel_changed(frame, c) && other.covers(c);
            assert(before.channel_changed(frame, c));
        }
        if before.affects(frame, other) {
            let c = choose|c: int| #[trigger] before.channel_changed(frame, c) && other.covers(c);
            assert(after.channel_changed(frame, c));
        }
    }
    assert(pred_after =~= pred_before);
}

/// No registration is lost: registering a fixture keeps every universe
/// that was there, keeps the receivers of every universe in their order,
/// and taking in a frame changes no universe's receivers.
pub proof fn registrations_stay(
    universes: Map<u16, UniverseView>,
    universe_id: u16,
    fixture: FixtureView,
    frame_id: u16,
    frame: Seq<u8>,
    other: u16,
)
    requires
        universes.contains_key(other),
    ensures
        registered(universes, universe_id, fixture).contains_key(other),
        other != universe_id ==> registered(universes, universe_id, fixture)[other]
            == universes[other],
        other == universe_id ==> registered(universes, universe_id, fixture)[other].receivers
            == universes[other].receivers.push(fixture),
        ingested(universes, frame_id, frame).contains_key(other),
        ingested(universes, frame_id, frame)[other].receivers == universes[other].receivers,
{
}

} // verus!
