//! One universe: its registered fixtures and the frame it saw last.

use vstd::prelude::*;
use crate::dispatch::{fixture_views, BatchView, DispatchBatch};
use crate::fixture::{DMXFixture, FixtureView};

verus! {

/// A universe as mathematics: the fixtures in the order they registered, and
/// the last frame delivered. An empty `last_frame` means that none was.
pub struct UniverseView {
    pub receivers: Seq<FixtureView>,
    pub last_frame: Seq<u8>,
}

impl UniverseView {
    /// A universe with no fixture and no frame.
    pub open spec fn empty() -> UniverseView {
        UniverseView { receivers: Seq::empty(), last_frame: Seq::empty() }
    }

    /// Every registered fixture is well formed.
    pub open spec fn wf(self) -> bool {
        forall|i: int| 0 <= i < self.receivers.len() ==> (#[trigger] self.receivers[i]).wf()
    }

    /// The same universe with one more fixture, registered last.
    pub open spec fn with_receiver(self, fixture: FixtureView) -> UniverseView {
        UniverseView { receivers: self.receivers.push(fixture), last_frame: self.last_frame }
    }

    /// Channel `c` of `frame` counts as changed: every channel of the first
    /// frame does; later, a channel that both frames have and that differs.
    pub open spec fn channel_changed(self, frame: Seq<u8>, c: int) -> bool {
        &&& 0 <= c < frame.len()
        &&& self.last_frame.len() == 0 || (c < self.last_frame.len() && self.last_frame[c]
            != frame[c])
    }

    /// The delta set of `frame`: all its changed channels.
    pub open spec fn delta(self, frame: Seq<u8>) -> Set<int> {
        Set::new(|c: int| self.channel_changed(frame, c))
    }

    /// `frame` changes a channel in the fixture's range.
    pub open spec fn affects(self, frame: Seq<u8>, fixture: FixtureView) -> bool {
        exists|c: int| #[trigger] self.channel_changed(frame, c) && fixture.covers(c)
    }

    /// The fixtures that `frame` affects, in registration order.
    pub open spec fn affected(self, frame: Seq<u8>) -> Seq<FixtureView> {
        self.receivers.filter(|fixture: FixtureView| self.affects(frame, fixture))
    }

    /// What `frame` hands to the host: nothing where it affects no fixture,
    /// else the affected fixtures with the frame.
    pub open spec fn dispatch(self, frame: Seq<u8>) -> Option<BatchView> {
        if self.affected(frame).len() == 0 {
            None
        } else {
            Some(BatchView { receivers: self.affected(frame), channels: frame })
        }
    }

    /// The universe once `frame` was delivered.
    pub open spec fn after_send(self, frame: Seq<u8>) -> UniverseView {
        UniverseView { receivers: self.receivers, last_frame: frame }
    }
}

/// The live state of one universe.
#[derive(Debug)]
pub struct Universe {
    receivers: Vec<DMXFixture>,
    last_frame: Vec<u8>,
}

impl View for Universe {
    type V = UniverseView;

    closed spec fn view(&self) -> UniverseView {
        UniverseView { receivers: fixture_views(self.receivers@), last_frame: self.last_frame@ }
    }
}

/// Filtering a sequence that ends in `last` filters what comes before it and
/// then decides on `last`.
proof fn lemma_filter_push<A>(s: Seq<A>, last: A, pred: spec_fn(A) -> bool)
    ensures
        s.push(last).filter(pred) == if pred(last) {
            s.filter(pred).push(last)
        } else {
            s.filter(pred)
        },
{
    reveal(Seq::filter);
    assert(s.push(last).drop_last() =~= s);
}

impl Universe {
    /// Every registered fixture is well formed.
    pub open spec fn wf(&self) -> bool {
        self@.wf()
    }

    /// The registered fixtures, in the order of registration.
    pub fn receivers(&self) -> (receivers: &Vec<DMXFixture>)
        ensures
            fixture_views(receivers@) == self@.receivers,
    {
        &self.receivers
    }

    /// The frame delivered last; empty where none was.
    pub fn last_frame(&self) -> (frame: &Vec<u8>)
        ensures
            frame@ == self@.last_frame,
    {
        &self.last_frame
    }

    /// Registers one more fixture, after those already there.
    pub fn add_receiver(&mut self, receiver: DMXFixture)
        ensures
            final(self)@ == old(self)@.with_receiver(receiver@),
            old(self).wf() ==> final(self).wf(),
    {
        proof {
            use_type_invariant(&receiver);
        }
        self.receivers.push(receiver);
        assert(fixture_views(self.receivers@) =~= fixture_views(old(self).receivers@).push(
            receiver@,
        ));
    }

    /// The delta set of `frame` as a list: every changed channel once, in
    /// ascending order, and no other channel.
    pub fn get_changed_channels(&self, frame: &Vec<u8>) -> (delta: Vec<usize>)
        ensures
            forall|i: int, j: int| 0 <= i < j < delta.len() ==> delta[i] < delta[j],
            forall|k: int|
                0 <= k < delta.len() ==> self@.channel_changed(frame@, #[trigger] delta[k] as int),
            forall|c: int|
                self@.channel_changed(frame@, c) ==> exists|k: int|
                    0 <= k < delta.len() && #[trigger] delta[k] == c,
    {
        let mut delta: Vec<usize> = Vec::new();
        let first: bool = self.last_frame.len() == 0;
        let mut i: usize = 0;
        while i < frame.len()
            invariant
                i <= frame.len(),
                first == (self.last_frame.len() == 0),
                forall|a: int, b: int| 0 <= a < b < delta.len() ==> delta[a] < delta[b],
                forall|k: int| 0 <= k < delta.len() ==> #[trigger] delta[k] < i,
                forall|k: int|
                    0 <= k < delta.len() ==> self@.channel_changed(
                        frame@,
                        #[trigger] delta[k] as int,
                    ),
                forall|c: int|
                    0 <= c < i && self@.channel_changed(frame@, c) ==> exists|k: int|
                        0 <= k < delta.len() && #[trigger] delta[k] == c,
            decreases frame.len() - i,
        {
            if first || (i < self.last_frame.len() && self.last_frame[i] != frame[i]) {
                let ghost before = delta@;
                delta.push(i);
                assert(forall|k: int| 0 <= k < before.len() ==> delta[k] == before[k]);
                assert(delta[before.len() as int] == i);
            }
            i += 1;
        }
        delta
    }

    /// Delivers `frame`: selects the fixtures whose range holds a changed
    /// channel, in registration order, and remembers the frame as the last
    /// one whether or not any fixture was selected. The batch holds copies
    /// of the selected fixtures and of the frame.
    pub fn send(&mut self, data: &Vec<u8>) -> (batch: Option<DispatchBatch>)
        ensures
            final(self)@ == old(self)@.after_send(data@),
            match batch {
                Some(b) => old(self)@.dispatch(data@) == Some(b@),
                None => old(self)@.dispatch(data@) is None,
            },
    {
        let delta = self.get_changed_channels(data);
        let ghost u = self@;
        let ghost pred = |fixture: FixtureView| u.affects(data@, fixture);
        let mut receivers: Vec<DMXFixture> = Vec::new();
        let mut i: usize = 0;
        assert(fixture_views(self.receivers@).take(0) =~= Seq::<FixtureView>::empty());
        assert(Seq::<FixtureView>::empty().filter(pred) =~= Seq::<FixtureView>::empty()) by {
            reveal(Seq::filter);
        }
        while i < self.receivers.len()
            invariant
                i <= self.receivers.len(),
                u == self@,
                pred == (|fixture: FixtureView| u.affects(data@, fixture)),
                forall|k: int|
                    0 <= k < delta.len() ==> u.channel_changed(data@, #[trigger] delta[k] as int),
                forall|c: int|
                    u.channel_changed(data@, c) ==> exists|k: int|
                        0 <= k < delta.len() && #[trigger] delta[k] == c,
                fixture_views(receivers@) == fixture_views(self.receivers@).take(i as int).filter(
                    pred,
                ),
            decreases self.receivers.len() - i,
        {
            let r = &self.receivers[i];
            let ghost seen = fixture_views(self.receivers@).take(i as int);
            proof {
                assert(fixture_views(self.receivers@).take(i + 1) =~= seen.push(r@));
                lemma_filter_push(seen, r@, pred);
                if r@.is_affected(delta@) {
                    let k = choose|k: int|
                        0 <= k < delta.len() && r@.covers(#[trigger] delta@[k] as int);
                    assert(u.channel_changed(data@, delta@[k] as int));
                }
                if u.affects(data@, r@) {
                    let c = choose|c: int| #[trigger] u.channel_changed(data@, c) && r@.covers(c);
                    let k = choose|k: int| 0 <= k < delta.len() && #[trigger] delta[k] == c;
                    assert(r@.covers(delta@[k] as int));
                }
                assert(pred(r@) == r@.is_affected(delta@));
            }
            if r.is_affected(&delta) {
                let ghost kept = receivers@;
                let copy = r.clone();
                receivers.push(copy);
                assert(fixture_views(receivers@) =~= fixture_views(kept).push(r@));
            }
            i += 1;
        }
        assert(fixture_views(self.receivers@).take(self.receivers.len() as int) =~= fixture_views(
            self.receivers@,
        ));
        let batch = if receivers.len() > 0 {
            Some(DispatchBatch::new(receivers, data.clone()))
        } else {
            None
        };
        self.last_frame = data.clone();
        batch
    }
}

impl Default for Universe {
    /// A universe with no fixture and no frame.
    fn default() -> (universe: Self)
        ensures
            universe@ == UniverseView::empty(),
    {
        let universe = Universe { receivers: Vec::new(), last_frame: Vec::new() };
        assert(fixture_views(universe.receivers@) =~= Seq::<FixtureView>::empty());
        universe
    }
}

} // verus!
