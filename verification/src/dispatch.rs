//! The unit of work that one frame produces for the host.

use vstd::prelude::*;
use crate::fixture::{DMXFixture, FixtureView, TargetHandle};

verus! {

/// The views of a run of fixtures, in the same order.
pub open spec fn fixture_views(fixtures: Seq<DMXFixture>) -> Seq<FixtureView> {
    Seq::new(fixtures.len(), |i: int| fixtures[i]@)
}

/// One call on the host, as mathematics.
pub struct InvocationView {
    pub target: TargetHandle,
    pub method: Seq<char>,
    pub values: Option<Seq<u8>>,
}

/// One call on the host: `method` of `target`, with the values of the
/// fixture's channels. `values` is `None` where the frame ends before the
/// fixture's range does: that call cannot be made, and the host reports it
/// and goes on with the next.
#[derive(Debug)]
pub struct Invocation {
    pub target: TargetHandle,
    pub method: String,
    pub values: Option<Vec<u8>>,
}

impl View for Invocation {
    type V = InvocationView;

    open spec fn view(&self) -> InvocationView {
        InvocationView {
            target: self.target,
            method: self.method@,
            values: match self.values {
                Some(values) => Some(values@),
                None => None,
            },
        }
    }
}

/// The views of a run of invocations, in the same order.
pub open spec fn invocation_views(calls: Seq<Invocation>) -> Seq<InvocationView> {
    Seq::new(calls.len(), |i: int| calls[i]@)
}

/// The call that a frame makes on a fixture.
pub open spec fn invocation_of(fixture: FixtureView, channels: Seq<u8>) -> InvocationView {
    InvocationView {
        target: fixture.target,
        method: fixture.method,
        values: fixture.values(channels),
    }
}

/// A batch as mathematics: the affected fixtures in registration order and
/// the whole frame that affected them.
pub struct BatchView {
    pub receivers: Seq<FixtureView>,
    pub channels: Seq<u8>,
}

impl BatchView {
    /// The calls of the batch: one for each fixture, in the batch's order.
    pub open spec fn invocations(self) -> Seq<InvocationView> {
        Seq::new(self.receivers.len(), |i: int| invocation_of(self.receivers[i], self.channels))
    }
}

/// The fixtures that one frame affects, together with that frame. It owns
/// copies of both, so it can be carried to the host's thread and run there
/// while registrations go on.
#[derive(Debug)]
pub struct DispatchBatch {
    receivers: Vec<DMXFixture>,
    channels: Vec<u8>,
}

impl View for DispatchBatch {
    type V = BatchView;

    closed spec fn view(&self) -> BatchView {
        BatchView { receivers: fixture_views(self.receivers@), channels: self.channels@ }
    }
}

impl DispatchBatch {
    /// Packages the affected fixtures with the frame.
    pub fn new(receivers: Vec<DMXFixture>, channels: Vec<u8>) -> (batch: Self)
        ensures
            batch@.receivers == fixture_views(receivers@),
            batch@.channels == channels@,
    {
        DispatchBatch { receivers, channels }
    }

    /// The calls to make on the host, in the order in which the fixtures
    /// registered. Each fixture gets the values of its own range; one call
    /// that cannot be made does not stand in the way of the others.
    pub fn invocations(&self) -> (calls: Vec<Invocation>)
        ensures
            invocation_views(calls@) == self@.invocations(),
    {
        let mut calls: Vec<Invocation> = Vec::new();
        let mut i: usize = 0;
        while i < self.receivers.len()
            invariant
                i <= self.receivers.len(),
                calls.len() == i,
                forall|k: int| 0 <= k < i ==> (#[trigger] calls[k])@ == invocation_of(
                    self.receivers[k]@,
                    self.channels@,
                ),
            decreases self.receivers.len() - i,
        {
            let fixture = &self.receivers[i];
            let call = Invocation {
                target: fixture.target(),
                method: fixture.method(),
                values: fixture.values(&self.channels),
            };
            calls.push(call);
            i += 1;
        }
        assert(invocation_views(calls@) =~= self@.invocations());
        calls
    }

    /// Number of fixtures in the batch.
    pub fn len(&self) -> (n: usize)
        ensures
            n == self@.receivers.len(),
    {
        self.receivers.len()
    }

    /// The frame of the batch.
    pub fn channels(&self) -> (channels: &Vec<u8>)
        ensures
            channels@ == self@.channels,
    {
        &self.channels
    }

    /// The affected fixtures, in registration order.
    pub fn receivers(&self) -> (receivers: &Vec<DMXFixture>)
        ensures
            fixture_views(receivers@) == self@.receivers,
    {
        &self.receivers
    }
}

} // verus!
