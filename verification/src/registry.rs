//! The registry: every universe that has a fixture, by its port address.

use vstd::prelude::*;
use artnet_protocol::PortAddress;
use dashmap::DashMap;
use crate::dispatch::{BatchView, DispatchBatch};
use crate::error::RegisterError;
use crate::fixture::{described_fixture, DMXFixture, FixtureView, TargetHandle};
use crate::universe::{Universe, UniverseView};

verus! {

/// The largest port address: 15 bits.
pub const MAX_PORT_ADDRESS: u16 = 0x7FFF;

/// `dashmap::DashMap`, the sharded concurrent hash map. Its inside is not
/// modelled: `universes_of` names what it holds.
#[verifier::external_type_specification]
#[verifier::external_body]
#[verifier::reject_recursive_types(K)]
#[verifier::reject_recursive_types(V)]
#[verifier::reject_recursive_types(S)]
pub struct ExDashMap<K, V, S>(DashMap<K, V, S>);

/// What a map of universes holds: for each port address in it, the state
/// of that universe.
pub uninterp spec fn universes_of(map: DashMap<u16, Universe>) -> Map<u16, UniverseView>;

/// `DashMap::new`: the new map holds no entry.
#[verifier::external_body]
fn universes_new() -> (universes: DashMap<u16, Universe>)
    ensures
        universes_of(universes) =~= Map::empty(),
{
    DashMap::new()
}

/// `DashMap::remove`: takes the entry of `id` out of the map and returns its
/// value, if there was one; every other entry stays as it was. The map is
/// borrowed exclusively here, so no other holder changes it meanwhile.
#[verifier::external_body]
fn universes_remove(map: &mut DashMap<u16, Universe>, id: u16) -> (taken: Option<Universe>)
    ensures
        universes_of(*final(map)) == universes_of(*old(map)).remove(id),
        match taken {
            Some(universe) => universes_of(*old(map)).contains_key(id) && universe@
                == universes_of(*old(map))[id],
            None => !universes_of(*old(map)).contains_key(id),
        },
{
    map.remove(&id).map(|entry| entry.1)
}

/// `DashMap::insert`: afterwards `id` maps to `universe`, whether or not it
/// had an entry before; every other entry stays as it was. The map is
/// borrowed exclusively here, so no other holder changes it meanwhile.
#[verifier::external_body]
fn universes_insert(map: &mut DashMap<u16, Universe>, id: u16, universe: Universe)
    ensures
        universes_of(*final(map)) == universes_of(*old(map)).insert(id, universe@),
{
    map.insert(id, universe);
}

/// `DashMap::contains_key`: whether `id` has an entry.
#[verifier::external_body]
fn universes_contains(map: &DashMap<u16, Universe>, id: u16) -> (found: bool)
    ensures
        found == universes_of(*map).contains_key(id),
{
    map.contains_key(&id)
}

/// `artnet_protocol::PortAddress::try_from(u16)`: a port address is made of
/// exactly the numbers 0 to 32 767.
#[verifier::external_body]
fn port_address_fits(id: u16) -> (fits: bool)
    ensures
        fits == (id <= MAX_PORT_ADDRESS),
{
    PortAddress::try_from(id).is_ok()
}

/// The universe that a registration on `id` adds to: the one that is there,
/// or an empty one.
pub open spec fn universe_at(universes: Map<u16, UniverseView>, id: u16) -> UniverseView {
    if universes.contains_key(id) {
        universes[id]
    } else {
        UniverseView::empty()
    }
}

/// The outcome of a registration, before the registry is touched: the
/// fixture is checked first, the universe id last.
pub open spec fn registration(
    target: TargetHandle,
    method_path: Seq<char>,
    universe_id: u16,
    start_channel: int,
    footprint: int,
) -> Result<FixtureView, RegisterError> {
    match described_fixture(target, method_path, start_channel, footprint) {
        Err(e) => Err(e),
        Ok(fixture) => if universe_id <= MAX_PORT_ADDRESS {
            Ok(fixture)
        } else {
            Err(RegisterError::InvalidUniverseId)
        },
    }
}

/// The registry once `fixture` is registered on universe `id`.
pub open spec fn registered(
    universes: Map<u16, UniverseView>,
    id: u16,
    fixture: FixtureView,
) -> Map<u16, UniverseView> {
    universes.insert(id, universe_at(universes, id).with_receiver(fixture))
}

/// What a frame for universe `id` hands to the host: nothing for a universe
/// that has no entry.
pub open spec fn ingest_dispatch(
    universes: Map<u16, UniverseView>,
    id: u16,
    frame: Seq<u8>,
) -> Option<BatchView> {
    if universes.contains_key(id) {
        universes[id].dispatch(frame)
    } else {
        None
    }
}

/// The registry once a frame for universe `id` was taken in: a universe
/// without an entry gets none.
pub open spec fn ingested(
    universes: Map<u16, UniverseView>,
    id: u16,
    frame: Seq<u8>,
) -> Map<u16, UniverseView> {
    if universes.contains_key(id) {
        universes.insert(id, universes[id].after_send(frame))
    } else {
        universes
    }
}

/// All universes that have had a registration, by port address. The map
/// inside is changed through `&mut self` only, so that what it holds
/// between two calls is known; threads that share a registry share it
/// behind a lock.
pub struct Registry {
    universes: DashMap<u16, Universe>,
}

impl View for Registry {
    type V = Map<u16, UniverseView>;

    closed spec fn view(&self) -> Map<u16, UniverseView> {
        universes_of(self.universes)
    }
}

impl Registry {
    /// Every key is a port address, and every universe holds well-formed fixtures.
    pub open spec fn wf(&self) -> bool {
        forall|id: u16| #[trigger]
            self@.contains_key(id) ==> id <= MAX_PORT_ADDRESS && self@[id].wf()
    }

    /// A registry without any universe.
    pub fn new() -> (registry: Self)
        ensures
            registry@ =~= Map::empty(),
            registry.wf(),
    {
        Registry { universes: universes_new() }
    }

    /// Whether universe `universe_id` has had a registration.
    pub fn has_universe(&self, universe_id: u16) -> (found: bool)
        ensures
            found == self@.contains_key(universe_id),
    {
        universes_contains(&self.universes, universe_id)
    }

    /// Registers a fixture: `method_path`'s final segment is called on
    /// `target` with the channels `start_channel .. start_channel + footprint`
    /// (counted from 1) of universe `universe_id`. The universe is created
    /// if it has no entry yet. A refused registration changes nothing.
    pub fn dmx_register(
        &mut self,
        target: TargetHandle,
        method_path: &str,
        universe_id: u16,
        start_channel: usize,
        footprint: usize,
    ) -> (outcome: Result<(), RegisterError>)
        ensures
            old(self).wf() ==> final(self).wf(),
            match registration(
                target,
                method_path@,
                universe_id,
                start_channel as int,
                footprint as int,
            ) {
                Ok(fixture) => outcome is Ok && final(self)@ == registered(
                    old(self)@,
                    universe_id,
                    fixture,
                ),
                Err(e) => outcome matches Err(given) && given == e && final(self)@ == old(self)@,
            },
    {
        let fixture = match DMXFixture::new(target, method_path, start_channel, footprint) {
            Ok(fixture) => fixture,
            Err(e) => {
                return Err(e);
            },
        };
        if !port_address_fits(universe_id) {
            return Err(RegisterError::InvalidUniverseId);
        }
        let mut universe = match universes_remove(&mut self.universes, universe_id) {
            Some(universe) => universe,
            None => Universe::default(),
        };
        universe.add_receiver(fixture);
        universes_insert(&mut self.universes, universe_id, universe);
        assert(self@ =~= registered(old(self)@, universe_id, fixture@));
        Ok(())
    }

    /// Takes in one frame for universe `universe_id`, and returns the batch
    /// for the host where the frame affects a fixture. A frame for a
    /// universe without an entry is dropped.
    pub fn ingest(&mut self, universe_id: u16, frame: &Vec<u8>) -> (batch: Option<DispatchBatch>)
        ensures
            old(self).wf() ==> final(self).wf(),
            final(self)@ == ingested(old(self)@, universe_id, frame@),
            match batch {
                Some(b) => ingest_dispatch(old(self)@, universe_id, frame@) == Some(b@),
                None => ingest_dispatch(old(self)@, universe_id, frame@) is None,
            },
    {
        match universes_remove(&mut self.universes, universe_id) {
            None => {
                assert(self@ =~= old(self)@);
                None
            },
            Some(mut universe) => {
                let batch = universe.send(frame);
                universes_insert(&mut self.universes, universe_id, universe);
                assert(self@ =~= ingested(old(self)@, universe_id, frame@));
                batch
            },
        }
    }
}

} // verus!
