use stagehand::dispatch::DispatchBatch;
use stagehand::error::RegisterError;
use stagehand::fixture::TargetHandle;
use stagehand::registry::Registry;

fn target(id: u32) -> TargetHandle {
    TargetHandle { tag: 2, data: id }
}

fn ids(batch: &DispatchBatch) -> Vec<u32> {
    batch.receivers().iter().map(|f| f.target().data).collect()
}

#[test]
fn new_registry_has_no_universe() {
    let registry = Registry::new();
    assert!(!registry.has_universe(0));
    assert!(!registry.has_universe(1));
    assert!(!registry.has_universe(0x7FFF));
}

#[test]
fn register_creates_the_universe() {
    let mut registry = Registry::new();
    assert_eq!(registry.dmx_register(target(1), "/obj/proc/update", 3, 1, 4), Ok(()));
    assert!(registry.has_universe(3));
    assert!(!registry.has_universe(0));
    assert!(!registry.has_universe(4));
}

#[test]
fn register_refuses_start_channel_zero() {
    let mut registry = Registry::new();
    assert_eq!(
        registry.dmx_register(target(1), "update", 0, 0, 4),
        Err(RegisterError::InvalidChannel)
    );
    assert!(!registry.has_universe(0));
}

#[test]
fn register_refuses_footprint_zero() {
    let mut registry = Registry::new();
    assert_eq!(
        registry.dmx_register(target(1), "update", 0, 1, 0),
        Err(RegisterError::InvalidFootprint)
    );
    assert!(!registry.has_universe(0));
}

#[test]
fn register_refuses_a_universe_id_beyond_fifteen_bits() {
    let mut registry = Registry::new();
    assert_eq!(
        registry.dmx_register(target(1), "update", 0x8000, 1, 4),
        Err(RegisterError::InvalidUniverseId)
    );
    assert_eq!(
        registry.dmx_register(target(1), "update", u16::MAX, 1, 4),
        Err(RegisterError::InvalidUniverseId)
    );
    assert!(!registry.has_universe(0x8000));
    assert!(!registry.has_universe(u16::MAX));
    assert_eq!(registry.dmx_register(target(1), "update", 0x7FFF, 1, 4), Ok(()));
    assert!(registry.has_universe(0x7FFF));
}

#[test]
fn register_refuses_a_null_target_and_an_empty_method() {
    let mut registry = Registry::new();
    assert_eq!(
        registry.dmx_register(TargetHandle { tag: 0, data: 1 }, "update", 0, 1, 4),
        Err(RegisterError::InvalidTarget)
    );
    assert_eq!(
        registry.dmx_register(target(1), "/obj/", 0, 1, 4),
        Err(RegisterError::InvalidMethodName)
    );
    assert!(!registry.has_universe(0));
}

#[test]
fn register_checks_the_fixture_before_the_universe_id() {
    let mut registry = Registry::new();
    assert_eq!(
        registry.dmx_register(target(1), "update", 0x8000, 0, 4),
        Err(RegisterError::InvalidChannel)
    );
    assert_eq!(
        registry.dmx_register(target(1), "update", 0x8000, 1, 0),
        Err(RegisterError::InvalidFootprint)
    );
    assert_eq!(
        registry.dmx_register(target(1), "update", 0x8000, 0, 0),
        Err(RegisterError::InvalidChannel)
    );
}

#[test]
fn refused_registration_leaves_the_universe_as_it_was() {
    let mut registry = Registry::new();
    registry.dmx_register(target(1), "update", 0, 1, 4).unwrap();
    assert!(registry.dmx_register(target(2), "update", 0, 0, 4).is_err());
    assert!(registry.dmx_register(target(3), "update", 0, 1, 600).is_err());
    let batch = registry.ingest(0, &vec![0; 512]).unwrap();
    assert_eq!(ids(&batch), vec![1]);
}

#[test]
fn frame_for_an_unknown_universe_is_dropped() {
    let mut registry = Registry::new();
    registry.dmx_register(target(1), "update", 1, 1, 4).unwrap();
    assert!(registry.ingest(2, &vec![1; 512]).is_none());
    assert!(!registry.has_universe(2));
    assert!(registry.has_universe(1));
    assert_eq!(ids(&registry.ingest(1, &vec![1; 512]).unwrap()), vec![1]);
}

#[test]
fn registration_is_seen_by_the_next_frame() {
    let mut registry = Registry::new();
    registry.dmx_register(target(1), "update", 0, 1, 4).unwrap();
    let mut frame = vec![0u8; 512];
    assert_eq!(ids(&registry.ingest(0, &frame).unwrap()), vec![1]);
    registry.dmx_register(target(2), "update", 0, 3, 4).unwrap();
    frame[3] = 9;
    assert_eq!(ids(&registry.ingest(0, &frame).unwrap()), vec![1, 2]);
    frame[5] = 9;
    assert_eq!(ids(&registry.ingest(0, &frame).unwrap()), vec![2]);
}

#[test]
fn universes_are_kept_apart() {
    let mut registry = Registry::new();
    registry.dmx_register(target(1), "update", 0, 1, 4).unwrap();
    registry.dmx_register(target(2), "update", 1, 1, 4).unwrap();
    registry.dmx_register(target(3), "update", 0, 2, 1).unwrap();
    assert_eq!(ids(&registry.ingest(0, &vec![0; 512]).unwrap()), vec![1, 3]);
    assert_eq!(ids(&registry.ingest(1, &vec![0; 512]).unwrap()), vec![2]);
    assert!(registry.ingest(0, &vec![0; 512]).is_none());
    assert!(registry.ingest(1, &vec![0; 512]).is_none());
    let mut frame = vec![0u8; 512];
    frame[1] = 1;
    assert_eq!(ids(&registry.ingest(1, &frame).unwrap()), vec![2]);
    assert_eq!(ids(&registry.ingest(0, &frame).unwrap()), vec![1, 3]);
}

#[test]
fn many_registrations_on_many_universes_are_all_kept() {
    let mut registry = Registry::new();
    for round in 0..4u32 {
        for universe in 0..50u16 {
            let id = round * 100 + universe as u32;
            registry.dmx_register(target(id), "update", universe, 1 + round as usize, 1).unwrap();
            if universe % 7 == 0 {
                registry.ingest(universe + 1, &vec![round as u8; 8]);
            }
        }
    }
    for universe in 0..50u16 {
        let batch = registry.ingest(universe, &vec![77; 512]).unwrap();
        let u = universe as u32;
        assert_eq!(ids(&batch), vec![u, 100 + u, 200 + u, 300 + u]);
    }
}

#[test]
fn end_to_end() {
    let mut registry = Registry::new();
    let a = target(1);
    assert_eq!(registry.dmx_register(a, "update", 0, 1, 4), Ok(()));

    let mut frame = vec![10u8; 512];
    let batch = registry.ingest(0, &frame).unwrap();
    assert_eq!(batch.len(), 1);
    assert_eq!(batch.receivers()[0].start_channel(), 0);
    assert_eq!(batch.receivers()[0].end_channel(), 3);
    let calls = batch.invocations();
    assert_eq!(calls.len(), 1);
    assert_eq!(calls[0].target, a);
    assert_eq!(calls[0].method, "update");
    assert_eq!(calls[0].values, Some(vec![10, 10, 10, 10]));

    assert!(registry.ingest(0, &frame).is_none());

    frame[5] = 99;
    assert!(registry.ingest(0, &frame).is_none());

    frame[2] = 42;
    let calls = registry.ingest(0, &frame).unwrap().invocations();
    assert_eq!(calls.len(), 1);
    assert_eq!(calls[0].target, a);
    assert_eq!(calls[0].values, Some(vec![10, 10, 42, 10]));
}
