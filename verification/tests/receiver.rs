use artnet_protocol::{ArtCommand, Output, Poll, PollReply, PortAddress};
use stagehand::command::Command;
use stagehand::fixture::TargetHandle;
use stagehand::receiver::{LoopAction, LoopEvent, ARTNET_PORT};
use stagehand::registry::Registry;

fn output(universe: u16, data: Vec<u8>) -> Vec<u8> {
    let command = ArtCommand::Output(Output {
        port_address: PortAddress::try_from(universe).unwrap(),
        data: data.into(),
        ..Output::default()
    });
    command.write_to_buffer().unwrap()
}

fn registry_with_fixture(universe: u16) -> Registry {
    let mut registry = Registry::new();
    registry
        .dmx_register(TargetHandle { tag: 2, data: 1 }, "update", universe, 1, 4)
        .unwrap();
    registry
}

#[test]
fn artnet_port() {
    assert_eq!(ARTNET_PORT, 6454);
}

#[test]
fn socket_failures_stop_the_loop_with_their_message() {
    let mut registry = registry_with_fixture(0);
    match registry.handle_messages(LoopEvent::BindFailed("address in use".to_string())) {
        LoopAction::Stop(message) => assert_eq!(message, "address in use"),
        other => panic!("{:?}", other),
    }
    match registry.handle_messages(LoopEvent::ReceiveFailed("connection reset".to_string())) {
        LoopAction::Stop(message) => assert_eq!(message, "connection reset"),
        other => panic!("{:?}", other),
    }
    match registry.handle_messages(LoopEvent::SubmitFailed("queue closed".to_string())) {
        LoopAction::Stop(message) => assert_eq!(message, "queue closed"),
        other => panic!("{:?}", other),
    }
    assert!(registry.ingest(0, &vec![0; 512]).is_some());
}

#[test]
fn output_datagram_is_taken_in_for_its_universe() {
    let mut registry = registry_with_fixture(3);
    let data: Vec<u8> = (0..512).map(|i| (i % 200) as u8).collect();
    match registry.handle_messages(LoopEvent::Datagram(output(3, data.clone()))) {
        LoopAction::Submit(batch) => {
            assert_eq!(batch.channels(), &data);
            let calls = batch.invocations();
            assert_eq!(calls.len(), 1);
            assert_eq!(calls[0].values, Some(vec![0, 1, 2, 3]));
        }
        other => panic!("{:?}", other),
    }
    assert!(matches!(
        registry.handle_messages(LoopEvent::Datagram(output(3, data.clone()))),
        LoopAction::Listen
    ));
}

#[test]
fn output_datagram_for_another_universe_is_dropped() {
    let mut registry = registry_with_fixture(3);
    assert!(matches!(
        registry.handle_messages(LoopEvent::Datagram(output(4, vec![1; 512]))),
        LoopAction::Listen
    ));
    assert!(!registry.has_universe(4));
    assert!(matches!(
        registry.handle_messages(LoopEvent::Datagram(output(3, vec![1; 512]))),
        LoopAction::Submit(_)
    ));
}

#[test]
fn output_datagram_with_a_high_port_address() {
    let mut registry = registry_with_fixture(0x7FFF);
    assert!(matches!(
        registry.handle_messages(LoopEvent::Datagram(output(0x7FFF, vec![1; 512]))),
        LoopAction::Submit(_)
    ));
}

#[test]
fn malformed_datagram_is_reported_and_the_loop_goes_on() {
    let mut registry = registry_with_fixture(0);
    match registry.handle_messages(LoopEvent::Datagram(vec![1, 2, 3])) {
        LoopAction::Report(message) => assert!(!message.is_empty()),
        other => panic!("{:?}", other),
    }
    match registry.handle_messages(LoopEvent::Datagram(b"Not-Art\0\x00\x50 and more".to_vec())) {
        LoopAction::Report(message) => assert!(!message.is_empty()),
        other => panic!("{:?}", other),
    }
    assert!(matches!(
        registry.handle_messages(LoopEvent::Datagram(vec![])),
        LoopAction::Report(_)
    ));
    assert!(matches!(
        registry.handle_messages(LoopEvent::Datagram(output(0, vec![1; 512]))),
        LoopAction::Submit(_)
    ));
}

#[test]
fn poll_and_poll_reply_are_ignored() {
    let mut registry = registry_with_fixture(0);
    let poll = ArtCommand::Poll(Poll::default()).write_to_buffer().unwrap();
    assert!(matches!(registry.handle_messages(LoopEvent::Datagram(poll)), LoopAction::Listen));
    let reply = ArtCommand::PollReply(Box::new(PollReply::default())).write_to_buffer().unwrap();
    assert!(matches!(registry.handle_messages(LoopEvent::Datagram(reply)), LoopAction::Listen));
    let sync = ArtCommand::Sync.write_to_buffer().unwrap();
    let mut padded = sync.clone();
    padded.extend_from_slice(&[0, 0, 0, 0]);
    assert!(matches!(registry.handle_messages(LoopEvent::Datagram(padded)), LoopAction::Listen));
    assert!(registry.ingest(0, &vec![0; 512]).is_some());
}

#[test]
fn handle_command_takes_in_output_only() {
    let mut registry = registry_with_fixture(1);
    assert!(matches!(registry.handle_command(Command::Poll), LoopAction::Listen));
    assert!(matches!(registry.handle_command(Command::PollReply), LoopAction::Listen));
    assert!(matches!(registry.handle_command(Command::Other), LoopAction::Listen));
    assert!(matches!(
        registry.handle_command(Command::Output { port_address: 2, data: vec![5; 512] }),
        LoopAction::Listen
    ));
    match registry.handle_command(Command::Output { port_address: 1, data: vec![5; 512] }) {
        LoopAction::Submit(batch) => assert_eq!(batch.channels(), &vec![5; 512]),
        other => panic!("{:?}", other),
    }
    assert!(matches!(
        registry.handle_command(Command::Output { port_address: 1, data: vec![5; 512] }),
        LoopAction::Listen
    ));
}

#[test]
fn output_datagram_with_a_port_address_beyond_fifteen_bits_is_reported() {
    let mut registry = registry_with_fixture(0);
    let mut datagram = output(0, vec![1; 512]);
    datagram[14] = 0xFF;
    datagram[15] = 0xFF;
    assert!(matches!(
        registry.handle_messages(LoopEvent::Datagram(datagram)),
        LoopAction::Report(_)
    ));
    assert!(registry.ingest(0, &vec![1; 512]).is_some());
}

#[test]
fn output_datagram_keeps_every_byte_of_its_data() {
    let mut registry = Registry::new();
    registry
        .dmx_register(TargetHandle { tag: 2, data: 9 }, "/obj/proc/dim", 7, 509, 4)
        .unwrap();
    let data: Vec<u8> = (0..512).map(|i| (255 - i % 256) as u8).collect();
    match registry.handle_messages(LoopEvent::Datagram(output(7, data.clone()))) {
        LoopAction::Submit(batch) => {
            let calls = batch.invocations();
            assert_eq!(calls.len(), 1);
            assert_eq!(calls[0].method, "dim");
            assert_eq!(calls[0].values, Some(data[508..512].to_vec()));
        }
        other => panic!("{:?}", other),
    }
}

#[test]
fn short_output_datagram_reaches_the_fixtures_it_covers() {
    let mut registry = Registry::new();
    registry.dmx_register(TargetHandle { tag: 2, data: 1 }, "update", 0, 1, 2).unwrap();
    registry.dmx_register(TargetHandle { tag: 2, data: 2 }, "update", 0, 3, 4).unwrap();
    registry.dmx_register(TargetHandle { tag: 2, data: 3 }, "update", 0, 9, 1).unwrap();
    match registry.handle_messages(LoopEvent::Datagram(output(0, vec![4, 5, 6, 7]))) {
        LoopAction::Submit(batch) => {
            let calls = batch.invocations();
            assert_eq!(calls.len(), 2);
            assert_eq!(calls[0].values, Some(vec![4, 5]));
            assert_eq!(calls[1].target, TargetHandle { tag: 2, data: 2 });
            assert_eq!(calls[1].values, None);
        }
        other => panic!("{:?}", other),
    }
}
