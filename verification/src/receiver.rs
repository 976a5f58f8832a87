//! The decisions of the receive loop. The loop itself, with its socket and
//! its queue to the host, runs outside; it reports what happened as a
//! `LoopEvent` and carries out the `LoopAction` that comes back.

use vstd::prelude::*;
use crate::command::{artnet_command, decode, decode_error_text, Command, CommandView};
use crate::dispatch::{BatchView, DispatchBatch};
use crate::registry::{ingest_dispatch, ingested, Registry};
use crate::universe::UniverseView;

verus! {

/// The UDP port that ArtNet is received on.
pub const ARTNET_PORT: u16 = 6454;

/// What the loop met.
#[derive(Debug)]
pub enum LoopEvent {
    /// The socket could not be bound.
    BindFailed(String),
    /// Reading from the socket failed.
    ReceiveFailed(String),
    /// One datagram arrived.
    Datagram(Vec<u8>),
    /// The host's queue did not take a batch.
    SubmitFailed(String),
}

/// What the loop does next.
#[derive(Debug)]
pub enum LoopAction {
    /// Nothing to hand on: wait for the next datagram.
    Listen,
    /// Hand the batch to the host's queue, then wait for the next datagram.
    Submit(DispatchBatch),
    /// Report the message, then wait for the next datagram.
    Report(String),
    /// Report the message once and end the loop.
    Stop(String),
}

/// What a decoded command hands to the host: only an output packet can
/// hand anything.
pub open spec fn command_dispatch(
    universes: Map<u16, UniverseView>,
    command: CommandView,
) -> Option<BatchView> {
    match command {
        CommandView::Output { port_address, data } => ingest_dispatch(
            universes,
            port_address,
            data,
        ),
        _ => None,
    }
}

/// The registry once a decoded command was handled: only an output packet
/// changes it.
pub open spec fn command_handled(
    universes: Map<u16, UniverseView>,
    command: CommandView,
) -> Map<u16, UniverseView> {
    match command {
        CommandView::Output { port_address, data } => ingested(universes, port_address, data),
        _ => universes,
    }
}

impl Registry {
    /// Handles one decoded command. An output packet is taken in as a frame
    /// for its universe; every other command is accepted and ignored.
    pub fn handle_command(&mut self, command: Command) -> (action: LoopAction)
        ensures
            old(self).wf() ==> final(self).wf(),
            final(self)@ == command_handled(old(self)@, command@),
            match action {
                LoopAction::Submit(batch) => command_dispatch(old(self)@, command@) == Some(batch@),
                LoopAction::Listen => command_dispatch(old(self)@, command@) is None,
                _ => false,
            },
    {
        match command {
            Command::Output { port_address, data } => {
                match self.ingest(port_address, &data) {
                    Some(batch) => LoopAction::Submit(batch),
                    None => LoopAction::Listen,
                }
            },
            _ => LoopAction::Listen,
        }
    }

    /// Decides on one event of the receive loop. A failure of the socket or
    /// of the host's queue ends the loop with its message. A datagram that
    /// is no ArtNet packet is reported and the loop goes on. A datagram that
    /// decodes is handled as `handle_command` says.
    pub fn handle_messages(&mut self, event: LoopEvent) -> (action: LoopAction)
        ensures
            old(self).wf() ==> final(self).wf(),
            event matches LoopEvent::BindFailed(m) ==> action == LoopAction::Stop(m),
            event matches LoopEvent::ReceiveFailed(m) ==> action == LoopAction::Stop(m),
            event matches LoopEvent::SubmitFailed(m) ==> action == LoopAction::Stop(m),
            !(event is Datagram) ==> final(self)@ == old(self)@,
            event matches LoopEvent::Datagram(bytes) ==> match artnet_command(bytes@) {
                None => action is Report && final(self)@ == old(self)@,
                Some(command) => {
                    &&& final(self)@ == command_handled(old(self)@, command)
                    &&& match action {
                        LoopAction::Submit(batch) => command_dispatch(old(self)@, command) == Some(
                            batch@,
                        ),
                        LoopAction::Listen => command_dispatch(old(self)@, command) is None,
                        _ => false,
                    }
                },
            },
    {
        match event {
            LoopEvent::BindFailed(message) => LoopAction::Stop(message),
            LoopEvent::ReceiveFailed(message) => LoopAction::Stop(message),
            LoopEvent::SubmitFailed(message) => LoopAction::Stop(message),
            LoopEvent::Datagram(bytes) => match decode(bytes.as_slice()) {
                Err(e) => LoopAction::Report(decode_error_text(&e)),
                Ok(command) => self.handle_command(command),
            },
        }
    }
}

} // verus!
