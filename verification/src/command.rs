//! The ArtNet commands that the receiver tells apart.

use vstd::prelude::*;
use artnet_protocol::ArtCommand;

verus! {

/// A decoded command as mathematics.
pub enum CommandView {
    Output { port_address: u16, data: Seq<u8> },
    Poll,
    PollReply,
    Other,
}

/// A decoded ArtNet command, as far as the receiver reads it: the lighting
/// data of an output packet with the port address it is meant for, and the
/// kind of every other packet.
#[derive(Debug)]
pub enum Command {
    /// Channel values for one universe.
    Output { port_address: u16, data: Vec<u8> },
    /// A controller looks for nodes.
    Poll,
    /// A node answers a poll.
    PollReply,
    /// Any other packet of the protocol.
    Other,
}

impl View for Command {
    type V = CommandView;

    open spec fn view(&self) -> CommandView {
        match self {
            Command::Output { port_address, data } => CommandView::Output {
                port_address: *port_address,
                data: data@,
            },
            Command::Poll => CommandView::Poll,
            Command::PollReply => CommandView::PollReply,
            Command::Other => CommandView::Other,
        }
    }
}

/// `artnet_protocol::Error`: why a datagram is no ArtNet packet.
#[verifier::external_type_specification]
#[verifier::external_body]
pub struct ExArtnetError(artnet_protocol::Error);

/// The command that the ArtNet packet grammar reads out of a datagram, or
/// `None` where the datagram is no packet of that grammar.
pub uninterp spec fn artnet_command(datagram: Seq<u8>) -> Option<CommandView>;

/// `artnet_protocol::ArtCommand::from_buffer`: parses one datagram. The
/// outcome is a function of the bytes alone. Of an output packet the port
/// address and the data are kept; the other kinds lose their fields.
#[verifier::external_body]
pub(crate) fn decode(datagram: &[u8]) -> (decoded: Result<Command, artnet_protocol::Error>)
    ensures
        match decoded {
            Ok(command) => artnet_command(datagram@) == Some(command@),
            Err(_) => artnet_command(datagram@) is None,
        },
{
    match ArtCommand::from_buffer(datagram) {
        Ok(ArtCommand::Output(output)) => Ok(
            Command::Output {
                port_address: output.port_address.into(),
                data: output.data.as_ref().clone(),
            },
        ),
        Ok(ArtCommand::Poll(_)) => Ok(Command::Poll),
        Ok(ArtCommand::PollReply(_)) => Ok(Command::PollReply),
        Ok(_) => Ok(Command::Other),
        Err(e) => Err(e),
    }
}

/// `artnet_protocol::Error`'s `Display`: the error as a sentence. Nothing is
/// claimed of the wording.
#[verifier::external_body]
pub(crate) fn decode_error_text(error: &artnet_protocol::Error) -> (text: String) {
    error.to_string()
}

} // verus!
