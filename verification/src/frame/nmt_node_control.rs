use vstd::prelude::*;

use crate::error::Error;
use crate::error::FrameKind;
use crate::frame::ConvertibleFrame;
use crate::id::CommunicationObject;
use crate::id::NodeId;

verus! {

/// A network-management state command: the first byte of an NMT control
/// frame.
#[derive(Copy, Clone, Debug, PartialEq, Eq, Structural)]
pub enum NmtCommand {
    Operational,
    Stopped,
    PreOperational,
    ResetNode,
    ResetCommunication,
}

impl NmtCommand {
    /// The wire byte of each command.
    pub open spec fn spec_as_byte(self) -> u8 {
        match self {
            NmtCommand::Operational => 0x01,
            NmtCommand::Stopped => 0x02,
            NmtCommand::PreOperational => 0x80,
            NmtCommand::ResetNode => 0x81,
            NmtCommand::ResetCommunication => 0x82,
        }
    }

    /// The command a wire byte decodes to; every unassigned byte is
    /// rejected.
    pub open spec fn spec_from_byte(byte: u8) -> Result<Self, Error> {
        if byte == 0x01 {
            Ok(NmtCommand::Operational)
        } else if byte == 0x02 {
            Ok(NmtCommand::Stopped)
        } else if byte == 0x80 {
            Ok(NmtCommand::PreOperational)
        } else if byte == 0x81 {
            Ok(NmtCommand::ResetNode)
        } else if byte == 0x82 {
            Ok(NmtCommand::ResetCommunication)
        } else {
            Err(Error::InvalidNmtCommand(byte))
        }
    }

    pub fn as_byte(&self) -> (r: u8)
        ensures
            r == self.spec_as_byte(),
    {
        match self {
            NmtCommand::Operational => 0x01,
            NmtCommand::Stopped => 0x02,
            NmtCommand::PreOperational => 0x80,
            NmtCommand::ResetNode => 0x81,
            NmtCommand::ResetCommunication => 0x82,
        }
    }

    pub fn from_byte(byte: u8) -> (r: Result<Self, Error>)
        ensures
            r == Self::spec_from_byte(byte),
    {
        match byte {
            0x01 => Ok(NmtCommand::Operational),
            0x02 => Ok(NmtCommand::Stopped),
            0x80 => Ok(NmtCommand::PreOperational),
            0x81 => Ok(NmtCommand::ResetNode),
            0x82 => Ok(NmtCommand::ResetCommunication),
            _ => Err(Error::InvalidNmtCommand(byte)),
        }
    }
}

/// The target of an NMT control frame: every node at once, or one
/// addressed node.  The all-nodes sentinel is byte 0x00.
#[derive(Copy, Clone, Debug, PartialEq, Eq, Structural)]
pub enum NmtNodeControlAddress {
    AllNodes,
    Node(NodeId),
}

impl NmtNodeControlAddress {
    pub open spec fn spec_as_byte(self) -> u8 {
        match self {
            NmtNodeControlAddress::AllNodes => 0x00,
            NmtNodeControlAddress::Node(node_id) => node_id.0,
        }
    }

    pub open spec fn spec_from_byte(byte: u8) -> Result<Self, Error> {
        if byte == 0x00 {
            Ok(NmtNodeControlAddress::AllNodes)
        } else if byte < 0x80 {
            Ok(NmtNodeControlAddress::Node(NodeId(byte)))
        } else {
            Err(Error::InvalidNodeId(byte))
        }
    }

    /// An address decodes back to itself unless it is a node address
    /// holding the broadcast byte 0, which decodes to the sentinel.
    pub open spec fn valid(self) -> bool {
        match self {
            NmtNodeControlAddress::AllNodes => true,
            NmtNodeControlAddress::Node(node_id) => 0 < node_id.0 < 0x80,
        }
    }

    pub fn as_byte(&self) -> (r: u8)
        ensures
            r == self.spec_as_byte(),
    {
        match self {
            NmtNodeControlAddress::AllNodes => 0x00,
            NmtNodeControlAddress::Node(node_id) => node_id.as_raw(),
        }
    }

    pub fn from_byte(value: u8) -> (r: Result<Self, Error>)
        ensures
            r == Self::spec_from_byte(value),
    {
        if value == 0x00 {
            Ok(NmtNodeControlAddress::AllNodes)
        } else {
            match NodeId::new(value) {
                Ok(node_id) => Ok(NmtNodeControlAddress::Node(node_id)),
                Err(e) => Err(e),
            }
        }
    }
}

/// A network-management control frame: a command and the node (or every
/// node) it is addressed to.  It always travels on the fixed NMT control
/// communication object, whatever the target; the payload is the two bytes
/// [command, address].
#[derive(Copy, Clone, Debug, PartialEq, Eq, Structural)]
pub struct NmtNodeControlFrame {
    pub command: NmtCommand,
    pub address: NmtNodeControlAddress,
}

impl NmtNodeControlFrame {
    pub open spec fn valid(self) -> bool {
        self.address.valid()
    }

    /// The decode of a two-byte payload; any other length is rejected, as
    /// is an unassigned command byte or an address byte with the high bit
    /// set.
    pub open spec fn spec_new_with_bytes(bytes: Seq<u8>) -> Result<Self, Error> {
        if bytes.len() != 2 {
            Err(
                Error::InvalidDataLength {
                    length: bytes.len() as usize,
                    kind: FrameKind::NmtNodeControl,
                },
            )
        } else {
            match NmtCommand::spec_from_byte(bytes[0]) {
                Ok(command) => match NmtNodeControlAddress::spec_from_byte(bytes[1]) {
                    Ok(address) => Ok(NmtNodeControlFrame { command, address }),
                    Err(e) => Err(e),
                },
                Err(e) => Err(e),
            }
        }
    }

    pub fn new(command: NmtCommand, address: NmtNodeControlAddress) -> (r: Self)
        ensures
            r == (NmtNodeControlFrame { command, address }),
    {
        Self { command, address }
    }

    pub fn new_with_bytes(bytes: &[u8]) -> (r: Result<Self, Error>)
        ensures
            r == Self::spec_new_with_bytes(bytes@),
    {
        if bytes.len() != 2 {
            return Err(
                Error::InvalidDataLength { length: bytes.len(), kind: FrameKind::NmtNodeControl },
            );
        }
        let command = match NmtCommand::from_byte(bytes[0]) {
            Ok(command) => command,
            Err(e) => {
                return Err(e);
            },
        };
        let address = match NmtNodeControlAddress::from_byte(bytes[1]) {
            Ok(address) => address,
            Err(e) => {
                return Err(e);
            },
        };
        Ok(Self::new(command, address))
    }
}

impl ConvertibleFrame for NmtNodeControlFrame {
    open spec fn spec_communication_object(&self) -> CommunicationObject {
        CommunicationObject::NmtNodeControl
    }

    open spec fn spec_frame_data(&self) -> Seq<u8> {
        seq![self.command.spec_as_byte(), self.address.spec_as_byte()]
    }

    fn communication_object(&self) -> (r: CommunicationObject)
        ensures
            r == self.spec_communication_object(),
    {
        CommunicationObject::NmtNodeControl
    }

    fn frame_data(&self) -> (r: Vec<u8>)
        ensures
            r@ == self.spec_frame_data(),
    {
        let mut data: Vec<u8> = Vec::new();
        data.push(self.command.as_byte());
        data.push(self.address.as_byte());
        proof {
            assert(data@ =~= self.spec_frame_data());
        }
        data
    }
}

/// Round trip, value side: every valid NMT control frame decodes back from
/// its own payload.  A frame addressed to node 0 is excluded: its address
/// byte is the all-nodes sentinel and decodes to it.
pub proof fn lemma_nmt_node_control_round_trip(frame: NmtNodeControlFrame)
    requires
        frame.valid(),
    ensures
        NmtNodeControlFrame::spec_new_with_bytes(frame.spec_frame_data()) == Ok::<
            NmtNodeControlFrame,
            Error,
        >(frame),
{
}

/// Round trip, byte side: every payload that decodes successfully is
/// re-encoded unchanged by the frame it decodes to.
pub proof fn lemma_nmt_node_control_bytes_round_trip(bytes: Seq<u8>)
    requires
        NmtNodeControlFrame::spec_new_with_bytes(bytes) is Ok,
    ensures
        NmtNodeControlFrame::spec_new_with_bytes(bytes)->Ok_0.spec_frame_data() =~= bytes,
{
}

} // verus!
