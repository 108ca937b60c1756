use vstd::prelude::*;

use crate::error::Error;
use crate::error::FrameKind;
use crate::frame::ConvertibleFrame;
use crate::id::CommunicationObject;
use crate::id::NodeId;

verus! {

/// The operating state a node reports in its heartbeat frame.
#[derive(Copy, Clone, Debug, PartialEq, Eq, Structural)]
pub enum NmtState {
    BootUp,
    Stopped,
    Operational,
    PreOperational,
}

impl NmtState {
    /// The wire byte of each state.
    pub open spec fn spec_as_byte(self) -> u8 {
        match self {
            NmtState::BootUp => 0x00,
            NmtState::Stopped => 0x04,
            NmtState::Operational => 0x05,
            NmtState::PreOperational => 0x7F,
        }
    }

    /// The state a wire byte decodes to; every unassigned byte is
    /// rejected.
    pub open spec fn spec_from_byte(byte: u8) -> Result<Self, Error> {
        if byte == 0x00 {
            Ok(NmtState::BootUp)
        } else if byte == 0x04 {
            Ok(NmtState::Stopped)
        } else if byte == 0x05 {
            Ok(NmtState::Operational)
        } else if byte == 0x7F {
            Ok(NmtState::PreOperational)
        } else {
            Err(Error::InvalidNmtState(byte))
        }
    }

    pub fn as_byte(&self) -> (r: u8)
        ensures
            r == self.spec_as_byte(),
    {
        match self {
            NmtState::BootUp => 0x00,
            NmtState::Stopped => 0x04,
            NmtState::Operational => 0x05,
            NmtState::PreOperational => 0x7F,
        }
    }

    pub fn from_byte(byte: u8) -> (r: Result<Self, Error>)
        ensures
            r == Self::spec_from_byte(byte),
    {
        match byte {
            0x00 => Ok(NmtState::BootUp),
            0x04 => Ok(NmtState::Stopped),
            0x05 => Ok(NmtState::Operational),
            0x7F => Ok(NmtState::PreOperational),
            _ => Err(Error::InvalidNmtState(byte)),
        }
    }
}

/// A heartbeat frame: the current state of one monitored node, carried in
/// a single payload byte on that node's monitoring communication object.
#[derive(Copy, Clone, Debug, PartialEq, Eq, Structural)]
pub struct NmtNodeMonitoringFrame {
    pub node_id: NodeId,
    pub state: NmtState,
}

impl NmtNodeMonitoringFrame {
    /// The decode of a one-byte payload for the given node; any other
    /// length is rejected.
    pub open spec fn spec_new_with_bytes(node_id: NodeId, bytes: Seq<u8>) -> Result<Self, Error> {
        if bytes.len() != 1 {
            Err(
                Error::InvalidDataLength {
                    length: bytes.len() as usize,
                    kind: FrameKind::NmtNodeMonitoring,
                },
            )
        } else {
            match NmtState::spec_from_byte(bytes[0]) {
                Ok(state) => Ok(NmtNodeMonitoringFrame { node_id, state }),
                Err(e) => Err(e),
            }
        }
    }

    pub fn new(node_id: NodeId, state: NmtState) -> (r: Self)
        ensures
            r == (NmtNodeMonitoringFrame { node_id, state }),
    {
        Self { node_id, state }
    }

    pub fn new_with_bytes(node_id: NodeId, bytes: &[u8]) -> (r: Result<Self, Error>)
        ensures
            r == Self::spec_new_with_bytes(node_id, bytes@),
    {
        if bytes.len() != 1 {
            return Err(
                Error::InvalidDataLength { length: bytes.len(), kind: FrameKind::NmtNodeMonitoring },
            );
        }
        match NmtState::from_byte(bytes[0]) {
            Ok(state) => Ok(Self::new(node_id, state)),
            Err(e) => Err(e),
        }
    }
}

impl ConvertibleFrame for NmtNodeMonitoringFrame {
    open spec fn spec_communication_object(&self) -> CommunicationObject {
        CommunicationObject::NmtNodeMonitoring(self.node_id)
    }

    open spec fn spec_frame_data(&self) -> Seq<u8> {
        seq![self.state.spec_as_byte()]
    }

    fn communication_object(&self) -> (r: CommunicationObject)
        ensures
            r == self.spec_communication_object(),
    {
        CommunicationObject::NmtNodeMonitoring(self.node_id)
    }

    fn frame_data(&self) -> (r: Vec<u8>)
        ensures
            r@ == self.spec_frame_data(),
    {
        let mut data: Vec<u8> = Vec::new();
        data.push(self.state.as_byte());
        proof {
            assert(data@ =~= self.spec_frame_data());
        }
        data
    }
}

/// Round trip, value side: every heartbeat frame decodes back from its own
/// payload.
pub proof fn lemma_nmt_node_monitoring_round_trip(frame: NmtNodeMonitoringFrame)
    ensures
        NmtNodeMonitoringFrame::spec_new_with_bytes(frame.node_id, frame.spec_frame_data()) == Ok::<
            NmtNodeMonitoringFrame,
            Error,
        >(frame),
{
}

/// Round trip, byte side: every payload that decodes successfully is
/// re-encoded unchanged by the frame it decodes to.
pub proof fn lemma_nmt_node_monitoring_bytes_round_trip(node_id: NodeId, bytes: Seq<u8>)
    requires
        NmtNodeMonitoringFrame::spec_new_with_bytes(node_id, bytes) is Ok,
    ensures
        NmtNodeMonitoringFrame::spec_new_with_bytes(node_id, bytes)->Ok_0.spec_frame_data()
            =~= bytes,
{
}

} // verus!
