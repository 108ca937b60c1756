use vstd::arithmetic::div_mod::lemma_fundamental_div_mod;
use vstd::arithmetic::div_mod::lemma_fundamental_div_mod_converse;
use vstd::prelude::*;

use crate::error::Error;
use crate::error::FrameKind;
use crate::frame::ConvertibleFrame;
use crate::id::CommunicationObject;
use crate::id::NodeId;

verus! {

/// An emergency frame: an error code and an error register reported by one
/// node.  The payload is eight bytes: the code little-endian, the
/// register, and five reserved bytes that are zero on encode and ignored
/// on decode.
#[derive(Copy, Clone, Debug, PartialEq, Eq, Structural)]
pub struct EmergencyFrame {
    pub node_id: NodeId,
    pub error_code: u16,
    pub error_register: u8,
}

impl EmergencyFrame {
    /// The decode of an eight-byte payload for the given node; any other
    /// length is rejected.
    pub open spec fn spec_new_with_bytes(node_id: NodeId, bytes: Seq<u8>) -> Result<Self, Error> {
        if bytes.len() != 8 {
            Err(Error::InvalidDataLength { length: bytes.len() as usize, kind: FrameKind::Emergency })
        } else {
            Ok(
                EmergencyFrame {
                    node_id,
                    error_code: (bytes[0] + bytes[1] * 0x100) as u16,
                    error_register: bytes[2],
                },
            )
        }
    }

    pub fn new(node_id: NodeId, error_code: u16, error_register: u8) -> (r: Self)
        ensures
            r == (EmergencyFrame { node_id, error_code, error_register }),
    {
        Self { node_id, error_code, error_register }
    }

    pub fn new_with_bytes(node_id: NodeId, bytes: &[u8]) -> (r: Result<Self, Error>)
        ensures
            r == Self::spec_new_with_bytes(node_id, bytes@),
    {
        if bytes.len() != 8 {
            return Err(Error::InvalidDataLength { length: bytes.len(), kind: FrameKind::Emergency });
        }
        let error_code: u16 = bytes[0] as u16 + bytes[1] as u16 * 0x100;
        Ok(Self::new(node_id, error_code, bytes[2]))
    }
}

impl ConvertibleFrame for EmergencyFrame {
    open spec fn spec_communication_object(&self) -> CommunicationObject {
        CommunicationObject::Emergency(self.node_id)
    }

    open spec fn spec_frame_data(&self) -> Seq<u8> {
        seq![
            (self.error_code % 0x100) as u8,
            (self.error_code / 0x100) as u8,
            self.error_register,
            0,
            0,
            0,
            0,
            0,
        ]
    }

    fn communication_object(&self) -> (r: CommunicationObject)
        ensures
            r == self.spec_communication_object(),
    {
        CommunicationObject::Emergency(self.node_id)
    }

    fn frame_data(&self) -> (r: Vec<u8>)
        ensures
            r@ == self.spec_frame_data(),
    {
        let mut data: Vec<u8> = Vec::new();
        data.push((self.error_code % 0x100) as u8);
        data.push((self.error_code / 0x100) as u8);
        data.push(self.error_register);
        data.push(0);
        data.push(0);
        data.push(0);
        data.push(0);
        data.push(0);
        proof {
            assert(data@ =~= self.spec_frame_data());
        }
        data
    }
}

/// Round trip, value side: every emergency frame decodes back from its own
/// payload.
pub proof fn lemma_emergency_round_trip(frame: EmergencyFrame)
    ensures
        EmergencyFrame::spec_new_with_bytes(frame.node_id, frame.spec_frame_data()) == Ok::<
            EmergencyFrame,
            Error,
        >(frame),
{
    lemma_fundamental_div_mod(frame.error_code as int, 0x100);
}

/// Round trip, byte side: every payload that decodes successfully and
/// carries zeros in its five reserved bytes is re-encoded unchanged.
pub proof fn lemma_emergency_bytes_round_trip(node_id: NodeId, bytes: Seq<u8>)
    requires
        EmergencyFrame::spec_new_with_bytes(node_id, bytes) is Ok,
        forall|i: int| 3 <= i < 8 ==> bytes[i] == 0,
    ensures
        EmergencyFrame::spec_new_with_bytes(node_id, bytes)->Ok_0.spec_frame_data() =~= bytes,
{
    lemma_fundamental_div_mod_converse(
        bytes[0] + bytes[1] * 0x100,
        0x100,
        bytes[1] as int,
        bytes[0] as int,
    );
}

} // verus!
