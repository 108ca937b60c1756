use vstd::prelude::*;

use crate::error::result_view;
use crate::error::Error;
use crate::id::CanId;
use crate::id::CommunicationObject;
use crate::id::NodeId;

mod nmt_node_control;
pub use nmt_node_control::lemma_nmt_node_control_bytes_round_trip;
pub use nmt_node_control::lemma_nmt_node_control_round_trip;
pub use nmt_node_control::NmtCommand;
pub use nmt_node_control::NmtNodeControlAddress;
pub use nmt_node_control::NmtNodeControlFrame;

mod sync;
pub use sync::SyncFrame;

mod emergency;
pub use emergency::lemma_emergency_bytes_round_trip;
pub use emergency::lemma_emergency_round_trip;
pub use emergency::EmergencyFrame;

mod nmt_node_monitoring;
pub use nmt_node_monitoring::lemma_nmt_node_monitoring_bytes_round_trip;
pub use nmt_node_monitoring::lemma_nmt_node_monitoring_round_trip;
pub use nmt_node_monitoring::NmtNodeMonitoringFrame;
pub use nmt_node_monitoring::NmtState;

pub mod sdo;
pub use sdo::SdoFrame;

verus! {

/// A typed message that can be laid out on the bus: it names the
/// communication object that addresses it and produces its payload bytes.
pub trait ConvertibleFrame {
    /// The communication object this frame is addressed to.
    spec fn spec_communication_object(&self) -> CommunicationObject;

    /// The payload this frame encodes to.
    spec fn spec_frame_data(&self) -> Seq<u8>;

    /// What the frame must satisfy before it can be laid out; most kinds
    /// have nothing to ask.
    open spec fn encodable(&self) -> bool {
        true
    }

    fn communication_object(&self) -> (r: CommunicationObject)
        ensures
            r == self.spec_communication_object(),
    ;

    fn frame_data(&self) -> (r: Vec<u8>)
        requires
            self.encodable(),
        ensures
            r@ == self.spec_frame_data(),
    ;
}

/// The mathematical value of a frame of any kind.
#[verifier::ext_equal]
pub enum CanOpenFrameView {
    NmtNodeControlFrame(NmtNodeControlFrame),
    SyncFrame(SyncFrame),
    EmergencyFrame(EmergencyFrame),
    SdoFrame(sdo::SdoFrameView),
    NmtNodeMonitoringFrame(NmtNodeMonitoringFrame),
}

impl CanOpenFrameView {
    /// The communication object each kind travels on.
    pub open spec fn spec_communication_object(self) -> CommunicationObject {
        match self {
            CanOpenFrameView::NmtNodeControlFrame(f) => CommunicationObject::NmtNodeControl,
            CanOpenFrameView::SyncFrame(f) => CommunicationObject::Sync,
            CanOpenFrameView::EmergencyFrame(f) => CommunicationObject::Emergency(f.node_id),
            CanOpenFrameView::SdoFrame(f) => match f.direction {
                sdo::Direction::Tx => CommunicationObject::TxSdo(f.node_id),
                sdo::Direction::Rx => CommunicationObject::RxSdo(f.node_id),
            },
            CanOpenFrameView::NmtNodeMonitoringFrame(f) => CommunicationObject::NmtNodeMonitoring(
                f.node_id,
            ),
        }
    }

    /// The payload each kind encodes to.
    pub open spec fn spec_frame_data(self) -> Seq<u8> {
        match self {
            CanOpenFrameView::NmtNodeControlFrame(f) => f.spec_frame_data(),
            CanOpenFrameView::SyncFrame(f) => f.spec_frame_data(),
            CanOpenFrameView::EmergencyFrame(f) => f.spec_frame_data(),
            CanOpenFrameView::SdoFrame(f) => f.command.spec_as_bytes(),
            CanOpenFrameView::NmtNodeMonitoringFrame(f) => f.spec_frame_data(),
        }
    }

    /// The frames that come back unchanged from their own identifier and
    /// payload: node addresses well formed, the NMT target not the node-0
    /// broadcast byte, the emergency node not 0 (its identifier is the
    /// sync fixed point), and the SDO command one that decodes in its own
    /// direction.
    pub open spec fn decodable(self) -> bool {
        match self {
            CanOpenFrameView::NmtNodeControlFrame(f) => f.valid(),
            CanOpenFrameView::SyncFrame(f) => true,
            CanOpenFrameView::EmergencyFrame(f) => f.node_id.valid() && f.node_id.0 != 0,
            CanOpenFrameView::SdoFrame(f) => f.node_id.valid() && f.command.decodable_in(
                f.direction,
            ),
            CanOpenFrameView::NmtNodeMonitoringFrame(f) => f.node_id.valid(),
        }
    }
}

/// The closed set of message kinds that travel on the bus: the single
/// currency passed to and from the transport boundary.
#[derive(Debug, PartialEq)]
pub enum CanOpenFrame {
    NmtNodeControlFrame(NmtNodeControlFrame),
    SyncFrame(SyncFrame),
    EmergencyFrame(EmergencyFrame),
    SdoFrame(SdoFrame),
    NmtNodeMonitoringFrame(NmtNodeMonitoringFrame),
}

impl View for CanOpenFrame {
    type V = CanOpenFrameView;

    open spec fn view(&self) -> CanOpenFrameView {
        match self {
            CanOpenFrame::NmtNodeControlFrame(f) => CanOpenFrameView::NmtNodeControlFrame(*f),
            CanOpenFrame::SyncFrame(f) => CanOpenFrameView::SyncFrame(*f),
            CanOpenFrame::EmergencyFrame(f) => CanOpenFrameView::EmergencyFrame(*f),
            CanOpenFrame::SdoFrame(f) => CanOpenFrameView::SdoFrame(f@),
            CanOpenFrame::NmtNodeMonitoringFrame(f) => CanOpenFrameView::NmtNodeMonitoringFrame(
                *f,
            ),
        }
    }
}

impl CanOpenFrame {
    /// The decode of one bus frame: classify the identifier, then read
    /// the payload with the codec of the category it names.  Categories
    /// whose bodies this codec does not interpret (the PDO bands, the
    /// time stamp, the global failsafe command, the LSS services) are
    /// reported as not implemented; an extended identifier is rejected
    /// outright.
    pub open spec fn spec_decode(id: CanId, data: Seq<u8>) -> Result<CanOpenFrameView, Error> {
        match id {
            CanId::Extended(_) => Err(Error::CanFdNotSupported),
            CanId::Standard(raw) => match CommunicationObject::spec_classify(raw) {
                Err(e) => Err(e),
                Ok(cob) => match cob {
                    CommunicationObject::NmtNodeControl => match NmtNodeControlFrame::spec_new_with_bytes(
                        data,
                    ) {
                        Ok(f) => Ok(CanOpenFrameView::NmtNodeControlFrame(f)),
                        Err(e) => Err(e),
                    },
                    CommunicationObject::Sync => Ok(CanOpenFrameView::SyncFrame(SyncFrame)),
                    CommunicationObject::Emergency(node_id) => match EmergencyFrame::spec_new_with_bytes(
                        node_id,
                        data,
                    ) {
                        Ok(f) => Ok(CanOpenFrameView::EmergencyFrame(f)),
                        Err(e) => Err(e),
                    },
                    CommunicationObject::TxSdo(node_id) => match sdo::SdoFrameView::spec_new_with_bytes(
                        sdo::Direction::Tx,
                        node_id,
                        data,
                    ) {
                        Ok(f) => Ok(CanOpenFrameView::SdoFrame(f)),
                        Err(e) => Err(e),
                    },
                    CommunicationObject::RxSdo(node_id) => match sdo::SdoFrameView::spec_new_with_bytes(
                        sdo::Direction::Rx,
                        node_id,
                        data,
                    ) {
                        Ok(f) => Ok(CanOpenFrameView::SdoFrame(f)),
                        Err(e) => Err(e),
                    },
                    CommunicationObject::NmtNodeMonitoring(node_id) => match NmtNodeMonitoringFrame::spec_new_with_bytes(
                        node_id,
                        data,
                    ) {
                        Ok(f) => Ok(CanOpenFrameView::NmtNodeMonitoringFrame(f)),
                        Err(e) => Err(e),
                    },
                    _ => Err(Error::NotImplemented),
                },
            },
        }
    }

    /// Decodes one bus frame from its identifier and payload.
    pub fn new_with_id_and_data(id: CanId, data: &[u8]) -> (r: Result<Self, Error>)
        ensures
            result_view(r) == Self::spec_decode(id, data@),
    {
        let raw = match id {
            CanId::Standard(raw) => raw,
            CanId::Extended(_) => {
                return Err(Error::CanFdNotSupported);
            },
        };
        let cob = match CommunicationObject::new(raw) {
            Ok(cob) => cob,
            Err(e) => {
                return Err(e);
            },
        };
        match cob {
            CommunicationObject::NmtNodeControl => match NmtNodeControlFrame::new_with_bytes(data) {
                Ok(f) => Ok(CanOpenFrame::NmtNodeControlFrame(f)),
                Err(e) => Err(e),
            },
            CommunicationObject::Sync => Ok(CanOpenFrame::SyncFrame(SyncFrame)),
            CommunicationObject::Emergency(node_id) => match EmergencyFrame::new_with_bytes(
                node_id,
                data,
            ) {
                Ok(f) => Ok(CanOpenFrame::EmergencyFrame(f)),
                Err(e) => Err(e),
            },
            CommunicationObject::TxSdo(node_id) => match SdoFrame::new_with_bytes(
                sdo::Direction::Tx,
                node_id,
                data,
            ) {
                Ok(f) => Ok(CanOpenFrame::SdoFrame(f)),
                Err(e) => Err(e),
            },
            CommunicationObject::RxSdo(node_id) => match SdoFrame::new_with_bytes(
                sdo::Direction::Rx,
                node_id,
                data,
            ) {
                Ok(f) => Ok(CanOpenFrame::SdoFrame(f)),
                Err(e) => Err(e),
            },
            CommunicationObject::NmtNodeMonitoring(node_id) => match NmtNodeMonitoringFrame::new_with_bytes(
                node_id,
                data,
            ) {
                Ok(f) => Ok(CanOpenFrame::NmtNodeMonitoringFrame(f)),
                Err(e) => Err(e),
            },
            _ => Err(Error::NotImplemented),
        }
    }

    /// An NMT control frame wrapped in the envelope.
    pub fn new_nmt_node_control_frame(command: NmtCommand, address: NmtNodeControlAddress) -> (r:
        Self)
        ensures
            r@ == CanOpenFrameView::NmtNodeControlFrame(NmtNodeControlFrame { command, address }),
    {
        Self::NmtNodeControlFrame(NmtNodeControlFrame::new(command, address))
    }

    /// An SDO read request (initiate upload, client to server) wrapped in
    /// the envelope.
    pub fn new_sdo_read_frame(node_id: NodeId, index: u16, sub_index: u8) -> (r: Self)
        ensures
            r@ == CanOpenFrameView::SdoFrame(
                sdo::SdoFrameView {
                    direction: sdo::Direction::Rx,
                    node_id,
                    command: sdo::SdoCommandView::InitiateUploadRequest { index, sub_index },
                },
            ),
    {
        Self::SdoFrame(SdoFrame::new_sdo_read_frame(node_id, index, sub_index))
    }

    /// An SDO expedited write request (initiate download, client to
    /// server) wrapped in the envelope; more than four data bytes are
    /// rejected.
    pub fn new_sdo_write_frame(node_id: NodeId, index: u16, sub_index: u8, data: Vec<u8>) -> (r:
        Result<Self, Error>)
        ensures
            data@.len() <= 4 ==> (r matches Ok(f) && f@ == CanOpenFrameView::SdoFrame(
                sdo::SdoFrameView {
                    direction: sdo::Direction::Rx,
                    node_id,
                    command: sdo::SdoCommandView::InitiateDownloadRequest {
                        index,
                        sub_index,
                        transfer_type: sdo::SdoTransferTypeView::Expedited {
                            sized: true,
                            data: data@,
                        },
                    },
                },
            )),
            data@.len() > 4 ==> r == Err::<CanOpenFrame, Error>(
                Error::InvalidDataLength {
                    length: data@.len() as usize,
                    kind: crate::error::FrameKind::Sdo,
                },
            ),
    {
        match SdoFrame::new_sdo_write_frame(node_id, index, sub_index, data) {
            Ok(f) => Ok(Self::SdoFrame(f)),
            Err(e) => Err(e),
        }
    }
}

impl CanOpenFrame {
    /// The executable check of [`ConvertibleFrame::encodable`]: whether
    /// the frame can be laid out on the bus.
    pub fn is_encodable(&self) -> (r: bool)
        ensures
            r == self.encodable(),
    {
        match self {
            CanOpenFrame::SdoFrame(f) => f.command.is_wf(),
            _ => true,
        }
    }
}

impl ConvertibleFrame for CanOpenFrame {
    open spec fn spec_communication_object(&self) -> CommunicationObject {
        self@.spec_communication_object()
    }

    open spec fn spec_frame_data(&self) -> Seq<u8> {
        self@.spec_frame_data()
    }

    open spec fn encodable(&self) -> bool {
        match self {
            CanOpenFrame::SdoFrame(f) => f.command@.wf(),
            _ => true,
        }
    }

    fn communication_object(&self) -> (r: CommunicationObject)
        ensures
            r == self.spec_communication_object(),
    {
        match self {
            CanOpenFrame::NmtNodeControlFrame(f) => f.communication_object(),
            CanOpenFrame::SyncFrame(f) => f.communication_object(),
            CanOpenFrame::EmergencyFrame(f) => f.communication_object(),
            CanOpenFrame::SdoFrame(f) => f.communication_object(),
            CanOpenFrame::NmtNodeMonitoringFrame(f) => f.communication_object(),
        }
    }

    fn frame_data(&self) -> (r: Vec<u8>)
        ensures
            r@ == self.spec_frame_data(),
    {
        match self {
            CanOpenFrame::NmtNodeControlFrame(f) => f.frame_data(),
            CanOpenFrame::SyncFrame(f) => f.frame_data(),
            CanOpenFrame::EmergencyFrame(f) => f.frame_data(),
            CanOpenFrame::SdoFrame(f) => f.frame_data(),
            CanOpenFrame::NmtNodeMonitoringFrame(f) => f.frame_data(),
        }
    }
}

/// Round trip at the envelope: every decodable frame is read back intact
/// from the identifier and payload it lays out.
pub proof fn lemma_can_open_frame_round_trip(frame: CanOpenFrameView)
    requires
        frame.decodable(),
    ensures
        CanOpenFrame::spec_decode(
            CanId::Standard(frame.spec_communication_object().spec_cob_id()),
            frame.spec_frame_data(),
        ) == Ok::<CanOpenFrameView, Error>(frame),
{
    let cob = frame.spec_communication_object();
    crate::id::lemma_cob_id_round_trip(cob);
    match frame {
        CanOpenFrameView::NmtNodeControlFrame(f) => {
            nmt_node_control::lemma_nmt_node_control_round_trip(f);
        },
        CanOpenFrameView::SyncFrame(f) => {
        },
        CanOpenFrameView::EmergencyFrame(f) => {
            emergency::lemma_emergency_round_trip(f);
        },
        CanOpenFrameView::SdoFrame(f) => {
            sdo::lemma_sdo_frame_round_trip(f);
        },
        CanOpenFrameView::NmtNodeMonitoringFrame(f) => {
            nmt_node_monitoring::lemma_nmt_node_monitoring_round_trip(f);
        },
    }
    assert(CanOpenFrame::spec_decode(CanId::Standard(cob.spec_cob_id()), frame.spec_frame_data())
        =~= Ok::<CanOpenFrameView, Error>(frame));
}

} // verus!
