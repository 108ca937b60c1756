use canopen_rs::frame::sdo::CommandSpecifier;
use canopen_rs::frame::sdo::Direction;
use canopen_rs::frame::sdo::SdoCommand;
use canopen_rs::frame::sdo::SdoTransferType;
use canopen_rs::frame::CanOpenFrame;
use canopen_rs::frame::ConvertibleFrame;
use canopen_rs::frame::SdoFrame;
use canopen_rs::id::CanId;
use canopen_rs::Error;
use canopen_rs::FrameKind;

#[test]
fn sdo_expedited_write_encode() {
    // Four bytes to index 0x1200 sub-index 1 of node 3.
    let frame =
        CanOpenFrame::new_sdo_write_frame(3.try_into().unwrap(), 0x1200, 1, vec![0x0A, 0x06, 0x00, 0x00])
            .unwrap();
    assert_eq!(frame.communication_object().as_cob_id(), 0x603);
    assert_eq!(
        frame.frame_data(),
        &[0x23, 0x00, 0x12, 0x01, 0x0A, 0x06, 0x00, 0x00]
    );

    // One byte to index 0x1402 sub-index 2.
    let frame =
        CanOpenFrame::new_sdo_write_frame(1.try_into().unwrap(), 0x1402, 2, vec![0xFF]).unwrap();
    assert_eq!(
        frame.frame_data(),
        &[0x2F, 0x02, 0x14, 0x02, 0xFF, 0x00, 0x00, 0x00]
    );
}

#[test]
fn sdo_write_frame_rejects_long_data() {
    let result =
        CanOpenFrame::new_sdo_write_frame(1.try_into().unwrap(), 0x1200, 1, vec![1, 2, 3, 4, 5]);
    assert_eq!(
        result,
        Err(Error::InvalidDataLength {
            length: 5,
            kind: FrameKind::Sdo
        })
    );
    let result =
        SdoFrame::new_sdo_write_frame(1.try_into().unwrap(), 0x1200, 1, vec![0; 8]);
    assert_eq!(
        result,
        Err(Error::InvalidDataLength {
            length: 8,
            kind: FrameKind::Sdo
        })
    );
}

#[test]
fn sdo_abort_decode() {
    let frame = SdoFrame::new_with_bytes(
        Direction::Tx,
        5.try_into().unwrap(),
        &[0x80, 0x00, 0x10, 0x00, 0x02, 0x00, 0x01, 0x06],
    )
    .unwrap();
    assert_eq!(
        frame.command,
        SdoCommand::AbortTransfer {
            index: 0x1000,
            sub_index: 0,
            abort_code: 0x06010002,
        }
    );
}

#[test]
fn invalid_command_specifier_in_either_direction() {
    assert_eq!(
        CommandSpecifier::new(Direction::Rx, 7),
        Err(Error::InvalidClientCommandSpecifier(7))
    );
    assert_eq!(
        CommandSpecifier::new(Direction::Tx, 7),
        Err(Error::InvalidCommandSpecifier(7))
    );
    // Through a whole frame: specifier bits 0b111 in the first byte.
    let result = SdoFrame::new_with_bytes(
        Direction::Rx,
        1.try_into().unwrap(),
        &[0xE0, 0x00, 0x00, 0x00, 0x00, 0x00, 0x00, 0x00],
    );
    assert_eq!(result, Err(Error::InvalidClientCommandSpecifier(7)));
    let result = SdoFrame::new_with_bytes(
        Direction::Tx,
        1.try_into().unwrap(),
        &[0xE0, 0x00, 0x00, 0x00, 0x00, 0x00, 0x00, 0x00],
    );
    assert_eq!(result, Err(Error::InvalidCommandSpecifier(7)));
}

#[test]
fn unrecognized_communication_object() {
    // A PDO band: classified, but its body is not interpreted.
    let frame = CanOpenFrame::new_with_id_and_data(CanId::Standard(0x181), &[0x00, 0x01]);
    assert_eq!(frame, Err(Error::NotImplemented));
    let frame = CanOpenFrame::new_with_id_and_data(CanId::Standard(0x47F), &[]);
    assert_eq!(frame, Err(Error::NotImplemented));
    // The LSS fixed points, the time stamp, and the global failsafe
    // command likewise.
    let frame = CanOpenFrame::new_with_id_and_data(CanId::Standard(0x7E4), &[]);
    assert_eq!(frame, Err(Error::NotImplemented));
    let frame = CanOpenFrame::new_with_id_and_data(CanId::Standard(0x100), &[]);
    assert_eq!(frame, Err(Error::NotImplemented));
    let frame = CanOpenFrame::new_with_id_and_data(CanId::Standard(0x001), &[]);
    assert_eq!(frame, Err(Error::NotImplemented));
    // An identifier outside every band is invalid, not unimplemented.
    let frame = CanOpenFrame::new_with_id_and_data(CanId::Standard(0x7E6), &[]);
    assert_eq!(frame, Err(Error::InvalidCobId(0x7E6)));
    let frame = CanOpenFrame::new_with_id_and_data(CanId::Standard(0x800), &[]);
    assert_eq!(frame, Err(Error::InvalidCobId(0x800)));
    // An extended identifier is rejected outright.
    let frame = CanOpenFrame::new_with_id_and_data(CanId::Extended(0x181), &[]);
    assert_eq!(frame, Err(Error::CanFdNotSupported));
}

#[test]
fn short_payloads_report_their_length_and_kind() {
    assert_eq!(
        CanOpenFrame::new_with_id_and_data(CanId::Standard(0x000), &[0x01]),
        Err(Error::InvalidDataLength {
            length: 1,
            kind: FrameKind::NmtNodeControl
        })
    );
    assert_eq!(
        CanOpenFrame::new_with_id_and_data(CanId::Standard(0x081), &[0x00, 0x00, 0x00]),
        Err(Error::InvalidDataLength {
            length: 3,
            kind: FrameKind::Emergency
        })
    );
    assert_eq!(
        CanOpenFrame::new_with_id_and_data(CanId::Standard(0x601), &[0x40, 0x18]),
        Err(Error::InvalidDataLength {
            length: 2,
            kind: FrameKind::Sdo
        })
    );
    assert_eq!(
        CanOpenFrame::new_with_id_and_data(CanId::Standard(0x701), &[]),
        Err(Error::InvalidDataLength {
            length: 0,
            kind: FrameKind::NmtNodeMonitoring
        })
    );
}

#[test]
fn round_trip_through_the_envelope() {
    // Encoding a frame and decoding its identifier and payload gives the
    // frame back, for each message kind.
    let samples = vec![
        CanOpenFrame::new_nmt_node_control_frame(
            canopen_rs::frame::NmtCommand::ResetNode,
            canopen_rs::frame::NmtNodeControlAddress::Node(7.try_into().unwrap()),
        ),
        CanOpenFrame::SyncFrame(canopen_rs::frame::SyncFrame),
        CanOpenFrame::EmergencyFrame(canopen_rs::frame::EmergencyFrame::new(
            2.try_into().unwrap(),
            0x1234,
            0x56,
        )),
        CanOpenFrame::new_sdo_read_frame(1.try_into().unwrap(), 0x1018, 2),
        CanOpenFrame::new_sdo_write_frame(3.try_into().unwrap(), 0x1200, 1, vec![0x0A, 0x06])
            .unwrap(),
        CanOpenFrame::SdoFrame(SdoFrame {
            direction: Direction::Tx,
            node_id: 5.try_into().unwrap(),
            command: SdoCommand::AbortTransfer {
                index: 0x1000,
                sub_index: 0,
                abort_code: 0x06010002,
            },
        }),
        CanOpenFrame::NmtNodeMonitoringFrame(canopen_rs::frame::NmtNodeMonitoringFrame::new(
            4.try_into().unwrap(),
            canopen_rs::frame::NmtState::Operational,
        )),
    ];
    for frame in samples {
        let id = CanId::Standard(frame.communication_object().as_cob_id());
        let data = frame.frame_data();
        assert_eq!(CanOpenFrame::new_with_id_and_data(id, &data), Ok(frame));
    }
}

#[test]
fn round_trip_of_a_normal_transfer() {
    // A normal (segmented) download announcement carries its total size
    // as a 32-bit count; the largest one survives the trip.
    let command = SdoCommand::InitiateDownloadRequest {
        index: 0x2001,
        sub_index: 3,
        transfer_type: SdoTransferType::Normal { size: 0xFFFF_FFFF },
    };
    let bytes = command.as_bytes();
    assert_eq!(bytes, vec![0x21, 0x01, 0x20, 0x03, 0xFF, 0xFF, 0xFF, 0xFF]);
    let decoded = SdoFrame::new_with_bytes(Direction::Rx, 1.try_into().unwrap(), &bytes).unwrap();
    assert_eq!(decoded.command, command);
}

#[test]
fn empty_sized_expedited_write_encodes_like_four_bytes() {
    // The void-byte count of an empty sized payload does not fit its two
    // bits; the frame goes out with the count masked off and reads back
    // as four zero bytes.
    let frame =
        SdoFrame::new_sdo_write_frame(1.try_into().unwrap(), 0x1200, 1, vec![]).unwrap();
    assert_eq!(
        frame.frame_data(),
        &[0x23, 0x00, 0x12, 0x01, 0x00, 0x00, 0x00, 0x00]
    );
}

#[test]
fn segment_frames_do_not_decode() {
    // Segment continuation frames encode but have no decode path.
    let result = SdoFrame::new_with_bytes(
        Direction::Rx,
        1.try_into().unwrap(),
        &[0x00, 0x01, 0x02, 0x03, 0x04, 0x05, 0x06, 0x07],
    );
    assert_eq!(result, Err(Error::NotImplemented));
    // So does an initiate download whose transfer bits announce an
    // unsized normal transfer.
    let result = SdoFrame::new_with_bytes(
        Direction::Rx,
        1.try_into().unwrap(),
        &[0x20, 0x01, 0x02, 0x03, 0x00, 0x00, 0x00, 0x00],
    );
    assert_eq!(result, Err(Error::NotImplemented));
}
