use canopen_rs::frame::ConvertibleFrame;
use canopen_rs::frame::NmtCommand;
use canopen_rs::frame::NmtNodeControlAddress;
use canopen_rs::frame::NmtNodeControlFrame;
use canopen_rs::id::CommunicationObject;
use canopen_rs::Error;

#[test]
fn test_nmt_command_to_byte() {
    assert_eq!(NmtCommand::Operational.as_byte(), 0x01);
    assert_eq!(NmtCommand::Stopped.as_byte(), 0x02);
    assert_eq!(NmtCommand::PreOperational.as_byte(), 0x80);
    assert_eq!(NmtCommand::ResetNode.as_byte(), 0x81);
    assert_eq!(NmtCommand::ResetCommunication.as_byte(), 0x82);
}

#[test]
fn test_nmt_command_from_byte() {
    let command = NmtCommand::from_byte(0x01);
    assert_eq!(command, Ok(NmtCommand::Operational));
    let command = NmtCommand::from_byte(0x02);
    assert_eq!(command, Ok(NmtCommand::Stopped));
    let command = NmtCommand::from_byte(0x80);
    assert_eq!(command, Ok(NmtCommand::PreOperational));
    let command = NmtCommand::from_byte(0x81);
    assert_eq!(command, Ok(NmtCommand::ResetNode));
    let command = NmtCommand::from_byte(0x82);
    assert_eq!(command, Ok(NmtCommand::ResetCommunication));
    let command = NmtCommand::from_byte(0x00);
    assert_eq!(command, Err(Error::InvalidNmtCommand(0x00)));
    let command = NmtCommand::from_byte(0x03);
    assert_eq!(command, Err(Error::InvalidNmtCommand(0x03)));
    let command = NmtCommand::from_byte(0xFF);
    assert_eq!(command, Err(Error::InvalidNmtCommand(0xFF)));
}

#[test]
fn test_nmt_node_control_address_to_byte() {
    assert_eq!(NmtNodeControlAddress::AllNodes.as_byte(), 0x00);
    assert_eq!(
        NmtNodeControlAddress::Node(1.try_into().unwrap()).as_byte(),
        0x01
    );
    assert_eq!(
        NmtNodeControlAddress::Node(127.try_into().unwrap()).as_byte(),
        0x7F
    );
}

#[test]
fn test_nmt_node_control_address_from_byte() {
    let address = NmtNodeControlAddress::from_byte(0x00);
    assert_eq!(address, Ok(NmtNodeControlAddress::AllNodes));
    let address = NmtNodeControlAddress::from_byte(0x01);
    assert_eq!(
        address,
        Ok(NmtNodeControlAddress::Node(1.try_into().unwrap()))
    );
    let address = NmtNodeControlAddress::from_byte(0x7F);
    assert_eq!(
        address,
        Ok(NmtNodeControlAddress::Node(127.try_into().unwrap()))
    );
    let address = NmtNodeControlAddress::from_byte(0x80);
    assert_eq!(address, Err(Error::InvalidNodeId(128)));
    let address = NmtNodeControlAddress::from_byte(0xFF);
    assert_eq!(address, Err(Error::InvalidNodeId(255)));
}

#[test]
fn test_from_bytes() {
    let frame = NmtNodeControlFrame::new_with_bytes(&[0x01, 0x00]);
    assert_eq!(
        frame,
        Ok(NmtNodeControlFrame {
            command: NmtCommand::Operational,
            address: NmtNodeControlAddress::AllNodes
        })
    );
    let frame = NmtNodeControlFrame::new_with_bytes(&[0x02, 0x01]);
    assert_eq!(
        frame,
        Ok(NmtNodeControlFrame {
            command: NmtCommand::Stopped,
            address: NmtNodeControlAddress::Node(1.try_into().unwrap()),
        })
    );
    let frame = NmtNodeControlFrame::new_with_bytes(&[0x80, 0x02]);
    assert_eq!(
        frame,
        Ok(NmtNodeControlFrame {
            command: NmtCommand::PreOperational,
            address: NmtNodeControlAddress::Node(2.try_into().unwrap()),
        })
    );
    let frame = NmtNodeControlFrame::new_with_bytes(&[0x81, 0x03]);
    assert_eq!(
        frame,
        Ok(NmtNodeControlFrame {
            command: NmtCommand::ResetNode,
            address: NmtNodeControlAddress::Node(3.try_into().unwrap()),
        })
    );
    let frame = NmtNodeControlFrame::new_with_bytes(&[0x82, 0x7F]);
    assert_eq!(
        frame,
        Ok(NmtNodeControlFrame {
            command: NmtCommand::ResetCommunication,
            address: NmtNodeControlAddress::Node(127.try_into().unwrap()),
        })
    );
    let frame = NmtNodeControlFrame::new_with_bytes(&[0x00, 0x00]);
    assert_eq!(frame, Err(Error::InvalidNmtCommand(0)));
    let frame = NmtNodeControlFrame::new_with_bytes(&[0x03, 0x00]);
    assert_eq!(frame, Err(Error::InvalidNmtCommand(3)));
    let frame = NmtNodeControlFrame::new_with_bytes(&[0xFF, 0x00]);
    assert_eq!(frame, Err(Error::InvalidNmtCommand(255)));
    let frame = NmtNodeControlFrame::new_with_bytes(&[0x01, 0x80]);
    assert_eq!(frame, Err(Error::InvalidNodeId(128)));
    let frame = NmtNodeControlFrame::new_with_bytes(&[0x01, 0xFF]);
    assert_eq!(frame, Err(Error::InvalidNodeId(255)));
}

#[test]
fn nmt_node_control_test_communication_object() {
    let frame = NmtNodeControlFrame::new(NmtCommand::Operational, NmtNodeControlAddress::AllNodes);
    assert_eq!(
        frame.communication_object(),
        CommunicationObject::NmtNodeControl
    );
    let frame = NmtNodeControlFrame::new(
        NmtCommand::Stopped,
        NmtNodeControlAddress::Node(1.try_into().unwrap()),
    );
    assert_eq!(
        frame.communication_object(),
        CommunicationObject::NmtNodeControl
    );
    let frame = NmtNodeControlFrame::new(
        NmtCommand::PreOperational,
        NmtNodeControlAddress::Node(2.try_into().unwrap()),
    );
    assert_eq!(
        frame.communication_object(),
        CommunicationObject::NmtNodeControl
    );
    let frame = NmtNodeControlFrame::new(
        NmtCommand::ResetNode,
        NmtNodeControlAddress::Node(3.try_into().unwrap()),
    );
    assert_eq!(
        frame.communication_object(),
        CommunicationObject::NmtNodeControl
    );

    let frame = NmtNodeControlFrame::new(
        NmtCommand::ResetCommunication,
        NmtNodeControlAddress::Node(127.try_into().unwrap()),
    );
    assert_eq!(
        frame.communication_object(),
        CommunicationObject::NmtNodeControl
    );
}

#[test]
fn nmt_node_control_test_set_data() {
    let data = NmtNodeControlFrame::new(NmtCommand::Operational, NmtNodeControlAddress::AllNodes)
        .frame_data();
    assert_eq!(data.len(), 2);
    assert_eq!(data, &[0x01, 0x00]);

    let data = NmtNodeControlFrame::new(
        NmtCommand::Stopped,
        NmtNodeControlAddress::Node(1.try_into().unwrap()),
    )
    .frame_data();
    assert_eq!(data.len(), 2);
    assert_eq!(data, &[0x02, 0x01]);

    let data = NmtNodeControlFrame::new(
        NmtCommand::PreOperational,
        NmtNodeControlAddress::Node(2.try_into().unwrap()),
    )
    .frame_data();
    assert_eq!(data.len(), 2);
    assert_eq!(data, &[0x80, 0x02]);

    let data = NmtNodeControlFrame::new(
        NmtCommand::ResetNode,
        NmtNodeControlAddress::Node(3.try_into().unwrap()),
    )
    .frame_data();
    assert_eq!(data.len(), 2);
    assert_eq!(data, &[0x81, 0x03]);

    let data = NmtNodeControlFrame::new(
        NmtCommand::ResetCommunication,
        NmtNodeControlAddress::Node(127.try_into().unwrap()),
    )
    .frame_data();
    assert_eq!(data.len(), 2);
    assert_eq!(data, &[0x82, 0x7F]);
}
