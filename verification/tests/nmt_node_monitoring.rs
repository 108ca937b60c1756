use canopen_rs::frame::ConvertibleFrame;
use canopen_rs::frame::NmtNodeMonitoringFrame;
use canopen_rs::frame::NmtState;
use canopen_rs::id::CommunicationObject;
use canopen_rs::Error;

#[test]
fn test_nmt_state_to_byte() {
    assert_eq!(NmtState::BootUp.as_byte(), 0x00);
    assert_eq!(NmtState::Stopped.as_byte(), 0x04);
    assert_eq!(NmtState::Operational.as_byte(), 0x05);
    assert_eq!(NmtState::PreOperational.as_byte(), 0x7F);
}

#[test]
fn test_nmt_state_from_byte() {
    assert_eq!(NmtState::from_byte(0x00), Ok(NmtState::BootUp));
    assert_eq!(NmtState::from_byte(0x01), Err(Error::InvalidNmtState(0x01)));
    assert_eq!(NmtState::from_byte(0x02), Err(Error::InvalidNmtState(0x02)));
    assert_eq!(NmtState::from_byte(0x03), Err(Error::InvalidNmtState(0x03)));
    assert_eq!(NmtState::from_byte(0x04), Ok(NmtState::Stopped));
    assert_eq!(NmtState::from_byte(0x05), Ok(NmtState::Operational));
    assert_eq!(NmtState::from_byte(0x06), Err(Error::InvalidNmtState(0x06)));
    assert_eq!(NmtState::from_byte(0x7E), Err(Error::InvalidNmtState(0x7E)));
    assert_eq!(NmtState::from_byte(0x7F), Ok(NmtState::PreOperational));
    assert_eq!(NmtState::from_byte(0x80), Err(Error::InvalidNmtState(0x80)));
    assert_eq!(NmtState::from_byte(0xFF), Err(Error::InvalidNmtState(0xFF)));
}

#[test]
fn nmt_node_monitoring_test_from_node_id_bytes() {
    assert_eq!(
        NmtNodeMonitoringFrame::new_with_bytes(1.try_into().unwrap(), &[0x00]),
        Ok(NmtNodeMonitoringFrame {
            node_id: 1.try_into().unwrap(),
            state: NmtState::BootUp
        })
    );
    assert_eq!(
        NmtNodeMonitoringFrame::new_with_bytes(2.try_into().unwrap(), &[0x04]),
        Ok(NmtNodeMonitoringFrame {
            node_id: 2.try_into().unwrap(),
            state: NmtState::Stopped
        })
    );
    assert_eq!(
        NmtNodeMonitoringFrame::new_with_bytes(3.try_into().unwrap(), &[0x05]),
        Ok(NmtNodeMonitoringFrame {
            node_id: 3.try_into().unwrap(),
            state: NmtState::Operational
        })
    );
    assert_eq!(
        NmtNodeMonitoringFrame::new_with_bytes(4.try_into().unwrap(), &[0x7F]),
        Ok(NmtNodeMonitoringFrame {
            node_id: 4.try_into().unwrap(),
            state: NmtState::PreOperational
        })
    );

    assert_eq!(
        NmtNodeMonitoringFrame::new_with_bytes(5.try_into().unwrap(), &[0x01]),
        Err(Error::InvalidNmtState(0x01))
    );
    assert_eq!(
        NmtNodeMonitoringFrame::new_with_bytes(6.try_into().unwrap(), &[0x06]),
        Err(Error::InvalidNmtState(0x06))
    );
    assert_eq!(
        NmtNodeMonitoringFrame::new_with_bytes(7.try_into().unwrap(), &[0x80]),
        Err(Error::InvalidNmtState(0x80))
    );
}

#[test]
fn nmt_node_monitoring_test_communication_object() {
    assert_eq!(
        NmtNodeMonitoringFrame::new(1.try_into().unwrap(), NmtState::BootUp)
            .communication_object(),
        CommunicationObject::NmtNodeMonitoring(1.try_into().unwrap())
    );
    assert_eq!(
        NmtNodeMonitoringFrame::new(2.try_into().unwrap(), NmtState::Stopped)
            .communication_object(),
        CommunicationObject::NmtNodeMonitoring(2.try_into().unwrap())
    );
    assert_eq!(
        NmtNodeMonitoringFrame::new(3.try_into().unwrap(), NmtState::Operational)
            .communication_object(),
        CommunicationObject::NmtNodeMonitoring(3.try_into().unwrap())
    );
    assert_eq!(
        NmtNodeMonitoringFrame::new(4.try_into().unwrap(), NmtState::PreOperational)
            .communication_object(),
        CommunicationObject::NmtNodeMonitoring(4.try_into().unwrap())
    );
}

#[test]
fn nmt_node_monitoring_test_set_data() {
    let data = NmtNodeMonitoringFrame::new(1.try_into().unwrap(), NmtState::BootUp).frame_data();
    assert_eq!(data.len(), 1);
    assert_eq!(data, &[0x00]);

    let data = NmtNodeMonitoringFrame::new(2.try_into().unwrap(), NmtState::Stopped).frame_data();
    assert_eq!(data.len(), 1);
    assert_eq!(data, &[0x04]);

    let data =
        NmtNodeMonitoringFrame::new(3.try_into().unwrap(), NmtState::Operational).frame_data();
    assert_eq!(data.len(), 1);
    assert_eq!(data, &[0x05]);

    let data =
        NmtNodeMonitoringFrame::new(4.try_into().unwrap(), NmtState::PreOperational).frame_data();
    assert_eq!(data.len(), 1);
    assert_eq!(data, &[0x7F]);
}
