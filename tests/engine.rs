use pica::packets::{
    default_caps_info, CapTlvType, DeviceConfigId, DeviceConfigStatus, DeviceParameter,
    DeviceResetCmd, DeviceState, GetCapsInfoCmd, GetConfigCmd, GetDeviceInfoCmd,
    PacketBoundaryFlag, RangingMeasurement, ReasonCode, ResetConfig, SessionState, SetConfigCmd,
    StatusCode, UciPacket,
};
use pica::ranging::range_data_notifications;
use pica::{
    Device, MockRangingEstimator, Pica, PicaError, Position, RangingEstimator, Session, MAX_DEVICE,
    MAX_SESSION,
};

struct FixedEstimator(RangingMeasurement);

impl RangingEstimator for FixedEstimator {
    fn estimate(&self, _left: usize, _right: usize) -> Option<RangingMeasurement> {
        Some(self.0)
    }
}

struct NoEstimate;

impl RangingEstimator for NoEstimate {
    fn estimate(&self, _left: usize, _right: usize) -> Option<RangingMeasurement> {
        None
    }
}

fn param(id: u8, value: &[u8]) -> DeviceParameter {
    DeviceParameter { id, value: value.to_vec() }
}

fn set_cmd(parameters: Vec<DeviceParameter>) -> SetConfigCmd {
    SetConfigCmd { packet_boundary_flag: PacketBoundaryFlag::Complete, parameters }
}

fn get_cmd(parameter_ids: Vec<u8>) -> GetConfigCmd {
    GetConfigCmd { packet_boundary_flag: PacketBoundaryFlag::Complete, parameter_ids }
}

fn connected() -> (Pica, usize) {
    let mut pica = Pica::new();
    let h = pica.connect().unwrap();
    (pica, h)
}

#[test]
fn set_config_then_get_config_returns_value() {
    let (mut pica, h) = connected();
    let out = pica.set_config(h, set_cmd(vec![param(0x01, &[7])])).unwrap();
    assert_eq!(
        out,
        vec![UciPacket::SetConfigRsp { status: StatusCode::UciStatusOk, parameters: vec![] }]
    );
    let out = pica.get_config(h, get_cmd(vec![0x01])).unwrap();
    assert_eq!(
        out,
        vec![UciPacket::GetConfigRsp {
            status: StatusCode::UciStatusOk,
            parameters: vec![param(0x01, &[7])],
        }]
    );
}

#[test]
fn set_config_last_write_wins_and_order_is_kept() {
    let (mut pica, h) = connected();
    pica.set_config(h, set_cmd(vec![param(0x01, &[1]), param(0x00, &[2])])).unwrap();
    pica.set_config(h, set_cmd(vec![param(0x01, &[3]), param(0x01, &[4, 5])])).unwrap();
    let out = pica.get_config(h, get_cmd(vec![0x01, 0x00, 0x01])).unwrap();
    assert_eq!(
        out,
        vec![UciPacket::GetConfigRsp {
            status: StatusCode::UciStatusOk,
            parameters: vec![param(0x01, &[4, 5]), param(0x00, &[2]), param(0x01, &[4, 5])],
        }]
    );
}

#[test]
fn set_config_with_invalid_ids_writes_nothing() {
    let (mut pica, h) = connected();
    pica.set_config(h, set_cmd(vec![param(0x00, &[9])])).unwrap();
    let out = pica
        .set_config(
            h,
            set_cmd(vec![param(0x01, &[5]), param(0x42, &[1]), param(0x00, &[8]), param(0x99, &[2])]),
        )
        .unwrap();
    assert_eq!(
        out,
        vec![UciPacket::SetConfigRsp {
            status: StatusCode::UciStatusInvalidParam,
            parameters: vec![
                DeviceConfigStatus { parameter_id: 0x42, status: StatusCode::UciStatusInvalidParam },
                DeviceConfigStatus { parameter_id: 0x99, status: StatusCode::UciStatusInvalidParam },
            ],
        }]
    );
    let device = pica.get_device(h).unwrap();
    assert_eq!(device.config.len(), 1);
    assert_eq!(device.config.get(&0x00), Some(&vec![9u8]));
}

#[test]
fn get_config_of_unwritten_id_is_invalid_param() {
    let (mut pica, h) = connected();
    let out = pica.get_config(h, get_cmd(vec![0x01])).unwrap();
    assert_eq!(
        out,
        vec![UciPacket::GetConfigRsp {
            status: StatusCode::UciStatusInvalidParam,
            parameters: vec![param(0x01, &[])],
        }]
    );
}

#[test]
fn get_config_reports_only_missing_ids() {
    let (mut pica, h) = connected();
    pica.set_config(h, set_cmd(vec![param(0x00, &[1])])).unwrap();
    let out = pica.get_config(h, get_cmd(vec![0x07, 0x00, 0x01])).unwrap();
    assert_eq!(
        out,
        vec![UciPacket::GetConfigRsp {
            status: StatusCode::UciStatusInvalidParam,
            parameters: vec![param(0x07, &[]), param(0x01, &[])],
        }]
    );
}

#[test]
fn get_config_of_no_ids_is_ok_and_empty() {
    let (mut pica, h) = connected();
    let out = pica.get_config(h, get_cmd(vec![])).unwrap();
    assert_eq!(
        out,
        vec![UciPacket::GetConfigRsp { status: StatusCode::UciStatusOk, parameters: vec![] }]
    );
}

#[test]
fn set_config_needs_ready_device_and_complete_packet() {
    let (mut pica, h) = connected();
    let cmd = SetConfigCmd {
        packet_boundary_flag: PacketBoundaryFlag::NotComplete,
        parameters: vec![param(0x01, &[1])],
    };
    assert_eq!(pica.set_config(h, cmd), Err(PicaError::FragmentedCommand));
    assert_eq!(pica.set_config(h + 1, set_cmd(vec![])), Err(PicaError::UnknownDevice));
}

#[test]
fn get_config_of_fragmented_command_fails() {
    let (mut pica, h) = connected();
    let cmd = GetConfigCmd { packet_boundary_flag: PacketBoundaryFlag::NotComplete, parameter_ids: vec![1] };
    assert_eq!(pica.get_config(h, cmd), Err(PicaError::FragmentedCommand));
    assert_eq!(pica.get_config(h + 1, get_cmd(vec![1])), Err(PicaError::UnknownDevice));
}

#[test]
fn config_id_recognition() {
    assert_eq!(DeviceConfigId::from_u8(0x00), Some(DeviceConfigId::DeviceState));
    assert_eq!(DeviceConfigId::from_u8(0x01), Some(DeviceConfigId::LowPowerMode));
    assert_eq!(DeviceConfigId::from_u8(0x02), None);
    assert_eq!(DeviceConfigId::from_u8(0xff), None);
}

#[test]
fn adding_sessions_beyond_max_is_refused() {
    let mut device = Device::new(3);
    for id in 0..MAX_SESSION as u32 {
        assert_eq!(device.add_session(Session::new(id, 200, vec![])), StatusCode::UciStatusOk);
    }
    assert_eq!(device.get_session_cnt(), MAX_SESSION);
    let st = device.add_session(Session::new(MAX_SESSION as u32, 200, vec![]));
    assert_eq!(st, StatusCode::UciStatusMaxSessionsExceeded);
    assert_eq!(device.get_session_cnt(), MAX_SESSION);
    assert!(device.get_session(MAX_SESSION as u32).is_none());
}

#[test]
fn duplicate_session_is_not_replaced() {
    let mut device = Device::new(0);
    assert_eq!(device.add_session(Session::new(7, 100, vec![1])), StatusCode::UciStatusOk);
    let st = device.add_session(Session::new(7, 900, vec![2, 3]));
    assert_eq!(st, StatusCode::UciStatusSessionDuplicate);
    let s = device.get_session(7).unwrap();
    assert_eq!(s.ranging_interval, 100);
    assert_eq!(s.participants, vec![1]);
    assert_eq!(device.get_session_cnt(), 1);
}

#[test]
fn remove_session_reports_absent_id() {
    let mut device = Device::new(0);
    device.add_session(Session::new(1, 100, vec![]));
    assert_eq!(device.remove_session(2), Err(PicaError::SessionNotFound));
    assert_eq!(device.remove_session(1), Ok(()));
    assert_eq!(device.get_session_cnt(), 0);
    assert_eq!(device.remove_session(1), Err(PicaError::SessionNotFound));
}

#[test]
fn session_state_change_emits_notification() {
    let mut device = Device::new(0);
    device.add_session(Session::new(4, 100, vec![]));
    let ntf = device
        .set_session_state(4, SessionState::SessionStateActive, ReasonCode::StateChangeWithSessionManagementCommands)
        .unwrap();
    assert_eq!(
        ntf,
        UciPacket::SessionStatusNtf {
            session_id: 4,
            session_state: SessionState::SessionStateActive,
            reason_code: ReasonCode::StateChangeWithSessionManagementCommands,
        }
    );
    assert_eq!(device.get_session(4).unwrap().state, SessionState::SessionStateActive);
    assert_eq!(
        device.set_session_state(5, SessionState::SessionStateIdle, ReasonCode::MaxNumberOfMeasurementsReached),
        Err(PicaError::SessionNotFound)
    );
}

#[test]
fn status_notifications_carry_their_fields() {
    let device = Device::new(0);
    assert_eq!(
        device.send_device_status_notification(DeviceState::DeviceStateError),
        UciPacket::DeviceStatusNtf { device_state: DeviceState::DeviceStateError }
    );
    assert_eq!(
        device.send_session_status_notification(9, SessionState::SessionStateDeinit, ReasonCode::ErrorSlotLengthNotSupported),
        UciPacket::SessionStatusNtf {
            session_id: 9,
            session_state: SessionState::SessionStateDeinit,
            reason_code: ReasonCode::ErrorSlotLengthNotSupported,
        }
    );
}

#[test]
fn device_reset_clears_everything_and_answers_then_notifies() {
    let (mut pica, h) = connected();
    pica.set_config(h, set_cmd(vec![param(0x01, &[7])])).unwrap();
    assert_eq!(pica.add_session(h, Session::new(1, 100, vec![])), Ok(StatusCode::UciStatusOk));
    let out = pica.device_reset(h, DeviceResetCmd { reset_config: ResetConfig::UwbsReset }).unwrap();
    assert_eq!(
        out,
        vec![
            UciPacket::DeviceResetRsp { status: StatusCode::UciStatusOk },
            UciPacket::DeviceStatusNtf { device_state: DeviceState::DeviceStateReady },
        ]
    );
    let device = pica.get_device(h).unwrap();
    assert_eq!(device.mac_address, h);
    assert_eq!(device.state, DeviceState::DeviceStateReady);
    assert!(device.config.is_empty());
    assert_eq!(device.get_session_cnt(), 0);
    assert_eq!(
        pica.device_reset(h + 1, DeviceResetCmd { reset_config: ResetConfig::UwbsReset }),
        Err(PicaError::UnknownDevice)
    );
}

#[test]
fn get_device_info_reports_versions() {
    let (mut pica, h) = connected();
    let out = pica.get_device_info(h, GetDeviceInfoCmd {}).unwrap();
    assert_eq!(
        out,
        vec![UciPacket::GetDeviceInfoRsp {
            status: StatusCode::UciStatusOk,
            uci_version: 0x110,
            mac_version: 0x130,
            phy_version: 0x130,
            uci_test_version: 0x110,
            vendor_spec_info: vec![],
        }]
    );
    assert_eq!(pica.get_device_info(h + 1, GetDeviceInfoCmd {}), Err(PicaError::UnknownDevice));
}

#[test]
fn get_caps_info_returns_whole_table() {
    let (mut pica, h) = connected();
    let out = pica.get_caps_info(h, GetCapsInfoCmd { packet_boundary_flag: PacketBoundaryFlag::Complete }).unwrap();
    assert_eq!(out.len(), 1);
    match &out[0] {
        UciPacket::GetCapsInfoRsp { status, tlvs } => {
            assert_eq!(*status, StatusCode::UciStatusOk);
            assert_eq!(tlvs.len(), 16);
            assert_eq!(tlvs[0].t, CapTlvType::SupportedFiraPhyVersionRange);
            assert_eq!(tlvs[0].v, vec![1, 1, 1, 3]);
            assert_eq!(tlvs[3].t, CapTlvType::SupportedRangingMethod);
            assert_eq!(tlvs[3].v, vec![0x1f]);
            assert_eq!(tlvs[8].t, CapTlvType::SupportedChannels);
            assert_eq!(tlvs[8].v, vec![0xff]);
            assert_eq!(tlvs[15].t, CapTlvType::SupportedExtendedMacAddress);
            assert_eq!(*tlvs, default_caps_info());
        }
        other => panic!("unexpected packet {:?}", other),
    }
    assert_eq!(
        pica.get_caps_info(h, GetCapsInfoCmd { packet_boundary_flag: PacketBoundaryFlag::NotComplete }),
        Err(PicaError::FragmentedCommand)
    );
}

#[test]
fn connect_is_bounded_and_disconnect_is_idempotent() {
    let mut pica = Pica::new();
    let mut handles = vec![];
    for _ in 0..MAX_DEVICE {
        handles.push(pica.connect().unwrap());
    }
    assert_eq!(pica.connect(), Err(PicaError::TooManyDevices));
    pica.disconnect(handles[0]);
    pica.disconnect(handles[0]);
    assert!(pica.get_device(handles[0]).is_none());
    let h = pica.connect().unwrap();
    assert!(!handles.contains(&h));
}

fn active_session(pica: &mut Pica, h: usize, id: u32, peer: usize) {
    assert_eq!(pica.add_session(h, Session::new(id, 200, vec![peer])), Ok(StatusCode::UciStatusOk));
    pica.set_session_state(h, id, SessionState::SessionStateActive, ReasonCode::StateChangeWithSessionManagementCommands)
        .unwrap();
}

#[test]
fn two_devices_range_each_other() {
    let mut pica = Pica::new();
    let a = pica.connect().unwrap();
    let b = pica.connect().unwrap();
    active_session(&mut pica, a, 1, b);
    active_session(&mut pica, b, 2, a);
    let m = RangingMeasurement { range: 150, azimuth: -20, elevation: 5 };
    let est = FixedEstimator(m);
    assert_eq!(
        pica.ranging(&est, a, 1).unwrap(),
        vec![UciPacket::RangeDataNtf { session_id: 1, peer: b, measurement: m }]
    );
    assert_eq!(
        pica.ranging(&est, b, 2).unwrap(),
        vec![UciPacket::RangeDataNtf { session_id: 2, peer: a, measurement: m }]
    );
}

#[test]
fn ranging_skips_inactive_sessions_absent_peers_and_missing_estimates() {
    let mut pica = Pica::new();
    let a = pica.connect().unwrap();
    let b = pica.connect().unwrap();
    let m = RangingMeasurement { range: 1, azimuth: 0, elevation: 0 };
    assert_eq!(pica.add_session(a, Session::new(1, 200, vec![b])), Ok(StatusCode::UciStatusOk));
    assert_eq!(pica.ranging(&FixedEstimator(m), a, 1).unwrap(), vec![]);
    pica.set_session_state(a, 1, SessionState::SessionStateActive, ReasonCode::StateChangeWithSessionManagementCommands)
        .unwrap();
    assert_eq!(pica.ranging(&NoEstimate, a, 1).unwrap(), vec![]);
    pica.disconnect(b);
    assert_eq!(pica.ranging(&FixedEstimator(m), a, 1).unwrap(), vec![]);
    assert_eq!(pica.ranging(&FixedEstimator(m), a, 2), Err(PicaError::SessionNotFound));
    assert_eq!(pica.ranging(&FixedEstimator(m), b, 1), Err(PicaError::UnknownDevice));
}

#[test]
fn coordinator_add_session_follows_device_rules() {
    let (mut pica, h) = connected();
    assert_eq!(pica.add_session(h, Session::new(1, 10, vec![])), Ok(StatusCode::UciStatusOk));
    assert_eq!(pica.add_session(h, Session::new(1, 10, vec![])), Ok(StatusCode::UciStatusSessionDuplicate));
    assert_eq!(pica.add_session(h + 1, Session::new(2, 10, vec![])), Err(PicaError::UnknownDevice));
}

#[test]
fn mock_estimator_gives_default_measurement() {
    let mut pica = Pica::new();
    let a = pica.connect().unwrap();
    let b = pica.connect().unwrap();
    active_session(&mut pica, a, 3, b);
    assert_eq!(
        pica.ranging(&MockRangingEstimator, a, 3).unwrap(),
        vec![UciPacket::RangeDataNtf {
            session_id: 3,
            peer: b,
            measurement: RangingMeasurement { range: 0, azimuth: 0, elevation: 0 },
        }]
    );
}

#[test]
fn range_data_follows_peer_order_and_skips_missing_estimates() {
    let m1 = RangingMeasurement { range: 10, azimuth: 1, elevation: -1 };
    let m3 = RangingMeasurement { range: 30, azimuth: 3, elevation: -3 };
    let out = range_data_notifications(8, &vec![4, 5, 6], &vec![Some(m1), None, Some(m3)]);
    assert_eq!(
        out,
        vec![
            UciPacket::RangeDataNtf { session_id: 8, peer: 4, measurement: m1 },
            UciPacket::RangeDataNtf { session_id: 8, peer: 6, measurement: m3 },
        ]
    );
    assert_eq!(range_data_notifications(8, &vec![], &vec![]), vec![]);
}

#[test]
fn coordinator_remove_session() {
    let (mut pica, h) = connected();
    pica.add_session(h, Session::new(5, 10, vec![])).unwrap();
    assert_eq!(pica.remove_session(h, 6), Err(PicaError::SessionNotFound));
    assert_eq!(pica.remove_session(h, 5), Ok(()));
    assert_eq!(pica.get_device(h).unwrap().get_session_cnt(), 0);
    assert_eq!(pica.remove_session(h + 1, 5), Err(PicaError::UnknownDevice));
}

#[test]
fn device_new_is_fresh() {
    let device = Device::new(12);
    assert_eq!(device.mac_address, 12);
    assert_eq!(device.position, Position::origin());
    assert_eq!(device.position.x, 0);
    assert_eq!(device.state, DeviceState::DeviceStateReady);
    assert_eq!(device.country_code, [0, 0]);
    assert!(device.config.is_empty());
    assert_eq!(device.get_session_cnt(), 0);
}
