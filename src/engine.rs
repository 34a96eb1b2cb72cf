//! The engine: the registry of connected devices and the command handlers.
//!
//! Each handler returns the packets that the target device sends back, in
//! the order in which they go out.
use crate::device::{Device, PicaError, Session, MAX_DEVICE};
use crate::ranging::{connected_peers, range_data, range_data_notifications, RangingEstimator};
use crate::packets::{
    caps_view, default_caps_info, is_valid_config_id, params_view, spec_default_caps, DeviceConfigId,
    DeviceConfigStatus, DeviceParameter, DeviceResetCmd, DeviceState, GetCapsInfoCmd, GetConfigCmd,
    GetDeviceInfoCmd, PacketBoundaryFlag, RangingMeasurement, ReasonCode, ResetConfig, SessionState,
    SetConfigCmd, StatusCode, UciPacket,
};
use std::collections::HashMap;
use vstd::prelude::*;

verus! {

broadcast use vstd::std_specs::hash::group_hash_axioms;

pub const UCI_VERSION: u16 = 0x110;

pub const MAC_VERSION: u16 = 0x130;

pub const PHY_VERSION: u16 = 0x130;

pub const TEST_VERSION: u16 = 0x110;

/// The rejected entries of a Set-Config batch, in submission order.
pub open spec fn invalid_config_statuses(ps: Seq<DeviceParameter>) -> Seq<DeviceConfigStatus>
    decreases ps.len(),
{
    if ps.len() == 0 {
        seq![]
    } else {
        let rest = invalid_config_statuses(ps.drop_last());
        let id = ps.last().id;
        if is_valid_config_id(id) {
            rest
        } else {
            rest.push(DeviceConfigStatus { parameter_id: id, status: StatusCode::UciStatusInvalidParam })
        }
    }
}

/// `cfg` after writing each parameter of `ps` in turn.
pub open spec fn apply_config(cfg: Map<u8, Seq<u8>>, ps: Seq<DeviceParameter>) -> Map<u8, Seq<u8>>
    decreases ps.len(),
{
    if ps.len() == 0 {
        cfg
    } else {
        apply_config(cfg, ps.drop_last()).insert(ps.last().id, ps.last().value@)
    }
}

/// The requested ids that `cfg` holds, with their values, in request order.
pub open spec fn found_params(cfg: Map<u8, Seq<u8>>, ids: Seq<u8>) -> Seq<(u8, Seq<u8>)>
    decreases ids.len(),
{
    if ids.len() == 0 {
        seq![]
    } else {
        let rest = found_params(cfg, ids.drop_last());
        let id = ids.last();
        if cfg.contains_key(id) {
            rest.push((id, cfg[id]))
        } else {
            rest
        }
    }
}

/// The requested ids that `cfg` lacks, each with an empty value, in request order.
pub open spec fn missing_params(cfg: Map<u8, Seq<u8>>, ids: Seq<u8>) -> Seq<(u8, Seq<u8>)>
    decreases ids.len(),
{
    if ids.len() == 0 {
        seq![]
    } else {
        let rest = missing_params(cfg, ids.drop_last());
        let id = ids.last();
        if cfg.contains_key(id) {
            rest
        } else {
            rest.push((id, Seq::<u8>::empty()))
        }
    }
}

/// `p` is a Get-Device-Info response with status Ok and the fixed versions.
pub open spec fn is_device_info_rsp(p: UciPacket) -> bool {
    match p {
        UciPacket::GetDeviceInfoRsp {
            status,
            uci_version,
            mac_version,
            phy_version,
            uci_test_version,
            vendor_spec_info,
        } => status == StatusCode::UciStatusOk && uci_version == UCI_VERSION && mac_version
            == MAC_VERSION && phy_version == PHY_VERSION && uci_test_version == TEST_VERSION
            && vendor_spec_info@.len() == 0,
        _ => false,
    }
}

/// `p` is a Get-Caps-Info response with status Ok and the whole capability table.
pub open spec fn is_caps_info_rsp(p: UciPacket) -> bool {
    match p {
        UciPacket::GetCapsInfoRsp { status, tlvs } => status == StatusCode::UciStatusOk
            && caps_view(tlvs@) == spec_default_caps(),
        _ => false,
    }
}

/// `p` is a Set-Config response with `status` and the entries `parameters`.
pub open spec fn is_set_config_rsp(
    p: UciPacket,
    st: StatusCode,
    entries: Seq<DeviceConfigStatus>,
) -> bool {
    match p {
        UciPacket::SetConfigRsp { status, parameters } => status == st && parameters@ == entries,
        _ => false,
    }
}

/// `p` is a Get-Config response with `status` and the parameters `entries`.
pub open spec fn is_get_config_rsp(
    p: UciPacket,
    st: StatusCode,
    entries: Seq<(u8, Seq<u8>)>,
) -> bool {
    match p {
        UciPacket::GetConfigRsp { status, parameters } => status == st && params_view(
            parameters@,
        ) == entries,
        _ => false,
    }
}

/// The response that Get-Config gives on `cfg` for `ids`.
pub open spec fn get_config_answer(p: UciPacket, cfg: Map<u8, Seq<u8>>, ids: Seq<u8>) -> bool {
    if missing_params(cfg, ids).len() == 0 {
        is_get_config_rsp(p, StatusCode::UciStatusOk, found_params(cfg, ids))
    } else {
        is_get_config_rsp(p, StatusCode::UciStatusInvalidParam, missing_params(cfg, ids))
    }
}

/// The engine: every connected device, by handle.
pub struct Pica {
    devices: HashMap<usize, Device>,
    next_handle: usize,
}

impl Pica {
    /// The connected devices, by handle.
    pub closed spec fn devices_view(&self) -> Map<usize, Device> {
        self.devices@
    }

    /// The handle that the next connection receives.
    pub closed spec fn spec_next_handle(&self) -> usize {
        self.next_handle
    }

    /// Each device is well formed and stored under its own handle; no more
    /// than `MAX_DEVICE` are connected; handles in use lie below the next one.
    pub closed spec fn wf(&self) -> bool {
        &&& self.devices@.len() <= MAX_DEVICE
        &&& forall|h: usize| #[trigger]
            self.devices@.contains_key(h) ==> self.devices@[h].wf() && self.devices@[h].mac_address
                == h && h < self.next_handle
    }

    /// An engine with no device.
    pub fn new() -> (r: Pica)
        ensures
            r.wf(),
            r.devices_view() == Map::<usize, Device>::empty(),
            r.spec_next_handle() == 0,
    {
        Pica { devices: HashMap::new(), next_handle: 0 }
    }

    /// Registers a new device and returns its handle, which no connected
    /// device has.
    pub fn connect(&mut self) -> (r: Result<usize, PicaError>)
        requires
            old(self).wf(),
        ensures
            final(self).wf(),
            match r {
                Ok(h) => {
                    &&& old(self).devices_view().len() < MAX_DEVICE
                    &&& h == old(self).spec_next_handle()
                    &&& final(self).spec_next_handle() == h + 1
                    &&& !old(self).devices_view().contains_key(h)
                    &&& final(self).devices_view().dom() == old(self).devices_view().dom().insert(
                        h,
                    )
                    &&& final(self).devices_view().remove(h) == old(self).devices_view()
                    &&& Device::is_fresh(final(self).devices_view()[h], h)
                },
                Err(e) => {
                    &&& *final(self) == *old(self)
                    &&& (e == PicaError::TooManyDevices <==> old(self).devices_view().len()
                        >= MAX_DEVICE)
                    &&& (e == PicaError::TooManyDevices || e == PicaError::HandlesExhausted)
                },
            },
            old(self).devices_view().len() < MAX_DEVICE && old(self).spec_next_handle()
                < usize::MAX ==> r is Ok,
    {
        if self.devices.len() >= MAX_DEVICE {
            return Err(PicaError::TooManyDevices);
        }
        if self.next_handle == usize::MAX {
            return Err(PicaError::HandlesExhausted);
        }
        let h = self.next_handle;
        self.next_handle = h + 1;
        self.devices.insert(h, Device::new(h));
        assert(self.devices@.remove(h) =~= old(self).devices@);
        assert(self.devices@.dom() =~= old(self).devices@.dom().insert(h));
        Ok(h)
    }

    /// Drops the device `device_handle`, if connected.
    pub fn disconnect(&mut self, device_handle: usize)
        requires
            old(self).wf(),
        ensures
            final(self).wf(),
            final(self).spec_next_handle() == old(self).spec_next_handle(),
            final(self).devices_view() == old(self).devices_view().remove(device_handle),
    {
        self.devices.remove(&device_handle);
        assert(self.devices@.dom().subset_of(old(self).devices@.dom()));
    }

    /// The device `device_handle`, if connected.
    pub fn get_device(&self, device_handle: usize) -> (r: Option<&Device>)
        ensures
            match r {
                Some(d) => self.devices_view().contains_key(device_handle) && *d
                    == self.devices_view()[device_handle],
                None => !self.devices_view().contains_key(device_handle),
            },
    {
        self.devices.get(&device_handle)
    }

    /// Resets the device `device_handle`: it becomes a fresh device under the
    /// same handle. The reset response goes out first, then the Ready status
    /// notification.
    pub fn device_reset(&mut self, device_handle: usize, cmd: DeviceResetCmd) -> (r: Result<
        Vec<UciPacket>,
        PicaError,
    >)
        requires
            old(self).wf(),
        ensures
            final(self).wf(),
            final(self).spec_next_handle() == old(self).spec_next_handle(),
            match r {
                Ok(pkts) => {
                    &&& old(self).devices_view().contains_key(device_handle)
                    &&& final(self).devices_view().dom() == old(self).devices_view().dom()
                    &&& final(self).devices_view().remove(device_handle) == old(
                        self,
                    ).devices_view().remove(device_handle)
                    &&& Device::is_fresh(final(self).devices_view()[device_handle], device_handle)
                    &&& pkts@ == seq![
                        UciPacket::DeviceResetRsp { status: StatusCode::UciStatusOk },
                        UciPacket::DeviceStatusNtf { device_state: DeviceState::DeviceStateReady },
                    ]
                },
                Err(e) => {
                    &&& !old(self).devices_view().contains_key(device_handle)
                    &&& e == PicaError::UnknownDevice
                    &&& final(self).devices_view() == old(self).devices_view()
                },
            },
    {
        if !self.devices.contains_key(&device_handle) {
            return Err(PicaError::UnknownDevice);
        }
        let status = match cmd.reset_config {
            ResetConfig::UwbsReset => StatusCode::UciStatusOk,
        };
        let mut pkts: Vec<UciPacket> = Vec::new();
        pkts.push(UciPacket::DeviceResetRsp { status });
        let fresh = Device::new(device_handle);
        let ntf = fresh.send_device_status_notification(DeviceState::DeviceStateReady);
        self.devices.insert(device_handle, fresh);
        pkts.push(ntf);
        assert(self.devices@.dom() =~= old(self).devices@.dom());
        assert(self.devices@.remove(device_handle) =~= old(self).devices@.remove(device_handle));
        assert(pkts@ =~= seq![
            UciPacket::DeviceResetRsp { status: StatusCode::UciStatusOk },
            UciPacket::DeviceStatusNtf { device_state: DeviceState::DeviceStateReady },
        ]);
        Ok(pkts)
    }

    /// Reports the fixed version numbers. The device must be Ready.
    pub fn get_device_info(&mut self, device_handle: usize, _cmd: GetDeviceInfoCmd) -> (r: Result<
        Vec<UciPacket>,
        PicaError,
    >)
        ensures
            *final(self) == *old(self),
            match r {
                Ok(pkts) => {
                    &&& old(self).devices_view().contains_key(device_handle)
                    &&& old(self).devices_view()[device_handle].state == DeviceState::DeviceStateReady
                    &&& pkts@.len() == 1
                    &&& is_device_info_rsp(pkts@[0])
                },
                Err(e) => if !old(self).devices_view().contains_key(device_handle) {
                    e == PicaError::UnknownDevice
                } else {
                    e == PicaError::WrongDeviceState && old(self).devices_view()[device_handle].state
                        != DeviceState::DeviceStateReady
                },
            },
    {
        let device = match self.devices.get(&device_handle) {
            Some(d) => d,
            None => return Err(PicaError::UnknownDevice),
        };
        if device.state != DeviceState::DeviceStateReady {
            return Err(PicaError::WrongDeviceState);
        }
        let mut pkts: Vec<UciPacket> = Vec::new();
        pkts.push(
            UciPacket::GetDeviceInfoRsp {
                status: StatusCode::UciStatusOk,
                uci_version: UCI_VERSION,
                mac_version: MAC_VERSION,
                phy_version: PHY_VERSION,
                uci_test_version: TEST_VERSION,
                vendor_spec_info: Vec::new(),
            },
        );
        Ok(pkts)
    }

    /// Reports the static capability table, whatever the device's state.
    pub fn get_caps_info(&mut self, device_handle: usize, cmd: GetCapsInfoCmd) -> (r: Result<
        Vec<UciPacket>,
        PicaError,
    >)
        ensures
            *final(self) == *old(self),
            match r {
                Ok(pkts) => {
                    &&& cmd.packet_boundary_flag == PacketBoundaryFlag::Complete
                    &&& old(self).devices_view().contains_key(device_handle)
                    &&& pkts@.len() == 1
                    &&& is_caps_info_rsp(pkts@[0])
                },
                Err(e) => if cmd.packet_boundary_flag != PacketBoundaryFlag::Complete {
                    e == PicaError::FragmentedCommand
                } else {
                    e == PicaError::UnknownDevice && !old(self).devices_view().contains_key(
                        device_handle,
                    )
                },
            },
    {
        if cmd.packet_boundary_flag != PacketBoundaryFlag::Complete {
            return Err(PicaError::FragmentedCommand);
        }
        if !self.devices.contains_key(&device_handle) {
            return Err(PicaError::UnknownDevice);
        }
        let mut pkts: Vec<UciPacket> = Vec::new();
        pkts.push(UciPacket::GetCapsInfoRsp { status: StatusCode::UciStatusOk, tlvs: default_caps_info() });
        Ok(pkts)
    }

    /// Writes a batch of configuration parameters. The device must be Ready.
    /// When an id in the batch is not recognised nothing is written, and the
    /// response lists exactly the rejected ids, in submission order.
    pub fn set_config(&mut self, device_handle: usize, cmd: SetConfigCmd) -> (r: Result<
        Vec<UciPacket>,
        PicaError,
    >)
        requires
            old(self).wf(),
        ensures
            final(self).wf(),
            final(self).spec_next_handle() == old(self).spec_next_handle(),
            match r {
                Ok(pkts) => {
                    let before = old(self).devices_view()[device_handle];
                    let after = final(self).devices_view()[device_handle];
                    let invalid = invalid_config_statuses(cmd.parameters@);
                    &&& old(self).devices_view().contains_key(device_handle)
                    &&& before.state == DeviceState::DeviceStateReady
                    &&& cmd.packet_boundary_flag == PacketBoundaryFlag::Complete
                    &&& final(self).devices_view().dom() == old(self).devices_view().dom()
                    &&& final(self).devices_view().remove(device_handle) == old(
                        self,
                    ).devices_view().remove(device_handle)
                    &&& Device::same_but_config(before, after)
                    &&& pkts@.len() == 1
                    &&& if invalid.len() == 0 {
                        &&& after.config_view() == apply_config(
                            before.config_view(),
                            cmd.parameters@,
                        )
                        &&& is_set_config_rsp(pkts@[0], StatusCode::UciStatusOk, seq![])
                    } else {
                        &&& after.config_view() == before.config_view()
                        &&& is_set_config_rsp(pkts@[0], StatusCode::UciStatusInvalidParam, invalid)
                    }
                },
                Err(e) => {
                    &&& final(self).devices_view() == old(self).devices_view()
                    &&& if !old(self).devices_view().contains_key(device_handle) {
                        e == PicaError::UnknownDevice
                    } else if old(self).devices_view()[device_handle].state
                        != DeviceState::DeviceStateReady {
                        e == PicaError::WrongDeviceState
                    } else {
                        e == PicaError::FragmentedCommand && cmd.packet_boundary_flag
                            != PacketBoundaryFlag::Complete
                    }
                },
            },
    {
        match self.devices.get(&device_handle) {
            Some(d) => {
                if d.state != DeviceState::DeviceStateReady {
                    return Err(PicaError::WrongDeviceState);
                }
            },
            None => return Err(PicaError::UnknownDevice),
        }
        if cmd.packet_boundary_flag != PacketBoundaryFlag::Complete {
            return Err(PicaError::FragmentedCommand);
        }
        let params = &cmd.parameters;
        let mut invalid: Vec<DeviceConfigStatus> = Vec::new();
        let mut i: usize = 0;
        while i < params.len()
            invariant
                i <= params.len(),
                invalid@ == invalid_config_statuses(params@.subrange(0, i as int)),
            decreases params.len() - i,
        {
            let id = params[i].id;
            match DeviceConfigId::from_u8(id) {
                Some(_) => {},
                None => invalid.push(
                    DeviceConfigStatus { parameter_id: id, status: StatusCode::UciStatusInvalidParam },
                ),
            }
            assert(params@.subrange(0, i + 1).drop_last() =~= params@.subrange(0, i as int));
            i = i + 1;
        }
        assert(params@.subrange(0, params.len() as int) =~= params@);
        let mut pkts: Vec<UciPacket> = Vec::new();
        if invalid.len() > 0 {
            pkts.push(
                UciPacket::SetConfigRsp { status: StatusCode::UciStatusInvalidParam, parameters: invalid },
            );
            return Ok(pkts);
        }
        let mut device = match self.devices.remove(&device_handle) {
            Some(d) => d,
            None => return Err(PicaError::UnknownDevice),
        };
        let ghost before = device;
        let mut j: usize = 0;
        while j < params.len()
            invariant
                j <= params.len(),
                Device::same_but_config(before, device),
                device.config_view() == apply_config(
                    before.config_view(),
                    params@.subrange(0, j as int),
                ),
            decreases params.len() - j,
        {
            let value = params[j].value.clone();
            assert(value@ =~= params@[j as int].value@);
            let ghost prev = device.config_view();
            device.config.insert(params[j].id, value);
            assert(params@.subrange(0, j + 1).drop_last() =~= params@.subrange(0, j as int));
            assert(device.config_view() =~= prev.insert(params@[j as int].id, params@[j as int].value@));
            j = j + 1;
        }
        self.devices.insert(device_handle, device);
        assert(self.devices@.dom() =~= old(self).devices@.dom());
        assert(self.devices@.remove(device_handle) =~= old(self).devices@.remove(device_handle));
        pkts.push(UciPacket::SetConfigRsp { status: StatusCode::UciStatusOk, parameters: Vec::new() });
        assert(pkts@[0] matches UciPacket::SetConfigRsp { parameters, .. } && parameters@ =~= seq![]);
        Ok(pkts)
    }

    /// Reads configuration parameters, in request order. When every id is
    /// present the response carries their values; otherwise it carries only
    /// the absent ids, each with an empty value.
    pub fn get_config(&mut self, device_handle: usize, cmd: GetConfigCmd) -> (r: Result<
        Vec<UciPacket>,
        PicaError,
    >)
        ensures
            *final(self) == *old(self),
            match r {
                Ok(pkts) => {
                    &&& cmd.packet_boundary_flag == PacketBoundaryFlag::Complete
                    &&& old(self).devices_view().contains_key(device_handle)
                    &&& pkts@.len() == 1
                    &&& get_config_answer(
                        pkts@[0],
                        old(self).devices_view()[device_handle].config_view(),
                        cmd.parameter_ids@,
                    )
                },
                Err(e) => if cmd.packet_boundary_flag != PacketBoundaryFlag::Complete {
                    e == PicaError::FragmentedCommand
                } else {
                    e == PicaError::UnknownDevice && !old(self).devices_view().contains_key(
                        device_handle,
                    )
                },
            },
    {
        if cmd.packet_boundary_flag != PacketBoundaryFlag::Complete {
            return Err(PicaError::FragmentedCommand);
        }
        let device = match self.devices.get(&device_handle) {
            Some(d) => d,
            None => return Err(PicaError::UnknownDevice),
        };
        let ghost cfg = device.config_view();
        let ids = &cmd.parameter_ids;
        let mut found: Vec<DeviceParameter> = Vec::new();
        let mut missing: Vec<DeviceParameter> = Vec::new();
        let mut i: usize = 0;
        while i < ids.len()
            invariant
                i <= ids.len(),
                cfg == device.config_view(),
                params_view(found@) == found_params(cfg, ids@.subrange(0, i as int)),
                params_view(missing@) == missing_params(cfg, ids@.subrange(0, i as int)),
            decreases ids.len() - i,
        {
            let id = ids[i];
            let ghost f0 = found@;
            let ghost m0 = missing@;
            match device.config.get(&id) {
                Some(value) => {
                    let v = value.clone();
                    assert(v@ =~= value@);
                    found.push(DeviceParameter { id, value: v });
                    assert(params_view(found@) =~= params_view(f0).push((id, cfg[id])));
                },
                None => {
                    let v: Vec<u8> = Vec::new();
                    missing.push(DeviceParameter { id, value: v });
                    assert(params_view(missing@) =~= params_view(m0).push((id, Seq::<u8>::empty())));
                },
            }
            assert(ids@.subrange(0, i + 1).drop_last() =~= ids@.subrange(0, i as int));
            i = i + 1;
        }
        assert(ids@.subrange(0, ids.len() as int) =~= ids@);
        let mut pkts: Vec<UciPacket> = Vec::new();
        if missing.len() == 0 {
            pkts.push(UciPacket::GetConfigRsp { status: StatusCode::UciStatusOk, parameters: found });
        } else {
            pkts.push(
                UciPacket::GetConfigRsp { status: StatusCode::UciStatusInvalidParam, parameters: missing },
            );
        }
        Ok(pkts)
    }

    /// Adds `session` to the device `device_handle` (see `Device::add_session`).
    pub fn add_session(&mut self, device_handle: usize, session: Session) -> (r: Result<
        StatusCode,
        PicaError,
    >)
        requires
            old(self).wf(),
        ensures
            final(self).wf(),
            final(self).spec_next_handle() == old(self).spec_next_handle(),
            match r {
                Ok(st) => {
                    let before = old(self).devices_view()[device_handle];
                    let after = final(self).devices_view()[device_handle];
                    &&& old(self).devices_view().contains_key(device_handle)
                    &&& final(self).devices_view().dom() == old(self).devices_view().dom()
                    &&& final(self).devices_view().remove(device_handle) == old(
                        self,
                    ).devices_view().remove(device_handle)
                    &&& Device::same_but_sessions(before, after)
                    &&& Device::add_session_outcome(
                        before.sessions_view(),
                        after.sessions_view(),
                        session,
                        st,
                    )
                },
                Err(e) => {
                    &&& !old(self).devices_view().contains_key(device_handle)
                    &&& e == PicaError::UnknownDevice
                    &&& final(self).devices_view() == old(self).devices_view()
                },
            },
    {
        let mut device = match self.devices.remove(&device_handle) {
            Some(d) => d,
            None => return Err(PicaError::UnknownDevice),
        };
        let st = device.add_session(session);
        self.devices.insert(device_handle, device);
        assert(self.devices@.dom() =~= old(self).devices@.dom());
        assert(self.devices@.remove(device_handle) =~= old(self).devices@.remove(device_handle));
        Ok(st)
    }

    /// Removes the session `session_id` of the device `device_handle`.
    pub fn remove_session(&mut self, device_handle: usize, session_id: u32) -> (r: Result<
        (),
        PicaError,
    >)
        requires
            old(self).wf(),
        ensures
            final(self).wf(),
            final(self).spec_next_handle() == old(self).spec_next_handle(),
            match r {
                Ok(_) => {
                    let before = old(self).devices_view()[device_handle];
                    let after = final(self).devices_view()[device_handle];
                    &&& old(self).devices_view().contains_key(device_handle)
                    &&& before.sessions_view().contains_key(session_id)
                    &&& final(self).devices_view().dom() == old(self).devices_view().dom()
                    &&& final(self).devices_view().remove(device_handle) == old(
                        self,
                    ).devices_view().remove(device_handle)
                    &&& Device::same_but_sessions(before, after)
                    &&& after.sessions_view() == before.sessions_view().remove(session_id)
                },
                Err(e) => {
                    &&& final(self).devices_view() == old(self).devices_view()
                    &&& if !old(self).devices_view().contains_key(device_handle) {
                        e == PicaError::UnknownDevice
                    } else {
                        e == PicaError::SessionNotFound && !old(
                            self,
                        ).devices_view()[device_handle].sessions_view().contains_key(session_id)
                    }
                },
            },
    {
        match self.devices.get(&device_handle) {
            Some(d) => {
                if d.get_session(session_id).is_none() {
                    return Err(PicaError::SessionNotFound);
                }
            },
            None => return Err(PicaError::UnknownDevice),
        }
        let mut device = match self.devices.remove(&device_handle) {
            Some(d) => d,
            None => return Err(PicaError::UnknownDevice),
        };
        let r = device.remove_session(session_id);
        self.devices.insert(device_handle, device);
        assert(self.devices@.dom() =~= old(self).devices@.dom());
        assert(self.devices@.remove(device_handle) =~= old(self).devices@.remove(device_handle));
        r
    }

    /// Moves the session `session_id` of the device `device_handle` to
    /// `session_state`, and returns the Session-Status notification.
    pub fn set_session_state(
        &mut self,
        device_handle: usize,
        session_id: u32,
        session_state: SessionState,
        reason_code: ReasonCode,
    ) -> (r: Result<UciPacket, PicaError>)
        requires
            old(self).wf(),
        ensures
            final(self).wf(),
            final(self).spec_next_handle() == old(self).spec_next_handle(),
            match r {
                Ok(p) => {
                    let before = old(self).devices_view()[device_handle];
                    let after = final(self).devices_view()[device_handle];
                    &&& old(self).devices_view().contains_key(device_handle)
                    &&& before.sessions_view().contains_key(session_id)
                    &&& final(self).devices_view().dom() == old(self).devices_view().dom()
                    &&& final(self).devices_view().remove(device_handle) == old(
                        self,
                    ).devices_view().remove(device_handle)
                    &&& Device::same_but_sessions(before, after)
                    &&& after.sessions_view() == before.sessions_view().insert(
                        session_id,
                        Session { state: session_state, ..before.sessions_view()[session_id] },
                    )
                    &&& p == (UciPacket::SessionStatusNtf { session_id, session_state, reason_code })
                },
                Err(e) => {
                    &&& final(self).devices_view() == old(self).devices_view()
                    &&& if !old(self).devices_view().contains_key(device_handle) {
                        e == PicaError::UnknownDevice
                    } else {
                        e == PicaError::SessionNotFound && !old(
                            self,
                        ).devices_view()[device_handle].sessions_view().contains_key(session_id)
                    }
                },
            },
    {
        match self.devices.get(&device_handle) {
            Some(d) => {
                if d.get_session(session_id).is_none() {
                    return Err(PicaError::SessionNotFound);
                }
            },
            None => return Err(PicaError::UnknownDevice),
        }
        let mut device = match self.devices.remove(&device_handle) {
            Some(d) => d,
            None => return Err(PicaError::UnknownDevice),
        };
        let r = device.set_session_state(session_id, session_state, reason_code);
        self.devices.insert(device_handle, device);
        assert(self.devices@.dom() =~= old(self).devices@.dom());
        assert(self.devices@.remove(device_handle) =~= old(self).devices@.remove(device_handle));
        r
    }

    /// One ranging round of the session `session_id` of the device
    /// `device_handle`. An Active session yields one Range-Data notification
    /// per connected participant for which `estimator` gives a measurement;
    /// a session in any other state yields none.
    pub fn ranging<E: RangingEstimator>(
        &self,
        estimator: &E,
        device_handle: usize,
        session_id: u32,
    ) -> (r: Result<Vec<UciPacket>, PicaError>)
        ensures
            match r {
                Ok(pkts) => {
                    let s = self.devices_view()[device_handle].sessions_view()[session_id];
                    let peers = connected_peers(s.participants@, self.devices_view().dom());
                    &&& self.devices_view().contains_key(device_handle)
                    &&& self.devices_view()[device_handle].sessions_view().contains_key(session_id)
                    &&& if s.state == SessionState::SessionStateActive {
                        exists|es: Seq<Option<RangingMeasurement>>|
                            {
                                &&& es.len() == peers.len()
                                &&& forall|i: int|
                                    0 <= i < es.len() ==> estimator.estimate_post(
                                        device_handle,
                                        #[trigger] peers[i],
                                        es[i],
                                    )
                                &&& pkts@ == #[trigger] range_data(session_id, peers, es)
                            }
                    } else {
                        pkts@.len() == 0
                    }
                },
                Err(e) => if !self.devices_view().contains_key(device_handle) {
                    e == PicaError::UnknownDevice
                } else {
                    e == PicaError::SessionNotFound && !self.devices_view()[device_handle].sessions_view().contains_key(
                        session_id,
                    )
                },
            },
    {
        let device = match self.devices.get(&device_handle) {
            Some(d) => d,
            None => return Err(PicaError::UnknownDevice),
        };
        let session = match device.get_session(session_id) {
            Some(s) => s,
            None => return Err(PicaError::SessionNotFound),
        };
        if session.state != SessionState::SessionStateActive {
            return Ok(Vec::new());
        }
        let ps = &session.participants;
        let mut peers: Vec<usize> = Vec::new();
        let mut estimates: Vec<Option<RangingMeasurement>> = Vec::new();
        let mut i: usize = 0;
        while i < ps.len()
            invariant
                i <= ps.len(),
                peers.len() == estimates.len(),
                peers@ == connected_peers(ps@.subrange(0, i as int), self.devices@.dom()),
                forall|k: int|
                    0 <= k < estimates.len() ==> estimator.estimate_post(
                        device_handle,
                        #[trigger] peers@[k],
                        estimates@[k],
                    ),
            decreases ps.len() - i,
        {
            let p = ps[i];
            if self.devices.contains_key(&p) {
                peers.push(p);
                estimates.push(estimator.estimate(device_handle, p));
            }
            assert(ps@.subrange(0, i + 1).drop_last() =~= ps@.subrange(0, i as int));
            i = i + 1;
        }
        assert(ps@.subrange(0, ps.len() as int) =~= ps@);
        let pkts = range_data_notifications(session_id, &peers, &estimates);
        assert(pkts@ == range_data(session_id, peers@, estimates@));
        Ok(pkts)
    }
}

/// Whether some parameter of `ps` writes `id`.
pub open spec fn writes(ps: Seq<DeviceParameter>, id: u8) -> bool {
    exists|i: int| 0 <= i < ps.len() && (#[trigger] ps[i]).id == id
}

/// The value that the last parameter of `ps` with id `id` carries.
pub open spec fn last_written(ps: Seq<DeviceParameter>, id: u8) -> Seq<u8>
    decreases ps.len(),
{
    if ps.len() == 0 {
        seq![]
    } else if ps.last().id == id {
        ps.last().value@
    } else {
        last_written(ps.drop_last(), id)
    }
}

proof fn lemma_all_valid_no_invalid(ps: Seq<DeviceParameter>)
    requires
        forall|i: int| 0 <= i < ps.len() ==> is_valid_config_id(#[trigger] ps[i].id),
    ensures
        invalid_config_statuses(ps).len() == 0,
    decreases ps.len(),
{
    if ps.len() > 0 {
        let front = ps.drop_last();
        assert forall|i: int| 0 <= i < front.len() implies is_valid_config_id(
            #[trigger] front[i].id,
        ) by {
            assert(front[i] == ps[i]);
        }
        lemma_all_valid_no_invalid(front);
        assert(ps.last() == ps[ps.len() - 1]);
    }
}

proof fn lemma_apply_config_last_written(cfg: Map<u8, Seq<u8>>, ps: Seq<DeviceParameter>, id: u8)
    requires
        writes(ps, id),
    ensures
        apply_config(cfg, ps).contains_key(id),
        apply_config(cfg, ps)[id] == last_written(ps, id),
    decreases ps.len(),
{
    if ps.last().id != id {
        let front = ps.drop_last();
        let i = choose|i: int| 0 <= i < ps.len() && (#[trigger] ps[i]).id == id;
        assert(i != ps.len() - 1);
        assert(front[i] == ps[i]);
        lemma_apply_config_last_written(cfg, front, id);
    }
}

proof fn lemma_read_all_present(m: Map<u8, Seq<u8>>, ids: Seq<u8>)
    requires
        forall|j: int| 0 <= j < ids.len() ==> m.contains_key(#[trigger] ids[j]),
    ensures
        missing_params(m, ids).len() == 0,
        found_params(m, ids) == ids.map_values(|id: u8| (id, m[id])),
    decreases ids.len(),
{
    if ids.len() > 0 {
        let front = ids.drop_last();
        assert forall|j: int| 0 <= j < front.len() implies m.contains_key(#[trigger] front[j]) by {
            assert(front[j] == ids[j]);
        }
        lemma_read_all_present(m, front);
        assert(m.contains_key(ids[ids.len() - 1]));
        assert(found_params(m, ids) =~= ids.map_values(|id: u8| (id, m[id])));
    }
}

/// After a Set-Config batch whose ids are all recognised, the batch is
/// accepted, and a Get-Config of ids that it wrote succeeds and returns, in
/// request order, the value last written to each id.
pub proof fn lemma_get_config_after_set_config(
    cfg: Map<u8, Seq<u8>>,
    ps: Seq<DeviceParameter>,
    ids: Seq<u8>,
)
    requires
        forall|i: int| 0 <= i < ps.len() ==> is_valid_config_id(#[trigger] ps[i].id),
        forall|j: int| 0 <= j < ids.len() ==> writes(ps, #[trigger] ids[j]),
    ensures
        invalid_config_statuses(ps).len() == 0,
        missing_params(apply_config(cfg, ps), ids).len() == 0,
        found_params(apply_config(cfg, ps), ids) == ids.map_values(
            |id: u8| (id, last_written(ps, id)),
        ),
{
    lemma_all_valid_no_invalid(ps);
    let m = apply_config(cfg, ps);
    assert forall|j: int| 0 <= j < ids.len() implies m.contains_key(#[trigger] ids[j]) by {
        lemma_apply_config_last_written(cfg, ps, ids[j]);
    }
    lemma_read_all_present(m, ids);
    assert forall|j: int| 0 <= j < ids.len() implies m[ids[j]] == last_written(ps, ids[j]) by {
        lemma_apply_config_last_written(cfg, ps, ids[j]);
    }
    assert(ids.map_values(|id: u8| (id, m[id])) =~= ids.map_values(
        |id: u8| (id, last_written(ps, id)),
    ));
}

/// Two accepted Set-Config batches in a row leave the same configuration as
/// one batch holding the first followed by the second; so a sequence of
/// batches acts as their concatenation.
pub proof fn lemma_set_config_batches_compose(
    cfg: Map<u8, Seq<u8>>,
    first: Seq<DeviceParameter>,
    second: Seq<DeviceParameter>,
)
    ensures
        apply_config(apply_config(cfg, first), second) == apply_config(cfg, first + second),
    decreases second.len(),
{
    if second.len() == 0 {
        assert(first + second =~= first);
    } else {
        lemma_set_config_batches_compose(cfg, first, second.drop_last());
        assert((first + second).drop_last() =~= first + second.drop_last());
        assert((first + second).last() == second.last());
    }
}

/// A Get-Config of one id that the configuration lacks fails with
/// InvalidParam and returns that id with an empty value.
pub proof fn lemma_get_config_unwritten(cfg: Map<u8, Seq<u8>>, id: u8, p: UciPacket)
    requires
        !cfg.contains_key(id),
    ensures
        missing_params(cfg, seq![id]) == seq![(id, Seq::<u8>::empty())],
        get_config_answer(p, cfg, seq![id]) <==> is_get_config_rsp(
            p,
            StatusCode::UciStatusInvalidParam,
            seq![(id, Seq::<u8>::empty())],
        ),
{
    let ids = seq![id];
    assert(ids.drop_last() =~= Seq::<u8>::empty());
    assert(ids.last() == id);
    assert(missing_params(cfg, ids.drop_last()) == Seq::<(u8, Seq<u8>)>::empty());
    assert(missing_params(cfg, ids) =~= seq![(id, Seq::<u8>::empty())]);
}

} // verus!
