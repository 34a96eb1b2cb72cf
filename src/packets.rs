//! Decoded UCI packets: the commands a host sends, the responses and
//! notifications a device sends back, and the field types they carry.
use vstd::prelude::*;

verus! {

/// Lifecycle state of a virtual device.
#[derive(Clone, Copy, Debug, PartialEq, Eq, Structural)]
pub enum DeviceState {
    DeviceStateReady,
    DeviceStateActive,
    DeviceStateError,
}

/// Lifecycle state of a ranging session.
#[derive(Clone, Copy, Debug, PartialEq, Eq, Structural)]
pub enum SessionState {
    SessionStateInit,
    SessionStateDeinit,
    SessionStateActive,
    SessionStateIdle,
}

/// Why a session changed state.
#[derive(Clone, Copy, Debug, PartialEq, Eq, Structural)]
pub enum ReasonCode {
    StateChangeWithSessionManagementCommands,
    MaxRangingRoundRetryCountReached,
    MaxNumberOfMeasurementsReached,
    ErrorSlotLengthNotSupported,
}

/// Status carried by every response.
#[derive(Clone, Copy, Debug, PartialEq, Eq, Structural)]
pub enum StatusCode {
    UciStatusOk,
    UciStatusRejected,
    UciStatusFailed,
    UciStatusInvalidParam,
    UciStatusSessionNotExist,
    UciStatusSessionDuplicate,
    UciStatusMaxSessionsExceeded,
}

/// Whether a command fits in one packet or continues in the next one.
#[derive(Clone, Copy, Debug, PartialEq, Eq, Structural)]
pub enum PacketBoundaryFlag {
    Complete,
    NotComplete,
}

/// The kind of reset a Device-Reset command asks for.
#[derive(Clone, Copy, Debug, PartialEq, Eq, Structural)]
pub enum ResetConfig {
    UwbsReset,
}

/// Recognised device configuration parameter ids.
#[derive(Clone, Copy, Debug, PartialEq, Eq, Structural)]
pub enum DeviceConfigId {
    DeviceState,
    LowPowerMode,
}

/// The configuration id that the byte `id` encodes, if any.
pub open spec fn spec_config_id_of(id: u8) -> Option<DeviceConfigId> {
    if id == 0x00 {
        Some(DeviceConfigId::DeviceState)
    } else if id == 0x01 {
        Some(DeviceConfigId::LowPowerMode)
    } else {
        None
    }
}

/// Whether `id` names a configuration parameter that a device accepts.
pub open spec fn is_valid_config_id(id: u8) -> bool {
    spec_config_id_of(id) is Some
}

impl DeviceConfigId {
    /// The configuration id encoded by `id`, if it names one.
    pub fn from_u8(id: u8) -> (r: Option<DeviceConfigId>)
        ensures
            r == spec_config_id_of(id),
    {
        match id {
            0x00 => Some(DeviceConfigId::DeviceState),
            0x01 => Some(DeviceConfigId::LowPowerMode),
            _ => None,
        }
    }
}

/// Tag of a capability entry.
#[derive(Clone, Copy, Debug, PartialEq, Eq, Structural)]
pub enum CapTlvType {
    SupportedFiraPhyVersionRange,
    SupportedFiraMacVersionRange,
    SupportedDeviceRoles,
    SupportedRangingMethod,
    SupportedStsConfig,
    SupportedMultiNodeModes,
    SupportedRangingTimeStruct,
    SupportedScheduledMode,
    SupportedHoppingMode,
    SupportedBlockStriding,
    SupportedUwbInitiationTime,
    SupportedChannels,
    SupportedRframeConfig,
    SupportedCcConstraintLength,
    SupportedBprfParameterSets,
    SupportedHprfParameterSets,
    SupportedAoa,
    SupportedAoaResultReqAntennaInterleaving,
    SupportedExtendedMacAddress,
}

/// One capability entry: a tag and its raw value.
#[derive(Clone, Debug, PartialEq, Eq)]
pub struct CapTlv {
    pub t: CapTlvType,
    pub v: Vec<u8>,
}

/// A configuration parameter: its id and raw value.
#[derive(Clone, Debug, PartialEq, Eq)]
pub struct DeviceParameter {
    pub id: u8,
    pub value: Vec<u8>,
}

/// The status of one rejected configuration parameter.
#[derive(Clone, Copy, Debug, PartialEq, Eq, Structural)]
pub struct DeviceConfigStatus {
    pub parameter_id: u8,
    pub status: StatusCode,
}

/// A ranging result between two devices.
#[derive(Clone, Copy, Debug, PartialEq, Eq, Structural)]
pub struct RangingMeasurement {
    pub range: u16,
    pub azimuth: i16,
    pub elevation: i8,
}

/// Device-Reset command.
#[derive(Clone, Copy, Debug, PartialEq, Eq, Structural)]
pub struct DeviceResetCmd {
    pub reset_config: ResetConfig,
}

/// Get-Device-Info command; it has no payload.
#[derive(Clone, Copy, Debug, PartialEq, Eq, Structural)]
pub struct GetDeviceInfoCmd {}

/// Get-Caps-Info command.
#[derive(Clone, Copy, Debug, PartialEq, Eq, Structural)]
pub struct GetCapsInfoCmd {
    pub packet_boundary_flag: PacketBoundaryFlag,
}

/// Set-Config command: the parameters to write, in the order submitted.
#[derive(Clone, Debug, PartialEq, Eq)]
pub struct SetConfigCmd {
    pub packet_boundary_flag: PacketBoundaryFlag,
    pub parameters: Vec<DeviceParameter>,
}

/// Get-Config command: the parameter ids to read, in the order submitted.
#[derive(Clone, Debug, PartialEq, Eq)]
pub struct GetConfigCmd {
    pub packet_boundary_flag: PacketBoundaryFlag,
    pub parameter_ids: Vec<u8>,
}

/// A packet that a device sends to its host.
#[derive(Clone, Debug, PartialEq, Eq)]
pub enum UciPacket {
    DeviceResetRsp { status: StatusCode },
    DeviceStatusNtf { device_state: DeviceState },
    GetDeviceInfoRsp {
        status: StatusCode,
        uci_version: u16,
        mac_version: u16,
        phy_version: u16,
        uci_test_version: u16,
        vendor_spec_info: Vec<u8>,
    },
    GetCapsInfoRsp { status: StatusCode, tlvs: Vec<CapTlv> },
    SetConfigRsp { status: StatusCode, parameters: Vec<DeviceConfigStatus> },
    GetConfigRsp { status: StatusCode, parameters: Vec<DeviceParameter> },
    SessionStatusNtf { session_id: u32, session_state: SessionState, reason_code: ReasonCode },
    RangeDataNtf { session_id: u32, peer: usize, measurement: RangingMeasurement },
}

/// Capability entries as (tag, value) pairs.
pub open spec fn caps_view(s: Seq<CapTlv>) -> Seq<(CapTlvType, Seq<u8>)> {
    s.map_values(|c: CapTlv| (c.t, c.v@))
}

/// Configuration parameters as (id, value) pairs.
pub open spec fn params_view(s: Seq<DeviceParameter>) -> Seq<(u8, Seq<u8>)> {
    s.map_values(|p: DeviceParameter| (p.id, p.value@))
}

/// The capability table that every device advertises.
pub open spec fn spec_default_caps() -> Seq<(CapTlvType, Seq<u8>)> {
    seq![
        (CapTlvType::SupportedFiraPhyVersionRange, seq![1u8, 1u8, 1u8, 3u8]),
        (CapTlvType::SupportedFiraMacVersionRange, seq![1u8, 1u8, 1u8, 3u8]),
        (CapTlvType::SupportedDeviceRoles, seq![0x3u8]),
        (CapTlvType::SupportedRangingMethod, seq![0x1fu8]),
        (CapTlvType::SupportedStsConfig, seq![0x7u8]),
        (CapTlvType::SupportedMultiNodeModes, seq![0x0u8]),
        (CapTlvType::SupportedBlockStriding, seq![0x0u8]),
        (CapTlvType::SupportedUwbInitiationTime, seq![0x0u8]),
        (CapTlvType::SupportedChannels, seq![0xffu8]),
        (CapTlvType::SupportedRframeConfig, seq![0x0u8]),
        (CapTlvType::SupportedBprfParameterSets, seq![0x0u8]),
        (CapTlvType::SupportedHprfParameterSets, seq![0x0u8]),
        (CapTlvType::SupportedCcConstraintLength, seq![0x0u8]),
        (CapTlvType::SupportedAoa, seq![0x0u8]),
        (CapTlvType::SupportedAoaResultReqAntennaInterleaving, seq![0x0u8]),
        (CapTlvType::SupportedExtendedMacAddress, seq![0x0u8]),
    ]
}

fn cap(t: CapTlvType, v: Vec<u8>) -> (r: CapTlv)
    ensures
        r.t == t,
        r.v@ == v@,
{
    CapTlv { t, v }
}

fn byte(b: u8) -> (r: Vec<u8>)
    ensures
        r@ == seq![b],
{
    let mut v: Vec<u8> = Vec::new();
    v.push(b);
    v
}

fn version_range() -> (r: Vec<u8>)
    ensures
        r@ == seq![1u8, 1u8, 1u8, 3u8],
{
    let mut v: Vec<u8> = Vec::new();
    v.push(1);
    v.push(1);
    v.push(1);
    v.push(3);
    assert(v@ =~= seq![1u8, 1u8, 1u8, 3u8]);
    v
}

/// Builds the capability table that every device advertises.
pub fn default_caps_info() -> (r: Vec<CapTlv>)
    ensures
        caps_view(r@) == spec_default_caps(),
{
    let mut r: Vec<CapTlv> = Vec::new();
    r.push(cap(CapTlvType::SupportedFiraPhyVersionRange, version_range()));
    r.push(cap(CapTlvType::SupportedFiraMacVersionRange, version_range()));
    r.push(cap(CapTlvType::SupportedDeviceRoles, byte(0x3)));
    r.push(cap(CapTlvType::SupportedRangingMethod, byte(0x1f)));
    r.push(cap(CapTlvType::SupportedStsConfig, byte(0x7)));
    r.push(cap(CapTlvType::SupportedMultiNodeModes, byte(0x0)));
    r.push(cap(CapTlvType::SupportedBlockStriding, byte(0x0)));
    r.push(cap(CapTlvType::SupportedUwbInitiationTime, byte(0x0)));
    r.push(cap(CapTlvType::SupportedChannels, byte(0xff)));
    r.push(cap(CapTlvType::SupportedRframeConfig, byte(0x0)));
    r.push(cap(CapTlvType::SupportedBprfParameterSets, byte(0x0)));
    r.push(cap(CapTlvType::SupportedHprfParameterSets, byte(0x0)));
    r.push(cap(CapTlvType::SupportedCcConstraintLength, byte(0x0)));
    r.push(cap(CapTlvType::SupportedAoa, byte(0x0)));
    r.push(cap(CapTlvType::SupportedAoaResultReqAntennaInterleaving, byte(0x0)));
    r.push(cap(CapTlvType::SupportedExtendedMacAddress, byte(0x0)));
    assert(caps_view(r@) =~= spec_default_caps());
    r
}

} // verus!
