//! One virtual UWB endpoint: its state, configuration store and sessions.
use crate::packets::{DeviceState, ReasonCode, SessionState, StatusCode, UciPacket};
use std::collections::HashMap;
use vstd::prelude::*;

verus! {

broadcast use vstd::std_specs::hash::group_hash_axioms;

/// Most sessions that one device holds at a time.
pub const MAX_SESSION: usize = 255;

/// Most devices that the engine serves at a time.
pub const MAX_DEVICE: usize = 4;

/// Failures that end one command without touching any other device.
#[derive(Clone, Copy, Debug, PartialEq, Eq, Structural)]
pub enum PicaError {
    /// No device is connected under the given handle.
    UnknownDevice,
    /// The command is not allowed in the device's current state.
    WrongDeviceState,
    /// The command was split over several packets, which is not supported.
    FragmentedCommand,
    /// The session id is not held by the device.
    SessionNotFound,
    /// As many devices as allowed are already connected.
    TooManyDevices,
    /// No fresh device handle is left.
    HandlesExhausted,
}

/// Position and orientation of a device in space.
#[derive(Clone, Copy, Debug, PartialEq, Eq, Structural)]
pub struct Position {
    pub x: i16,
    pub y: i16,
    pub z: i16,
    pub yaw: i16,
    pub pitch: i8,
    pub roll: i16,
}

impl Position {
    pub open spec fn spec_origin() -> Position {
        Position { x: 0, y: 0, z: 0, yaw: 0, pitch: 0, roll: 0 }
    }

    /// The origin, facing straight ahead.
    pub fn origin() -> (r: Position)
        ensures
            r == Position::spec_origin(),
    {
        Position { x: 0, y: 0, z: 0, yaw: 0, pitch: 0, roll: 0 }
    }
}

/// One ranging exchange context owned by a device.
#[derive(Clone, Debug, PartialEq, Eq)]
pub struct Session {
    pub id: u32,
    pub state: SessionState,
    /// Time between two ranging rounds, in milliseconds.
    pub ranging_interval: u32,
    /// Handles of the peer devices ranged with.
    pub participants: Vec<usize>,
}

impl Session {
    /// A session in its initial state.
    pub fn new(id: u32, ranging_interval: u32, participants: Vec<usize>) -> (r: Session)
        ensures
            r.id == id,
            r.state == SessionState::SessionStateInit,
            r.ranging_interval == ranging_interval,
            r.participants == participants,
    {
        Session { id, state: SessionState::SessionStateInit, ranging_interval, participants }
    }
}

/// One virtual UWB endpoint.
///
/// Packets that the device sends are handed back to the caller, in order,
/// by the functions that produce them; the caller owns the connection.
pub struct Device {
    pub mac_address: usize,
    pub position: Position,
    pub state: DeviceState,
    pub sessions: HashMap<u32, Session>,
    pub config: HashMap<u8, Vec<u8>>,
    pub country_code: [u8; 2],
}

impl Device {
    /// The sessions held, by id.
    pub open spec fn sessions_view(&self) -> Map<u32, Session> {
        self.sessions@
    }

    /// The configuration store, by parameter id.
    pub open spec fn config_view(&self) -> Map<u8, Seq<u8>> {
        self.config@.map_values(|v: Vec<u8>| v@)
    }

    /// Sessions are keyed by their own id and never more than `MAX_SESSION`.
    pub open spec fn wf(&self) -> bool {
        &&& self.sessions@.len() <= MAX_SESSION
        &&& forall|k: u32| #[trigger] self.sessions@.contains_key(k) ==> self.sessions@[k].id == k
    }

    /// `d` is a device as it stands right after it was created under `handle`.
    pub open spec fn is_fresh(d: Device, handle: usize) -> bool {
        &&& d.wf()
        &&& d.mac_address == handle
        &&& d.position == Position::spec_origin()
        &&& d.state == DeviceState::DeviceStateReady
        &&& d.sessions_view() == Map::<u32, Session>::empty()
        &&& d.config_view() == Map::<u8, Seq<u8>>::empty()
        &&& d.country_code@ == seq![0u8, 0u8]
    }

    /// Everything but the sessions is the same in `a` and `b`.
    pub open spec fn same_but_sessions(a: Device, b: Device) -> bool {
        &&& a.mac_address == b.mac_address
        &&& a.position == b.position
        &&& a.state == b.state
        &&& a.config == b.config
        &&& a.country_code == b.country_code
    }

    /// Everything but the configuration is the same in `a` and `b`.
    pub open spec fn same_but_config(a: Device, b: Device) -> bool {
        &&& a.mac_address == b.mac_address
        &&& a.position == b.position
        &&& a.state == b.state
        &&& a.sessions == b.sessions
        &&& a.country_code == b.country_code
    }

    /// Adding `session` to the sessions `before` gives `after` and status `r`:
    /// a full device and a duplicate id are rejected and change nothing.
    pub open spec fn add_session_outcome(
        before: Map<u32, Session>,
        after: Map<u32, Session>,
        session: Session,
        r: StatusCode,
    ) -> bool {
        if before.len() >= MAX_SESSION {
            r == StatusCode::UciStatusMaxSessionsExceeded && after == before
        } else if before.contains_key(session.id) {
            r == StatusCode::UciStatusSessionDuplicate && after == before
        } else {
            r == StatusCode::UciStatusOk && after == before.insert(session.id, session)
        }
    }

    /// A device in the Ready state, with no session and an empty configuration.
    pub fn new(device_handle: usize) -> (r: Device)
        ensures
            Device::is_fresh(r, device_handle),
    {
        let r = Device {
            mac_address: device_handle,
            position: Position::origin(),
            state: DeviceState::DeviceStateReady,
            sessions: HashMap::new(),
            config: HashMap::new(),
            country_code: [0u8, 0u8],
        };
        assert(r.config_view() =~= Map::<u8, Seq<u8>>::empty());
        assert(r.country_code@ =~= seq![0u8, 0u8]);
        r
    }

    /// Adds `session` unless the device is full or already holds its id;
    /// a session that is there is never replaced.
    pub fn add_session(&mut self, session: Session) -> (r: StatusCode)
        requires
            old(self).wf(),
        ensures
            final(self).wf(),
            Device::same_but_sessions(*old(self), *final(self)),
            Device::add_session_outcome(
                old(self).sessions_view(),
                final(self).sessions_view(),
                session,
                r,
            ),
    {
        if self.sessions.len() >= MAX_SESSION {
            return StatusCode::UciStatusMaxSessionsExceeded;
        }
        if self.sessions.contains_key(&session.id) {
            return StatusCode::UciStatusSessionDuplicate;
        }
        self.sessions.insert(session.id, session);
        StatusCode::UciStatusOk
    }

    /// The Device-Status notification announcing `device_state`.
    pub fn send_device_status_notification(&self, device_state: DeviceState) -> (r: UciPacket)
        ensures
            r == (UciPacket::DeviceStatusNtf { device_state }),
    {
        UciPacket::DeviceStatusNtf { device_state }
    }

    /// The Session-Status notification announcing that `session_id` entered
    /// `session_state` for `reason_code`.
    pub fn send_session_status_notification(
        &self,
        session_id: u32,
        session_state: SessionState,
        reason_code: ReasonCode,
    ) -> (r: UciPacket)
        ensures
            r == (UciPacket::SessionStatusNtf { session_id, session_state, reason_code }),
    {
        UciPacket::SessionStatusNtf { session_id, session_state, reason_code }
    }

    /// Removes the session `session_id`; fails when the device does not hold it.
    pub fn remove_session(&mut self, session_id: u32) -> (r: Result<(), PicaError>)
        requires
            old(self).wf(),
        ensures
            final(self).wf(),
            Device::same_but_sessions(*old(self), *final(self)),
            final(self).sessions_view() == old(self).sessions_view().remove(session_id),
            r is Ok <==> old(self).sessions_view().contains_key(session_id),
            r matches Err(e) ==> e == PicaError::SessionNotFound,
    {
        match self.sessions.remove(&session_id) {
            Some(_) => Ok(()),
            None => Err(PicaError::SessionNotFound),
        }
    }

    /// The session `session_id`, if the device holds it.
    pub fn get_session(&self, session_id: u32) -> (r: Option<&Session>)
        ensures
            match r {
                Some(s) => self.sessions_view().contains_key(session_id) && *s
                    == self.sessions_view()[session_id],
                None => !self.sessions_view().contains_key(session_id),
            },
    {
        self.sessions.get(&session_id)
    }

    /// Moves the session `session_id` to `session_state`, and returns the
    /// Session-Status notification that announces the change.
    pub fn set_session_state(
        &mut self,
        session_id: u32,
        session_state: SessionState,
        reason_code: ReasonCode,
    ) -> (r: Result<UciPacket, PicaError>)
        requires
            old(self).wf(),
        ensures
            final(self).wf(),
            Device::same_but_sessions(*old(self), *final(self)),
            match r {
                Ok(p) => {
                    &&& old(self).sessions_view().contains_key(session_id)
                    &&& final(self).sessions_view() == old(self).sessions_view().insert(
                        session_id,
                        Session { state: session_state, ..old(self).sessions_view()[session_id] },
                    )
                    &&& p == (UciPacket::SessionStatusNtf {
                        session_id,
                        session_state,
                        reason_code,
                    })
                },
                Err(e) => {
                    &&& !old(self).sessions_view().contains_key(session_id)
                    &&& e == PicaError::SessionNotFound
                    &&& final(self).sessions_view() == old(self).sessions_view()
                },
            },
    {
        match self.sessions.remove(&session_id) {
            Some(mut s) => {
                s.state = session_state;
                self.sessions.insert(session_id, s);
                assert(self.sessions@ =~= old(self).sessions@.insert(
                    session_id,
                    Session { state: session_state, ..old(self).sessions@[session_id] },
                ));
                Ok(self.send_session_status_notification(session_id, session_state, reason_code))
            },
            None => Err(PicaError::SessionNotFound),
        }
    }

    /// How many sessions the device holds.
    pub fn get_session_cnt(&self) -> (r: usize)
        ensures
            r == self.sessions_view().len(),
    {
        self.sessions.len()
    }
}

} // verus!
