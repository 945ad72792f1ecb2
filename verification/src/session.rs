//! The device session: one logical connection to one peripheral. The
//! session owns the connect/disconnect state machine, the per-role
//! characteristic bindings, and the last-known battery level. Radio
//! operations themselves happen outside the library; each decision here is
//! a verified function from the session's state and a radio outcome to the
//! next state and the caller's answer.

use vstd::prelude::*;
use crate::errors::BleError;
use crate::ids::{
    Role, spec_role_uuid, BATTERY_CHARACTERISTIC_UUID, CMD_CHARACTERISTIC_UUID,
    FW_CHUNK_CHARACTERISTIC_UUID, KEYMAP_CHARACTERISTIC_UUID, SERVICE_UUID,
};
use crate::discovery::contains_uuid;

verus! {

/// The handles bound to the four roles after a successful connect. A role
/// is `Some` only when the connected peripheral's control service exposes
/// it; an absent role is unsupported, not an error.
#[derive(Clone, Copy, PartialEq, Eq, Structural, Debug)]
pub struct Binding {
    pub keymap: Option<u128>,
    pub cmd: Option<u128>,
    pub fw_chunk: Option<u128>,
    pub battery: Option<u128>,
}

/// The binding entry that serves a role.
pub open spec fn spec_binding_role(b: Binding, role: Role) -> Option<u128> {
    match role {
        Role::Keymap => b.keymap,
        Role::Command => b.cmd,
        Role::FirmwareChunk => b.fw_chunk,
        Role::Battery => b.battery,
    }
}

/// The binding entry that serves a role.
pub fn binding_role(b: &Binding, role: Role) -> (h: Option<u128>)
    ensures
        h == spec_binding_role(*b, role),
{
    match role {
        Role::Keymap => b.keymap,
        Role::Command => b.cmd,
        Role::FirmwareChunk => b.fw_chunk,
        Role::Battery => b.battery,
    }
}

/// One service a connected peripheral advertises: its identifier and the
/// identifiers of its characteristics.
pub struct ServiceInfo {
    pub uuid: u128,
    pub characteristics: Vec<u128>,
}

/// Mathematical image of a `ServiceInfo`.
pub struct ServiceInfoView {
    pub uuid: u128,
    pub characteristics: Seq<u128>,
}

impl View for ServiceInfo {
    type V = ServiceInfoView;

    open spec fn view(&self) -> ServiceInfoView {
        ServiceInfoView { uuid: self.uuid, characteristics: self.characteristics@ }
    }
}

/// What one live connection holds: the device, its binding, and the last
/// battery level successfully read, if any.
pub struct Connection {
    pub device_id: String,
    pub binding: Binding,
    pub battery_level: Option<u8>,
}

/// The session: disconnected, or connected to exactly one device. The
/// state holds at most one live binding by construction.
pub struct BleState {
    pub connection: Option<Connection>,
}

/// What a status query reports: whether a device is connected, and the
/// last-known battery level, unknown while disconnected.
#[derive(Clone, Copy, PartialEq, Eq, Structural, Debug)]
pub struct BleStatus {
    pub is_connected: bool,
    pub battery_level: Option<u8>,
}

/// The session holds no connection.
pub open spec fn spec_is_disconnected(s: BleState) -> bool {
    s.connection is None
}

/// The session is connected to the device `id` with exactly the binding
/// `b` and stored battery level `bat`.
pub open spec fn spec_connected_to(s: BleState, id: Seq<char>, b: Binding, bat: Option<u8>) -> bool {
    match s.connection {
        Some(c) => c.device_id@ == id && c.binding == b && c.battery_level == bat,
        None => false,
    }
}

/// Teardown step of a connect or disconnect: the state after holds no
/// connection, and `prev` names the device that was connected before, if
/// any, so the caller can issue the link-layer disconnect for it.
pub open spec fn spec_teardown(pre: BleState, post: BleState, prev: Option<Seq<char>>) -> bool {
    &&& spec_is_disconnected(post)
    &&& match pre.connection {
        Some(c) => prev matches Some(p) && p == c.device_id@,
        None => prev is None,
    }
}

impl BleState {
    /// A fresh session: disconnected, nothing bound, battery unknown.
    pub fn new() -> (s: Self)
        ensures
            spec_is_disconnected(s),
    {
        BleState { connection: None }
    }

    /// The status the session reports: a pure read, never failing.
    pub open spec fn spec_status(self) -> BleStatus {
        match self.connection {
            Some(c) => BleStatus { is_connected: true, battery_level: c.battery_level },
            None => BleStatus { is_connected: false, battery_level: None },
        }
    }

    /// Report whether a device is connected and the last-known battery
    /// level. Battery is unknown whenever the session is disconnected.
    pub fn get_ble_status(&self) -> (st: BleStatus)
        ensures
            st == self.spec_status(),
    {
        match &self.connection {
            Some(c) => BleStatus { is_connected: true, battery_level: c.battery_level },
            None => BleStatus { is_connected: false, battery_level: None },
        }
    }

    /// First step of a connect: tear down any prior binding, so that a
    /// reconnect never overwrites live handles. Returns the id of the
    /// previously connected device, for the caller's best-effort
    /// link-layer disconnect.
    pub fn begin_connect(&mut self) -> (prev: Option<String>)
        ensures
            spec_teardown(*old(self), *final(self), match prev {
                Some(p) => Some(p@),
                None => None,
            }),
    {
        let prev = match &self.connection {
            Some(c) => Some(c.device_id.clone()),
            None => None,
        };
        self.connection = None;
        prev
    }

    /// Last step of a successful connect: commit the freshly resolved
    /// binding and the opportunistic battery read. Requires that the
    /// teardown step already ran, so exactly one binding is ever live.
    pub fn finish_connect(&mut self, device_id: String, binding: Binding, battery: Option<u8>) -> (st:
        BleStatus)
        requires
            spec_is_disconnected(*old(self)),
        ensures
            spec_connected_to(*final(self), device_id@, binding, battery),
            st == (BleStatus { is_connected: true, battery_level: battery }),
            st == final(self).spec_status(),
    {
        self.connection = Some(Connection { device_id, binding, battery_level: battery });
        BleStatus { is_connected: true, battery_level: battery }
    }

    /// Disconnect: clear the binding and the battery level unconditionally,
    /// whatever the link layer later says. Returns the id the caller
    /// should disconnect at the link layer, if any, and the status to
    /// report. Idempotent.
    pub fn disconnect_device(&mut self) -> (r: (Option<String>, BleStatus))
        ensures
            spec_teardown(*old(self), *final(self), match r.0 {
                Some(p) => Some(p@),
                None => None,
            }),
            r.1 == (BleStatus { is_connected: false, battery_level: None }),
    {
        let prev = self.begin_connect();
        (prev, BleStatus { is_connected: false, battery_level: None })
    }

    /// Where a payload write for `role` must go: the bound handle, or the
    /// exact error owed — `NotConnected` while disconnected, else
    /// `CharacteristicUnavailable` when the role is not bound.
    pub open spec fn spec_write_target(self, role: Role) -> Result<u128, BleError> {
        match self.connection {
            None => Err(BleError::NotConnected),
            Some(c) => match spec_binding_role(c.binding, role) {
                None => Err(BleError::CharacteristicUnavailable),
                Some(h) => Ok(h),
            },
        }
    }

    /// Decide where a payload write for `role` must go.
    pub fn write_target(&self, role: Role) -> (r: Result<u128, BleError>)
        ensures
            r == self.spec_write_target(role),
    {
        match &self.connection {
            None => Err(BleError::NotConnected),
            Some(c) => match binding_role(&c.binding, role) {
                None => Err(BleError::CharacteristicUnavailable),
                Some(h) => Ok(h),
            },
        }
    }

    /// The battery characteristic to read, when the session is connected
    /// and the role is bound; `None` means no read happens and the level
    /// stays as it is, reported as unknown if never read.
    pub open spec fn spec_battery_target(self) -> Option<u128> {
        match self.connection {
            Some(c) => c.binding.battery,
            None => None,
        }
    }

    /// Decide whether a battery read can be issued, and on which handle.
    pub fn battery_read_target(&self) -> (t: Option<u128>)
        ensures
            t == self.spec_battery_target(),
    {
        match &self.connection {
            Some(c) => c.binding.battery,
            None => None,
        }
    }

    /// Fold the outcome of a battery read back into the session. `data`
    /// is the bytes read, or `None` when the read failed at the radio
    /// link: a failed read is a `TransportError`, distinguishing "read
    /// attempted and failed" from "never read". A non-empty read stores
    /// and returns its first byte; an empty read changes nothing.
    pub fn read_battery_level(&mut self, data: Option<Vec<u8>>) -> (r: Result<
        Option<u8>,
        BleError,
    >)
        requires
            old(self).spec_battery_target() is Some,
        ensures
            match data {
                None => r == Err::<Option<u8>, BleError>(BleError::TransportError) && *final(self)
                    == *old(self),
                Some(d) => if d@.len() > 0 {
                    &&& r == Ok::<Option<u8>, BleError>(Some(d@[0]))
                    &&& spec_connected_to(
                        *final(self),
                        old(self).connection->0.device_id@,
                        old(self).connection->0.binding,
                        Some(d@[0]),
                    )
                } else {
                    r == Ok::<Option<u8>, BleError>(None) && *final(self) == *old(self)
                },
            },
    {
        match data {
            None => Err(BleError::TransportError),
            Some(d) => {
                if d.len() > 0 {
                    let level = d[0];
                    let updated = match &self.connection {
                        Some(c) => Some(
                            Connection {
                                device_id: c.device_id.clone(),
                                binding: c.binding,
                                battery_level: Some(level),
                            },
                        ),
                        None => None,
                    };
                    self.connection = updated;
                    Ok(Some(level))
                } else {
                    Ok(None)
                }
            },
        }
    }
}

/// First byte of an opportunistic battery read during connect, if the read
/// produced any bytes. Failure to read battery never fails the connect.
pub fn parse_battery_level(data: Option<Vec<u8>>) -> (level: Option<u8>)
    ensures
        level == match data {
            Some(d) => if d@.len() > 0 {
                Some(d@[0])
            } else {
                None::<u8>
            },
            None => None::<u8>,
        },
{
    match data {
        Some(d) => if d.len() > 0 {
            Some(d[0])
        } else {
            None
        },
        None => None,
    }
}

/// Which adapter to use out of a fresh enumeration of `count` adapters:
/// the first, or `AdapterUnavailable` when the radio has none.
pub fn select_adapter(count: usize) -> (r: Result<usize, BleError>)
    ensures
        r == if count == 0 {
            Err::<usize, BleError>(BleError::AdapterUnavailable)
        } else {
            Ok::<usize, BleError>(0usize)
        },
{
    if count == 0 {
        Err(BleError::AdapterUnavailable)
    } else {
        Ok(0)
    }
}

/// Resolve a device id against a fresh enumeration: the first peripheral
/// with that id, or `DeviceNotFound` when none carries it.
pub fn find_device_index(ids: &Vec<String>, device_id: &String) -> (r: Result<usize, BleError>)
    ensures
        match r {
            Ok(i) => i < ids@.len() && ids@[i as int]@ == device_id@ && (forall|j: int|
                0 <= j < i ==> ids@[j]@ != device_id@),
            Err(e) => e == BleError::DeviceNotFound && (forall|j: int|
                0 <= j < ids@.len() ==> ids@[j]@ != device_id@),
        },
{
    let n = ids.len();
    let mut i: usize = 0;
    while i < n
        invariant
            i <= n,
            n == ids@.len(),
            forall|j: int| 0 <= j < i ==> ids@[j]@ != device_id@,
        decreases n - i,
    {
        if ids[i].eq(device_id) {
            return Ok(i);
        }
        i += 1;
    }
    Err(BleError::DeviceNotFound)
}

/// The first advertised service carrying the control service identifier.
pub open spec fn spec_first_control_service(services: Seq<ServiceInfoView>) -> Option<
    ServiceInfoView,
>
    decreases services.len(),
{
    if services.len() == 0 {
        None
    } else if services[0].uuid == SERVICE_UUID {
        Some(services[0])
    } else {
        spec_first_control_service(services.drop_first())
    }
}

/// The binding derived from a characteristic list: each role is bound iff
/// the list carries its identifier.
pub open spec fn spec_binding_of_chars(chars: Seq<u128>) -> Binding {
    Binding {
        keymap: if chars.contains(KEYMAP_CHARACTERISTIC_UUID) {
            Some(KEYMAP_CHARACTERISTIC_UUID)
        } else {
            None
        },
        cmd: if chars.contains(CMD_CHARACTERISTIC_UUID) {
            Some(CMD_CHARACTERISTIC_UUID)
        } else {
            None
        },
        fw_chunk: if chars.contains(FW_CHUNK_CHARACTERISTIC_UUID) {
            Some(FW_CHUNK_CHARACTERISTIC_UUID)
        } else {
            None
        },
        battery: if chars.contains(BATTERY_CHARACTERISTIC_UUID) {
            Some(BATTERY_CHARACTERISTIC_UUID)
        } else {
            None
        },
    }
}

/// What binding a freshly discovered service list yields.
pub open spec fn spec_bind_characteristics(services: Seq<ServiceInfoView>) -> Result<
    Binding,
    BleError,
> {
    match spec_first_control_service(services) {
        Some(s) => Ok(spec_binding_of_chars(s.characteristics)),
        None => Err(BleError::ServiceNotFound),
    }
}

/// Derive the four role bindings from the services a connected peripheral
/// advertises: locate the control service, then bind each role iff its
/// characteristic is present. A peripheral without the control service is
/// `ServiceNotFound`; a missing role is merely left unbound.
pub fn bind_characteristics(services: &Vec<ServiceInfo>) -> (r: Result<Binding, BleError>)
    ensures
        r == spec_bind_characteristics(services@.map_values(|s: ServiceInfo| s@)),
{
    let ghost all = services@.map_values(|s: ServiceInfo| s@);
    let n = services.len();
    proof {
        assert(all.skip(0) =~= all);
    }
    let mut i: usize = 0;
    while i < n
        invariant
            i <= n,
            n == services@.len(),
            all == services@.map_values(|s: ServiceInfo| s@),
            spec_first_control_service(all) == spec_first_control_service(all.skip(i as int)),
        decreases n - i,
    {
        proof {
            assert(all.skip(i as int)[0] == all[i as int]);
            assert(all.skip(i as int).drop_first() =~= all.skip(i + 1));
        }
        if services[i].uuid == SERVICE_UUID {
            let s = &services[i];
            proof {
                assert(spec_first_control_service(all) == Some(all[i as int]));
            }
            let b = Binding {
                keymap: if contains_uuid(&s.characteristics, KEYMAP_CHARACTERISTIC_UUID) {
                    Some(KEYMAP_CHARACTERISTIC_UUID)
                } else {
                    None
                },
                cmd: if contains_uuid(&s.characteristics, CMD_CHARACTERISTIC_UUID) {
                    Some(CMD_CHARACTERISTIC_UUID)
                } else {
                    None
                },
                fw_chunk: if contains_uuid(&s.characteristics, FW_CHUNK_CHARACTERISTIC_UUID) {
                    Some(FW_CHUNK_CHARACTERISTIC_UUID)
                } else {
                    None
                },
                battery: if contains_uuid(&s.characteristics, BATTERY_CHARACTERISTIC_UUID) {
                    Some(BATTERY_CHARACTERISTIC_UUID)
                } else {
                    None
                },
            };
            return Ok(b);
        }
        i += 1;
    }
    proof {
        assert(all.skip(n as int) =~= Seq::<ServiceInfoView>::empty());
    }
    Err(BleError::ServiceNotFound)
}

/// Map a failed link-layer connect call to its error. The session state
/// is untouched by a failed connect: the caller commits a binding only
/// through `finish_connect`.
pub fn link_connect_outcome(ok: bool) -> (r: Result<(), BleError>)
    ensures
        r == if ok {
            Ok::<(), BleError>(())
        } else {
            Err::<(), BleError>(BleError::LinkConnectFailed)
        },
{
    if ok {
        Ok(())
    } else {
        Err(BleError::LinkConnectFailed)
    }
}

/// Law (binding exactness): deriving a binding from a characteristic list
/// binds a role iff the list carries that role's identifier, and the bound
/// handle is exactly that identifier.
pub proof fn lemma_binding_roles_exact(chars: Seq<u128>, role: Role)
    ensures
        spec_binding_role(spec_binding_of_chars(chars), role) == if chars.contains(
            spec_role_uuid(role),
        ) {
            Some(spec_role_uuid(role))
        } else {
            None::<u128>
        },
{
}

/// Law (state-machine exclusivity): on a disconnected session — a freshly
/// constructed one in particular — a write decision for any role always
/// yields `NotConnected`, and no battery read is ever issued.
pub proof fn lemma_disconnected_ops_fail(s: BleState, role: Role)
    requires
        spec_is_disconnected(s),
    ensures
        s.spec_write_target(role) == Err::<u128, BleError>(BleError::NotConnected),
        s.spec_battery_target() is None,
{
}

/// Law (reconnect safety): a connect sequence — teardown of whatever was
/// bound, then commit of the new binding — leaves the session bound to the
/// newly requested device alone: exactly one binding is live and it is the
/// new one.
pub proof fn lemma_reconnect_safety(
    s0: BleState,
    s1: BleState,
    s2: BleState,
    prev: Option<Seq<char>>,
    id: Seq<char>,
    b: Binding,
    bat: Option<u8>,
)
    requires
        spec_teardown(s0, s1, prev),
        spec_connected_to(s2, id, b, bat),
    ensures
        spec_is_disconnected(s1),
        s2.connection matches Some(c) && c.binding == b && c.device_id@ == id,
{
}

/// Law (disconnect mid-transfer): once a disconnect has torn the session
/// down — including one issued by another caller between two chunk sends —
/// the next chunk's write decision yields `NotConnected`, and the transfer
/// surfaces that failure instead of stopping silently.
pub proof fn lemma_disconnect_fails_next_chunk(
    pre: BleState,
    post: BleState,
    prev: Option<Seq<char>>,
)
    requires
        spec_teardown(pre, post, prev),
    ensures
        post.spec_write_target(Role::FirmwareChunk) == Err::<u128, BleError>(
            BleError::NotConnected,
        ),
{
}

/// Law (status distinguishes states): the status of a disconnected session
/// reports battery unknown; the status of a connected session reports
/// exactly the stored level, and a successful battery read stores the
/// level it returned.
pub proof fn lemma_status_battery(s: BleState, id: Seq<char>, b: Binding, bat: Option<u8>)
    ensures
        spec_is_disconnected(s) ==> s.spec_status() == (BleStatus {
            is_connected: false,
            battery_level: None,
        }),
        spec_connected_to(s, id, b, bat) ==> s.spec_status() == (BleStatus {
            is_connected: true,
            battery_level: bat,
        }),
{
}

} // verus!
