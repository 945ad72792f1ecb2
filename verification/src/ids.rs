//! Well-known identifiers of the peripheral's control service and of the
//! four characteristic roles it may expose. They are fixed at build time,
//! never negotiated, and are carried as plain 128-bit values; the radio
//! layer converts them to its own identifier type at the call site.

use vstd::prelude::*;

verus! {

/// Identifier of the peripheral's control service.
pub const SERVICE_UUID: u128 = 0x00000000_0000_0000_0000_000000000000;

/// Identifier of the characteristic that receives keymap blobs.
pub const KEYMAP_CHARACTERISTIC_UUID: u128 = 0x00000001_0000_0000_0000_000000000000;

/// Identifier of the characteristic that receives discrete commands.
pub const CMD_CHARACTERISTIC_UUID: u128 = 0x00000002_0000_0000_0000_000000000000;

/// Identifier of the characteristic that receives firmware chunks.
pub const FW_CHUNK_CHARACTERISTIC_UUID: u128 = 0x00000003_0000_0000_0000_000000000000;

/// Identifier of the characteristic that reports the battery level.
pub const BATTERY_CHARACTERISTIC_UUID: u128 = 0x00000004_0000_0000_0000_000000000000;

/// The four logical control points a peripheral may expose.
#[derive(Clone, Copy, PartialEq, Eq, Structural, Debug)]
pub enum Role {
    Keymap,
    Command,
    FirmwareChunk,
    Battery,
}

/// The fixed characteristic identifier that serves a role.
pub open spec fn spec_role_uuid(role: Role) -> u128 {
    match role {
        Role::Keymap => KEYMAP_CHARACTERISTIC_UUID,
        Role::Command => CMD_CHARACTERISTIC_UUID,
        Role::FirmwareChunk => FW_CHUNK_CHARACTERISTIC_UUID,
        Role::Battery => BATTERY_CHARACTERISTIC_UUID,
    }
}

/// The fixed characteristic identifier that serves a role.
pub fn role_uuid(role: Role) -> (u: u128)
    ensures
        u == spec_role_uuid(role),
{
    match role {
        Role::Keymap => KEYMAP_CHARACTERISTIC_UUID,
        Role::Command => CMD_CHARACTERISTIC_UUID,
        Role::FirmwareChunk => FW_CHUNK_CHARACTERISTIC_UUID,
        Role::Battery => BATTERY_CHARACTERISTIC_UUID,
    }
}

} // verus!
