//! The ASHA GATT service and characteristic identifiers, and the data
//! a candidate peripheral presents to the binding rules: everything the
//! binder reads about a device, gathered into one snapshot of plain
//! values.

use vstd::prelude::*;

use crate::caps::SIDE;
use crate::props::ReadOnlyProperties;

verus! {

/// The ASHA GATT service.
pub const ASHA_UUID: u128 = 0x0000FDF0_0000_1000_8000_00805F9B34FB;

/// ReadOnlyProperties characteristic: 17 bytes, read.
pub const ROPC_UUID: u128 = 0x6333651e_c481_4a3e_9169_7c902aad37bb;

/// AudioControlPoint characteristic: opcode frames, write.
pub const ACPC_UUID: u128 = 0xf0d4de7e_4a88_476c_9d9f_1937b0996cc0;

/// AudioStatusPoint characteristic: one status byte, read.
pub const ASTC_UUID: u128 = 0x38663f1a_e711_4cac_b641_326b56404837;

/// Volume characteristic: recognized but not driven.
pub const VOLC_UUID: u128 = 0x00e4ca9e_ab14_41e4_8823_f9e70c7e91df;

/// LE-PSM characteristic: two bytes little-endian, read.
pub const PSMC_UUID: u128 = 0x2d410339_82b6_42aa_b34e_e2e01df8cc1a;

/// The five characteristics of the ASHA service.
#[derive(Clone, Copy, Debug, PartialEq, Eq, Hash, Structural)]
pub enum CharKind {
    Ropc,
    Acpc,
    Astc,
    Volc,
    Psmc,
}

pub open spec fn spec_classify(uuid: u128) -> Option<CharKind> {
    if uuid == ROPC_UUID {
        Some(CharKind::Ropc)
    } else if uuid == ACPC_UUID {
        Some(CharKind::Acpc)
    } else if uuid == ASTC_UUID {
        Some(CharKind::Astc)
    } else if uuid == VOLC_UUID {
        Some(CharKind::Volc)
    } else if uuid == PSMC_UUID {
        Some(CharKind::Psmc)
    } else {
        None
    }
}

/// Names the ASHA characteristic a UUID stands for, if any.
pub fn classify_characteristic(uuid: u128) -> (r: Option<CharKind>)
    ensures
        r == spec_classify(uuid),
{
    if uuid == ROPC_UUID {
        Some(CharKind::Ropc)
    } else if uuid == ACPC_UUID {
        Some(CharKind::Acpc)
    } else if uuid == ASTC_UUID {
        Some(CharKind::Astc)
    } else if uuid == VOLC_UUID {
        Some(CharKind::Volc)
    } else if uuid == PSMC_UUID {
        Some(CharKind::Psmc)
    } else {
        None
    }
}

/// Everything the binder reads about one paired device, as plain
/// values: its address, its connection and discovery state, which of
/// the five ASHA characteristics its service carries, and the raw
/// bytes of the two characteristics the binder reads.
#[derive(Clone, Debug)]
pub struct DeviceSnapshot {
    /// The 48-bit device address.
    pub addr: u64,
    pub is_connected: bool,
    pub services_resolved: bool,
    /// The advertised service set includes the ASHA service UUID.
    pub advertises_asha: bool,
    pub has_ropc: bool,
    pub has_acpc: bool,
    pub has_astc: bool,
    pub has_volc: bool,
    pub has_psmc: bool,
    /// The bytes read from ReadOnlyProperties; expected 17.
    pub ropc: Vec<u8>,
    /// The bytes read from the LE-PSM characteristic; expected 2.
    pub psmc: Vec<u8>,
}

/// Why one candidate device was skipped. Every reason is per-device
/// and non-fatal: the device may qualify on a later pass.
#[derive(Clone, Copy, Debug, PartialEq, Eq, Structural)]
pub enum BindSkip {
    /// The session is mid-stream; no device is added until it stops.
    SessionStreaming,
    /// The address is already bound.
    AlreadyBound,
    NotConnected,
    ServicesUnresolved,
    NoAshaService,
    /// One of the five ASHA characteristics is absent.
    MissingCharacteristic,
    /// ReadOnlyProperties was not 17 bytes, or failed the version,
    /// flow-control or codec checks.
    BadProperties,
    /// The LE-PSM characteristic was not 2 bytes.
    BadPsm,
    /// A peer of the same side is already bound; the first one wins.
    SideTaken,
    /// The L2CAP socket could not be connected.
    ConnectFailed,
}

/// What binding one qualified device needs: the side it will serve,
/// the PSM its audio channel listens on, and its decoded properties.
#[derive(Clone, Copy, Debug)]
pub struct BindPlan {
    pub side: SIDE,
    pub psm: u16,
    pub props: ReadOnlyProperties,
}

} // verus!
