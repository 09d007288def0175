//! Device Capabilities and Feature Map bytes of the ASHA
//! ReadOnlyProperties characteristic, and the HiSyncID record.

use vstd::prelude::*;

verus! {

/// Which ear a peripheral serves; bit 0 of the capabilities byte.
#[allow(non_camel_case_types)]
#[derive(Clone, Copy, Debug, PartialEq, Eq, Structural)]
pub enum SIDE {
    LEFT,
    RIGHT,
}

/// Whether the peripheral is one of a pair; bit 1 of the capabilities byte.
#[allow(non_camel_case_types)]
#[derive(Clone, Copy, Debug, PartialEq, Eq, Structural)]
pub enum MODALITY {
    MONAURAL,
    BINAURAL,
}

pub open spec fn spec_side(data: u8) -> SIDE {
    if data % 2 == 0 {
        SIDE::LEFT
    } else {
        SIDE::RIGHT
    }
}

pub open spec fn spec_modality(data: u8) -> MODALITY {
    if (data / 2) % 2 == 0 {
        MODALITY::MONAURAL
    } else {
        MODALITY::BINAURAL
    }
}

pub open spec fn spec_csis(data: u8) -> bool {
    (data / 4) % 2 == 1
}

/// The decoded Device Capabilities byte.
#[derive(Clone, Copy, Debug, PartialEq, Eq, Structural)]
pub struct DeviceCapabilities {
    pub side: SIDE,
    pub modality: MODALITY,
    pub csis: bool,
}

pub open spec fn spec_capabilities(data: u8) -> DeviceCapabilities {
    DeviceCapabilities { side: spec_side(data), modality: spec_modality(data), csis: spec_csis(data) }
}

/// The capabilities byte that encodes this record: bit 0 side,
/// bit 1 modality, bit 2 CSIS support, upper bits zero.
pub open spec fn spec_capabilities_byte(c: DeviceCapabilities) -> u8 {
    ((if c.side is RIGHT {
        1int
    } else {
        0int
    }) + (if c.modality is BINAURAL {
        2int
    } else {
        0int
    }) + (if c.csis {
        4int
    } else {
        0int
    })) as u8
}

impl DeviceCapabilities {
    /// Decodes a Device Capabilities byte.
    pub fn new(data: u8) -> (r: DeviceCapabilities)
        ensures
            r == spec_capabilities(data),
    {
        DeviceCapabilities {
            side: DeviceCapabilities::get_side(data),
            modality: DeviceCapabilities::get_modality(data),
            csis: DeviceCapabilities::has_csis(data),
        }
    }

    /// The side encoded in bit 0: clear is left, set is right.
    pub fn get_side(data: u8) -> (r: SIDE)
        ensures
            r == spec_side(data),
    {
        if data % 2 == 0 {
            SIDE::LEFT
        } else {
            SIDE::RIGHT
        }
    }

    /// The modality encoded in bit 1: clear is monaural, set is binaural.
    pub fn get_modality(data: u8) -> (r: MODALITY)
        ensures
            r == spec_modality(data),
    {
        if (data / 2) % 2 == 0 {
            MODALITY::MONAURAL
        } else {
            MODALITY::BINAURAL
        }
    }

    /// Whether bit 2 advertises CSIS support.
    pub fn has_csis(data: u8) -> (r: bool)
        ensures
            r == spec_csis(data),
    {
        (data / 4) % 2 == 1
    }

    /// Re-encodes the record as a capabilities byte.
    pub fn to_byte(&self) -> (r: u8)
        ensures
            r == spec_capabilities_byte(*self),
    {
        let side_bit: u8 = if matches!(self.side, SIDE::RIGHT) {
            1
        } else {
            0
        };
        let modality_bit: u8 = if matches!(self.modality, MODALITY::BINAURAL) {
            2
        } else {
            0
        };
        let csis_bit: u8 = if self.csis {
            4
        } else {
            0
        };
        side_bit + modality_bit + csis_bit
    }
}

/// Decoding a capabilities byte whose reserved bits (3 to 7) are clear
/// and re-encoding the result reproduces the byte.
pub proof fn lemma_capabilities_round_trip(data: u8)
    requires
        data < 8,
    ensures
        spec_capabilities_byte(spec_capabilities(data)) == data,
{
    assert(data < 8 ==> data % 2 + ((data / 2) % 2) * 2 + ((data / 4) % 2) * 4 == data)
        by (bit_vector);
}

/// The decoded Feature Map byte; bit 0 advertises support for LE
/// credit-based flow-controlled channels.
#[derive(Clone, Copy, Debug, PartialEq, Eq, Structural)]
pub struct FeatureMap {
    pub coc: bool,
}

pub open spec fn spec_feature_map(data: u8) -> FeatureMap {
    FeatureMap { coc: data % 2 == 1 }
}

/// The feature map byte that encodes this record, upper bits zero.
pub open spec fn spec_feature_map_byte(f: FeatureMap) -> u8 {
    if f.coc {
        1
    } else {
        0
    }
}

impl FeatureMap {
    /// Decodes a Feature Map byte.
    pub fn new(data: u8) -> (r: FeatureMap)
        ensures
            r == spec_feature_map(data),
    {
        FeatureMap { coc: data % 2 == 1 }
    }

    /// Re-encodes the record as a feature map byte.
    pub fn to_byte(&self) -> (r: u8)
        ensures
            r == spec_feature_map_byte(*self),
    {
        if self.coc {
            1
        } else {
            0
        }
    }
}

/// Decoding a feature map byte whose reserved bits (1 to 7) are clear
/// and re-encoding the result reproduces the byte.
pub proof fn lemma_feature_map_round_trip(data: u8)
    requires
        data < 2,
    ensures
        spec_feature_map_byte(spec_feature_map(data)) == data,
{
}

/// The HiSyncID record: a manufacturer identifier and a 48-bit set
/// identifier shared by the two ears of one hearing-aid set.
#[derive(Clone, Copy, Debug, PartialEq, Eq, Structural)]
pub struct HiSyncID {
    pub manufacturer: u16,
    pub set: u64,
}

/// A 16-bit little-endian value read from two bytes.
pub open spec fn spec_le16(lo: u8, hi: u8) -> u16 {
    (lo + hi * 256) as u16
}

/// A 48-bit little-endian value read from six bytes, least significant
/// byte first.
pub open spec fn spec_le48(b0: u8, b1: u8, b2: u8, b3: u8, b4: u8, b5: u8) -> u64 {
    (b0 + 256 * (b1 + 256 * (b2 + 256 * (b3 + 256 * (b4 + 256 * (b5 as int)))))) as u64
}

pub open spec fn spec_hi_sync_id(data: Seq<u8>) -> HiSyncID {
    HiSyncID {
        manufacturer: spec_le16(data[0], data[1]),
        set: spec_le48(data[2], data[3], data[4], data[5], data[6], data[7]),
    }
}

impl HiSyncID {
    /// Parses eight bytes: a little-endian manufacturer identifier,
    /// then the six-byte set identifier, least significant byte first.
    pub fn new(data: [u8; 8]) -> (r: HiSyncID)
        ensures
            r == spec_hi_sync_id(data@),
    {
        let manufacturer: u16 = data[0] as u16 + data[1] as u16 * 256;
        let set: u64 = data[2] as u64 + 256 * (data[3] as u64 + 256 * (data[4] as u64 + 256 * (
        data[5] as u64 + 256 * (data[6] as u64 + 256 * (data[7] as u64)))));
        HiSyncID { manufacturer, set }
    }
}

} // verus!
