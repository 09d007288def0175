//! The 17-byte ReadOnlyProperties characteristic: parsing, validation
//! and re-serialization.

use vstd::prelude::*;
use vstd::arithmetic::div_mod::lemma_fundamental_div_mod_converse;

use crate::caps::DeviceCapabilities;
use crate::caps::FeatureMap;
use crate::caps::HiSyncID;
use crate::caps::lemma_capabilities_round_trip;
use crate::caps::lemma_feature_map_round_trip;
use crate::caps::spec_capabilities;
use crate::caps::spec_capabilities_byte;
use crate::caps::spec_feature_map;
use crate::caps::spec_feature_map_byte;
use crate::caps::spec_le16;
use crate::caps::spec_le48;

verus! {

/// The decoded ReadOnlyProperties record.
#[derive(Clone, Copy, Debug)]
pub struct ReadOnlyProperties {
    pub version: u8,
    pub capabilities: DeviceCapabilities,
    pub hi_sync_id: HiSyncID,
    pub feature_map: FeatureMap,
    pub render_delay: u16,
    pub reserved: [u8; 2],
    pub supported_codecs: u16,
}

/// `r` is the decoding of the 17-byte buffer `data`:
/// version at offset 0, capabilities at 1, HiSyncID at 2 to 9
/// (manufacturer little-endian, then the six-byte set identifier),
/// feature map at 10, render delay little-endian at 11, the two
/// reserved bytes at 13, and the codec bitmap little-endian at 15.
pub open spec fn rop_matches(r: ReadOnlyProperties, data: Seq<u8>) -> bool {
    &&& data.len() == 17
    &&& r.version == data[0]
    &&& r.capabilities == spec_capabilities(data[1])
    &&& r.hi_sync_id.manufacturer == spec_le16(data[2], data[3])
    &&& r.hi_sync_id.set == spec_le48(data[4], data[5], data[6], data[7], data[8], data[9])
    &&& r.feature_map == spec_feature_map(data[10])
    &&& r.render_delay == spec_le16(data[11], data[12])
    &&& r.reserved@ =~= seq![data[13], data[14]]
    &&& r.supported_codecs == spec_le16(data[15], data[16])
}

/// The low byte of a 16-bit little-endian encoding.
pub open spec fn spec_lo(v: u16) -> u8 {
    (v % 256) as u8
}

/// The high byte of a 16-bit little-endian encoding.
pub open spec fn spec_hi(v: u16) -> u8 {
    (v / 256) as u8
}

/// The 17 bytes that encode this record.
pub open spec fn spec_serialize_rop(r: ReadOnlyProperties) -> Seq<u8> {
    seq![
        r.version,
        spec_capabilities_byte(r.capabilities),
        spec_lo(r.hi_sync_id.manufacturer),
        spec_hi(r.hi_sync_id.manufacturer),
        (r.hi_sync_id.set % 256) as u8,
        (r.hi_sync_id.set / 256 % 256) as u8,
        (r.hi_sync_id.set / 256 / 256 % 256) as u8,
        (r.hi_sync_id.set / 256 / 256 / 256 % 256) as u8,
        (r.hi_sync_id.set / 256 / 256 / 256 / 256 % 256) as u8,
        (r.hi_sync_id.set / 256 / 256 / 256 / 256 / 256 % 256) as u8,
        spec_feature_map_byte(r.feature_map),
        spec_lo(r.render_delay),
        spec_hi(r.render_delay),
        r.reserved@[0],
        r.reserved@[1],
        spec_lo(r.supported_codecs),
        spec_hi(r.supported_codecs),
    ]
}

/// The record passes the profile checks: version 1, the peripheral
/// supports credit-based flow control, and the codec bitmap advertises
/// G.722 at 16 kHz (bit 1).
pub open spec fn spec_rop_valid(r: ReadOnlyProperties) -> bool {
    &&& r.version == 0x01
    &&& r.feature_map.coc
    &&& (r.supported_codecs / 2) % 2 == 1
}

impl ReadOnlyProperties {
    /// Decodes the 17 bytes read from the ReadOnlyProperties
    /// characteristic.
    pub fn new(data: [u8; 17]) -> (r: ReadOnlyProperties)
        ensures
            rop_matches(r, data@),
    {
        ReadOnlyProperties {
            version: data[0],
            capabilities: DeviceCapabilities::new(data[1]),
            hi_sync_id: HiSyncID::new(
                [data[2], data[3], data[4], data[5], data[6], data[7], data[8], data[9]],
            ),
            feature_map: FeatureMap::new(data[10]),
            render_delay: data[11] as u16 + data[12] as u16 * 256,
            reserved: [data[13], data[14]],
            supported_codecs: data[15] as u16 + data[16] as u16 * 256,
        }
    }

    /// Decodes a characteristic read of unchecked length; `None`
    /// unless it is exactly 17 bytes.
    pub fn parse(data: &Vec<u8>) -> (r: Option<ReadOnlyProperties>)
        ensures
            data@.len() == 17 ==> (r matches Some(p) && rop_matches(p, data@)),
            data@.len() != 17 ==> r is None,
    {
        if data.len() != 17 {
            return None;
        }
        let arr: [u8; 17] = [
            data[0],
            data[1],
            data[2],
            data[3],
            data[4],
            data[5],
            data[6],
            data[7],
            data[8],
            data[9],
            data[10],
            data[11],
            data[12],
            data[13],
            data[14],
            data[15],
            data[16],
        ];
        proof {
            assert(arr@ =~= data@);
        }
        Some(ReadOnlyProperties::new(arr))
    }

    /// Whether the record passes the profile checks that binding
    /// requires.
    pub fn is_valid(&self) -> (r: bool)
        ensures
            r == spec_rop_valid(*self),
    {
        self.version == 0x01 && self.feature_map.coc && (self.supported_codecs / 2) % 2 == 1
    }

    /// Re-encodes the record as the 17-byte characteristic value.
    pub fn to_bytes(&self) -> (r: [u8; 17])
        ensures
            r@ == spec_serialize_rop(*self),
    {
        let m = self.hi_sync_id.manufacturer;
        let s = self.hi_sync_id.set;
        let d = self.render_delay;
        let c = self.supported_codecs;
        let out: [u8; 17] = [
            self.version,
            self.capabilities.to_byte(),
            (m % 256) as u8,
            (m / 256) as u8,
            (s % 256) as u8,
            (s / 256 % 256) as u8,
            (s / 256 / 256 % 256) as u8,
            (s / 256 / 256 / 256 % 256) as u8,
            (s / 256 / 256 / 256 / 256 % 256) as u8,
            (s / 256 / 256 / 256 / 256 / 256 % 256) as u8,
            self.feature_map.to_byte(),
            (d % 256) as u8,
            (d / 256) as u8,
            self.reserved[0],
            self.reserved[1],
            (c % 256) as u8,
            (c / 256) as u8,
        ];
        proof {
            assert(out@ =~= spec_serialize_rop(*self));
        }
        out
    }
}

/// A 16-bit value assembled from two bytes comes apart into the same
/// two bytes.
proof fn lemma_le16_bytes(lo: u8, hi: u8)
    ensures
        spec_lo(spec_le16(lo, hi)) == lo,
        spec_hi(spec_le16(lo, hi)) == hi,
{
    lemma_fundamental_div_mod_converse(lo + hi * 256, 256, hi as int, lo as int);
}

/// A 48-bit value assembled from six bytes comes apart into the same
/// six bytes.
proof fn lemma_le48_bytes(b0: u8, b1: u8, b2: u8, b3: u8, b4: u8, b5: u8)
    ensures
        spec_le48(b0, b1, b2, b3, b4, b5) % 256 == b0,
        spec_le48(b0, b1, b2, b3, b4, b5) / 256 % 256 == b1,
        spec_le48(b0, b1, b2, b3, b4, b5) / 256 / 256 % 256 == b2,
        spec_le48(b0, b1, b2, b3, b4, b5) / 256 / 256 / 256 % 256 == b3,
        spec_le48(b0, b1, b2, b3, b4, b5) / 256 / 256 / 256 / 256 % 256 == b4,
        spec_le48(b0, b1, b2, b3, b4, b5) / 256 / 256 / 256 / 256 / 256 % 256 == b5,
{
    let q4 = b4 + 256 * (b5 as int);
    let q3 = b3 + 256 * q4;
    let q2 = b2 + 256 * q3;
    let q1 = b1 + 256 * q2;
    let q0 = b0 + 256 * q1;
    let s = spec_le48(b0, b1, b2, b3, b4, b5) as int;
    assert(s == q0);
    lemma_fundamental_div_mod_converse(q0, 256, q1, b0 as int);
    lemma_fundamental_div_mod_converse(q1, 256, q2, b1 as int);
    lemma_fundamental_div_mod_converse(q2, 256, q3, b2 as int);
    lemma_fundamental_div_mod_converse(q3, 256, q4, b3 as int);
    lemma_fundamental_div_mod_converse(q4, 256, b5 as int, b4 as int);
}

/// Parsing a 17-byte ReadOnlyProperties buffer with a valid version
/// byte and clear reserved bits, then re-serializing the result,
/// reproduces the buffer byte for byte.
pub proof fn lemma_rop_round_trip(r: ReadOnlyProperties, data: Seq<u8>)
    requires
        rop_matches(r, data),
        data[0] == 0x01,
        data[1] < 8,
        data[10] < 2,
    ensures
        spec_serialize_rop(r) == data,
{
    lemma_capabilities_round_trip(data[1]);
    lemma_feature_map_round_trip(data[10]);
    lemma_le16_bytes(data[2], data[3]);
    lemma_le48_bytes(data[4], data[5], data[6], data[7], data[8], data[9]);
    lemma_le16_bytes(data[11], data[12]);
    lemma_le16_bytes(data[15], data[16]);
    assert(spec_serialize_rop(r) =~= data);
}

} // verus!
