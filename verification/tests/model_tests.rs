use asha::binder::ACPC_UUID;
use asha::binder::ASTC_UUID;
use asha::binder::CharKind;
use asha::binder::PSMC_UUID;
use asha::binder::ROPC_UUID;
use asha::binder::VOLC_UUID;
use asha::binder::classify_characteristic;
use asha::caps::DeviceCapabilities;
use asha::caps::FeatureMap;
use asha::caps::HiSyncID;
use asha::caps::MODALITY;
use asha::caps::SIDE;
use asha::frames::make_frame;
use asha::frames::next_seq;
use asha::frames::start_packet;
use asha::frames::status_packet;
use asha::frames::stop_packet;
use asha::pipeline::FrameQueue;
use asha::pipeline::PcmRing;
use asha::props::ReadOnlyProperties;

fn rop_bytes(cap: u8) -> Vec<u8> {
    let mut v = vec![0u8; 17];
    v[0] = 0x01;
    v[1] = cap;
    v[2] = 0x34;
    v[3] = 0x12;
    v[4] = 1;
    v[5] = 2;
    v[6] = 3;
    v[7] = 4;
    v[8] = 5;
    v[9] = 6;
    v[10] = 0x01;
    v[11] = 0x0a;
    v[12] = 0x00;
    v[13] = 0xaa;
    v[14] = 0xbb;
    v[15] = 0x02;
    v[16] = 0x00;
    v
}

#[test]
fn capabilities_decoding() {
    let c = DeviceCapabilities::new(0x00);
    assert!(c.side == SIDE::LEFT);
    assert!(c.modality == MODALITY::MONAURAL);
    assert!(!c.csis);

    let c = DeviceCapabilities::new(0x01);
    assert!(c.side == SIDE::RIGHT);

    let c = DeviceCapabilities::new(0x02);
    assert!(c.side == SIDE::LEFT);
    assert!(c.modality == MODALITY::BINAURAL);

    let c = DeviceCapabilities::new(0x03);
    assert!(c.side == SIDE::RIGHT);
    assert!(c.modality == MODALITY::BINAURAL);

    let c = DeviceCapabilities::new(0x04);
    assert!(c.csis);
    assert!(c.side == SIDE::LEFT);
}

#[test]
fn capabilities_byte_round_trip() {
    for b in 0u8..8 {
        assert_eq!(DeviceCapabilities::new(b).to_byte(), b);
    }
}

#[test]
fn feature_map_coc_bit() {
    assert!(FeatureMap::new(0x01).coc);
    assert!(!FeatureMap::new(0x00).coc);
    assert!(!FeatureMap::new(0x02).coc);
    assert!(FeatureMap::new(0x03).coc);
}

#[test]
fn hi_sync_id_parse() {
    let h = HiSyncID::new([0x34, 0x12, 0x01, 0x02, 0x03, 0x04, 0x05, 0x06]);
    assert_eq!(h.manufacturer, 0x1234);
    assert_eq!(h.set, 0x0605_0403_0201);
}

#[test]
fn rop_parse_fields() {
    let bytes = rop_bytes(0x03);
    let r = ReadOnlyProperties::parse(&bytes).unwrap();
    assert_eq!(r.version, 1);
    assert!(r.capabilities.side == SIDE::RIGHT);
    assert!(r.capabilities.modality == MODALITY::BINAURAL);
    assert_eq!(r.hi_sync_id.manufacturer, 0x1234);
    assert_eq!(r.hi_sync_id.set, 0x0605_0403_0201);
    assert!(r.feature_map.coc);
    assert_eq!(r.render_delay, 10);
    assert_eq!(r.reserved, [0xaa, 0xbb]);
    assert_eq!(r.supported_codecs, 0x0002);
    assert!(r.is_valid());
}

#[test]
fn rop_serialize_round_trip() {
    // any 17-byte buffer with a valid version byte comes back byte for
    // byte, the reserved bytes included
    let bytes = rop_bytes(0x07);
    let r = ReadOnlyProperties::parse(&bytes).unwrap();
    let out = r.to_bytes();
    assert_eq!(out.to_vec(), bytes);
}

#[test]
fn rop_rejects_bad_version() {
    let mut bytes = rop_bytes(0x00);
    bytes[0] = 0x02;
    let r = ReadOnlyProperties::parse(&bytes).unwrap();
    assert!(!r.is_valid());
}

#[test]
fn rop_rejects_missing_coc() {
    let mut bytes = rop_bytes(0x00);
    bytes[10] = 0x00;
    let r = ReadOnlyProperties::parse(&bytes).unwrap();
    assert!(!r.is_valid());
}

#[test]
fn rop_rejects_missing_g722() {
    let mut bytes = rop_bytes(0x00);
    bytes[15] = 0x01;
    let r = ReadOnlyProperties::parse(&bytes).unwrap();
    assert!(!r.is_valid());
}

#[test]
fn rop_rejects_wrong_length() {
    let bytes = vec![0u8; 16];
    assert!(ReadOnlyProperties::parse(&bytes).is_none());
}

#[test]
fn start_packet_bytes() {
    assert_eq!(start_packet(false), vec![0x01, 0x01, 0x00, 0x80, 0x00]);
    assert_eq!(start_packet(true), vec![0x01, 0x01, 0x00, 0x80, 0x01]);
}

#[test]
fn stop_packet_bytes() {
    assert_eq!(stop_packet(), vec![0x02]);
}

#[test]
fn status_packet_bytes() {
    assert_eq!(status_packet(1), vec![0x03, 1, 20]);
}

#[test]
fn frame_is_161_bytes() {
    let payload: Vec<u8> = (0u8..=159).collect();
    let frame = make_frame(42, &payload);
    assert_eq!(frame.len(), 161);
    assert_eq!(frame[0], 42);
    assert_eq!(&frame[1..], payload.as_slice());
}

#[test]
fn sequence_wraps_255_to_0() {
    assert_eq!(next_seq(255), 0);
    assert_eq!(next_seq(0), 1);
    assert_eq!(next_seq(254), 255);
}

#[test]
fn ring_of_320_yields_one_block() {
    let mut ring = PcmRing::new();
    let chunk: Vec<i16> = (0..320).map(|i| i as i16).collect();
    ring.append(&chunk);
    let block = ring.take_block().unwrap();
    assert_eq!(block.len(), 320);
    assert_eq!(block, chunk);
    assert_eq!(ring.len(), 0);
    assert!(ring.take_block().is_none());
}

#[test]
fn ring_of_319_yields_nothing() {
    let mut ring = PcmRing::new();
    let chunk = vec![7i16; 319];
    ring.append(&chunk);
    assert!(ring.take_block().is_none());
    assert_eq!(ring.len(), 319);
}

#[test]
fn ring_deinterleaves_stereo() {
    let mut left = PcmRing::new();
    let mut right = PcmRing::new();
    let chunk: Vec<i16> = vec![10, -10, 20, -20, 30, -30];
    left.append_channel(&chunk, 0);
    right.append_channel(&chunk, 1);
    assert_eq!(left.len(), 3);
    assert_eq!(right.len(), 3);
    let filler = vec![0i16; 317];
    left.append(&filler);
    let block = left.take_block().unwrap();
    assert_eq!(&block[0..3], &[10, 20, 30]);
}

#[test]
fn queue_is_fifo() {
    let mut q = FrameQueue::new();
    let a = vec![1u8; 160];
    let b = vec![2u8; 160];
    q.enqueue(a.clone());
    q.enqueue(b.clone());
    assert_eq!(q.len(), 2);
    assert_eq!(q.dequeue().unwrap(), a);
    assert_eq!(q.dequeue().unwrap(), b);
    assert!(q.dequeue().is_none());
}

#[test]
fn queue_drops_oldest_at_capacity() {
    let mut q = FrameQueue::new();
    for i in 0u8..5 {
        q.enqueue(vec![i; 160]);
    }
    assert_eq!(q.len(), 4);
    assert_eq!(q.dequeue().unwrap(), vec![1u8; 160]);
}

#[test]
fn classify_known_uuids() {
    assert!(classify_characteristic(ROPC_UUID) == Some(CharKind::Ropc));
    assert!(classify_characteristic(ACPC_UUID) == Some(CharKind::Acpc));
    assert!(classify_characteristic(ASTC_UUID) == Some(CharKind::Astc));
    assert!(classify_characteristic(VOLC_UUID) == Some(CharKind::Volc));
    assert!(classify_characteristic(PSMC_UUID) == Some(CharKind::Psmc));
    assert!(classify_characteristic(0x1234).is_none());
}
