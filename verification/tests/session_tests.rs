use asha::binder::BindSkip;
use asha::binder::DeviceSnapshot;
use asha::caps::SIDE;
use asha::session::ASHA;
use asha::session::DevicesConnected;
use asha::session::StartError;
use asha::session::State;

fn rop_bytes(cap: u8) -> Vec<u8> {
    let mut v = vec![0u8; 17];
    v[0] = 0x01;
    v[1] = cap;
    v[2] = 0x34;
    v[3] = 0x12;
    v[4] = 1;
    v[5] = 2;
    v[6] = 3;
    v[7] = 4;
    v[8] = 5;
    v[9] = 6;
    v[10] = 0x01;
    v[11] = 0x0a;
    v[15] = 0x02;
    v
}

fn snapshot(addr: u64, cap: u8) -> DeviceSnapshot {
    DeviceSnapshot {
        addr,
        is_connected: true,
        services_resolved: true,
        advertises_asha: true,
        has_ropc: true,
        has_acpc: true,
        has_astc: true,
        has_volc: true,
        has_psmc: true,
        ropc: rop_bytes(cap),
        psmc: vec![0x80, 0x00],
    }
}

fn mono_session() -> ASHA {
    let mut s = ASHA::new(Some(true));
    assert_eq!(s.update_devices(&snapshot(1, 0x00), true), Ok(SIDE::LEFT));
    s
}

fn streaming_mono() -> ASHA {
    let mut s = mono_session();
    let writes = s.issue_start_command().unwrap();
    assert_eq!(writes.len(), 1);
    s.record_status(SIDE::LEFT, 0);
    assert!(s.finish_start().is_ok());
    s
}

fn streaming_binaural() -> ASHA {
    let mut s = ASHA::new(Some(true));
    assert_eq!(s.update_devices(&snapshot(1, 0x02), true), Ok(SIDE::LEFT));
    assert_eq!(s.update_devices(&snapshot(2, 0x03), true), Ok(SIDE::RIGHT));
    let writes = s.issue_start_command().unwrap();
    assert_eq!(writes.len(), 2);
    s.record_status(SIDE::LEFT, 0);
    s.record_status(SIDE::RIGHT, 0);
    assert!(s.finish_start().is_ok());
    s
}

#[test]
fn adapter_probe_classification() {
    assert!(ASHA::get_adapter_state(None) == State::NoAdapter);
    assert!(ASHA::get_adapter_state(Some(false)) == State::BluetoothOff);
    assert!(ASHA::get_adapter_state(Some(true)) == State::Idle);
}

#[test]
fn new_session_takes_probe_state() {
    assert!(ASHA::new(None).get_state() == State::NoAdapter);
    assert!(ASHA::new(Some(false)).get_state() == State::BluetoothOff);
    assert!(ASHA::new(Some(true)).get_state() == State::Idle);
}

#[test]
fn update_state_follows_probe() {
    let mut s = ASHA::new(Some(false));
    s.update_state(Some(true));
    assert!(s.get_state() == State::Idle);
    s.update_state(None);
    assert!(s.get_state() == State::NoAdapter);
}

#[test]
fn update_state_ignored_while_streaming() {
    let mut s = streaming_mono();
    s.update_state(None);
    assert!(s.get_state() == State::Streaming);
}

#[test]
fn bind_left_device() {
    let mut s = ASHA::new(Some(true));
    assert!(s.get_devices_connected() == DevicesConnected::NONE);
    assert_eq!(s.update_devices(&snapshot(1, 0x00), true), Ok(SIDE::LEFT));
    assert!(s.get_devices_connected() == DevicesConnected::LEFT);
}

#[test]
fn bind_both_devices() {
    let mut s = ASHA::new(Some(true));
    assert_eq!(s.update_devices(&snapshot(1, 0x02), true), Ok(SIDE::LEFT));
    assert_eq!(s.update_devices(&snapshot(2, 0x03), true), Ok(SIDE::RIGHT));
    assert!(s.get_devices_connected() == DevicesConnected::BOTH);
}

#[test]
fn bind_skips_disconnected_device() {
    let mut s = ASHA::new(Some(true));
    let mut snap = snapshot(1, 0x00);
    snap.is_connected = false;
    assert_eq!(s.update_devices(&snap, true), Err(BindSkip::NotConnected));
}

#[test]
fn bind_skips_unresolved_services() {
    let mut s = ASHA::new(Some(true));
    let mut snap = snapshot(1, 0x00);
    snap.services_resolved = false;
    assert_eq!(s.update_devices(&snap, true), Err(BindSkip::ServicesUnresolved));
}

#[test]
fn bind_skips_foreign_device() {
    let mut s = ASHA::new(Some(true));
    let mut snap = snapshot(1, 0x00);
    snap.advertises_asha = false;
    assert_eq!(s.update_devices(&snap, true), Err(BindSkip::NoAshaService));
}

#[test]
fn bind_skips_missing_characteristic() {
    let mut s = ASHA::new(Some(true));
    let mut snap = snapshot(1, 0x00);
    snap.has_psmc = false;
    assert_eq!(s.update_devices(&snap, true), Err(BindSkip::MissingCharacteristic));
}

#[test]
fn bind_skips_bad_properties() {
    let mut s = ASHA::new(Some(true));
    let mut snap = snapshot(1, 0x00);
    snap.ropc[0] = 0x02;
    assert_eq!(s.update_devices(&snap, true), Err(BindSkip::BadProperties));
}

#[test]
fn bind_skips_bad_psm() {
    let mut s = ASHA::new(Some(true));
    let mut snap = snapshot(1, 0x00);
    snap.psmc = vec![0x80];
    assert_eq!(s.update_devices(&snap, true), Err(BindSkip::BadPsm));
}

#[test]
fn bind_skips_taken_side() {
    // two peripherals claiming the same side: the first bound wins
    let mut s = ASHA::new(Some(true));
    assert_eq!(s.update_devices(&snapshot(1, 0x00), true), Ok(SIDE::LEFT));
    assert_eq!(s.update_devices(&snapshot(2, 0x00), true), Err(BindSkip::SideTaken));
    assert!(s.get_devices_connected() == DevicesConnected::LEFT);
}

#[test]
fn bind_skips_known_address() {
    let mut s = ASHA::new(Some(true));
    assert_eq!(s.update_devices(&snapshot(1, 0x00), true), Ok(SIDE::LEFT));
    assert_eq!(s.update_devices(&snapshot(1, 0x00), true), Err(BindSkip::AlreadyBound));
}

#[test]
fn failed_socket_leaves_address_unrecorded() {
    let mut s = ASHA::new(Some(true));
    assert_eq!(s.update_devices(&snapshot(1, 0x00), false), Err(BindSkip::ConnectFailed));
    // the same device qualifies on a later pass
    assert_eq!(s.update_devices(&snapshot(1, 0x00), true), Ok(SIDE::LEFT));
}

#[test]
fn bind_refused_while_streaming() {
    let mut s = streaming_mono();
    assert_eq!(s.update_devices(&snapshot(9, 0x01), true), Err(BindSkip::SessionStreaming));
}

#[test]
fn mono_start() {
    // single peripheral, capabilities 0x00: Left, monaural, no CSIS
    let mut s = mono_session();
    let writes = s.issue_start_command().unwrap();
    assert_eq!(writes.len(), 1);
    assert!(writes[0].side == SIDE::LEFT);
    assert_eq!(writes[0].payload, vec![0x01, 0x01, 0x00, 0x80, 0x00]);
    s.record_status(SIDE::LEFT, 0);
    assert_eq!(s.finish_start(), Ok(()));
    assert!(s.get_state() == State::Streaming);
}

#[test]
fn binaural_start() {
    // Left cap 0x02, Right cap 0x03: Start to both with otherstate 1
    let mut s = ASHA::new(Some(true));
    assert_eq!(s.update_devices(&snapshot(1, 0x02), true), Ok(SIDE::LEFT));
    assert_eq!(s.update_devices(&snapshot(2, 0x03), true), Ok(SIDE::RIGHT));
    let writes = s.issue_start_command().unwrap();
    assert_eq!(writes.len(), 2);
    assert!(writes[0].side == SIDE::LEFT);
    assert!(writes[1].side == SIDE::RIGHT);
    assert_eq!(writes[0].payload, vec![0x01, 0x01, 0x00, 0x80, 0x01]);
    assert_eq!(writes[1].payload, vec![0x01, 0x01, 0x00, 0x80, 0x01]);
    s.record_status(SIDE::LEFT, 0);
    s.record_status(SIDE::RIGHT, 0);
    assert_eq!(s.finish_start(), Ok(()));
    assert!(s.get_state() == State::Streaming);
}

#[test]
fn start_with_no_peers_fails() {
    let mut s = ASHA::new(Some(true));
    assert_eq!(s.issue_start_command().unwrap_err(), StartError::NoPeers);
}

#[test]
fn start_fails_when_no_peer_acknowledges() {
    let mut s = mono_session();
    s.issue_start_command().unwrap();
    s.record_status(SIDE::LEFT, 0xff);
    assert_eq!(s.finish_start(), Err(StartError::AllPeersFaulted));
    assert!(s.get_state() == State::Idle);
    assert!(s.get_devices_connected() == DevicesConnected::NONE);
}

#[test]
fn binaural_start_survives_one_fault() {
    let mut s = ASHA::new(Some(true));
    s.update_devices(&snapshot(1, 0x02), true).unwrap();
    s.update_devices(&snapshot(2, 0x03), true).unwrap();
    s.issue_start_command().unwrap();
    s.record_status(SIDE::LEFT, 0);
    s.record_status(SIDE::RIGHT, 0xfe);
    assert_eq!(s.finish_start(), Ok(()));
    assert!(s.get_state() == State::Streaming);
    assert!(s.get_devices_connected() == DevicesConnected::LEFT);
}

#[test]
fn first_frame_carries_sequence_zero() {
    // PCM of 320 zero samples: one block, one 161-byte frame at seq 0
    let mut s = streaming_mono();
    let chunk = vec![0i16; 320];
    assert!(s.feed(&chunk, 1));
    let block = s.take_pcm_block(SIDE::LEFT).unwrap();
    assert_eq!(block.len(), 320);
    assert!(s.take_pcm_block(SIDE::LEFT).is_none());
    let payload = vec![0x55u8; 160];
    assert!(s.enqueue_payload(SIDE::LEFT, payload.clone()));
    let writes = s.send_audio_packet();
    assert_eq!(writes.len(), 1);
    assert!(writes[0].side == SIDE::LEFT);
    assert_eq!(writes[0].frame.len(), 161);
    assert_eq!(writes[0].frame[0], 0x00);
    assert_eq!(&writes[0].frame[1..], payload.as_slice());
}

#[test]
fn chunk_of_319_produces_no_block() {
    let mut s = streaming_mono();
    let chunk = vec![0i16; 319];
    assert!(s.feed(&chunk, 1));
    assert!(s.take_pcm_block(SIDE::LEFT).is_none());
}

#[test]
fn sequence_wraps_after_256_frames() {
    let mut s = streaming_mono();
    for i in 0..256u32 {
        assert!(s.enqueue_payload(SIDE::LEFT, vec![i as u8; 160]));
        let writes = s.send_audio_packet();
        assert_eq!(writes.len(), 1);
        assert_eq!(writes[0].frame[0], i as u8);
        if i == 50 || i == 100 {
            // coarse status poll mid-stream stays informational
            let polls = s.issue_status_command(1);
            assert_eq!(polls.len(), 1);
            assert_eq!(polls[0].payload, vec![0x03, 1, 20]);
            s.record_status(SIDE::LEFT, 0);
            let statuses = s.get_device_statuses();
            assert_eq!(statuses.len(), 1);
            assert!(statuses[0] == (SIDE::LEFT, 0));
            assert!(s.get_state() == State::Streaming);
        }
    }
    assert!(s.enqueue_payload(SIDE::LEFT, vec![9u8; 160]));
    let writes = s.send_audio_packet();
    assert_eq!(writes[0].frame[0], 0x00);
}

#[test]
fn lost_right_peer_mid_stream() {
    let mut s = streaming_binaural();
    assert!(s.enqueue_payload(SIDE::LEFT, vec![1u8; 160]));
    assert!(s.enqueue_payload(SIDE::RIGHT, vec![2u8; 160]));
    let writes = s.send_audio_packet();
    assert_eq!(writes.len(), 2);
    // the right socket write fails: Right is removed, Left continues
    assert!(s.transport_lost(SIDE::RIGHT));
    assert!(s.get_devices_connected() == DevicesConnected::LEFT);
    assert!(s.get_state() == State::Streaming);
    assert!(s.enqueue_payload(SIDE::LEFT, vec![3u8; 160]));
    let writes = s.send_audio_packet();
    assert_eq!(writes.len(), 1);
    assert!(writes[0].side == SIDE::LEFT);
    assert_eq!(writes[0].frame[0], 1);
}

#[test]
fn losing_last_peer_idles_the_session() {
    let mut s = streaming_mono();
    assert!(!s.transport_lost(SIDE::LEFT));
    assert!(s.get_state() == State::Idle);
    assert!(s.get_devices_connected() == DevicesConnected::NONE);
}

#[test]
fn stop_writes_opcode_and_silences_scheduler() {
    let mut s = streaming_binaural();
    assert!(s.enqueue_payload(SIDE::LEFT, vec![1u8; 160]));
    let writes = s.issue_stop_command();
    assert_eq!(writes.len(), 2);
    assert_eq!(writes[0].payload, vec![0x02]);
    assert_eq!(writes[1].payload, vec![0x02]);
    assert!(s.get_state() == State::Idle);
    assert!(s.send_audio_packet().is_empty());
}

#[test]
fn repeat_last_frame_then_stall() {
    let mut s = streaming_mono();
    let payload = vec![4u8; 160];
    assert!(s.enqueue_payload(SIDE::LEFT, payload.clone()));
    // one queued frame, then three repeats to hold the cadence
    for i in 0..4u8 {
        let writes = s.send_audio_packet();
        assert_eq!(writes.len(), 1);
        assert_eq!(writes[0].frame[0], i);
        assert_eq!(&writes[0].frame[1..], payload.as_slice());
    }
    assert!(s.producer_stalled());
    // a fourth repeat is never written
    assert!(s.send_audio_packet().is_empty());
}

#[test]
fn fresh_payload_clears_repeat_count() {
    let mut s = streaming_mono();
    assert!(s.enqueue_payload(SIDE::LEFT, vec![1u8; 160]));
    assert_eq!(s.send_audio_packet().len(), 1);
    assert_eq!(s.send_audio_packet().len(), 1);
    assert!(!s.producer_stalled());
    assert!(s.enqueue_payload(SIDE::LEFT, vec![2u8; 160]));
    assert_eq!(s.send_audio_packet().len(), 1);
    assert!(!s.producer_stalled());
}

#[test]
fn stereo_feed_splits_channels() {
    let mut s = streaming_binaural();
    let mut chunk: Vec<i16> = Vec::new();
    for _ in 0..320 {
        chunk.push(100);
        chunk.push(-100);
    }
    assert!(s.feed(&chunk, 2));
    let left = s.take_pcm_block(SIDE::LEFT).unwrap();
    let right = s.take_pcm_block(SIDE::RIGHT).unwrap();
    assert!(left.iter().all(|v| *v == 100));
    assert!(right.iter().all(|v| *v == -100));
}

#[test]
fn feed_rejects_bad_channel_counts() {
    let mut s = streaming_mono();
    let chunk = vec![0i16; 320];
    // stereo input needs both ears
    assert!(!s.feed(&chunk, 2));
    assert!(!s.feed(&chunk, 3));
    assert!(!s.feed(&chunk, 0));
}

#[test]
fn enqueue_for_unbound_side_is_refused() {
    let mut s = streaming_mono();
    assert!(!s.enqueue_payload(SIDE::RIGHT, vec![0u8; 160]));
    assert!(s.take_pcm_block(SIDE::RIGHT).is_none());
}

#[test]
fn open_then_close_is_a_no_op() {
    let mut s = ASHA::new(Some(true));
    s.close_l2cap();
    assert!(s.get_state() == State::Idle);
    assert!(s.get_devices_connected() == DevicesConnected::NONE);
}

#[test]
fn close_drops_every_peer() {
    let mut s = streaming_binaural();
    s.issue_stop_command();
    s.close_l2cap();
    assert!(s.get_devices_connected() == DevicesConnected::NONE);
}
