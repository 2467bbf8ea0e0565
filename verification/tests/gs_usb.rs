use can_transport::fd::{fd_dlc2len, fd_len2dlc};
use can_transport::gs_usb::bring_up::{Action, BringUp, Outcome};
use can_transport::gs_usb::clock::unwrap_ts;
use can_transport::gs_usb::device::{select_known, select_vid_pid};
use can_transport::gs_usb::host_frame::{
    encode_host_frame, parse_host_frame, CAN_EFF_FLAG, CAN_ERR_FLAG, CAN_RTR_FLAG, ECHO_ID_RX,
    FLAG_BRS, FLAG_FD, HDR_LEN,
};
use can_transport::gs_usb::link::{bus_state, ControlIn};
use can_transport::gs_usb::reader::{Reader, Step};
use can_transport::gs_usb::{GsTiming, GsUsbBus, GsUsbConfig, KNOWN_IDS};
use can_transport::{
    CanBusState, CanCapabilities, CanControllerState, CanFrame, CanId, CanIoError, FrameKind,
};

#[test]
fn dlc_len_round_trip() {
    for &len in &[0, 1, 8, 12, 16, 20, 24, 32, 48, 64] {
        assert_eq!(fd_dlc2len(fd_len2dlc(len)), len);
    }
    // Non-canonical lengths round up to the next FD size.
    assert_eq!(fd_dlc2len(fd_len2dlc(13)), 16);
    assert_eq!(fd_dlc2len(fd_len2dlc(60)), 64);
}

#[test]
fn rx_echo_frames_are_skipped() {
    let mut buf = vec![0u8; HDR_LEN + 8];
    buf[0..4].copy_from_slice(&7u32.to_le_bytes()); // echo_id != RX sentinel
    assert!(parse_host_frame(&buf, 0, false).is_none());
}

#[test]
fn rx_other_channel_is_skipped() {
    let mut buf = vec![0u8; HDR_LEN + 8];
    buf[0..4].copy_from_slice(&ECHO_ID_RX.to_le_bytes());
    buf[4..8].copy_from_slice(&0x123u32.to_le_bytes());
    buf[9] = 1; // channel 1
    // A bus listening on channel 0 must not see channel 1's traffic.
    assert!(parse_host_frame(&buf, 0, false).is_none());
    // ...but a channel-1 bus does.
    assert!(parse_host_frame(&buf, 1, false).is_some());
}

#[test]
fn rx_standard_data_frame() {
    let mut buf = vec![0u8; HDR_LEN + 8];
    buf[0..4].copy_from_slice(&ECHO_ID_RX.to_le_bytes());
    buf[4..8].copy_from_slice(&0x123u32.to_le_bytes());
    buf[8] = 3; // dlc
    buf[HDR_LEN..HDR_LEN + 3].copy_from_slice(&[0xAA, 0xBB, 0xCC]);
    let (f, ts) = parse_host_frame(&buf, 0, false).unwrap();
    assert_eq!(f.id(), CanId::Standard(0x123));
    assert_eq!(f.data(), &[0xAA, 0xBB, 0xCC]);
    assert!(!f.is_fd());
    assert_eq!(ts, None);
}

#[test]
fn rx_extended_fd_brs_frame() {
    let mut buf = vec![0u8; HDR_LEN + 64];
    buf[0..4].copy_from_slice(&ECHO_ID_RX.to_le_bytes());
    buf[4..8].copy_from_slice(&(0x1ABCDEF | CAN_EFF_FLAG).to_le_bytes());
    buf[8] = 10; // FD dlc 10 -> 16 bytes
    buf[10] = FLAG_FD | FLAG_BRS;
    let (f, _) = parse_host_frame(&buf, 0, false).unwrap();
    assert_eq!(f.id(), CanId::Extended(0x1ABCDEF));
    assert_eq!(f.data().len(), 16);
    assert!(f.is_fd());
    assert!(f.brs());
}

#[test]
fn tx_round_trips_through_parse() {
    // 13 bytes is not a valid FD length; it must round up to 16 (zero-padded).
    let payload: Vec<u8> = (1..=13).collect();
    let orig = CanFrame::new_fd(CanId::Extended(0x1234567), &payload, true).unwrap();
    let mut bytes = encode_host_frame(&orig, ECHO_ID_RX, true, 0).unwrap();
    // encode uses a real echo id on the wire; force RX sentinel to parse back.
    bytes[0..4].copy_from_slice(&ECHO_ID_RX.to_le_bytes());
    let (back, _) = parse_host_frame(&bytes, 0, false).unwrap();
    assert_eq!(back.id(), orig.id());
    assert!(back.is_fd());
    assert!(back.brs());
    assert_eq!(back.data().len(), 16);
    assert_eq!(&back.data()[..13], payload.as_slice());
    assert_eq!(&back.data()[13..], &[0, 0, 0]);
}

#[test]
fn rx_classic_frame_with_hw_timestamp() {
    // header(12) + classic arm (8) + u32 ts.
    let mut buf = vec![0u8; HDR_LEN + 8 + 4];
    buf[0..4].copy_from_slice(&ECHO_ID_RX.to_le_bytes());
    buf[4..8].copy_from_slice(&0x123u32.to_le_bytes());
    buf[8] = 2;
    buf[HDR_LEN..HDR_LEN + 2].copy_from_slice(&[0x11, 0x22]);
    buf[HDR_LEN + 8..HDR_LEN + 12].copy_from_slice(&123_456u32.to_le_bytes());
    let (f, ts) = parse_host_frame(&buf, 0, true).unwrap();
    assert_eq!(f.data(), &[0x11, 0x22]);
    assert_eq!(ts, Some(123_456));
}

#[test]
fn rx_fd_frame_with_hw_timestamp() {
    // header(12) + FD arm (64) + u32 ts.
    let mut buf = vec![0u8; HDR_LEN + 64 + 4];
    buf[0..4].copy_from_slice(&ECHO_ID_RX.to_le_bytes());
    buf[4..8].copy_from_slice(&0x321u32.to_le_bytes());
    buf[8] = 9; // FD dlc 9 -> 12 bytes
    buf[10] = FLAG_FD;
    buf[HDR_LEN + 64..HDR_LEN + 68].copy_from_slice(&777u32.to_le_bytes());
    let (f, ts) = parse_host_frame(&buf, 0, true).unwrap();
    assert!(f.is_fd());
    assert_eq!(f.data().len(), 12);
    assert_eq!(ts, Some(777));
}

#[test]
fn rx_rtr_frame_with_hw_timestamp() {
    // RTR uses the classic arm: header(12) + 8 + u32 ts.
    let mut buf = vec![0u8; HDR_LEN + 8 + 4];
    buf[0..4].copy_from_slice(&ECHO_ID_RX.to_le_bytes());
    buf[4..8].copy_from_slice(&(0x701u32 | CAN_RTR_FLAG).to_le_bytes());
    buf[8] = 1;
    buf[HDR_LEN + 8..HDR_LEN + 12].copy_from_slice(&42u32.to_le_bytes());
    let (f, ts) = parse_host_frame(&buf, 0, true).unwrap();
    assert!(f.is_remote());
    assert_eq!(f.dlc(), 1);
    assert_eq!(ts, Some(42));
}

#[test]
fn hw_timestamp_missing_bytes_degrades_to_none() {
    // hw_ts on, but no trailing u32 — frame still parses, ts is None.
    let mut buf = vec![0u8; HDR_LEN + 8];
    buf[0..4].copy_from_slice(&ECHO_ID_RX.to_le_bytes());
    buf[4..8].copy_from_slice(&0x123u32.to_le_bytes());
    buf[8] = 1;
    let (_, ts) = parse_host_frame(&buf, 0, true).unwrap();
    assert_eq!(ts, None);
}

#[test]
fn ts_unwrap_handles_32bit_wrap() {
    let (mut last, mut epoch) = (0u32, 0u64);
    assert_eq!(unwrap_ts(&mut last, &mut epoch, 100), 100);
    assert_eq!(unwrap_ts(&mut last, &mut epoch, 4_000_000_000), 4_000_000_000);
    // Counter wrapped: 5 < 4e9 → next epoch.
    assert_eq!(unwrap_ts(&mut last, &mut epoch, 5), (1u64 << 32) | 5);
    // Monotonic across the wrap.
    assert!(unwrap_ts(&mut last, &mut epoch, 6) > 4_000_000_000);
}

#[test]
fn smallest_code_that_fits_is_chosen() {
    let codes: Vec<u8> = [0, 8, 9, 12, 13, 16, 17, 20, 21, 24, 25, 32, 33, 48, 49, 64, 65, 1000]
        .iter()
        .map(|&len| fd_len2dlc(len))
        .collect();
    assert_eq!(codes, vec![0, 8, 9, 9, 10, 10, 11, 11, 12, 12, 13, 13, 14, 14, 15, 15, 15, 15]);
    for dlc in 0..16 {
        assert_eq!(fd_len2dlc(fd_dlc2len(dlc)), dlc);
    }
    assert_eq!(fd_dlc2len(0xF9), 12);
}

#[test]
fn runts_and_error_frames_are_skipped() {
    let mut buf = vec![0u8; HDR_LEN];
    buf[0..4].copy_from_slice(&ECHO_ID_RX.to_le_bytes());
    assert!(parse_host_frame(&buf, 0, false).is_some());
    assert!(parse_host_frame(&buf[..11], 0, false).is_none());
    assert!(parse_host_frame(&[], 0, true).is_none());
    buf[8] = 1; // one byte announced, none there
    assert!(parse_host_frame(&buf, 0, false).is_none());
    buf[4..8].copy_from_slice(&CAN_RTR_FLAG.to_le_bytes()); // asks, carries nothing
    assert!(parse_host_frame(&buf, 0, false).is_some());
    buf[4..8].copy_from_slice(&CAN_ERR_FLAG.to_le_bytes());
    assert!(parse_host_frame(&buf, 0, false).is_none());
}

#[test]
fn classic_length_is_held_to_eight() {
    let mut buf = vec![7u8; HDR_LEN + 8];
    buf[0..4].copy_from_slice(&ECHO_ID_RX.to_le_bytes());
    buf[4..8].copy_from_slice(&0xFFFu32.to_le_bytes());
    buf[8] = 255;
    buf[9] = 0;
    buf[10] = 0;
    let (f, _) = parse_host_frame(&buf, 0, false).unwrap();
    assert_eq!(f.id(), CanId::Standard(0x7FF));
    assert_eq!(f.data(), &[7; 8]);
    buf[4..8].copy_from_slice(&(CAN_RTR_FLAG | CAN_EFF_FLAG | 3).to_le_bytes());
    let (f, _) = parse_host_frame(&buf, 0, false).unwrap();
    assert_eq!(f.id(), CanId::Extended(3));
    assert_eq!(f.dlc(), 8);
}

#[test]
fn encoded_bytes_are_exact() {
    let f = CanFrame::new_data(0x123u16, &[0xAA, 0xBB]).unwrap();
    assert_eq!(
        encode_host_frame(&f, 0x0102_0304, false, 0x0501).unwrap(),
        vec![4, 3, 2, 1, 0x23, 1, 0, 0, 2, 1, 0, 0, 0xAA, 0xBB, 0, 0, 0, 0, 0, 0]
    );
    // In FD mode even a classic frame has the long arm.
    assert_eq!(encode_host_frame(&f, 0, true, 0).unwrap().len(), HDR_LEN + 64);
    let r = CanFrame::new_remote(CanId::Extended(0x1FFF_FFFF), 5).unwrap();
    assert_eq!(
        encode_host_frame(&r, 0, false, 0).unwrap()[4..12],
        [0xFF, 0xFF, 0xFF, 0xDF, 5, 0, 0, 0]
    );
    let fd = CanFrame::new_fd(1u16, &[1; 13], false).unwrap();
    let bytes = encode_host_frame(&fd, 0, true, 0).unwrap();
    assert_eq!(bytes[8..12], [10, 0, FLAG_FD, 0]);
}

#[test]
fn stamped_frame_parses_back_with_its_counter() {
    for f in [
        CanFrame::new_data(1u16, &[9; 8]).unwrap(),
        CanFrame::new_remote(1u16, 3).unwrap(),
        CanFrame::new_fd(1u16, &[9; 64], true).unwrap(),
    ] {
        let mut bytes = encode_host_frame(&f, ECHO_ID_RX, f.is_fd(), 3).unwrap();
        bytes.extend_from_slice(&0xDEAD_BEEFu32.to_le_bytes());
        let (back, ts) = parse_host_frame(&bytes, 3, true).unwrap();
        assert_eq!(back, f);
        assert_eq!(ts, Some(0xDEAD_BEEF));
    }
}

#[test]
fn presets_are_the_known_good_timings() {
    let classic = GsUsbConfig::classic_1m();
    assert!(!classic.fd && classic.data.is_none() && !classic.hw_timestamp);
    assert!(!classic.listen_only && !classic.loopback);
    let fd = GsUsbConfig::fd_1m_5m().with_channel(2).with_hw_timestamp(true);
    assert_eq!((fd.channel, fd.fd, fd.hw_timestamp), (2, true, true));
    for (t, bitrate, per_mille) in [
        (classic.nominal, 1_000_000, 800),
        (fd.nominal, 1_000_000, 800),
        (fd.data.unwrap(), 5_000_000, 750),
    ] {
        let quanta = 1 + t.prop_seg + t.phase_seg1 + t.phase_seg2;
        assert_eq!(80_000_000 / (t.brp * quanta), bitrate);
        assert_eq!(1000 * (1 + t.prop_seg + t.phase_seg1) / quanta, per_mille);
    }
    assert_eq!((fd.nominal.sjw, fd.data.unwrap().sjw), (5, 3));
}

#[test]
fn timing_is_five_little_endian_words() {
    let t = GsTiming { prop_seg: 0x0403_0201, phase_seg1: 2, phase_seg2: 3, sjw: 4, brp: 0x100 };
    assert_eq!(t.to_bytes(), [1, 2, 3, 4, 2, 0, 0, 0, 3, 0, 0, 0, 4, 0, 0, 0, 0, 1, 0, 0]);
}

#[test]
fn first_matching_device_is_selected() {
    assert_eq!(KNOWN_IDS, [(0x1209, 0x2323), (0x1d50, 0x606f), (0x1d50, 0x600f)]);
    let devices = [(1, 2), (0x1d50, 0x600f), (0x1209, 0x2323), (1, 3)];
    assert_eq!(select_known(&devices).unwrap(), 1);
    assert_eq!(select_vid_pid(&devices, 1, 3).unwrap(), 3);
    assert!(matches!(select_vid_pid(&devices, 1, 4), Err(CanIoError::Disconnected)));
    assert!(matches!(select_known(&devices[..1]), Err(CanIoError::Disconnected)));
    assert!(matches!(select_known(&[]), Err(CanIoError::Disconnected)));
}

/// Brings a channel up on a device whose probe replies `probe`, and returns the
/// control requests that were made.
fn bring_up(config: GsUsbConfig, probe: Outcome) -> (GsUsbBus, Vec<(u8, u16, Vec<u8>)>) {
    let mut up = BringUp::new(config).unwrap();
    let mut probe = Some(probe);
    let mut requests = vec![];
    loop {
        match up.action() {
            Action::Claim => up.advance(Outcome::Done),
            Action::Write(out) => {
                requests.push((out.request, out.value, out.data));
                up.advance(Outcome::Done);
            }
            Action::Read(ControlIn { request, value, length }) => {
                requests.push((request, value, vec![length as u8]));
                up.advance(probe.take().unwrap());
            }
            Action::OpenEndpoints { bulk_in, bulk_out } => {
                assert_eq!((bulk_in, bulk_out), (0x81, 0x01));
                up.advance(Outcome::Done);
            }
            Action::Finish => return (up.bus().unwrap(), requests),
            Action::Abort => unreachable!(),
        }
    }
}

#[test]
fn fd_bring_up_follows_the_plan() {
    let config = GsUsbConfig::fd_1m_5m().with_channel(1).with_hw_timestamp(true);
    let (bus, requests) = bring_up(config, Outcome::Reply(vec![0x10, 0x20, 0, 0]));
    assert_eq!(
        requests,
        vec![
            (0, 1, vec![0xef, 0xbe, 0, 0]),
            (4, 1, vec![40]),
            (1, 1, config.nominal.to_bytes().to_vec()),
            (10, 1, config.data.unwrap().to_bytes().to_vec()),
            (2, 1, vec![1, 0, 0, 0, 0x10, 1, 0, 0]),
        ]
    );
    assert!(bus.hw_timestamps_active());
    assert_eq!(bus.device_features(), 0x2010);
    assert_eq!(bus.channel(), 1);
    assert_eq!(bus.capabilities(), CanCapabilities { fd: true, max_dlen: 64 });
    assert_eq!(bus.state_request(), Some(ControlIn { request: 14, value: 1, length: 12 }));
}

#[test]
fn classic_bring_up_without_features() {
    let config = GsUsbConfig {
        listen_only: true,
        loopback: true,
        ..GsUsbConfig::classic_1m().with_hw_timestamp(true)
    };
    for probe in [Outcome::Failed, Outcome::Reply(vec![0xFF, 0xFF, 0xFF])] {
        let (bus, requests) = bring_up(config, probe);
        assert_eq!(requests.len(), 4);
        assert_eq!(requests[3], (2, 0, vec![1, 0, 0, 0, 3, 0, 0, 0]));
        assert!(!bus.hw_timestamps_active());
        assert_eq!(bus.device_features(), 0);
        assert_eq!(bus.capabilities(), CanCapabilities { fd: false, max_dlen: 8 });
        assert_eq!(bus.state_request(), None);
    }
}

#[test]
fn fd_without_data_timing_is_refused() {
    let config = GsUsbConfig { data: None, ..GsUsbConfig::fd_1m_5m() };
    match BringUp::new(config) {
        Err(CanIoError::Backend(message)) => {
            assert_eq!(message, "fd = true requires a data bit timing")
        }
        other => panic!("{other:?}"),
    }
}

#[test]
fn failed_step_ends_the_bring_up() {
    let mut up = BringUp::new(GsUsbConfig::classic_1m()).unwrap();
    up.advance(Outcome::Done);
    assert!(matches!(up.action(), Action::Write(_)));
    up.advance(Outcome::Failed);
    assert!(matches!(up.action(), Action::Abort));
    up.advance(Outcome::Done);
    assert!(matches!(up.action(), Action::Abort));
    assert!(up.bus().is_none());
}

#[test]
fn every_send_has_an_echo_id_of_its_own() {
    let (mut bus, _) = bring_up(GsUsbConfig::classic_1m(), Outcome::Failed);
    let f = CanFrame::new_data(0x7Fu16, &[1]).unwrap();
    for n in 0..3u32 {
        let bytes = bus.send(&f).unwrap();
        assert_eq!(bytes[0..4], n.to_le_bytes());
        assert_eq!(bytes.len(), HDR_LEN + 8);
        assert!(parse_host_frame(&bytes, 0, false).is_none());
    }
}

#[test]
fn state_reply_is_read() {
    let reply = |state: u32, rx: u32, tx: u32| {
        let mut bytes = state.to_le_bytes().to_vec();
        bytes.extend_from_slice(&rx.to_le_bytes());
        bytes.extend_from_slice(&tx.to_le_bytes());
        bytes
    };
    let states: Vec<Option<CanControllerState>> =
        (0..7).map(|n| bus_state(&reply(n, 0, 0)).unwrap().state).collect();
    assert_eq!(
        states,
        vec![
            Some(CanControllerState::ErrorActive),
            Some(CanControllerState::ErrorWarning),
            Some(CanControllerState::ErrorPassive),
            Some(CanControllerState::BusOff),
            Some(CanControllerState::Stopped),
            Some(CanControllerState::Sleeping),
            None,
        ]
    );
    assert_eq!(
        bus_state(&reply(0, 3, 70_000)).unwrap(),
        CanBusState {
            state: Some(CanControllerState::ErrorActive),
            tx_errors: Some(65_535),
            rx_errors: Some(3),
        }
    );
    match bus_state(&reply(0, 0, 0)[..11]) {
        Err(CanIoError::Backend(message)) => {
            assert_eq!(message, "short GET_STATE reply from device")
        }
        other => panic!("{other:?}"),
    }
}

#[test]
fn reader_stamps_frames_with_unwrapped_time() {
    let config = GsUsbConfig::classic_1m().with_channel(0x102).with_hw_timestamp(true);
    let (bus, _) = bring_up(config, Outcome::Reply(vec![0x10, 0, 0, 0]));
    let mut reader = Reader::new(&bus);
    let f = CanFrame::new_data(1u16, &[1]).unwrap();
    let mut times = vec![];
    for counter in [100u32, 4_000_000_000, 5, 5, 4] {
        let mut bytes = encode_host_frame(&f, ECHO_ID_RX, false, 2).unwrap();
        bytes.extend_from_slice(&counter.to_le_bytes());
        assert!(reader.has_room(&bytes));
        match reader.complete(Some(&bytes)) {
            Step::Continue(Some(got)) => {
                assert_eq!(got, f);
                times.push(got.timestamp_us().unwrap());
            }
            other => panic!("{other:?}"),
        }
        // An echo in between leaves the clock alone.
        let mut echo = encode_host_frame(&f, 1, false, 2).unwrap();
        echo.extend_from_slice(&0u32.to_le_bytes());
        assert!(matches!(reader.complete(Some(&echo)), Step::Continue(None)));
    }
    let wrap = 1u64 << 32;
    assert_eq!(times, vec![100, 4_000_000_000, wrap + 5, wrap + 5, 2 * wrap + 4]);
    assert!(matches!(reader.complete(None), Step::Exit));
}

#[test]
fn reader_without_timestamps_leaves_them_out() {
    let (bus, _) = bring_up(GsUsbConfig::fd_1m_5m(), Outcome::Failed);
    let mut reader = Reader::new(&bus);
    let f = CanFrame::new_fd(1u16, &[1; 5], true).unwrap();
    let mut bytes = encode_host_frame(&f, ECHO_ID_RX, true, 0).unwrap();
    bytes.extend_from_slice(&9u32.to_le_bytes());
    match reader.complete(Some(&bytes)) {
        Step::Continue(Some(got)) => {
            assert_eq!(got.kind(), FrameKind::Fd { brs: true });
            assert_eq!(got.timestamp_us(), None);
        }
        other => panic!("{other:?}"),
    }
}

#[test]
fn payload_longer_than_the_arm_is_refused() {
    let long = CanFrame::new_fd(1u16, &[1; 12], false).unwrap();
    assert!(matches!(
        encode_host_frame(&long, 0, false, 0),
        Err(CanIoError::DataTooLong { got: 12, max: 8 })
    ));
    assert!(encode_host_frame(&long, 0, true, 0).is_ok());
    let short = CanFrame::new_fd(1u16, &[1; 8], false).unwrap();
    assert!(encode_host_frame(&short, 0, false, 0).is_ok());

    let (mut classic, _) = bring_up(GsUsbConfig::classic_1m(), Outcome::Failed);
    assert!(matches!(classic.send(&long), Err(CanIoError::DataTooLong { got: 12, max: 8 })));
    assert!(classic.send(&short).is_ok());
    let (mut fd, _) = bring_up(GsUsbConfig::fd_1m_5m(), Outcome::Failed);
    assert!(fd.send(&long).is_ok());
}

#[test]
fn remote_frame_has_the_classic_arm_whatever_its_flags() {
    let mut buf = vec![0u8; HDR_LEN + 8 + 4];
    buf[0..4].copy_from_slice(&ECHO_ID_RX.to_le_bytes());
    buf[4..8].copy_from_slice(&(0x701u32 | CAN_RTR_FLAG).to_le_bytes());
    buf[8] = 1;
    buf[10] = FLAG_FD;
    buf[HDR_LEN + 8..HDR_LEN + 12].copy_from_slice(&42u32.to_le_bytes());
    let (f, ts) = parse_host_frame(&buf, 0, true).unwrap();
    assert!(f.is_remote());
    assert_eq!(ts, Some(42));
}
