use can_transport::socket_can::convert::{
    canframe_to_sc, read, sc_to_canframe, take, LinkFrame, Reading,
};
use can_transport::socket_can::netlink::{
    bus_state, link_config, netlink_bit_timing, NetlinkBitTiming, NetlinkDetails,
    NetlinkErrorCounters, NetlinkMtu,
};
use can_transport::socket_can::transmit::{
    after_write, transmit_queue_full, SendStep, WriteOutcome,
    TX_BACKPRESSURE_LIMIT_NS, TX_BACKPRESSURE_POLL_NS,
};
use can_transport::socket_can::SocketCanBus;
use can_transport::{
    CanBitTiming, CanBusState, CanCapabilities, CanControllerState, CanFrame, CanId, CanIoError,
    CanLinkConfig, FrameKind,
};
use socketcan::{
    CanAnyFrame, CanDataFrame, CanErrorFrame, CanFdFrame, CanRemoteFrame, EmbeddedFrame,
    ExtendedId, Frame, Id, StandardId,
};

fn std_id(raw: u16) -> Id {
    Id::Standard(StandardId::new(raw).unwrap())
}

fn ext_id(raw: u32) -> Id {
    Id::Extended(ExtendedId::new(raw).unwrap())
}

#[test]
fn data_frame_goes_out_as_it_is() {
    let f = CanFrame::new_data(0x123u16, &[1, 2, 3]).unwrap();
    match canframe_to_sc(&f).unwrap() {
        CanAnyFrame::Normal(out) => {
            assert_eq!(out.id(), std_id(0x123));
            assert_eq!(out.data(), &[1, 2, 3]);
            assert_eq!(out.dlc(), 3);
        }
        other => panic!("{other:?}"),
    }
}

#[test]
fn fd_frame_goes_out_padded_to_a_valid_length() {
    let payload: Vec<u8> = (1..=13).collect();
    let f = CanFrame::new_fd(CanId::Extended(0x1234567), &payload, true).unwrap();
    match canframe_to_sc(&f).unwrap() {
        CanAnyFrame::Fd(out) => {
            assert_eq!(out.id(), ext_id(0x1234567));
            assert!(out.is_brs());
            assert_eq!(out.len(), 16);
            assert_eq!(&out.data()[..13], payload.as_slice());
            assert_eq!(&out.data()[13..], &[0, 0, 0]);
        }
        other => panic!("{other:?}"),
    }
    let plain = CanFrame::new_fd(1u16, &[9; 64], false).unwrap();
    match canframe_to_sc(&plain).unwrap() {
        CanAnyFrame::Fd(out) => {
            assert!(!out.is_brs());
            assert_eq!(out.data(), &[9; 64]);
        }
        other => panic!("{other:?}"),
    }
}

#[test]
fn remote_frame_goes_out_with_its_length() {
    let f = CanFrame::new_remote(CanId::Extended(5), 8).unwrap();
    match canframe_to_sc(&f).unwrap() {
        CanAnyFrame::Remote(out) => {
            assert_eq!(out.id(), ext_id(5));
            assert_eq!(out.dlc(), 8);
        }
        other => panic!("{other:?}"),
    }
}

#[test]
fn identifier_out_of_range_is_not_sent() {
    let wide = CanFrame::new_data(CanId::Standard(0x800), &[]).unwrap();
    assert!(matches!(canframe_to_sc(&wide), Err(CanIoError::InvalidId)));
    let wider = CanFrame::new_fd(CanId::Extended(0x2000_0000), &[], false).unwrap();
    assert!(matches!(canframe_to_sc(&wider), Err(CanIoError::InvalidId)));
    let most = CanFrame::new_data(CanId::Standard(0x7FF), &[]).unwrap();
    assert!(canframe_to_sc(&most).is_ok());
    let most_ext = CanFrame::new_data(CanId::Extended(0x1FFF_FFFF), &[]).unwrap();
    assert!(canframe_to_sc(&most_ext).is_ok());
}

#[test]
fn frames_off_the_interface_are_taken_over() {
    let data = CanAnyFrame::Normal(CanDataFrame::new(std_id(0x701), &[5]).unwrap());
    let got = sc_to_canframe(&data).unwrap();
    assert_eq!(got, CanFrame::new_data(0x701u16, &[5]).unwrap());
    assert_eq!(got.timestamp_us(), None);

    let mut fd = CanFdFrame::new(ext_id(0x1ABCDEF), &[7; 12]).unwrap();
    fd.set_brs(true);
    let got = sc_to_canframe(&CanAnyFrame::Fd(fd)).unwrap();
    assert_eq!(got, CanFrame::new_fd(CanId::Extended(0x1ABCDEF), &[7; 12], true).unwrap());
    fd.set_brs(false);
    let got = sc_to_canframe(&CanAnyFrame::Fd(fd)).unwrap();
    assert_eq!(got.kind(), FrameKind::Fd { brs: false });

    let remote = CanAnyFrame::Remote(CanRemoteFrame::new_remote(std_id(2), 4).unwrap());
    assert_eq!(sc_to_canframe(&remote).unwrap(), CanFrame::new_remote(2u16, 4).unwrap());
}

#[test]
fn error_frames_are_ignored() {
    let error = CanAnyFrame::Error(CanErrorFrame::new_error(0x40, &[]).unwrap());
    assert!(matches!(read(&error), Reading::Ignored));
    assert!(sc_to_canframe(&error).is_none());
}

#[test]
fn length_fields_are_checked_before_they_are_read() {
    let whole = CanAnyFrame::Normal(CanDataFrame::new(std_id(1), &[0; 8]).unwrap());
    assert!(matches!(read(&whole), Reading::Frame(f) if f.dlc() == 8));
    let full = CanAnyFrame::Fd(CanFdFrame::new(std_id(1), &[0; 64]).unwrap());
    assert!(matches!(read(&full), Reading::Frame(f) if f.dlc() == 64));

    let mut raw = *CanDataFrame::new(std_id(1), &[0; 8]).unwrap().as_ref();
    raw.can_dlc = 9;
    let broken = CanAnyFrame::Normal(CanDataFrame::try_from(raw).unwrap());
    assert!(matches!(read(&broken), Reading::Unreadable));

    let mut raw = *CanRemoteFrame::new_remote(std_id(1), 8).unwrap().as_ref();
    raw.can_dlc = 9;
    let asks_too_much = CanAnyFrame::Remote(CanRemoteFrame::try_from(raw).unwrap());
    assert!(matches!(read(&asks_too_much), Reading::Ignored));
    assert!(sc_to_canframe(&asks_too_much).is_none());
}

#[test]
fn what_is_sent_is_received() {
    let ten: Vec<u8> = (1..=10).collect();
    let mut twelve = ten.clone();
    twelve.extend_from_slice(&[0, 0]);
    let cases = vec![
        (CanFrame::new_data(0x123u16, &[1, 2]).unwrap(), None),
        (CanFrame::new_data(CanId::Extended(0x123), &[]).unwrap(), None),
        (CanFrame::new_remote(0x7FFu16, 8).unwrap(), None),
        (CanFrame::new_fd(1u16, &[3; 48], true).unwrap(), None),
        (
            CanFrame::new_fd(1u16, &ten, false).unwrap(),
            Some(CanFrame::new_fd(1u16, &twelve, false).unwrap()),
        ),
    ];
    for (sent, seen) in cases {
        let any = canframe_to_sc(&sent.with_timestamp_us(17)).unwrap();
        let back = sc_to_canframe(&any).unwrap();
        assert_eq!(back, seen.unwrap_or(sent));
        assert_eq!(back.timestamp_us(), None);
    }
}

#[test]
fn timing_without_a_sensible_value_is_left_out() {
    let timing = |bitrate, sample_point| netlink_bit_timing(NetlinkBitTiming { bitrate, sample_point });
    assert_eq!(
        timing(1_000_000, 800),
        CanBitTiming { bitrate: Some(1_000_000), sample_point_per_mille: Some(800) }
    );
    assert_eq!(timing(0, 0), CanBitTiming { bitrate: None, sample_point_per_mille: None });
    assert_eq!(timing(1, 1).sample_point_per_mille, Some(1));
    assert_eq!(timing(1, 1000).sample_point_per_mille, Some(1000));
    assert_eq!(timing(1, 1001).sample_point_per_mille, None);
    assert_eq!(timing(1, 65_536 + 800).sample_point_per_mille, None);
}

#[test]
fn link_config_prefers_the_control_mode_to_the_mtu() {
    let unknown = NetlinkDetails { fd_mode: None, mtu: None, bit_timing: None, data_bit_timing: None };
    assert_eq!(link_config(&unknown), CanLinkConfig { fd_enabled: None, nominal: None, data: None });
    let vcan = NetlinkDetails { mtu: Some(NetlinkMtu::Fd), ..unknown };
    assert_eq!(link_config(&vcan).fd_enabled, Some(true));
    let classic = NetlinkDetails { mtu: Some(NetlinkMtu::Standard), ..unknown };
    assert_eq!(link_config(&classic).fd_enabled, Some(false));
    let off = NetlinkDetails { fd_mode: Some(false), mtu: Some(NetlinkMtu::Fd), ..unknown };
    assert_eq!(link_config(&off).fd_enabled, Some(false));

    let both = NetlinkDetails {
        fd_mode: Some(true),
        mtu: None,
        bit_timing: Some(NetlinkBitTiming { bitrate: 1_000_000, sample_point: 800 }),
        data_bit_timing: Some(NetlinkBitTiming { bitrate: 5_000_000, sample_point: 0 }),
    };
    assert_eq!(
        link_config(&both),
        CanLinkConfig {
            fd_enabled: Some(true),
            nominal: Some(CanBitTiming { bitrate: Some(1_000_000), sample_point_per_mille: Some(800) }),
            data: Some(CanBitTiming { bitrate: Some(5_000_000), sample_point_per_mille: None }),
        }
    );
}

#[test]
fn bus_state_reports_what_netlink_has() {
    assert_eq!(
        bus_state(
            Some(CanControllerState::ErrorPassive),
            Some(NetlinkErrorCounters { txerr: 130, rxerr: 7 })
        ),
        CanBusState {
            state: Some(CanControllerState::ErrorPassive),
            tx_errors: Some(130),
            rx_errors: Some(7),
        }
    );
    assert_eq!(bus_state(None, None), CanBusState::default());
    assert_eq!(bus_state(Some(CanControllerState::Stopped), None).tx_errors, None);
}

#[test]
fn full_queue_is_told_by_its_error_number() {
    assert!(transmit_queue_full(Some(105), 105));
    assert!(!transmit_queue_full(Some(104), 105));
    assert!(!transmit_queue_full(None, 105));
    assert!(transmit_queue_full(Some(libc::ENOBUFS), libc::ENOBUFS));
    assert!(!transmit_queue_full(Some(libc::EWOULDBLOCK), libc::ENOBUFS));
}

#[test]
fn full_queue_is_back_pressure_for_a_quarter_second() {
    assert_eq!(TX_BACKPRESSURE_POLL_NS, 1_000_000);
    assert_eq!(TX_BACKPRESSURE_LIMIT_NS, 250_000_000);
    assert_eq!(after_write(WriteOutcome::Written, 0), SendStep::Done);
    assert_eq!(after_write(WriteOutcome::Written, u128::MAX), SendStep::Done);
    assert_eq!(after_write(WriteOutcome::QueueFull, 0), SendStep::Retry);
    assert_eq!(after_write(WriteOutcome::QueueFull, 249_999_999), SendStep::Retry);
    assert_eq!(after_write(WriteOutcome::QueueFull, 250_000_000), SendStep::GiveUp);
    assert_eq!(after_write(WriteOutcome::Failed, 0), SendStep::GiveUp);
}

#[test]
fn queue_that_stays_full_is_given_up() {
    let mut elapsed = 0;
    let mut retries = 0;
    while after_write(WriteOutcome::QueueFull, elapsed) == SendStep::Retry {
        retries += 1;
        elapsed += TX_BACKPRESSURE_POLL_NS as u128;
    }
    assert_eq!(retries, 250);
}

#[test]
fn interface_keeps_its_name() {
    let bus = SocketCanBus::on("vcan0".to_string());
    assert_eq!(bus.interface(), "vcan0");
    assert_eq!(bus.capabilities(), CanCapabilities { fd: true, max_dlen: 64 });
}

#[test]
fn plain_frames_are_taken_within_their_limits() {
    let id = CanId::Extended(7);
    let taken = take(LinkFrame::Normal { id, data: &[1, 2] }).unwrap();
    assert_eq!(taken, CanFrame::new_data(id, &[1, 2]).unwrap());
    assert!(take(LinkFrame::Normal { id, data: &[0; 9] }).is_none());
    let fd = take(LinkFrame::Fd { id, data: &[3; 64], brs: true }).unwrap();
    assert_eq!(fd, CanFrame::new_fd(id, &[3; 64], true).unwrap());
    assert!(take(LinkFrame::Fd { id, data: &[3; 65], brs: true }).is_none());
    let remote = take(LinkFrame::Remote { id, dlc: 8 }).unwrap();
    assert_eq!(remote, CanFrame::new_remote(id, 8).unwrap());
    assert!(take(LinkFrame::Remote { id, dlc: 9 }).is_none());
    assert!(take(LinkFrame::Error).is_none());
}
