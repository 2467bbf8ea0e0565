use can_transport::{CanFrame, CanId, CanIoError, FrameKind};

#[test]
fn classic_frame_round_trip() {
    let f = CanFrame::new_data(0x123u16, &[1, 2, 3]).unwrap();
    assert_eq!(f.data(), &[1, 2, 3]);
    assert_eq!(f.id(), CanId::Standard(0x123));
    assert!(!f.is_fd());
}

#[test]
fn fd_frame_64_bytes() {
    let payload = [0xAB; 64];
    let f = CanFrame::new_fd(CanId::Extended(0x1ABCDEF), &payload, true).unwrap();
    assert_eq!(f.data().len(), 64);
    assert!(f.is_fd());
    assert!(f.brs());
}

#[test]
fn classic_rejects_over_8() {
    assert!(CanFrame::new_data(0x100u16, &[0; 9]).is_err());
}

#[test]
fn too_long_payloads_are_reported_with_the_limit() {
    assert!(matches!(
        CanFrame::new_data(0x100u16, &[0; 9]),
        Err(CanIoError::DataTooLong { got: 9, max: 8 })
    ));
    assert!(matches!(
        CanFrame::new_fd(0x100u16, &[0; 65], false),
        Err(CanIoError::DataTooLong { got: 65, max: 64 })
    ));
    assert!(matches!(
        CanFrame::new_remote(0x100u16, 9),
        Err(CanIoError::DataTooLong { got: 9, max: 8 })
    ));
}

#[test]
fn remote_frame_has_a_length_and_no_payload() {
    let f = CanFrame::new_remote(0x7FFu16, 8).unwrap();
    assert_eq!(f.kind(), FrameKind::Remote);
    assert_eq!(f.dlc(), 8);
    assert_eq!(f.data(), &[] as &[u8]);
    assert!(f.is_remote());
    assert!(!f.is_fd());
    assert!(!f.brs());
}

#[test]
fn bit_rate_switch_is_kept() {
    let off = CanFrame::new_fd(1u16, &[1; 64], false).unwrap();
    assert_eq!(off.kind(), FrameKind::Fd { brs: false });
    assert!(off.is_fd());
    assert!(!off.brs());
    let on = CanFrame::new_fd(1u16, &[], true).unwrap();
    assert_eq!(on.kind(), FrameKind::Fd { brs: true });
    assert!(on.brs());
    assert_eq!(on.dlc(), 0);
}

#[test]
fn identifiers_are_checked_against_their_width() {
    assert_eq!(CanId::STANDARD_MAX, 0x7FF);
    assert_eq!(CanId::EXTENDED_MAX, 0x1FFF_FFFF);
    assert_eq!(CanId::new_standard(0x7FF).unwrap(), CanId::Standard(0x7FF));
    assert!(matches!(CanId::new_standard(0x800), Err(CanIoError::InvalidId)));
    assert_eq!(CanId::new_extended(0x1FFF_FFFF).unwrap(), CanId::Extended(0x1FFF_FFFF));
    assert!(matches!(CanId::new_extended(0x2000_0000), Err(CanIoError::InvalidId)));
}

#[test]
fn identifier_accessors() {
    let s = CanId::Standard(0x123);
    let e = CanId::Extended(0x1ABCDEF);
    assert_eq!(s.raw(), 0x123);
    assert_eq!(e.raw(), 0x1ABCDEF);
    assert!(s.is_standard() && !s.is_extended());
    assert!(e.is_extended() && !e.is_standard());
}

#[test]
fn number_becomes_a_standard_identifier_of_its_low_bits() {
    assert_eq!(CanId::from(0x123u16), CanId::Standard(0x123));
    assert_eq!(CanId::from(0xF923u16), CanId::Standard(0x123));
    assert_eq!(CanFrame::new_data(0x800u16, &[]).unwrap().id(), CanId::Standard(0));
}

#[test]
fn identifier_is_taken_as_it_is() {
    let f = CanFrame::new_data(CanId::Standard(0xFFFF), &[7]).unwrap();
    assert_eq!(f.id(), CanId::Standard(0xFFFF));
}

#[test]
fn timestamp_is_kept_and_ignored_by_equality() {
    let plain = CanFrame::new_data(0x10u16, &[1, 2]).unwrap();
    assert_eq!(plain.timestamp_us(), None);
    let early = plain.with_timestamp_us(5);
    let late = plain.with_timestamp_us(u64::MAX);
    assert_eq!(early.timestamp_us(), Some(5));
    assert_eq!(late.timestamp_us(), Some(u64::MAX));
    assert_eq!(late.data(), &[1, 2]);
    assert_eq!(late.id(), CanId::Standard(0x10));
    assert!(plain == early && early == late && late == plain);
}

#[test]
fn equality_looks_at_the_content() {
    let f = CanFrame::new_data(0x10u16, &[1, 2]).unwrap();
    assert!(f == CanFrame::new_data(0x10u16, &[1, 2]).unwrap());
    assert!(f != CanFrame::new_data(0x11u16, &[1, 2]).unwrap());
    assert!(f != CanFrame::new_data(CanId::Extended(0x10), &[1, 2]).unwrap());
    assert!(f != CanFrame::new_data(0x10u16, &[1, 3]).unwrap());
    assert!(f != CanFrame::new_data(0x10u16, &[1, 2, 0]).unwrap());
    assert!(f != CanFrame::new_fd(0x10u16, &[1, 2], false).unwrap());
    let two = CanFrame::new_remote(0x10u16, 2).unwrap();
    assert!(two != CanFrame::new_remote(0x10u16, 3).unwrap());
    assert!(two != f);
}
