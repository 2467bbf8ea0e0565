use can_transport::{CanFilter, CanFrame, CanId};

#[test]
fn exact_standard_matches_only_one_id() {
    let f = CanFilter::exact_standard(0x123);
    assert!(f.matches(&CanFrame::new_data(0x123u16, &[]).unwrap()));
    assert!(!f.matches(&CanFrame::new_data(0x124u16, &[]).unwrap()));
    assert!(!f.matches(&CanFrame::new_fd(CanId::Extended(0x123), &[], false).unwrap()));
}

#[test]
fn mask_filter_groups_ids() {
    // CANopen TSDO of node 0x10 = 0x590; mask the lower 7 bits open.
    let f = CanFilter::standard(0x580 | 0x10, 0x7F0);
    assert!(f.matches(&CanFrame::new_data(0x590u16, &[]).unwrap()));
    assert!(f.matches(&CanFrame::new_data(0x59Fu16, &[]).unwrap()));
    assert!(!f.matches(&CanFrame::new_data(0x5A0u16, &[]).unwrap()));
}

#[test]
fn exact_standard_matches_exactly_one_of_all_identifiers() {
    let f = CanFilter::exact_standard(0x2A5);
    let passed: Vec<u16> = (0..0x800u16)
        .filter(|&id| f.matches(&CanFrame::new_data(id, &[]).unwrap()))
        .collect();
    assert_eq!(passed, vec![0x2A5]);
}

#[test]
fn exact_extended_matches_only_its_id_and_width() {
    let f = CanFilter::exact_extended(0x1ABCDEF);
    assert_eq!(f, CanFilter { id: 0x1ABCDEF, mask: 0x1FFF_FFFF, extended: true });
    assert!(f.matches(&CanFrame::new_data(CanId::Extended(0x1ABCDEF), &[]).unwrap()));
    assert!(!f.matches(&CanFrame::new_data(CanId::Extended(0x1ABCDEE), &[]).unwrap()));
    let low = CanFilter::exact_extended(0x123);
    assert!(!low.matches(&CanFrame::new_data(0x123u16, &[]).unwrap()));
}

#[test]
fn pass_all_passes_one_width() {
    let std = CanFrame::new_data(0x7FFu16, &[]).unwrap();
    let ext = CanFrame::new_remote(CanId::Extended(0x1FFF_FFFF), 0).unwrap();
    assert!(CanFilter::pass_all_standard().matches(&std));
    assert!(!CanFilter::pass_all_standard().matches(&ext));
    assert!(CanFilter::pass_all_extended().matches(&ext));
    assert!(!CanFilter::pass_all_extended().matches(&std));
}

#[test]
fn only_masked_bits_count() {
    let f = CanFilter::extended(0xFFFF_FFFF, 0x0000_FF00);
    assert!(f.matches(&CanFrame::new_data(CanId::Extended(0x12FF34), &[]).unwrap()));
    assert!(f.matches(&CanFrame::new_data(CanId::Extended(0x00FF00), &[]).unwrap()));
    assert!(!f.matches(&CanFrame::new_data(CanId::Extended(0x12FE34), &[]).unwrap()));
}
