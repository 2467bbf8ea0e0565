use can_transport::fanout::{Registry, SUBSCRIBER_QUEUE};
use can_transport::{CanFilter, CanFrame, CanId, CanIoError};

fn frame(id: u16, byte: u8) -> CanFrame {
    CanFrame::new_data(id, &[byte]).unwrap()
}

#[test]
fn frame_reaches_every_subscriber_it_matches_once() {
    let mut registry = Registry::new();
    let exact = registry.subscribe(CanFilter::exact_standard(0x123));
    let all = registry.subscribe(CanFilter::pass_all_standard());
    let ext = registry.subscribe(CanFilter::pass_all_extended());

    registry.dispatch(frame(0x123, 1));
    registry.dispatch(frame(0x124, 2));
    registry.dispatch(CanFrame::new_data(CanId::Extended(0x123), &[3]).unwrap());

    assert_eq!(registry.try_recv(exact).unwrap(), Some(frame(0x123, 1)));
    assert_eq!(registry.try_recv(exact).unwrap(), None);
    assert_eq!(registry.try_recv(all).unwrap(), Some(frame(0x123, 1)));
    assert_eq!(registry.try_recv(all).unwrap(), Some(frame(0x124, 2)));
    assert_eq!(registry.try_recv(all).unwrap(), None);
    assert_eq!(registry.try_recv(ext).unwrap().unwrap().data(), &[3]);
    assert_eq!(registry.try_recv(ext).unwrap(), None);
}

#[test]
fn ids_count_up_from_one() {
    let mut registry = Registry::new();
    let a = registry.subscribe(CanFilter::pass_all_standard());
    registry.unsubscribe(a);
    let b = registry.subscribe(CanFilter::pass_all_standard());
    assert_eq!((a, b), (1, 2));
}

#[test]
fn slow_subscriber_lags_and_harms_no_other() {
    let mut registry = Registry::new();
    let slow = registry.subscribe(CanFilter::pass_all_standard());
    let quick = registry.subscribe(CanFilter::pass_all_standard());
    for n in 0..SUBSCRIBER_QUEUE + 3 {
        registry.dispatch(frame(1, n as u8));
        assert_eq!(registry.try_recv(quick).unwrap(), Some(frame(1, n as u8)));
    }
    // The loss is told once, before the frames that are still there.
    assert!(matches!(registry.try_recv(slow), Err(CanIoError::Lagged { dropped: 3 })));
    for n in 0..SUBSCRIBER_QUEUE {
        assert_eq!(registry.try_recv(slow).unwrap(), Some(frame(1, n as u8)));
    }
    assert_eq!(registry.try_recv(slow).unwrap(), None);
    assert_eq!(registry.try_recv(quick).unwrap(), None);
}

#[test]
fn queue_is_two_hundred_and_fifty_six_frames_deep() {
    assert_eq!(SUBSCRIBER_QUEUE, 256);
    let mut registry = Registry::new();
    let sub = registry.subscribe(CanFilter::pass_all_standard());
    for _ in 0..256 {
        registry.dispatch(frame(1, 0));
    }
    assert!(registry.try_recv(sub).unwrap().is_some());
    registry.dispatch(frame(1, 1));
    assert!(registry.try_recv(sub).unwrap().is_some());
    registry.dispatch(frame(1, 2));
    registry.dispatch(frame(1, 3));
    assert!(matches!(registry.try_recv(sub), Err(CanIoError::Lagged { dropped: 1 })));
}

#[test]
fn losses_add_up_until_a_frame_is_received() {
    let mut registry = Registry::new();
    let sub = registry.subscribe(CanFilter::pass_all_standard());
    for _ in 0..SUBSCRIBER_QUEUE + 3 {
        registry.dispatch(frame(1, 0));
    }
    assert!(matches!(registry.try_recv(sub), Err(CanIoError::Lagged { dropped: 3 })));
    registry.dispatch(frame(1, 0));
    registry.dispatch(frame(1, 0));
    assert!(matches!(registry.try_recv(sub), Err(CanIoError::Lagged { dropped: 5 })));
    assert!(registry.try_recv(sub).unwrap().is_some());
    // One frame has come out, so one finds room, and the count starts anew.
    registry.dispatch(frame(1, 0));
    registry.dispatch(frame(1, 0));
    assert!(matches!(registry.try_recv(sub), Err(CanIoError::Lagged { dropped: 1 })));
    assert!(registry.try_recv(sub).unwrap().is_some());
}

#[test]
fn frame_that_does_not_match_is_no_loss() {
    let mut registry = Registry::new();
    let sub = registry.subscribe(CanFilter::exact_standard(1));
    for _ in 0..SUBSCRIBER_QUEUE {
        registry.dispatch(frame(1, 0));
    }
    for _ in 0..10 {
        registry.dispatch(frame(2, 0));
    }
    for _ in 0..SUBSCRIBER_QUEUE {
        assert_eq!(registry.try_recv(sub).unwrap(), Some(frame(1, 0)));
    }
    assert_eq!(registry.try_recv(sub).unwrap(), None);
}

#[test]
fn ended_subscription_is_cut_off() {
    let mut registry = Registry::new();
    let kept = registry.subscribe(CanFilter::pass_all_standard());
    let gone = registry.subscribe(CanFilter::pass_all_standard());
    registry.dispatch(frame(5, 1));
    registry.unsubscribe(gone);
    registry.dispatch(frame(5, 2));
    assert!(matches!(registry.try_recv(gone), Err(CanIoError::Disconnected)));
    assert!(matches!(registry.try_recv(99), Err(CanIoError::Disconnected)));
    assert_eq!(registry.try_recv(kept).unwrap(), Some(frame(5, 1)));
    assert_eq!(registry.try_recv(kept).unwrap(), Some(frame(5, 2)));
}

#[test]
fn shut_down_bus_disconnects_after_what_is_queued() {
    let mut registry = Registry::new();
    let sub = registry.subscribe(CanFilter::pass_all_standard());
    let empty = registry.subscribe(CanFilter::pass_all_extended());
    for _ in 0..SUBSCRIBER_QUEUE + 1 {
        registry.dispatch(frame(1, 7));
    }
    registry.shut_down();
    registry.dispatch(frame(1, 8));
    assert!(matches!(registry.try_recv(empty), Err(CanIoError::Disconnected)));
    assert!(matches!(registry.try_recv(sub), Err(CanIoError::Lagged { dropped: 1 })));
    for _ in 0..SUBSCRIBER_QUEUE {
        assert_eq!(registry.try_recv(sub).unwrap(), Some(frame(1, 7)));
    }
    assert!(matches!(registry.try_recv(sub), Err(CanIoError::Disconnected)));

    let late = registry.subscribe(CanFilter::pass_all_standard());
    assert_eq!(late, 3);
    assert!(matches!(registry.try_recv(late), Err(CanIoError::Disconnected)));
}

#[test]
fn later_subscriber_gets_later_frames_only() {
    let mut registry = Registry::new();
    registry.dispatch(frame(1, 1));
    let sub = registry.subscribe(CanFilter::pass_all_standard());
    for n in 2..6 {
        registry.dispatch(frame(1, n));
    }
    for n in 2..6 {
        assert_eq!(registry.try_recv(sub).unwrap(), Some(frame(1, n)));
    }
    assert_eq!(registry.try_recv(sub).unwrap(), None);
}
