use can_transport::{CanBitTiming, CanBusState, CanIoError, CanLinkConfig};

#[test]
fn every_error_has_its_message() {
    assert_eq!(CanIoError::Disconnected.message(), "CAN bus disconnected");
    assert_eq!(CanIoError::InvalidId.message(), "invalid CAN identifier");
    assert_eq!(
        CanIoError::DataTooLong { got: 9, max: 8 }.message(),
        "frame data too long: got 9 bytes, max 8"
    );
    assert_eq!(
        CanIoError::Lagged { dropped: 1 }.message(),
        "subscriber lagged behind, 1 frames dropped"
    );
    let backend = CanIoError::backend("no such device".to_string());
    assert_eq!(backend.message(), "no such device");
    assert!(matches!(backend, CanIoError::Backend(_)));
}

#[test]
fn numbers_in_messages_are_decimal() {
    assert_eq!(
        CanIoError::DataTooLong { got: 0, max: 100 }.message(),
        "frame data too long: got 0 bytes, max 100"
    );
    assert_eq!(
        CanIoError::Lagged { dropped: u64::MAX }.message(),
        "subscriber lagged behind, 18446744073709551615 frames dropped"
    );
    assert_eq!(
        CanIoError::Lagged { dropped: 1234567890 }.message(),
        "subscriber lagged behind, 1234567890 frames dropped"
    );
}

#[test]
fn nothing_is_known_by_default() {
    assert_eq!(
        CanBitTiming::default(),
        CanBitTiming { bitrate: None, sample_point_per_mille: None }
    );
    assert_eq!(
        CanLinkConfig::default(),
        CanLinkConfig { fd_enabled: None, nominal: None, data: None }
    );
    assert_eq!(
        CanBusState::default(),
        CanBusState { state: None, tx_errors: None, rx_errors: None }
    );
}
