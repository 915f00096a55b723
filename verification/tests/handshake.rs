use haptic_protocols::config::{
    ConfigEntry, DeviceAttributes, DeviceProtocolConfiguration, FeatureAttributes, LocalizedName,
};
use haptic_protocols::handshake::{
    extract_identifier, handshake_step, ident_request_bytes, HandshakeAction, HandshakeInput,
    HandshakeState,
};
use haptic_protocols::lovense::Lovense;
use haptic_protocols::messages::{ButtplugDeviceEvent, ButtplugError, Endpoint};

fn configuration() -> DeviceProtocolConfiguration {
    DeviceProtocolConfiguration {
        entries: vec![ConfigEntry {
            identifier: b"W".to_vec(),
            names: vec![LocalizedName { locale: b"en-us".to_vec(), name: "Lovense Domi".to_string() }],
            attributes: DeviceAttributes {
                vibrate: vec![FeatureAttributes { step_count: 20, channel: Endpoint::Tx }],
                rotate: vec![],
            },
        }],
    }
}

#[test]
fn identifier_is_everything_before_the_first_colon() {
    assert_eq!(extract_identifier(&b"W:39:000000000000".to_vec()), b"W".to_vec());
    assert_eq!(extract_identifier(&b"Domi".to_vec()), b"Domi".to_vec());
    assert_eq!(extract_identifier(&b":rest".to_vec()), Vec::<u8>::new());
    assert_eq!(extract_identifier(&Vec::new()), Vec::<u8>::new());
}

#[test]
fn ident_request_spells_device_type() {
    assert_eq!(ident_request_bytes(), b"DeviceType;".to_vec());
}

#[test]
fn handshake_resolves_from_a_notification() {
    let (state, action) =
        handshake_step(HandshakeState::AwaitingSubscribeAck, HandshakeInput::SubscribeAck);
    assert_eq!(action, HandshakeAction::SendIdentRequest);
    let (state, action) = handshake_step(
        state,
        HandshakeInput::Event(ButtplugDeviceEvent::Notification(
            Endpoint::Rx,
            b"W:39:000000000000".to_vec(),
        )),
    );
    assert_eq!(action, HandshakeAction::Unsubscribe);
    let identifier = match &state {
        HandshakeState::Resolved(id) => id.clone(),
        _ => panic!("expected a resolved handshake"),
    };
    assert_eq!(identifier, b"W".to_vec());
    let device = Lovense::from_handshake(state, &configuration()).unwrap();
    assert_eq!(device.name(), "Lovense Domi");
}

#[test]
fn removal_before_a_notification_fails_the_handshake() {
    let (state, action) =
        handshake_step(HandshakeState::AwaitingSubscribeAck, HandshakeInput::SubscribeAck);
    assert_eq!(action, HandshakeAction::SendIdentRequest);
    let (state, action) =
        handshake_step(state, HandshakeInput::Event(ButtplugDeviceEvent::Removed));
    assert_eq!(action, HandshakeAction::Abort);
    assert!(matches!(state, HandshakeState::Failed));
    let r = Lovense::from_handshake(state, &configuration());
    assert!(matches!(r, Err(ButtplugError::HandshakeFailed)));
}

#[test]
fn exhausted_stream_fails_the_handshake() {
    let (state, _) =
        handshake_step(HandshakeState::AwaitingSubscribeAck, HandshakeInput::SubscribeAck);
    let (state, action) = handshake_step(state, HandshakeInput::StreamEnded);
    assert_eq!(action, HandshakeAction::Abort);
    assert!(matches!(state, HandshakeState::Failed));
}

#[test]
fn unknown_identifier_fails_construction() {
    let r = Lovense::try_create(&b"ZZ".to_vec(), &configuration());
    assert!(matches!(r, Err(ButtplugError::HandshakeFailed)));
}

#[test]
fn entry_without_a_locale_name_fails_construction() {
    let configuration = DeviceProtocolConfiguration {
        entries: vec![ConfigEntry {
            identifier: b"W".to_vec(),
            names: vec![LocalizedName { locale: b"de-de".to_vec(), name: "Lovense Domi".to_string() }],
            attributes: DeviceAttributes {
                vibrate: vec![FeatureAttributes { step_count: 20, channel: Endpoint::Tx }],
                rotate: vec![],
            },
        }],
    };
    let r = Lovense::try_create(&b"W".to_vec(), &configuration);
    assert!(matches!(r, Err(ButtplugError::HandshakeFailed)));
}
