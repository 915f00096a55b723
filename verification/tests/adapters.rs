use haptic_protocols::config::{DeviceAttributes, DeviceProtocolConfiguration, ConfigEntry, FeatureAttributes, LocalizedName};
use haptic_protocols::dispatch::{ProtocolAdapter, ProtocolFamily};
use haptic_protocols::messages::{
    AbstractCommand, ButtplugError, Endpoint, RotateCmd, RotateSubcommand, StopDeviceCmd,
    VibrateCmd, VibrateSubcommand,
};
use haptic_protocols::prettylove::PrettyLove;
use haptic_protocols::realov::Realov;

fn one_feature(steps: u32) -> DeviceAttributes {
    DeviceAttributes {
        vibrate: vec![FeatureAttributes { step_count: steps, channel: Endpoint::Tx }],
        rotate: vec![],
    }
}

fn vibrate(speeds: &[(u32, u32)]) -> AbstractCommand {
    AbstractCommand::Vibrate(VibrateCmd {
        device_index: 0,
        speeds: speeds
            .iter()
            .map(|(i, s)| VibrateSubcommand { index: *i, speed: *s })
            .collect(),
    })
}

#[test]
fn prettylove_quantizes_round_half_up_on_three_steps() {
    let mut device = PrettyLove::new("Aogu", &one_feature(3));
    // 0.5 on a 3-step feature rounds half up to step 2.
    let writes = device.handle(&vibrate(&[(0, 5000)])).unwrap();
    assert_eq!(writes.len(), 1);
    assert_eq!(writes[0].endpoint, Endpoint::Tx);
    assert_eq!(writes[0].data, vec![0x00, 0x02]);
    let writes = device.handle(&vibrate(&[(0, 10000)])).unwrap();
    assert_eq!(writes[0].data, vec![0x00, 0x03]);
}

#[test]
fn prettylove_suppresses_redundant_commands() {
    let mut device = PrettyLove::new("Aogu", &one_feature(3));
    let writes = device.handle(&vibrate(&[(0, 5000)])).unwrap();
    assert_eq!(writes.len(), 1);
    let writes = device.handle(&vibrate(&[(0, 5000)])).unwrap();
    assert!(writes.is_empty());
    // A different target that quantizes to the same step is also redundant.
    let writes = device.handle(&vibrate(&[(0, 5500)])).unwrap();
    assert!(writes.is_empty());
}

#[test]
fn prettylove_encodes_rest_as_its_stop_byte() {
    let mut device = PrettyLove::new("Aogu", &one_feature(3));
    device.handle(&vibrate(&[(0, 5000)])).unwrap();
    let writes = device.handle(&vibrate(&[(0, 0)])).unwrap();
    assert_eq!(writes[0].data, vec![0x00, 0xff]);
    // Already at rest: stop replays through the same path and writes nothing.
    let writes = device
        .handle(&AbstractCommand::Stop(StopDeviceCmd { device_index: 0 }))
        .unwrap();
    assert!(writes.is_empty());
}

#[test]
fn prettylove_stop_writes_the_stop_byte_once() {
    let mut device = PrettyLove::new("Aogu", &one_feature(3));
    device.handle(&vibrate(&[(0, 10000)])).unwrap();
    let writes = device
        .handle(&AbstractCommand::Stop(StopDeviceCmd { device_index: 0 }))
        .unwrap();
    assert_eq!(writes.len(), 1);
    assert_eq!(writes[0].data, vec![0x00, 0xff]);
    let writes = device
        .handle(&AbstractCommand::Stop(StopDeviceCmd { device_index: 0 }))
        .unwrap();
    assert!(writes.is_empty());
}

#[test]
fn realov_quantizes_round_half_up_on_fifty_steps() {
    let mut device = Realov::new("Lydia", &one_feature(50));
    let writes = device.handle(&vibrate(&[(0, 5000)])).unwrap();
    assert_eq!(writes.len(), 1);
    assert_eq!(writes[0].data, vec![0xc5, 0x55, 25, 0xaa]);
    // 0.01 on a 50-step feature rounds half up to step 1, not 0.
    let writes = device.handle(&vibrate(&[(0, 100)])).unwrap();
    assert_eq!(writes[0].data, vec![0xc5, 0x55, 1, 0xaa]);
}

#[test]
fn realov_suppresses_redundant_commands_and_stops_once() {
    let mut device = Realov::new("Lydia", &one_feature(50));
    let writes = device.handle(&vibrate(&[(0, 5000)])).unwrap();
    assert_eq!(writes.len(), 1);
    let writes = device.handle(&vibrate(&[(0, 5000)])).unwrap();
    assert!(writes.is_empty());
    let writes = device
        .handle(&AbstractCommand::Stop(StopDeviceCmd { device_index: 0 }))
        .unwrap();
    assert_eq!(writes[0].data, vec![0xc5, 0x55, 0, 0xaa]);
    let writes = device
        .handle(&AbstractCommand::Stop(StopDeviceCmd { device_index: 0 }))
        .unwrap();
    assert!(writes.is_empty());
}

#[test]
fn rotation_is_unsupported_outside_lovense() {
    let mut device = Realov::new("Lydia", &one_feature(50));
    let r = device.handle(&AbstractCommand::Rotate(RotateCmd {
        device_index: 0,
        rotations: vec![RotateSubcommand { index: 0, speed: 5000, clockwise: true }],
    }));
    assert!(matches!(r, Err(ButtplugError::UnsupportedCommand)));
}

#[test]
fn dispatch_builds_the_requested_family() {
    let mut adapter =
        ProtocolAdapter::create_protocol(ProtocolFamily::Lovense, "Hush", &one_feature(20));
    assert_eq!(adapter.name(), "Hush");
    let writes = adapter.handle(&vibrate(&[(0, 5000)])).unwrap();
    assert_eq!(writes.len(), 1);
    assert_eq!(writes[0].data, b"Vibrate:10;".to_vec());
    let stops = adapter.get_stop_commands();
    assert_eq!(stops.len(), 1);
}

#[test]
fn registry_lookup_misses_are_plain_outcomes() {
    let configuration = DeviceProtocolConfiguration {
        entries: vec![ConfigEntry {
            identifier: b"F1s".to_vec(),
            names: vec![LocalizedName { locale: b"en-us".to_vec(), name: "F1s".to_string() }],
            attributes: one_feature(100),
        }],
    };
    assert!(configuration.get_attributes(&b"F1s".to_vec()).is_some());
    assert!(configuration.get_attributes(&b"unknown".to_vec()).is_none());
}
