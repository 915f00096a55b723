use haptic_protocols::config::{DeviceAttributes, FeatureAttributes};
use haptic_protocols::lovense::Lovense;
use haptic_protocols::messages::{
    AbstractCommand, ButtplugError, Endpoint, LinearCmd, RotateCmd, RotateSubcommand,
    StopDeviceCmd, VectorSubcommand, VibrateCmd, VibrateSubcommand,
};

fn attrs(vibrate_steps: &[u32], rotate_steps: &[u32]) -> DeviceAttributes {
    DeviceAttributes {
        vibrate: vibrate_steps
            .iter()
            .map(|s| FeatureAttributes { step_count: *s, channel: Endpoint::Tx })
            .collect(),
        rotate: rotate_steps
            .iter()
            .map(|s| FeatureAttributes { step_count: *s, channel: Endpoint::Tx })
            .collect(),
    }
}

fn vibrate(speeds: &[(u32, u32)]) -> AbstractCommand {
    AbstractCommand::Vibrate(VibrateCmd {
        device_index: 0,
        speeds: speeds
            .iter()
            .map(|(i, s)| VibrateSubcommand { index: *i, speed: *s })
            .collect(),
    })
}

fn rotate(speed: u32, clockwise: bool) -> AbstractCommand {
    AbstractCommand::Rotate(RotateCmd {
        device_index: 0,
        rotations: vec![RotateSubcommand { index: 0, speed, clockwise }],
    })
}

#[test]
fn equal_targets_on_two_features_produce_one_aggregate_write() {
    let mut device = Lovense::new("Edge", &attrs(&[20, 20], &[]));
    let writes = device.handle(&vibrate(&[(0, 5000), (1, 5000)])).unwrap();
    assert_eq!(writes.len(), 1);
    assert_eq!(writes[0].data, b"Vibrate:10;".to_vec());
}

#[test]
fn unequal_targets_produce_one_write_per_feature() {
    let mut device = Lovense::new("Edge", &attrs(&[20, 20], &[]));
    let writes = device.handle(&vibrate(&[(0, 5000), (1, 1000)])).unwrap();
    assert_eq!(writes.len(), 2);
    assert_eq!(writes[0].data, b"Vibrate1:10;".to_vec());
    assert_eq!(writes[1].data, b"Vibrate2:2;".to_vec());
}

#[test]
fn only_changed_features_are_written() {
    let mut device = Lovense::new("Edge", &attrs(&[20, 20], &[]));
    device.handle(&vibrate(&[(0, 5000), (1, 1000)])).unwrap();
    // Feature 0 keeps its value; only feature 1 changes.
    let writes = device.handle(&vibrate(&[(0, 5000), (1, 9000)])).unwrap();
    assert_eq!(writes.len(), 1);
    assert_eq!(writes[0].data, b"Vibrate2:18;".to_vec());
}

#[test]
fn redundant_vibrate_produces_zero_writes() {
    let mut device = Lovense::new("Hush", &attrs(&[20], &[]));
    let writes = device.handle(&vibrate(&[(0, 5000)])).unwrap();
    assert_eq!(writes.len(), 1);
    let writes = device.handle(&vibrate(&[(0, 5000)])).unwrap();
    assert!(writes.is_empty());
}

#[test]
fn flipped_direction_writes_speed_then_direction_change() {
    let mut device = Lovense::new("Nora", &attrs(&[], &[20]));
    let writes = device.handle(&rotate(5000, false)).unwrap();
    assert_eq!(writes.len(), 1);
    assert_eq!(writes[0].data, b"Rotate:10;".to_vec());
    // Same speed, same direction: zero writes.
    let writes = device.handle(&rotate(5000, false)).unwrap();
    assert!(writes.is_empty());
    // Same speed, flipped direction: speed write, then direction change.
    let writes = device.handle(&rotate(5000, true)).unwrap();
    assert_eq!(writes.len(), 2);
    assert_eq!(writes[0].data, b"Rotate:10;".to_vec());
    assert_eq!(writes[1].data, b"RotateChange;".to_vec());
}

#[test]
fn stop_drives_cached_state_to_rest_once() {
    let mut device = Lovense::new("Nora", &attrs(&[20], &[20]));
    device.handle(&vibrate(&[(0, 5000)])).unwrap();
    device.handle(&rotate(5000, false)).unwrap();
    let writes = device
        .handle(&AbstractCommand::Stop(StopDeviceCmd { device_index: 0 }))
        .unwrap();
    assert_eq!(writes.len(), 2);
    assert_eq!(writes[0].data, b"Vibrate:0;".to_vec());
    assert_eq!(writes[1].data, b"Rotate:0;".to_vec());
    // A second stop finds everything at rest already.
    let writes = device
        .handle(&AbstractCommand::Stop(StopDeviceCmd { device_index: 0 }))
        .unwrap();
    assert!(writes.is_empty());
}

#[test]
fn linear_move_is_unsupported() {
    let mut device = Lovense::new("Hush", &attrs(&[20], &[]));
    let r = device.handle(&AbstractCommand::LinearMove(LinearCmd {
        device_index: 0,
        vectors: vec![VectorSubcommand { index: 0, duration: 500, position: 5000 }],
    }));
    assert!(matches!(r, Err(ButtplugError::UnsupportedCommand)));
}
