use haptic_protocols::config::{DeviceAttributes, FeatureAttributes};
use haptic_protocols::manager::{GenericCommandManager, RotationValue};
use haptic_protocols::messages::{
    AbstractCommand, ButtplugError, Endpoint, RotateCmd, RotateSubcommand, VibrateCmd,
    VibrateSubcommand,
};

fn attrs(vibrate_steps: &[u32], rotate_steps: &[u32]) -> DeviceAttributes {
    DeviceAttributes {
        vibrate: vibrate_steps
            .iter()
            .map(|s| FeatureAttributes { step_count: *s, channel: Endpoint::Tx })
            .collect(),
        rotate: rotate_steps
            .iter()
            .map(|s| FeatureAttributes { step_count: *s, channel: Endpoint::Tx })
            .collect(),
    }
}

fn vibrate_cmd(speeds: &[(u32, u32)]) -> VibrateCmd {
    VibrateCmd {
        device_index: 0,
        speeds: speeds
            .iter()
            .map(|(i, s)| VibrateSubcommand { index: *i, speed: *s })
            .collect(),
    }
}

#[test]
fn quantization_rounds_half_up_on_twenty_steps() {
    let mut manager = GenericCommandManager::new(&attrs(&[20], &[]));
    // target 0.5 -> step 10
    let r = manager.update_vibration(&vibrate_cmd(&[(0, 5000)]), false).unwrap();
    assert_eq!(r, Some(vec![Some(10)]));
    // target 0.1 -> step 2
    let r = manager.update_vibration(&vibrate_cmd(&[(0, 1000)]), false).unwrap();
    assert_eq!(r, Some(vec![Some(2)]));
}

#[test]
fn out_of_range_target_is_rejected_with_no_writes() {
    let mut manager = GenericCommandManager::new(&attrs(&[20], &[]));
    let r = manager.update_vibration(&vibrate_cmd(&[(0, 10001)]), false);
    assert_eq!(r, Err(ButtplugError::TargetOutOfRange));
    // The cache is untouched: the next valid command still sees rest state.
    let r = manager.update_vibration(&vibrate_cmd(&[(0, 0)]), false).unwrap();
    assert_eq!(r, None);
}

#[test]
fn cardinality_mismatch_is_rejected() {
    let mut manager = GenericCommandManager::new(&attrs(&[20, 20], &[]));
    let r = manager.update_vibration(&vibrate_cmd(&[(0, 100), (1, 200), (2, 300)]), false);
    assert_eq!(r, Err(ButtplugError::InvalidCardinality { given: 3, expected: 2 }));
}

#[test]
fn bad_feature_index_is_rejected() {
    let mut manager = GenericCommandManager::new(&attrs(&[20, 20], &[]));
    let r = manager.update_vibration(&vibrate_cmd(&[(7, 100)]), false);
    assert_eq!(r, Err(ButtplugError::InvalidFeatureIndex));
}

#[test]
fn repeated_update_is_a_no_op() {
    let mut manager = GenericCommandManager::new(&attrs(&[100, 100], &[]));
    let cmd = vibrate_cmd(&[(0, 2500), (1, 7500)]);
    let r = manager.update_vibration(&cmd, false).unwrap();
    assert_eq!(r, Some(vec![Some(25), Some(75)]));
    let r = manager.update_vibration(&cmd, false).unwrap();
    assert_eq!(r, None);
}

#[test]
fn broadcast_expands_to_every_feature() {
    let mut manager = GenericCommandManager::new(&attrs(&[100, 100, 100], &[]));
    let r = manager.update_vibration(&vibrate_cmd(&[(0, 5000)]), false).unwrap();
    assert_eq!(r, Some(vec![Some(50), Some(50), Some(50)]));
}

#[test]
fn match_all_fills_unchanged_slots() {
    let mut manager = GenericCommandManager::new(&attrs(&[100, 100], &[]));
    manager
        .update_vibration(&vibrate_cmd(&[(0, 5000), (1, 5000)]), true)
        .unwrap();
    let r = manager
        .update_vibration(&vibrate_cmd(&[(0, 1000), (1, 5000)]), true)
        .unwrap();
    assert_eq!(r, Some(vec![Some(10), Some(50)]));
}

#[test]
fn rotation_tracks_speed_and_direction() {
    let mut manager = GenericCommandManager::new(&attrs(&[], &[20]));
    let cw = RotateCmd {
        device_index: 0,
        rotations: vec![RotateSubcommand { index: 0, speed: 5000, clockwise: true }],
    };
    let r = manager.update_rotation(&cw).unwrap();
    assert_eq!(r, Some(vec![Some(RotationValue { speed: 10, clockwise: true })]));
    // Same speed, same direction: pure no-op.
    let r = manager.update_rotation(&cw).unwrap();
    assert_eq!(r, None);
    // Same speed, flipped direction: reported as a change.
    let ccw = RotateCmd {
        device_index: 0,
        rotations: vec![RotateSubcommand { index: 0, speed: 5000, clockwise: false }],
    };
    let r = manager.update_rotation(&ccw).unwrap();
    assert_eq!(r, Some(vec![Some(RotationValue { speed: 10, clockwise: false })]));
}

#[test]
fn full_intensity_maps_to_the_top_step() {
    let mut manager = GenericCommandManager::new(&attrs(&[20], &[]));
    let r = manager.update_vibration(&vibrate_cmd(&[(0, 10000)]), false).unwrap();
    assert_eq!(r, Some(vec![Some(20)]));
}

#[test]
fn featureless_device_accepts_the_empty_command_as_a_no_op() {
    let mut manager = GenericCommandManager::new(&attrs(&[], &[]));
    let r = manager.update_vibration(&vibrate_cmd(&[]), false).unwrap();
    assert_eq!(r, None);
}

#[test]
fn stop_command_set_covers_each_kind_once() {
    let manager = GenericCommandManager::new(&attrs(&[100, 100], &[20]));
    let stops = manager.get_stop_commands();
    assert_eq!(stops.len(), 2);
    match &stops[0] {
        AbstractCommand::Vibrate(vc) => {
            assert_eq!(vc.speeds.len(), 2);
            assert!(vc.speeds.iter().all(|s| s.speed == 0));
        },
        _ => panic!("first stop command must be the vibration stop"),
    }
    match &stops[1] {
        AbstractCommand::Rotate(rc) => {
            assert_eq!(rc.rotations.len(), 1);
            assert_eq!(rc.rotations[0].speed, 0);
        },
        _ => panic!("second stop command must be the rotation stop"),
    }
}
