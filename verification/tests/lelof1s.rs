use haptic_protocols::config::{DeviceAttributes, FeatureAttributes};
use haptic_protocols::lelof1s::LeloF1s;
use haptic_protocols::messages::{
    AbstractCommand, Endpoint, StopDeviceCmd, VibrateCmd, VibrateSubcommand,
};

fn speed(x: f64) -> u32 {
    (x * 10000.0).round() as u32
}

fn f1s_attributes() -> DeviceAttributes {
    DeviceAttributes {
        vibrate: vec![
            FeatureAttributes { step_count: 100, channel: Endpoint::Tx },
            FeatureAttributes { step_count: 100, channel: Endpoint::Tx },
        ],
        rotate: vec![],
    }
}

fn vibrate(speeds: Vec<VibrateSubcommand>) -> AbstractCommand {
    AbstractCommand::Vibrate(VibrateCmd { device_index: 0, speeds })
}

#[test]
fn test_lelof1s_protocol() {
    let mut device = LeloF1s::new("F1s", &f1s_attributes());
    assert_eq!(device.name(), "F1s");

    let writes = device
        .handle(&vibrate(vec![VibrateSubcommand { index: 0, speed: speed(0.5) }]))
        .unwrap();
    assert_eq!(writes.len(), 1);
    assert_eq!(writes[0].endpoint, Endpoint::Tx);
    assert!(!writes[0].write_with_response);
    // One feature command on a two-feature device is a broadcast: both
    // features take the target.
    assert_eq!(writes[0].data, vec![0x01, 0x32, 0x32]);

    // The same command again changes nothing: no write.
    let writes = device
        .handle(&vibrate(vec![VibrateSubcommand { index: 0, speed: speed(0.5) }]))
        .unwrap();
    assert!(writes.is_empty());

    let writes = device
        .handle(&vibrate(vec![
            VibrateSubcommand { index: 0, speed: speed(0.1) },
            VibrateSubcommand { index: 1, speed: speed(0.5) },
        ]))
        .unwrap();
    assert_eq!(writes.len(), 1);
    assert_eq!(writes[0].data, vec![0x1, 0xa, 0x32]);

    let writes = device
        .handle(&AbstractCommand::Stop(StopDeviceCmd { device_index: 0 }))
        .unwrap();
    assert_eq!(writes.len(), 1);
    assert_eq!(writes[0].data, vec![0x1, 0x0, 0x0]);
}

#[test]
fn lelof1s_repeated_stop_writes_nothing() {
    let mut device = LeloF1s::new("F1s", &f1s_attributes());
    device
        .handle(&vibrate(vec![VibrateSubcommand { index: 0, speed: speed(0.9) }]))
        .unwrap();
    let writes = device
        .handle(&AbstractCommand::Stop(StopDeviceCmd { device_index: 0 }))
        .unwrap();
    assert_eq!(writes.len(), 1);
    assert_eq!(writes[0].data, vec![0x1, 0x0, 0x0]);
    let writes = device
        .handle(&AbstractCommand::Stop(StopDeviceCmd { device_index: 0 }))
        .unwrap();
    assert!(writes.is_empty());
}
