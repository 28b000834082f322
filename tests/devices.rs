use oboe::{AudioDeviceDirection, AudioDeviceInfo, AudioDeviceType, AudioFormat};

#[test]
fn device_direction_from_capabilities() {
    assert_eq!(AudioDeviceDirection::new(true, true), Some(AudioDeviceDirection::InputOutput));
    assert_eq!(AudioDeviceDirection::new(false, true), Some(AudioDeviceDirection::Output));
    assert_eq!(AudioDeviceDirection::new(true, false), Some(AudioDeviceDirection::Input));
    assert_eq!(AudioDeviceDirection::new(false, false), None);
}

#[test]
fn device_direction_queries() {
    assert!(AudioDeviceDirection::Input.is_input());
    assert!(!AudioDeviceDirection::Input.is_output());
    assert!(AudioDeviceDirection::Output.is_output());
    assert!(!AudioDeviceDirection::Output.is_input());
    assert!(AudioDeviceDirection::InputOutput.is_input());
    assert!(AudioDeviceDirection::InputOutput.is_output());
}

#[test]
fn device_direction_masks() {
    assert_eq!(AudioDeviceDirection::Input.raw(), 1);
    assert_eq!(AudioDeviceDirection::Output.raw(), 2);
    assert_eq!(AudioDeviceDirection::InputOutput.raw(), 3);
    assert_eq!(AudioDeviceType::BluetoothA2DP.raw(), 8);
    assert_eq!(AudioDeviceType::WiredHeadset.raw(), 3);
}

#[test]
fn format_from_encoding() {
    assert_eq!(AudioFormat::from_encoding(2), Some(AudioFormat::I16));
    assert_eq!(AudioFormat::from_encoding(4), Some(AudioFormat::F32));
    assert_eq!(AudioFormat::from_encoding(3), None);
    assert_eq!(AudioFormat::from_encoding(0), None);
}

#[test]
fn device_type_codes() {
    assert_eq!(AudioDeviceType::from_raw(24), Some(AudioDeviceType::BuiltinSpeakerSafe));
    assert_eq!(AudioDeviceType::from_raw(0), Some(AudioDeviceType::Unknown));
    assert_eq!(AudioDeviceType::from_raw(25), None);
    let info = AudioDeviceInfo {
        id: 5,
        device_type: AudioDeviceType::UsbHeadset,
        direction: AudioDeviceDirection::InputOutput,
        address: String::from("usb:1"),
        product_name: String::from("Headset"),
        channel_counts: vec![1, 2],
        sample_rates: vec![44100, 48000],
        formats: vec![AudioFormat::I16],
    };
    let copy = info.clone();
    assert_eq!(copy.id, 5);
    assert!(copy.direction.is_input() && copy.direction.is_output());
}
