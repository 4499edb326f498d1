use screen_dream::audio::{check_sample_format, choose_input_device, describe_input_devices, DeviceChoice, InputDevice, SampleKind};
use screen_dream::error::AppError;

#[test]
fn describes_devices() {
    let ds = vec![
        InputDevice { name: Some("Mic".into()), config: Ok((48000, 2)) },
        InputDevice { name: None, config: Ok((44100, 1)) },
    ];
    let infos = describe_input_devices(Some("Mic".into()), ds).unwrap();
    assert_eq!(infos.len(), 2);
    assert!(infos[0].is_default);
    assert_eq!(infos[1].name, "Unknown");
    assert!(!infos[1].is_default);
    assert_eq!((infos[0].sample_rate, infos[0].channels), (48000, 2));
    let bad = vec![
        InputDevice { name: Some("A".into()), config: Ok((1, 1)) },
        InputDevice { name: Some("B".into()), config: Err("busy".into()) },
        InputDevice { name: Some("C".into()), config: Err("gone".into()) },
    ];
    match describe_input_devices(None, bad) {
        Err(AppError::Capture(m)) => assert_eq!(m, "Failed to get config for device B: busy"),
        other => panic!("unexpected {other:?}"),
    }
    // With no default device the default name is empty, so a device named "" is the default.
    let infos = describe_input_devices(None, vec![InputDevice { name: Some("".into()), config: Ok((1, 1)) }]).unwrap();
    assert!(infos[0].is_default);
}

#[test]
fn chooses_devices() {
    let names = vec![None, Some("USB".to_string()), Some("USB".to_string())];
    assert_eq!(choose_input_device(Some("USB"), &names, false).unwrap(), DeviceChoice::Listed(1));
    assert_eq!(choose_input_device(None, &names, true).unwrap(), DeviceChoice::Default);
    match choose_input_device(Some("Other"), &names, true) {
        Err(AppError::Capture(m)) => assert_eq!(m, "Audio device not found: Other"),
        other => panic!("unexpected {other:?}"),
    }
    match choose_input_device(None, &names, false) {
        Err(AppError::Capture(m)) => assert_eq!(m, "No default audio input device available"),
        other => panic!("unexpected {other:?}"),
    }
}

#[test]
fn sample_formats() {
    assert!(check_sample_format(&SampleKind::F32).is_ok());
    assert!(check_sample_format(&SampleKind::I16).is_ok());
    assert!(check_sample_format(&SampleKind::U16).is_ok());
    match check_sample_format(&SampleKind::Other("I8".into())) {
        Err(AppError::Capture(m)) => assert_eq!(m, "Unsupported audio sample format: I8"),
        other => panic!("unexpected {other:?}"),
    }
}
