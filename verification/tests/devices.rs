use baby_rocs::devices::{match_device, DeviceEntry, DeviceError, DevicePattern};

fn devices() -> Vec<DeviceEntry> {
    vec![
        DeviceEntry { index: 0, name: "HDA Intel PCH: ALC257 Analog (hw:0,0)".to_string() },
        DeviceEntry { index: 3, name: "USB Audio Device: Mic (hw:1,0)".to_string() },
        DeviceEntry { index: 5, name: "USB Audio Device: Mic (hw:2,0)".to_string() },
        DeviceEntry { index: 7, name: "default".to_string() },
    ]
}

#[test]
fn first_matching_device_is_chosen() {
    let p = DevicePattern::new("USB.*Mic").unwrap();
    assert_eq!(match_device(&devices(), &p).unwrap(), 3);
}

#[test]
fn exact_name_pattern() {
    let p = DevicePattern::new("^default$").unwrap();
    assert_eq!(match_device(&devices(), &p).unwrap(), 7);
}

#[test]
fn pattern_matches_anywhere_in_name() {
    let p = DevicePattern::new("hw:2").unwrap();
    assert!(p.is_match("USB Audio Device: Mic (hw:2,0)"));
    assert!(!p.is_match("USB Audio Device: Mic (hw:1,0)"));
    assert_eq!(match_device(&devices(), &p).unwrap(), 5);
}

#[test]
fn no_matching_device() {
    let p = DevicePattern::new("Bluetooth").unwrap();
    match match_device(&devices(), &p) {
        Err(DeviceError::NotFound { pattern }) => assert_eq!(pattern, "Bluetooth"),
        other => panic!("unexpected {:?}", other),
    }
    match match_device(&Vec::new(), &p) {
        Err(DeviceError::NotFound { .. }) => {}
        other => panic!("unexpected {:?}", other),
    }
}

#[test]
fn invalid_pattern_is_rejected() {
    assert!(matches!(DevicePattern::new("Mic(("), Err(DeviceError::InvalidPattern(_))));
    assert_eq!(DevicePattern::new("Mic.*").unwrap().as_str(), "Mic.*");
}
