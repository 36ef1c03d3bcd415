use dictationapp::audio::{distinct_names, pick_input_device, DeviceChoice};

fn names(v: &[Option<&str>]) -> Vec<Option<String>> {
    v.iter().map(|n| n.map(String::from)).collect()
}

#[test]
fn device_names_are_listed_once_in_order() {
    let got = distinct_names(names(&[Some("USB Mic"), None, Some("Built-in"), Some("USB Mic")]));
    assert_eq!(got, vec!["USB Mic".to_string(), "Built-in".to_string()]);
    assert!(distinct_names(vec![]).is_empty());
}

#[test]
fn blank_or_missing_mic_means_default() {
    let list = names(&[Some("USB Mic")]);
    assert_eq!(pick_input_device(None, &list).unwrap(), DeviceChoice::Default);
    assert_eq!(pick_input_device(Some("  "), &list).unwrap(), DeviceChoice::Default);
}

#[test]
fn exact_name_beats_earlier_partial_match() {
    let list = names(&[Some("USB Mic Pro"), None, Some("USB Mic")]);
    assert_eq!(pick_input_device(Some(" USB Mic "), &list).unwrap(), DeviceChoice::Index(2));
}

#[test]
fn first_case_insensitive_substring_matches() {
    let list = names(&[Some("Built-in Audio"), Some("Blue Yeti USB"), Some("usb headset")]);
    assert_eq!(pick_input_device(Some("usb"), &list).unwrap(), DeviceChoice::Index(1));
}

#[test]
fn missing_mic_lists_what_is_available() {
    let list = names(&[Some("A"), None, Some("B")]);
    let e = pick_input_device(Some("Zed"), &list).unwrap_err();
    assert_eq!(e.want, "Zed");
    assert_eq!(e.available, vec!["A".to_string(), "B".to_string()]);
    assert_eq!(e.message(), "microphone \"Zed\" not found (available: A, B)");
}
