use gong::naming::{decimal_string, recording_file_name, recording_path, recordings_dir};

#[test]
fn decimal_of_small_and_large_numbers() {
    assert_eq!(decimal_string(0), "0");
    assert_eq!(decimal_string(7), "7");
    assert_eq!(decimal_string(10), "10");
    assert_eq!(decimal_string(1234567890), "1234567890");
    assert_eq!(decimal_string(u64::MAX), "18446744073709551615");
}

#[test]
fn decimal_agrees_with_the_standard_formatting() {
    for n in (0..100000u64).step_by(37) {
        assert_eq!(decimal_string(n), format!("{}", n));
    }
}

#[test]
fn file_name_without_a_selected_device() {
    assert_eq!(recording_file_name(&None, 1700000000), "output_default_1700000000.wav");
    assert_eq!(recording_path(&None, 1700000000), "recordings/output_default_1700000000.wav");
}

#[test]
fn file_name_with_a_selected_device() {
    let device = Some("microphone".to_string());
    assert_eq!(recording_file_name(&device, 42), "output_microphone_42.wav");
    assert_eq!(recording_path(&device, 42), "recordings/output_microphone_42.wav");
    assert_eq!(recording_path(&Some(String::new()), 0), "recordings/output__0.wav");
}

#[test]
fn different_seconds_give_different_files() {
    let device = Some("speakers".to_string());
    assert_ne!(recording_path(&device, 1), recording_path(&device, 10));
    assert_ne!(recording_path(&device, 100), recording_path(&device, 101));
    assert_eq!(recording_path(&device, 5), recording_path(&device, 5));
}

#[test]
fn recordings_directory() {
    assert_eq!(recordings_dir(), "recordings");
    assert!(recording_path(&None, 1).starts_with("recordings/"));
}
