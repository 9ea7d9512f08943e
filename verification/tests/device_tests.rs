use gong::device::{
    list_devices, AudioDevice, DeviceQueryError, Direction, HostEndpoint, HostQuery, HostReport,
};
use gong::recorder::AudioRecorder;

fn endpoint(id: &str, name: &str, direction: Direction, enabled: bool) -> HostEndpoint {
    HostEndpoint { id: id.to_string(), name: name.to_string(), direction, enabled }
}

fn report(endpoints: Vec<HostEndpoint>, input: Option<&str>, output: Option<&str>) -> HostQuery {
    HostQuery::Report(HostReport {
        endpoints,
        default_input: input.map(|s| s.to_string()),
        default_output: output.map(|s| s.to_string()),
    })
}

#[test]
fn one_default_output_and_no_input() {
    let query = report(
        vec![endpoint("default_output", "Default Output Device", Direction::Output, true)],
        None,
        Some("default_output"),
    );
    let devices = list_devices(&query).unwrap();
    assert_eq!(devices.len(), 1);
    assert!(devices[0].is_default);
    assert_eq!(devices[0].direction, Direction::Output);
    assert_eq!(devices[0].id, "default_output");
    assert_eq!(devices[0].name, "Default Output Device");
}

#[test]
fn unreachable_host_is_an_error() {
    assert_eq!(list_devices(&HostQuery::Unreachable), Err(DeviceQueryError::HostUnreachable));
    assert_eq!(
        AudioRecorder::get_available_devices(&HostQuery::Unreachable),
        Err(DeviceQueryError::HostUnreachable)
    );
}

#[test]
fn host_without_endpoints_gives_an_empty_list() {
    assert_eq!(list_devices(&report(Vec::new(), None, None)), Ok(Vec::new()));
    assert_eq!(list_devices(&report(Vec::new(), Some("x"), Some("y"))), Ok(Vec::new()));
}

#[test]
fn host_with_five_endpoints() {
    let query = report(
        vec![
            endpoint("default_output", "Default Output Device", Direction::Output, true),
            endpoint("speakers", "Speakers (Realtek Audio)", Direction::Output, true),
            endpoint("headphones", "Headphones (USB Audio)", Direction::Output, true),
            endpoint("default_input", "Default Input Device", Direction::Input, true),
            endpoint("microphone", "Microphone (Built-in)", Direction::Input, true),
        ],
        Some("default_input"),
        Some("default_output"),
    );
    let devices = AudioRecorder::get_available_devices(&query).unwrap();
    let expected = vec![
        ("default_output", "Default Output Device", true, Direction::Output),
        ("speakers", "Speakers (Realtek Audio)", false, Direction::Output),
        ("headphones", "Headphones (USB Audio)", false, Direction::Output),
        ("default_input", "Default Input Device", true, Direction::Input),
        ("microphone", "Microphone (Built-in)", false, Direction::Input),
    ];
    assert_eq!(devices.len(), 5);
    for (device, (id, name, is_default, direction)) in devices.iter().zip(expected) {
        assert_eq!(
            device,
            &AudioDevice {
                id: id.to_string(),
                name: name.to_string(),
                is_default,
                direction
            }
        );
    }
}

#[test]
fn no_default_is_marked_where_the_host_names_none() {
    let query = report(
        vec![
            endpoint("a", "A", Direction::Input, true),
            endpoint("b", "B", Direction::Output, true),
        ],
        None,
        Some("b"),
    );
    let devices = list_devices(&query).unwrap();
    assert!(!devices[0].is_default);
    assert!(devices[1].is_default);
    let none = list_devices(&report(
        vec![
            endpoint("a", "A", Direction::Input, true),
            endpoint("b", "B", Direction::Output, true),
        ],
        None,
        None,
    ))
    .unwrap();
    assert!(none.iter().all(|d| !d.is_default));
}

#[test]
fn default_of_one_direction_does_not_mark_the_other() {
    let query = report(
        vec![
            endpoint("same", "As input", Direction::Input, true),
            endpoint("same", "As output", Direction::Output, true),
        ],
        Some("same"),
        None,
    );
    let devices = list_devices(&query).unwrap();
    assert!(devices[0].is_default);
    assert!(!devices[1].is_default);
}

#[test]
fn only_the_first_of_two_claimants_is_marked() {
    let query = report(
        vec![
            endpoint("x", "First", Direction::Output, true),
            endpoint("y", "Other", Direction::Output, true),
            endpoint("x", "Second", Direction::Output, true),
        ],
        None,
        Some("x"),
    );
    let devices = list_devices(&query).unwrap();
    let marks: Vec<bool> = devices.iter().map(|d| d.is_default).collect();
    assert_eq!(marks, vec![true, false, false]);
}

#[test]
fn disabled_endpoints_are_left_out() {
    let query = report(
        vec![
            endpoint("x", "Disabled default", Direction::Input, false),
            endpoint("y", "Other", Direction::Input, true),
            endpoint("x", "Enabled twin", Direction::Input, true),
            endpoint("z", "Disabled", Direction::Output, false),
        ],
        Some("x"),
        Some("z"),
    );
    let devices = list_devices(&query).unwrap();
    assert_eq!(devices.len(), 2);
    assert_eq!(devices[0].name, "Other");
    assert!(!devices[0].is_default);
    assert_eq!(devices[1].name, "Enabled twin");
    assert!(devices[1].is_default);
}

#[test]
fn default_that_is_not_listed_marks_nothing() {
    let query = report(vec![endpoint("a", "A", Direction::Input, true)], Some("gone"), Some("a"));
    let devices = list_devices(&query).unwrap();
    assert_eq!(devices.len(), 1);
    assert!(!devices[0].is_default);
}

#[test]
fn direction_labels() {
    assert_eq!(Direction::Input.label(), "Input");
    assert_eq!(Direction::Output.label(), "Output");
}
