use gong::commands::{
    display_affinity_reply, get_audio_devices, get_recording_status, set_recording_device,
    start_recording, start_reply_words, stop_recording, stop_reply_words,
};
use gong::device::{DeviceQueryError, Direction, HostEndpoint, HostQuery, HostReport};
use gong::recorder::{
    AudioRecorder, DrainOutcome, InvalidState, OpenOutcome, RecordingState, StartError, StopError,
};

#[test]
fn devices_or_the_reason() {
    assert_eq!(
        get_audio_devices(&HostQuery::Unreachable),
        Err("Failed to get audio devices: audio service is unreachable".to_string())
    );
    let query = HostQuery::Report(HostReport {
        endpoints: vec![HostEndpoint {
            id: "mic".to_string(),
            name: "Microphone".to_string(),
            direction: Direction::Input,
            enabled: true,
        }],
        default_input: Some("mic".to_string()),
        default_output: None,
    });
    let devices = get_audio_devices(&query).unwrap();
    assert_eq!(devices.len(), 1);
    assert!(devices[0].is_default);
}

#[test]
fn selecting_a_device_says_which() {
    let mut r = AudioRecorder::new();
    assert_eq!(
        set_recording_device(&mut r, "headphones".to_string()),
        Ok("Recording device set to: headphones".to_string())
    );
    assert_eq!(r.selected_device(), &Some("headphones".to_string()));
    start_recording(&mut r, 1, OpenOutcome::Opened).unwrap();
    assert_eq!(
        set_recording_device(&mut r, "speakers".to_string()),
        Err("Cannot change device while recording is in progress".to_string())
    );
    assert_eq!(r.selected_device(), &Some("headphones".to_string()));
}

#[test]
fn start_answers_in_words() {
    let mut r = AudioRecorder::new();
    assert_eq!(
        start_recording(&mut r, 1, OpenOutcome::DeviceUnavailable),
        Err("Failed to start recording: audio device is unavailable".to_string())
    );
    assert_eq!(
        start_recording(&mut r, 1, OpenOutcome::IoError),
        Err("Failed to start recording: output file could not be written".to_string())
    );
    assert!(!get_recording_status(&r));
    assert_eq!(
        start_recording(&mut r, 1, OpenOutcome::Opened),
        Ok("Recording started successfully".to_string())
    );
    assert!(get_recording_status(&r));
    assert_eq!(
        start_recording(&mut r, 2, OpenOutcome::Opened),
        Err("Recording is already in progress".to_string())
    );
    assert_eq!(r.status(), RecordingState::Recording);
}

#[test]
fn stop_answers_in_words() {
    let mut r = AudioRecorder::new();
    assert_eq!(
        stop_recording(&mut r, DrainOutcome::Drained),
        Err("No recording in progress".to_string())
    );
    start_recording(&mut r, 1, OpenOutcome::Opened).unwrap();
    assert_eq!(
        stop_recording(&mut r, DrainOutcome::Drained),
        Ok("Recording stopped successfully".to_string())
    );
    assert!(!get_recording_status(&r));
    start_recording(&mut r, 2, OpenOutcome::Opened).unwrap();
    assert_eq!(
        stop_recording(&mut r, DrainOutcome::TimedOut),
        Err("Failed to stop recording: writer did not finish in time".to_string())
    );
    assert!(!get_recording_status(&r));
    start_recording(&mut r, 3, OpenOutcome::Opened).unwrap();
    assert_eq!(
        stop_recording(&mut r, DrainOutcome::IoError),
        Err("Failed to stop recording: output file could not be completed".to_string())
    );
    assert_eq!(
        stop_recording(&mut r, DrainOutcome::Drained),
        Err("No recording in progress".to_string())
    );
}

#[test]
fn every_error_has_its_words() {
    assert_eq!(DeviceQueryError::HostUnreachable.message(), "audio service is unreachable");
    assert_eq!(
        InvalidState::AlreadyRecording.message(),
        "Cannot change device while recording is in progress"
    );
    assert_eq!(StartError::AlreadyRecording.message(), "Recording is already in progress");
    assert_eq!(StartError::DeviceUnavailable.message(), "audio device is unavailable");
    assert_eq!(StartError::IoError.message(), "output file could not be written");
    assert_eq!(StopError::NotRecording.message(), "No recording in progress");
    assert_eq!(StopError::DrainTimeout.message(), "writer did not finish in time");
    assert_eq!(StopError::IoError.message(), "output file could not be completed");
}

#[test]
fn greeting_names_the_guest() {
    assert_eq!(
        gong::commands::greet("Ada"),
        "Hello, Ada! You've been greeted from Gong!"
    );
    assert_eq!(gong::commands::greet(""), "Hello, ! You've been greeted from Gong!");
}

#[test]
fn window_helper_names_what_failed() {
    assert_eq!(display_affinity_reply(true, true), Ok(()));
    assert_eq!(
        display_affinity_reply(false, true),
        Err("SetWindowDisplayAffinity failed".to_string())
    );
    assert_eq!(display_affinity_reply(true, false), Err("SetWindowLongPtrW failed".to_string()));
    assert_eq!(
        display_affinity_reply(false, false),
        Err("SetWindowDisplayAffinity failed; SetWindowLongPtrW failed".to_string())
    );
}

#[test]
fn results_are_put_into_words() {
    assert_eq!(start_reply_words(Ok(())), Ok("Recording started successfully".to_string()));
    assert_eq!(
        start_reply_words(Err(StartError::AlreadyRecording)),
        Err("Recording is already in progress".to_string())
    );
    assert_eq!(stop_reply_words(Ok(())), Ok("Recording stopped successfully".to_string()));
    assert_eq!(
        stop_reply_words(Err(StopError::DrainTimeout)),
        Err("Failed to stop recording: writer did not finish in time".to_string())
    );
}
