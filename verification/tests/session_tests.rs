use gong::frame::{AudioFrame, FRAME_SAMPLES};
use gong::queue::PushOutcome;
use gong::recorder::{CaptureFault, OpenOutcome};
use gong::session::{CaptureSession, SessionError, SessionPhase, WriteStep};
use gong::wav::{encode_samples, header_bytes, parse_header, SizePatch};

fn frame_of(value: i16) -> AudioFrame {
    AudioFrame::new(vec![value; FRAME_SAMPLES]).unwrap()
}

fn streaming() -> (CaptureSession, Vec<u8>) {
    let mut session = CaptureSession::new();
    let file = session.begin_open().unwrap();
    session.finish_open(OpenOutcome::Opened).unwrap();
    (session, file)
}

fn carry_out(session: &mut CaptureSession, file: &mut Vec<u8>) -> WriteStep {
    let step = session.write_step();
    match &step {
        WriteStep::Append(bytes) => file.extend(bytes.iter()),
        WriteStep::Finish(patch) => patch.apply(file),
        WriteStep::Wait | WriteStep::Done => {}
    }
    step
}

#[test]
fn new_session_is_idle() {
    let s = CaptureSession::new();
    assert_eq!(s.phase(), SessionPhase::Idle);
    assert_eq!(s.queued(), 0);
    assert_eq!(s.overruns(), 0);
    assert_eq!(s.fault(), None);
    assert_eq!(s.samples_written(), 0);
}

#[test]
fn opening_hands_out_the_header_first() {
    let mut s = CaptureSession::new();
    let header = s.begin_open().unwrap();
    assert_eq!(header, header_bytes(0, 0));
    assert_eq!(s.phase(), SessionPhase::Opening);
    assert_eq!(s.finish_open(OpenOutcome::Opened), Ok(()));
    assert_eq!(s.phase(), SessionPhase::Streaming);
}

#[test]
fn session_opens_only_once() {
    let (mut s, _) = streaming();
    assert_eq!(s.begin_open(), Err(SessionError::WrongPhase));
    assert_eq!(s.finish_open(OpenOutcome::Opened), Err(SessionError::WrongPhase));
    assert_eq!(s.phase(), SessionPhase::Streaming);
    let mut idle = CaptureSession::new();
    assert_eq!(idle.finish_open(OpenOutcome::Opened), Err(SessionError::WrongPhase));
    assert_eq!(idle.phase(), SessionPhase::Idle);
}

#[test]
fn device_that_cannot_be_opened_fails_the_session() {
    let mut s = CaptureSession::new();
    s.begin_open().unwrap();
    assert_eq!(s.finish_open(OpenOutcome::DeviceUnavailable), Err(SessionError::DeviceUnavailable));
    assert_eq!(s.phase(), SessionPhase::Failed);
    assert_eq!(s.capture(frame_of(1)), PushOutcome::Closed);
    assert_eq!(s.write_step(), WriteStep::Done);
    assert_eq!(s.request_stop(), Err(SessionError::WrongPhase));
}

#[test]
fn file_that_cannot_be_created_fails_the_session() {
    let mut s = CaptureSession::new();
    s.begin_open().unwrap();
    assert_eq!(s.finish_open(OpenOutcome::IoError), Err(SessionError::IoError));
    assert_eq!(s.phase(), SessionPhase::Failed);
    assert_eq!(s.write_step(), WriteStep::Done);
}

#[test]
fn frames_are_taken_only_while_streaming() {
    let mut s = CaptureSession::new();
    assert_eq!(s.capture(frame_of(1)), PushOutcome::Closed);
    s.begin_open().unwrap();
    assert_eq!(s.capture(frame_of(1)), PushOutcome::Closed);
    s.finish_open(OpenOutcome::Opened).unwrap();
    assert_eq!(s.capture(frame_of(1)), PushOutcome::Queued);
    assert_eq!(s.queued(), 1);
    s.request_stop().unwrap();
    assert_eq!(s.capture(frame_of(2)), PushOutcome::Closed);
    assert_eq!(s.queued(), 1);
}

#[test]
fn writer_waits_while_nothing_is_queued() {
    let (mut s, _) = streaming();
    assert_eq!(s.write_step(), WriteStep::Wait);
    assert_eq!(s.write_step(), WriteStep::Wait);
    assert_eq!(s.phase(), SessionPhase::Streaming);
    let mut idle = CaptureSession::new();
    assert_eq!(idle.write_step(), WriteStep::Done);
}

#[test]
fn whole_recording_reads_back() {
    let (mut s, mut file) = streaming();
    for i in 0..5 {
        assert_eq!(s.capture(frame_of(i)), PushOutcome::Queued);
    }
    assert_eq!(carry_out(&mut s, &mut file), WriteStep::Append(encode_samples(&vec![0; 2048])));
    assert_eq!(s.request_stop(), Ok(()));
    assert_eq!(s.phase(), SessionPhase::Draining);
    for i in 1..5 {
        let expected = encode_samples(&vec![i as i16; FRAME_SAMPLES]);
        assert_eq!(carry_out(&mut s, &mut file), WriteStep::Append(expected));
        assert_eq!(s.phase(), SessionPhase::Draining);
    }
    let step = carry_out(&mut s, &mut file);
    assert_eq!(step, WriteStep::Finish(SizePatch { riff_len: 36 + 5 * 4096, data_len: 5 * 4096 }));
    assert_eq!(s.phase(), SessionPhase::Closed);
    assert_eq!(s.samples_written(), 5 * 2048);
    assert_eq!(carry_out(&mut s, &mut file), WriteStep::Done);
    let info = parse_header(&file).unwrap();
    assert_eq!(info.sample_count(), 5 * 2048);
    assert_eq!(info.duration(), 5 * 1024);
    assert_eq!(file.len(), 44 + 5 * 4096);
    assert_eq!(s.overruns(), 0);
    assert_eq!(s.fault(), None);
}

#[test]
fn stop_right_after_start_leaves_an_empty_recording() {
    let (mut s, mut file) = streaming();
    s.request_stop().unwrap();
    assert_eq!(
        carry_out(&mut s, &mut file),
        WriteStep::Finish(SizePatch { riff_len: 36, data_len: 0 })
    );
    assert_eq!(s.phase(), SessionPhase::Closed);
    assert_eq!(file, header_bytes(36, 0));
    assert_eq!(s.request_stop(), Err(SessionError::WrongPhase));
}

#[test]
fn slow_writer_costs_the_oldest_frames() {
    let (mut s, mut file) = streaming();
    for i in 0..50 {
        let outcome = s.capture(frame_of(i));
        if i < 44 {
            assert_eq!(outcome, PushOutcome::Queued);
        } else {
            assert_eq!(outcome, PushOutcome::Overrun);
        }
    }
    assert_eq!(s.overruns(), 6);
    assert_eq!(s.queued(), 44);
    s.request_stop().unwrap();
    for i in 6..50 {
        let expected = encode_samples(&vec![i as i16; FRAME_SAMPLES]);
        assert_eq!(carry_out(&mut s, &mut file), WriteStep::Append(expected));
    }
    assert!(matches!(carry_out(&mut s, &mut file), WriteStep::Finish(_)));
    assert_eq!(parse_header(&file).unwrap().sample_count(), 44 * 2048);
}

#[test]
fn lost_device_saves_what_was_queued() {
    let (mut s, mut file) = streaming();
    s.capture(frame_of(7));
    s.capture(frame_of(8));
    assert!(s.fail(CaptureFault::DeviceLost));
    assert_eq!(s.phase(), SessionPhase::Failed);
    assert_eq!(s.fault(), Some(CaptureFault::DeviceLost));
    assert_eq!(s.capture(frame_of(9)), PushOutcome::Closed);
    assert!(matches!(carry_out(&mut s, &mut file), WriteStep::Append(_)));
    assert!(matches!(carry_out(&mut s, &mut file), WriteStep::Append(_)));
    assert_eq!(
        carry_out(&mut s, &mut file),
        WriteStep::Finish(SizePatch { riff_len: 36 + 8192, data_len: 8192 })
    );
    assert_eq!(s.phase(), SessionPhase::Failed);
    assert_eq!(carry_out(&mut s, &mut file), WriteStep::Done);
    assert_eq!(parse_header(&file).unwrap().sample_count(), 4096);
    assert!(!s.fail(CaptureFault::DeviceLost));
}

#[test]
fn failed_write_ends_the_writer() {
    let (mut s, _) = streaming();
    s.capture(frame_of(1));
    assert!(s.fail(CaptureFault::WriteFailed));
    assert_eq!(s.phase(), SessionPhase::Failed);
    assert_eq!(s.fault(), Some(CaptureFault::WriteFailed));
    assert_eq!(s.write_step(), WriteStep::Done);
    let (mut draining, _) = streaming();
    draining.request_stop().unwrap();
    assert!(!draining.fail(CaptureFault::DeviceLost));
    assert_eq!(draining.phase(), SessionPhase::Draining);
    assert!(draining.fail(CaptureFault::WriteFailed));
    assert_eq!(draining.phase(), SessionPhase::Failed);
}

#[test]
fn faults_outside_a_running_session_change_nothing() {
    let mut s = CaptureSession::new();
    assert!(!s.fail(CaptureFault::DeviceLost));
    assert_eq!(s.phase(), SessionPhase::Idle);
    assert_eq!(s.fault(), None);
    let (mut closed, mut file) = streaming();
    closed.request_stop().unwrap();
    carry_out(&mut closed, &mut file);
    assert_eq!(closed.phase(), SessionPhase::Closed);
    assert!(!closed.fail(CaptureFault::WriteFailed));
    assert_eq!(closed.phase(), SessionPhase::Closed);
    assert_eq!(closed.fault(), None);
}

#[test]
fn full_file_ends_the_session_with_a_finished_file() {
    let (mut s, _) = streaming();
    for _ in 0..1048575u32 {
        assert_eq!(s.capture(AudioFrame::silence()), PushOutcome::Queued);
        assert!(matches!(s.write_step(), WriteStep::Append(_)));
    }
    assert_eq!(s.phase(), SessionPhase::Streaming);
    assert_eq!(s.capture(AudioFrame::silence()), PushOutcome::Queued);
    assert_eq!(
        s.write_step(),
        WriteStep::Finish(SizePatch { riff_len: 4294963236, data_len: 4294963200 })
    );
    assert_eq!(s.phase(), SessionPhase::Failed);
    assert_eq!(s.fault(), Some(CaptureFault::WriteFailed));
    assert_eq!(s.capture(AudioFrame::silence()), PushOutcome::Closed);
    assert_eq!(s.write_step(), WriteStep::Done);
}
