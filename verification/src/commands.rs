//! The command surface: what a front end calls, and the words it gets back.
//!
//! Every command answers with a success value or with a short message that
//! says what went wrong. The commands work on a controller that the caller
//! owns and guards; like the controller they take what the pipeline reported
//! as an argument.

use vstd::prelude::*;
use vstd::string::StringExecFns;
use crate::device::devices_view;
use crate::device::AudioDevice;
use crate::device::DeviceQueryError;
use crate::device::HostQuery;
use crate::recorder::AudioRecorder;
use crate::recorder::DrainOutcome;
use crate::recorder::InvalidState;
use crate::recorder::OpenOutcome;
use crate::recorder::RecordingState;
use crate::recorder::StartError;
use crate::recorder::StopError;

verus! {

/// What a command says: the words of its success or of its failure.
pub open spec fn reply_view(r: Result<String, String>) -> Result<Seq<char>, Seq<char>> {
    match r {
        Ok(s) => Ok(s@),
        Err(s) => Err(s@),
    }
}

impl DeviceQueryError {
    pub open spec fn message_spec(self) -> Seq<char> {
        "audio service is unreachable"@
    }

    /// The error in words.
    pub fn message(self) -> (s: &'static str)
        ensures
            s@ == self.message_spec(),
    {
        "audio service is unreachable"
    }
}

impl InvalidState {
    pub open spec fn message_spec(self) -> Seq<char> {
        "Cannot change device while recording is in progress"@
    }

    /// The error in words.
    pub fn message(self) -> (s: &'static str)
        ensures
            s@ == self.message_spec(),
    {
        "Cannot change device while recording is in progress"
    }
}

impl StartError {
    pub open spec fn message_spec(self) -> Seq<char> {
        match self {
            StartError::AlreadyRecording => "Recording is already in progress"@,
            StartError::DeviceUnavailable => "audio device is unavailable"@,
            StartError::IoError => "output file could not be written"@,
        }
    }

    /// The error in words.
    pub fn message(self) -> (s: &'static str)
        ensures
            s@ == self.message_spec(),
    {
        match self {
            StartError::AlreadyRecording => "Recording is already in progress",
            StartError::DeviceUnavailable => "audio device is unavailable",
            StartError::IoError => "output file could not be written",
        }
    }
}

impl StopError {
    pub open spec fn message_spec(self) -> Seq<char> {
        match self {
            StopError::NotRecording => "No recording in progress"@,
            StopError::DrainTimeout => "writer did not finish in time"@,
            StopError::IoError => "output file could not be completed"@,
        }
    }

    /// The error in words.
    pub fn message(self) -> (s: &'static str)
        ensures
            s@ == self.message_spec(),
    {
        match self {
            StopError::NotRecording => "No recording in progress",
            StopError::DrainTimeout => "writer did not finish in time",
            StopError::IoError => "output file could not be completed",
        }
    }
}

/// What `get_audio_devices` says of a failed query.
pub open spec fn devices_failure(e: DeviceQueryError) -> Seq<char> {
    "Failed to get audio devices: "@ + e.message_spec()
}

/// What `set_recording_device` says for each result of the controller.
pub open spec fn select_reply(r: Result<(), InvalidState>, device_id: Seq<char>) -> Result<
    Seq<char>,
    Seq<char>,
> {
    match r {
        Ok(_) => Ok("Recording device set to: "@ + device_id),
        Err(e) => Err(e.message_spec()),
    }
}

/// What `start_recording` says for each result of the controller.
pub open spec fn start_reply(r: Result<(), StartError>) -> Result<Seq<char>, Seq<char>> {
    match r {
        Ok(_) => Ok("Recording started successfully"@),
        Err(StartError::AlreadyRecording) => Err(StartError::AlreadyRecording.message_spec()),
        Err(e) => Err("Failed to start recording: "@ + e.message_spec()),
    }
}

/// What `stop_recording` says for each result of the controller.
pub open spec fn stop_reply(r: Result<(), StopError>) -> Result<Seq<char>, Seq<char>> {
    match r {
        Ok(_) => Ok("Recording stopped successfully"@),
        Err(StopError::NotRecording) => Err(StopError::NotRecording.message_spec()),
        Err(e) => Err("Failed to stop recording: "@ + e.message_spec()),
    }
}

/// The greeting for `name`.
pub open spec fn greeting_for(name: Seq<char>) -> Seq<char> {
    "Hello, "@ + name + "! You've been greeted from Gong!"@
}

/// What the window helper says after its two requests to the window system:
/// to keep the window out of screen captures, and to keep it out of the task
/// switcher.
pub open spec fn affinity_reply(capture_excluded: bool, switcher_excluded: bool) -> Result<
    (),
    Seq<char>,
> {
    if capture_excluded && switcher_excluded {
        Ok(())
    } else if switcher_excluded {
        Err("SetWindowDisplayAffinity failed"@)
    } else if capture_excluded {
        Err("SetWindowLongPtrW failed"@)
    } else {
        Err("SetWindowDisplayAffinity failed"@ + "; "@ + "SetWindowLongPtrW failed"@)
    }
}

/// Greets `name`.
pub fn greet(name: &str) -> (s: String)
    ensures
        s@ == greeting_for(name@),
{
    let mut s = String::from_str("Hello, ");
    s.append(name);
    s.append("! You've been greeted from Gong!");
    s
}

/// The window helper's answer, given which of its two requests succeeded:
/// `Ok` if both did, else the names of those that failed.
pub fn display_affinity_reply(capture_excluded: bool, switcher_excluded: bool) -> (r: Result<
    (),
    String,
>)
    ensures
        r is Ok <==> capture_excluded && switcher_excluded,
        r matches Err(msg) ==> Err::<(), Seq<char>>(msg@) == affinity_reply(
            capture_excluded,
            switcher_excluded,
        ),
{
    if capture_excluded && switcher_excluded {
        return Ok(());
    }
    let mut msg = String::new();
    if !capture_excluded {
        msg.append("SetWindowDisplayAffinity failed");
    }
    if !capture_excluded && !switcher_excluded {
        msg.append("; ");
    }
    if !switcher_excluded {
        msg.append("SetWindowLongPtrW failed");
    }
    assert(Err::<(), Seq<char>>(msg@) =~~= affinity_reply(capture_excluded, switcher_excluded));
    Err(msg)
}

/// Puts the result of a start into words.
pub fn start_reply_words(r: Result<(), StartError>) -> (reply: Result<String, String>)
    ensures
        reply_view(reply) == start_reply(r),
{
    match r {
        Ok(()) => Ok(String::from_str("Recording started successfully")),
        Err(StartError::AlreadyRecording) => Err(
            String::from_str(StartError::AlreadyRecording.message()),
        ),
        Err(e) => {
            let mut msg = String::from_str("Failed to start recording: ");
            msg.append(e.message());
            Err(msg)
        },
    }
}

/// Puts the result of a stop into words.
pub fn stop_reply_words(r: Result<(), StopError>) -> (reply: Result<String, String>)
    ensures
        reply_view(reply) == stop_reply(r),
{
    match r {
        Ok(()) => Ok(String::from_str("Recording stopped successfully")),
        Err(StopError::NotRecording) => Err(String::from_str(StopError::NotRecording.message())),
        Err(e) => {
            let mut msg = String::from_str("Failed to stop recording: ");
            msg.append(e.message());
            Err(msg)
        },
    }
}

/// Lists the devices, or says why they could not be listed.
pub fn get_audio_devices(query: &HostQuery) -> (r: Result<Vec<AudioDevice>, String>)
    ensures
        r is Err <==> query is Unreachable,
        r matches Err(msg) ==> msg@ == devices_failure(DeviceQueryError::HostUnreachable),
        query matches HostQuery::Report(report) ==> (r matches Ok(devices) && devices_view(devices@)
            == report@.catalog()),
{
    match AudioRecorder::get_available_devices(query) {
        Ok(devices) => Ok(devices),
        Err(e) => {
            let mut msg = String::from_str("Failed to get audio devices: ");
            msg.append(e.message());
            Err(msg)
        },
    }
}

/// Selects the device of the next recording.
pub fn set_recording_device(recorder: &mut AudioRecorder, device_id: String) -> (r: Result<
    String,
    String,
>)
    requires
        old(recorder).wf(),
    ensures
        final(recorder).wf(),
        final(recorder)@ == old(recorder)@.select(device_id@),
        reply_view(r) == select_reply(old(recorder)@.select_result(), device_id@),
{
    let mut msg = String::from_str("Recording device set to: ");
    msg.append(device_id.as_str());
    match recorder.set_device(device_id) {
        Ok(()) => Ok(msg),
        Err(e) => Err(String::from_str(e.message())),
    }
}

/// Starts a recording, given how opening its pipeline went.
pub fn start_recording(recorder: &mut AudioRecorder, now: u64, outcome: OpenOutcome) -> (r: Result<
    String,
    String,
>)
    requires
        old(recorder).wf(),
    ensures
        final(recorder).wf(),
        final(recorder)@ == old(recorder)@.start(now as nat, outcome),
        reply_view(r) == start_reply(old(recorder)@.start_result(outcome)),
{
    start_reply_words(recorder.start_recording(now, outcome))
}

/// Stops the recording, given how draining its pipeline went.
pub fn stop_recording(recorder: &mut AudioRecorder, outcome: DrainOutcome) -> (r: Result<
    String,
    String,
>)
    requires
        old(recorder).wf(),
    ensures
        final(recorder).wf(),
        final(recorder)@ == old(recorder)@.stop(),
        reply_view(r) == stop_reply(old(recorder)@.stop_result(outcome)),
{
    stop_reply_words(recorder.stop_recording(outcome))
}

/// Whether a recording is in progress.
pub fn get_recording_status(recorder: &AudioRecorder) -> (b: bool)
    ensures
        b == (recorder@.state == RecordingState::Recording),
{
    recorder.is_recording()
}

} // verus!
