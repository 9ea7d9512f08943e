//! The controller: the one object that the command surface talks to.
//!
//! It keeps the pending device selection and the state of the one session
//! that may be active, and says for every call whether it is allowed now.
//! The controller does not open devices or files. Its caller does, and
//! reports how that went: `start_recording` takes the outcome of opening the
//! pipeline, `stop_recording` the outcome of draining it.

use vstd::prelude::*;
use crate::device::list_devices;
use crate::device::AudioDevice;
use crate::device::DeviceQueryError;
use crate::device::HostQuery;
use crate::device::devices_view;
use crate::naming::output_path;
use crate::naming::recording_path;
use crate::naming::selection_view;

verus! {

/// How long a stop waits for the writer to finish, in milliseconds, before
/// it closes the session by force.
pub const DRAIN_TIMEOUT_MS: u64 = 3000;

/// Where the controller stands.
#[derive(Debug, Clone, Copy, PartialEq, Eq, Structural)]
pub enum RecordingState {
    /// No session.
    Idle,
    /// A session is capturing.
    Recording,
    /// A session is draining its queue and closing its file.
    Stopping,
}

/// Why the device selection was refused.
#[derive(Debug, Clone, Copy, PartialEq, Eq, Structural)]
pub enum InvalidState {
    /// The device cannot change while a session records.
    AlreadyRecording,
}

/// Why no recording was started.
#[derive(Debug, Clone, Copy, PartialEq, Eq, Structural)]
pub enum StartError {
    /// A session exists already.
    AlreadyRecording,
    /// The device could not be opened.
    DeviceUnavailable,
    /// The output file could not be created or its header not written.
    IoError,
}

/// Why a stop failed.
#[derive(Debug, Clone, Copy, PartialEq, Eq, Structural)]
pub enum StopError {
    /// No session records.
    NotRecording,
    /// The writer did not finish in time; the session was closed by force.
    DrainTimeout,
    /// The file could not be completed.
    IoError,
}

/// What ended a session from the inside.
#[derive(Debug, Clone, Copy, PartialEq, Eq, Structural)]
pub enum CaptureFault {
    /// The device went away in mid-stream.
    DeviceLost,
    /// The writer could not write to the file.
    WriteFailed,
}

/// How opening the pipeline went: device acquired, file created, header
/// written.
#[derive(Debug, Clone, Copy, PartialEq, Eq, Structural)]
pub enum OpenOutcome {
    Opened,
    DeviceUnavailable,
    IoError,
}

/// How draining the pipeline went.
#[derive(Debug, Clone, Copy, PartialEq, Eq, Structural)]
pub enum DrainOutcome {
    /// Every queued frame was written and the file closed.
    Drained,
    /// The wait for the writer ran out.
    TimedOut,
    /// Writing or closing the file failed.
    IoError,
}

/// The session that is active: what it records from, where to, since when.
#[derive(Debug, Clone, PartialEq, Eq)]
pub struct RecordingSession {
    /// The device it captures from; `None` for the system default.
    pub device_id: Option<String>,
    pub output_path: String,
    /// Seconds since the Unix epoch.
    pub started_at: u64,
}

/// A session as mathematics.
pub struct SessionModel {
    pub device_id: Option<Seq<char>>,
    pub output_path: Seq<char>,
    pub started_at: nat,
}

impl View for RecordingSession {
    type V = SessionModel;

    open spec fn view(&self) -> SessionModel {
        SessionModel {
            device_id: selection_view(self.device_id),
            output_path: self.output_path@,
            started_at: self.started_at as nat,
        }
    }
}

/// A controller as mathematics, with each call as a function on it.
pub struct RecorderModel {
    pub state: RecordingState,
    /// The pending device selection.
    pub selected: Option<Seq<char>>,
    pub session: Option<SessionModel>,
    /// The fault that ended the last session, until someone takes it.
    pub fault: Option<CaptureFault>,
}

impl RecorderModel {
    /// A session exists exactly while the state is not `Idle`, and it goes
    /// to the file that its device and its start time name.
    pub open spec fn wf(self) -> bool {
        &&& (self.state == RecordingState::Idle) == (self.session is None)
        &&& self.session matches Some(s) ==> s.output_path == output_path(s.device_id, s.started_at)
    }

    /// The session that a start at `now` would create.
    pub open spec fn plan(self, now: nat) -> SessionModel {
        SessionModel {
            device_id: self.selected,
            output_path: output_path(self.selected, now),
            started_at: now,
        }
    }

    pub open spec fn select(self, id: Seq<char>) -> RecorderModel {
        if self.state == RecordingState::Recording {
            self
        } else {
            RecorderModel { selected: Some(id), ..self }
        }
    }

    pub open spec fn select_result(self) -> Result<(), InvalidState> {
        if self.state == RecordingState::Recording {
            Err(InvalidState::AlreadyRecording)
        } else {
            Ok(())
        }
    }

    pub open spec fn start(self, now: nat, outcome: OpenOutcome) -> RecorderModel {
        if self.state == RecordingState::Idle && outcome == OpenOutcome::Opened {
            RecorderModel {
                state: RecordingState::Recording,
                session: Some(self.plan(now)),
                fault: None,
                ..self
            }
        } else {
            self
        }
    }

    pub open spec fn start_result(self, outcome: OpenOutcome) -> Result<(), StartError> {
        if self.state != RecordingState::Idle {
            Err(StartError::AlreadyRecording)
        } else {
            match outcome {
                OpenOutcome::Opened => Ok(()),
                OpenOutcome::DeviceUnavailable => Err(StartError::DeviceUnavailable),
                OpenOutcome::IoError => Err(StartError::IoError),
            }
        }
    }

    pub open spec fn begin_stop(self) -> RecorderModel {
        if self.state == RecordingState::Recording {
            RecorderModel { state: RecordingState::Stopping, ..self }
        } else {
            self
        }
    }

    pub open spec fn complete_stop(self) -> RecorderModel {
        if self.state == RecordingState::Stopping {
            RecorderModel { state: RecordingState::Idle, session: None, ..self }
        } else {
            self
        }
    }

    /// A whole stop: `begin_stop`, then `complete_stop`.
    pub open spec fn stop(self) -> RecorderModel {
        if self.state == RecordingState::Recording {
            RecorderModel { state: RecordingState::Idle, session: None, ..self }
        } else {
            self
        }
    }

    pub open spec fn stop_result(self, outcome: DrainOutcome) -> Result<(), StopError> {
        if self.state != RecordingState::Recording {
            Err(StopError::NotRecording)
        } else {
            drain_result(outcome)
        }
    }

    pub open spec fn fail(self, fault: CaptureFault) -> RecorderModel {
        if self.state == RecordingState::Recording {
            RecorderModel {
                state: RecordingState::Idle,
                session: None,
                fault: Some(fault),
                ..self
            }
        } else {
            self
        }
    }
}

/// What a stop returns once the pipeline has been told to drain.
pub open spec fn drain_result(outcome: DrainOutcome) -> Result<(), StopError> {
    match outcome {
        DrainOutcome::Drained => Ok(()),
        DrainOutcome::TimedOut => Err(StopError::DrainTimeout),
        DrainOutcome::IoError => Err(StopError::IoError),
    }
}

/// The recorder's controller. At most one session is active at a time.
pub struct AudioRecorder {
    state: RecordingState,
    selected_device_id: Option<String>,
    session: Option<RecordingSession>,
    fault: Option<CaptureFault>,
}

impl View for AudioRecorder {
    type V = RecorderModel;

    closed spec fn view(&self) -> RecorderModel {
        RecorderModel {
            state: self.state,
            selected: selection_view(self.selected_device_id),
            session: match self.session {
                Some(s) => Some(s@),
                None => None,
            },
            fault: self.fault,
        }
    }
}

fn clone_selection(device_id: &Option<String>) -> (r: Option<String>)
    ensures
        r == *device_id,
{
    match device_id {
        Some(id) => Some(id.clone()),
        None => None,
    }
}

fn drain_outcome_result(outcome: DrainOutcome) -> (r: Result<(), StopError>)
    ensures
        r == drain_result(outcome),
{
    match outcome {
        DrainOutcome::Drained => Ok(()),
        DrainOutcome::TimedOut => Err(StopError::DrainTimeout),
        DrainOutcome::IoError => Err(StopError::IoError),
    }
}

impl AudioRecorder {
    pub open spec fn wf(&self) -> bool {
        self@.wf()
    }

    /// A controller with no session, no selection and no fault.
    pub fn new() -> (r: AudioRecorder)
        ensures
            r.wf(),
            r@ == (RecorderModel {
                state: RecordingState::Idle,
                selected: None,
                session: None,
                fault: None,
            }),
    {
        AudioRecorder {
            state: RecordingState::Idle,
            selected_device_id: None,
            session: None,
            fault: None,
        }
    }

    /// The devices that a session can use, made from what the host reported:
    /// see `list_devices`.
    pub fn get_available_devices(query: &HostQuery) -> (r: Result<Vec<AudioDevice>, DeviceQueryError>)
        ensures
            r is Err <==> query is Unreachable,
            r is Err ==> r == Err::<Vec<AudioDevice>, DeviceQueryError>(
                DeviceQueryError::HostUnreachable,
            ),
            query matches HostQuery::Report(report) ==> (r matches Ok(devices) && devices_view(
                devices@,
            ) == report@.catalog()),
    {
        list_devices(query)
    }

    /// Selects the device of the next session; the last selection wins.
    /// Refused while a session records, and then nothing changes.
    pub fn set_device(&mut self, device_id: String) -> (r: Result<(), InvalidState>)
        requires
            old(self).wf(),
        ensures
            final(self).wf(),
            r == old(self)@.select_result(),
            final(self)@ == old(self)@.select(device_id@),
    {
        if self.is_recording() {
            return Err(InvalidState::AlreadyRecording);
        }
        self.selected_device_id = Some(device_id);
        Ok(())
    }

    /// The session that `start_recording` would create at `now`: the
    /// selected device and the file its recording would go to. The caller
    /// opens the pipeline for it and reports the outcome.
    pub fn planned_session(&self, now: u64) -> (s: RecordingSession)
        ensures
            s@ == self@.plan(now as nat),
    {
        RecordingSession {
            device_id: clone_selection(&self.selected_device_id),
            output_path: recording_path(&self.selected_device_id, now),
            started_at: now,
        }
    }

    /// Starts a session, given how opening its pipeline went.
    ///
    /// While a session exists the answer is `AlreadyRecording`, whatever the
    /// outcome says. Otherwise a pipeline that could not be opened gives its
    /// error and leaves the controller idle, and one that was opened makes
    /// the controller record, with the session planned for `now`.
    pub fn start_recording(&mut self, now: u64, outcome: OpenOutcome) -> (r: Result<(), StartError>)
        requires
            old(self).wf(),
        ensures
            final(self).wf(),
            r == old(self)@.start_result(outcome),
            final(self)@ == old(self)@.start(now as nat, outcome),
            r is Ok <==> final(self)@.state == RecordingState::Recording && old(self)@.state
                == RecordingState::Idle,
    {
        match self.state {
            RecordingState::Idle => {},
            _ => {
                return Err(StartError::AlreadyRecording);
            },
        }
        match outcome {
            OpenOutcome::DeviceUnavailable => Err(StartError::DeviceUnavailable),
            OpenOutcome::IoError => Err(StartError::IoError),
            OpenOutcome::Opened => {
                let session = self.planned_session(now);
                self.session = Some(session);
                self.state = RecordingState::Recording;
                self.fault = None;
                Ok(())
            },
        }
    }

    /// First half of a stop: tells whether a session records and, if so,
    /// marks it as stopping. The caller then has the pipeline drain.
    pub fn begin_stop(&mut self) -> (r: Result<(), StopError>)
        requires
            old(self).wf(),
        ensures
            final(self).wf(),
            r is Ok <==> old(self)@.state == RecordingState::Recording,
            r is Err ==> r == Err::<(), StopError>(StopError::NotRecording),
            final(self)@ == old(self)@.begin_stop(),
    {
        match self.state {
            RecordingState::Recording => {
                self.state = RecordingState::Stopping;
                Ok(())
            },
            _ => Err(StopError::NotRecording),
        }
    }

    /// Second half of a stop: the session ends, however draining went, and
    /// the result says how it went. Without a stop in progress the answer is
    /// `NotRecording` and nothing changes.
    pub fn complete_stop(&mut self, outcome: DrainOutcome) -> (r: Result<(), StopError>)
        requires
            old(self).wf(),
        ensures
            final(self).wf(),
            final(self)@ == old(self)@.complete_stop(),
            r == (if old(self)@.state == RecordingState::Stopping {
                drain_result(outcome)
            } else {
                Err(StopError::NotRecording)
            }),
    {
        match self.state {
            RecordingState::Stopping => {
                self.state = RecordingState::Idle;
                self.session = None;
                drain_outcome_result(outcome)
            },
            _ => Err(StopError::NotRecording),
        }
    }

    /// Stops the session in one call, given how draining its pipeline went.
    ///
    /// Unless a session records the answer is `NotRecording` and nothing
    /// changes. Otherwise the controller is idle afterwards: a drained
    /// pipeline gives `Ok`, one that timed out or failed gives its error.
    pub fn stop_recording(&mut self, outcome: DrainOutcome) -> (r: Result<(), StopError>)
        requires
            old(self).wf(),
        ensures
            final(self).wf(),
            r == old(self)@.stop_result(outcome),
            final(self)@ == old(self)@.stop(),
    {
        match self.begin_stop() {
            Err(e) => Err(e),
            Ok(()) => self.complete_stop(outcome),
        }
    }

    /// Reports that the session ended by a fault. The controller goes idle
    /// and keeps the fault for `take_fault`. Without a recording session
    /// there is nothing to end; the call then changes nothing and says so.
    pub fn capture_failed(&mut self, fault: CaptureFault) -> (applied: bool)
        requires
            old(self).wf(),
        ensures
            final(self).wf(),
            applied == (old(self)@.state == RecordingState::Recording),
            final(self)@ == old(self)@.fail(fault),
    {
        match self.state {
            RecordingState::Recording => {
                self.state = RecordingState::Idle;
                self.session = None;
                self.fault = Some(fault);
                true
            },
            _ => false,
        }
    }

    /// Hands out the fault that ended the last session, once.
    pub fn take_fault(&mut self) -> (r: Option<CaptureFault>)
        requires
            old(self).wf(),
        ensures
            final(self).wf(),
            r == old(self)@.fault,
            final(self)@ == (RecorderModel { fault: None, ..old(self)@ }),
    {
        let fault = self.fault;
        self.fault = None;
        fault
    }

    /// Whether a session records right now.
    pub fn is_recording(&self) -> (b: bool)
        ensures
            b == (self@.state == RecordingState::Recording),
    {
        match self.state {
            RecordingState::Recording => true,
            _ => false,
        }
    }

    pub fn status(&self) -> (s: RecordingState)
        ensures
            s == self@.state,
    {
        self.state
    }

    /// The pending device selection.
    pub fn selected_device(&self) -> (r: &Option<String>)
        ensures
            selection_view(*r) == self@.selected,
    {
        &self.selected_device_id
    }

    /// The active session, if there is one.
    pub fn session(&self) -> (r: &Option<RecordingSession>)
        ensures
            r is Some == self@.session is Some,
            r matches Some(s) ==> self@.session == Some(s@),
    {
        &self.session
    }
}

/// One call of the command surface, with what the pipeline reported for it.
pub enum Call {
    Select(Seq<char>),
    Start(nat, OpenOutcome),
    Stop(DrainOutcome),
}

/// The controller after one call.
pub open spec fn step(m: RecorderModel, call: Call) -> RecorderModel {
    match call {
        Call::Select(id) => m.select(id),
        Call::Start(now, outcome) => m.start(now, outcome),
        Call::Stop(_) => m.stop(),
    }
}

/// Whether the call returns `Ok`.
pub open spec fn succeeds(m: RecorderModel, call: Call) -> bool {
    match call {
        Call::Select(_) => m.select_result() is Ok,
        Call::Start(_, outcome) => m.start_result(outcome) is Ok,
        Call::Stop(outcome) => m.stop_result(outcome) is Ok,
    }
}

/// The controller after the calls, first to last.
pub open spec fn run(m: RecorderModel, calls: Seq<Call>) -> RecorderModel
    decreases calls.len(),
{
    if calls.len() == 0 {
        m
    } else {
        step(run(m, calls.drop_last()), calls.last())
    }
}

/// One if the controller records, else zero.
pub open spec fn active(m: RecorderModel) -> nat {
    if m.state == RecordingState::Recording {
        1
    } else {
        0
    }
}

/// Whether the call starts a session: a start that returns `Ok`.
pub open spec fn starts_session(m: RecorderModel, call: Call) -> bool {
    call is Start && succeeds(m, call)
}

/// Whether the call ends a session: a stop that finds one recording.
pub open spec fn ends_session(m: RecorderModel, call: Call) -> bool {
    call is Stop && m.state == RecordingState::Recording
}

/// Sessions that the calls start.
pub open spec fn sessions_started(m: RecorderModel, calls: Seq<Call>) -> nat
    decreases calls.len(),
{
    if calls.len() == 0 {
        0
    } else {
        sessions_started(m, calls.drop_last()) + (if starts_session(
            run(m, calls.drop_last()),
            calls.last(),
        ) {
            1nat
        } else {
            0nat
        })
    }
}

/// Sessions that the calls end.
pub open spec fn sessions_ended(m: RecorderModel, calls: Seq<Call>) -> nat
    decreases calls.len(),
{
    if calls.len() == 0 {
        0
    } else {
        sessions_ended(m, calls.drop_last()) + (if ends_session(
            run(m, calls.drop_last()),
            calls.last(),
        ) {
            1nat
        } else {
            0nat
        })
    }
}

/// What one call may do. Between whole calls the controller is idle or
/// recording. Its state changes in two ways only: from idle to recording by
/// a start that returns `Ok`, and from recording to idle by a stop. A call
/// made in a state that does not allow it returns its error and changes
/// nothing.
pub proof fn lemma_step_is_lawful(m: RecorderModel, call: Call)
    requires
        m.wf(),
        m.state != RecordingState::Stopping,
    ensures
        step(m, call).wf(),
        step(m, call).state != RecordingState::Stopping,
        step(m, call).state != m.state ==> {
            ||| m.state == RecordingState::Idle && starts_session(m, call) && step(m, call).state
                == RecordingState::Recording
            ||| ends_session(m, call) && step(m, call).state == RecordingState::Idle
        },
        starts_session(m, call) ==> m.state == RecordingState::Idle && step(m, call).state
            == RecordingState::Recording,
        ends_session(m, call) ==> step(m, call).state == RecordingState::Idle,
        call matches Call::Start(_, outcome) ==> (m.state != RecordingState::Idle ==> m.start_result(
            outcome,
        ) == Err::<(), StartError>(StartError::AlreadyRecording) && step(m, call) == m),
        call matches Call::Stop(outcome) ==> (m.state != RecordingState::Recording ==> m.stop_result(
            outcome,
        ) == Err::<(), StopError>(StopError::NotRecording) && step(m, call) == m),
        call is Select && m.state == RecordingState::Recording ==> m.select_result() == Err::<
            (),
            InvalidState,
        >(InvalidState::AlreadyRecording) && step(m, call) == m,
{
}

/// Every sequence of calls keeps to idle, recording, idle: the controller
/// is never left stopping, and the sessions started are exactly the
/// sessions ended plus the one that may still record.
pub proof fn lemma_run_alternates(m: RecorderModel, calls: Seq<Call>)
    requires
        m.wf(),
        m.state != RecordingState::Stopping,
    ensures
        run(m, calls).wf(),
        run(m, calls).state != RecordingState::Stopping,
        active(m) + sessions_started(m, calls) == sessions_ended(m, calls) + active(run(m, calls)),
    decreases calls.len(),
{
    if calls.len() > 0 {
        lemma_run_alternates(m, calls.drop_last());
        lemma_step_is_lawful(run(m, calls.drop_last()), calls.last());
    }
}

/// A stop without a recording session fails with `NotRecording` and changes
/// nothing, however often it is tried. In particular a second stop after
/// any stop fails so.
pub proof fn lemma_stop_when_not_recording(m: RecorderModel, first: DrainOutcome, second: DrainOutcome)
    ensures
        m.state != RecordingState::Recording ==> m.stop_result(first) == Err::<(), StopError>(
            StopError::NotRecording,
        ) && m.stop() == m,
        m.state != RecordingState::Stopping ==> m.stop().stop_result(second) == Err::<(), StopError>(
            StopError::NotRecording,
        ) && m.stop().stop() == m.stop(),
{
}

/// The calls of `n` callers that each ask for a start at `nows[i]`, with a
/// pipeline that opens for whoever gets to it.
pub open spec fn start_calls(nows: Seq<nat>) -> Seq<Call> {
    Seq::new(nows.len(), |i: int| Call::Start(nows[i], OpenOutcome::Opened))
}

/// Starts that race for one idle controller. The lock puts them in some
/// order; in every order the first one wins and each of the others is told
/// `AlreadyRecording`, so exactly one session is started.
pub proof fn lemma_one_start_wins(m: RecorderModel, nows: Seq<nat>)
    requires
        m.wf(),
        m.state == RecordingState::Idle,
        nows.len() >= 1,
    ensures
        sessions_started(m, start_calls(nows)) == 1,
        run(m, start_calls(nows)) == m.start(nows[0], OpenOutcome::Opened),
        m.start_result(OpenOutcome::Opened) is Ok,
        forall|i: int|
            1 <= i < nows.len() ==> (#[trigger] run(m, start_calls(nows).take(i))).start_result(
                OpenOutcome::Opened,
            ) == Err::<(), StartError>(StartError::AlreadyRecording),
{
    let calls = start_calls(nows);
    let winner = m.start(nows[0], OpenOutcome::Opened);
    assert forall|i: int| 1 <= i <= nows.len() implies #[trigger] run(m, calls.take(i)) == winner
        && sessions_started(m, calls.take(i)) == 1 by {
        lemma_starts_prefix(m, nows, i);
    }
    assert(calls.take(nows.len() as int) =~= calls);
}

proof fn lemma_starts_prefix(m: RecorderModel, nows: Seq<nat>, i: int)
    requires
        m.wf(),
        m.state == RecordingState::Idle,
        1 <= i <= nows.len(),
    ensures
        run(m, start_calls(nows).take(i)) == m.start(nows[0], OpenOutcome::Opened),
        sessions_started(m, start_calls(nows).take(i)) == 1,
    decreases i,
{
    let calls = start_calls(nows);
    let prefix = calls.take(i);
    assert(prefix.drop_last() =~= calls.take(i - 1));
    assert(prefix.last() == Call::Start(nows[i - 1], OpenOutcome::Opened));
    if i == 1 {
        assert(calls.take(0).len() == 0);
        assert(run(m, calls.take(0)) == m);
        assert(sessions_started(m, calls.take(0)) == 0);
    } else {
        lemma_starts_prefix(m, nows, i - 1);
    }
}

} // verus!
