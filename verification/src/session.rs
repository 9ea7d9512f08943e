//! One capture session, from opening its device to closing its file.
//!
//! A session is driven from three sides, and each reports to it what
//! happened. The controller opens it and asks it to stop. The capture side
//! hands in every frame that the device delivers. The writer asks for its
//! next step and carries it out on the file. The session decides what
//! follows: whether a frame is taken, which bytes go to the file next, and
//! when the file is complete.
//!
//! Phases: `Idle`, `Opening`, `Streaming`, `Draining`, `Closed`, and
//! `Failed`. A session fails when it cannot be opened, when its device goes
//! away while it streams, and when its file cannot be written.

use vstd::prelude::*;
use crate::frame::AudioFrame;
use crate::frame::FRAME_BYTES;
use crate::frame::FRAME_SAMPLES;
use crate::queue::FrameQueue;
use crate::queue::PopOutcome;
use crate::queue::PushOutcome;
use crate::queue::QueueState;
use crate::queue::QUEUE_CAPACITY;
use crate::recorder::CaptureFault;
use crate::recorder::OpenOutcome;
use crate::wav::data_image;
use crate::wav::finished_image;
use crate::wav::header_bytes;
use crate::wav::header_image;
use crate::wav::lemma_finished_file_reads_back;
use crate::wav::parse_spec;
use crate::wav::patched;
use crate::wav::SizePatch;
use crate::wav::WavFileWriter;
use crate::wav::WriterState;
use crate::wav::MAX_DATA_LEN;
use crate::wav::RIFF_OVERHEAD;

verus! {

/// Where a session stands.
#[derive(Debug, Clone, Copy, PartialEq, Eq, Structural)]
pub enum SessionPhase {
    /// Created; nothing acquired yet.
    Idle,
    /// The device and the output file are being opened.
    Opening,
    /// The device delivers frames.
    Streaming,
    /// A stop was asked for: no new frames, the queue runs empty.
    Draining,
    /// The file is complete. Final.
    Closed,
    /// The device or the file failed. Final.
    Failed,
}

/// Why a session refused a request.
#[derive(Debug, Clone, Copy, PartialEq, Eq, Structural)]
pub enum SessionError {
    /// The request does not belong to the phase that the session is in.
    WrongPhase,
    /// The device could not be opened.
    DeviceUnavailable,
    /// The output file could not be created or its header not written.
    IoError,
}

/// What the writer is to do next.
#[derive(Debug, Clone, PartialEq, Eq)]
pub enum WriteStep {
    /// Append these bytes, one frame of samples, to the file.
    Append(Vec<u8>),
    /// Nothing is queued yet: wait for a frame or for the stop, then ask
    /// again.
    Wait,
    /// Put these sizes into the header and close the file.
    Finish(SizePatch),
    /// Nothing is left to do for this session.
    Done,
}

/// The samples of `frames`, one frame after the other.
pub open spec fn concat_frames(frames: Seq<Seq<i16>>) -> Seq<i16>
    decreases frames.len(),
{
    if frames.len() == 0 {
        Seq::empty()
    } else {
        frames[0] + concat_frames(frames.drop_first())
    }
}

/// A session as mathematics, with each event as a function on it.
pub struct SessionState {
    pub phase: SessionPhase,
    pub queue: QueueState,
    pub writer: WriterState,
    pub fault: Option<CaptureFault>,
}

impl SessionState {
    pub open spec fn wf(self) -> bool {
        &&& self.queue.wf()
        &&& 2 * self.writer.samples.len() <= MAX_DATA_LEN
        &&& match self.phase {
            SessionPhase::Idle | SessionPhase::Opening => {
                &&& self.queue.frames.len() == 0
                &&& !self.queue.closed
                &&& self.writer.samples.len() == 0
                &&& !self.writer.finalized
                &&& self.fault is None
            },
            SessionPhase::Streaming => !self.queue.closed && !self.writer.finalized && self.fault is None,
            SessionPhase::Draining => self.queue.closed && !self.writer.finalized && self.fault is None,
            SessionPhase::Closed => {
                &&& self.queue.closed
                &&& self.queue.frames.len() == 0
                &&& self.writer.finalized
                &&& self.fault is None
            },
            SessionPhase::Failed => self.queue.closed,
        }
    }

    /// Every sample that the session holds, in the order it will stand in
    /// the file: what the writer has taken, then what waits in the queue.
    pub open spec fn held(self) -> Seq<i16> {
        self.writer.samples + concat_frames(self.queue.frames)
    }

    pub open spec fn begin_open(self) -> SessionState {
        if self.phase == SessionPhase::Idle {
            SessionState { phase: SessionPhase::Opening, ..self }
        } else {
            self
        }
    }

    pub open spec fn finish_open(self, outcome: OpenOutcome) -> SessionState {
        if self.phase != SessionPhase::Opening {
            self
        } else if outcome == OpenOutcome::Opened {
            SessionState { phase: SessionPhase::Streaming, ..self }
        } else {
            SessionState { phase: SessionPhase::Failed, queue: self.queue.close(), ..self }
        }
    }

    pub open spec fn finish_open_result(self, outcome: OpenOutcome) -> Result<(), SessionError> {
        if self.phase != SessionPhase::Opening {
            Err(SessionError::WrongPhase)
        } else {
            match outcome {
                OpenOutcome::Opened => Ok(()),
                OpenOutcome::DeviceUnavailable => Err(SessionError::DeviceUnavailable),
                OpenOutcome::IoError => Err(SessionError::IoError),
            }
        }
    }

    pub open spec fn capture(self, frame: Seq<i16>) -> SessionState {
        if self.phase == SessionPhase::Streaming {
            SessionState { queue: self.queue.push(frame), ..self }
        } else {
            self
        }
    }

    pub open spec fn request_stop(self) -> SessionState {
        if self.phase == SessionPhase::Streaming {
            SessionState { phase: SessionPhase::Draining, queue: self.queue.close(), ..self }
        } else {
            self
        }
    }

    /// The device failed or the file could not be written.
    pub open spec fn fail(self, fault: CaptureFault) -> SessionState {
        if self.phase == SessionPhase::Streaming || (self.phase == SessionPhase::Draining && fault
            == CaptureFault::WriteFailed) {
            SessionState {
                phase: SessionPhase::Failed,
                queue: self.queue.close(),
                fault: Some(fault),
                ..self
            }
        } else {
            self
        }
    }

    /// The writer still has a file to work on: the session streams or
    /// drains, or it lost its device and what is queued is still to be
    /// saved.
    pub open spec fn writer_active(self) -> bool {
        &&& !self.writer.finalized
        &&& (self.phase == SessionPhase::Streaming || self.phase == SessionPhase::Draining || (
        self.phase == SessionPhase::Failed && self.fault == Some(CaptureFault::DeviceLost)))
    }

    /// One more frame fits into the file.
    pub open spec fn fits(self) -> bool {
        2 * self.writer.samples.len() + FRAME_BYTES <= MAX_DATA_LEN
    }

    pub open spec fn write_step(self) -> SessionState {
        if !self.writer_active() {
            self
        } else if self.queue.frames.len() > 0 {
            if self.fits() {
                SessionState {
                    queue: self.queue.pop(),
                    writer: WriterState {
                        samples: self.writer.samples + self.queue.frames[0],
                        finalized: false,
                    },
                    ..self
                }
            } else {
                SessionState {
                    phase: SessionPhase::Failed,
                    queue: self.queue.pop().close(),
                    writer: WriterState { samples: self.writer.samples, finalized: true },
                    fault: if self.fault is Some {
                        self.fault
                    } else {
                        Some(CaptureFault::WriteFailed)
                    },
                }
            }
        } else if self.queue.closed {
            SessionState {
                phase: if self.phase == SessionPhase::Draining {
                    SessionPhase::Closed
                } else {
                    self.phase
                },
                writer: WriterState { samples: self.writer.samples, finalized: true },
                ..self
            }
        } else {
            self
        }
    }

    /// The session after `n` steps of the writer.
    pub open spec fn write_steps(self, n: nat) -> SessionState
        decreases n,
    {
        if n == 0 {
            self
        } else {
            self.write_step().write_steps((n - 1) as nat)
        }
    }

    /// The session after the device has delivered `frames`, first to last.
    pub open spec fn capture_all(self, frames: Seq<Seq<i16>>) -> SessionState
        decreases frames.len(),
    {
        if frames.len() == 0 {
            self
        } else {
            self.capture_all(frames.drop_last()).capture(frames.last())
        }
    }
}

/// One capture session.
pub struct CaptureSession {
    phase: SessionPhase,
    queue: FrameQueue,
    writer: WavFileWriter,
    fault: Option<CaptureFault>,
}

impl View for CaptureSession {
    type V = SessionState;

    closed spec fn view(&self) -> SessionState {
        SessionState { phase: self.phase, queue: self.queue@, writer: self.writer@, fault: self.fault }
    }
}

impl CaptureSession {
    /// The parts of the session are well-formed each.
    pub closed spec fn parts_wf(&self) -> bool {
        self.queue.wf() && self.writer.wf()
    }

    pub open spec fn wf(&self) -> bool {
        self.parts_wf() && self@.wf()
    }

    /// A session in phase `Idle`, with an empty queue of `QUEUE_CAPACITY`
    /// frames.
    pub fn new() -> (s: CaptureSession)
        ensures
            s.wf(),
            s@.phase == SessionPhase::Idle,
            s@.queue.capacity == QUEUE_CAPACITY,
            s@.queue.overruns == 0,
    {
        let (writer, _) = WavFileWriter::open();
        CaptureSession { phase: SessionPhase::Idle, queue: FrameQueue::new(), writer, fault: None }
    }

    /// Begins to open the session. The bytes that come back are the header
    /// that the caller writes to the new file before anything else.
    pub fn begin_open(&mut self) -> (r: Result<Vec<u8>, SessionError>)
        requires
            old(self).wf(),
        ensures
            final(self).wf(),
            final(self)@ == old(self)@.begin_open(),
            r is Ok <==> old(self)@.phase == SessionPhase::Idle,
            r is Err ==> r == Err::<Vec<u8>, SessionError>(SessionError::WrongPhase),
            r matches Ok(header) ==> header@ == header_image(0, 0) && header@ == final(self)@.writer.image(),
    {
        match self.phase {
            SessionPhase::Idle => {
                let header = header_bytes(0, 0);
                self.phase = SessionPhase::Opening;
                assert(self@.writer.samples =~= Seq::empty());
                assert(self@.writer.image() =~= header@);
                Ok(header)
            },
            _ => Err(SessionError::WrongPhase),
        }
    }

    /// Ends the opening with what the caller reports of it. An opened
    /// pipeline streams. One that could not be opened has failed for good;
    /// the caller removes the file it may have begun.
    pub fn finish_open(&mut self, outcome: OpenOutcome) -> (r: Result<(), SessionError>)
        requires
            old(self).wf(),
        ensures
            final(self).wf(),
            final(self)@ == old(self)@.finish_open(outcome),
            r == old(self)@.finish_open_result(outcome),
    {
        match self.phase {
            SessionPhase::Opening => {},
            _ => {
                return Err(SessionError::WrongPhase);
            },
        }
        match outcome {
            OpenOutcome::Opened => {
                self.phase = SessionPhase::Streaming;
                Ok(())
            },
            OpenOutcome::DeviceUnavailable => {
                self.phase = SessionPhase::Failed;
                self.queue.close();
                Err(SessionError::DeviceUnavailable)
            },
            OpenOutcome::IoError => {
                self.phase = SessionPhase::Failed;
                self.queue.close();
                Err(SessionError::IoError)
            },
        }
    }

    /// Takes a frame from the device. It never waits: while the session
    /// streams the frame is queued, at the price of the oldest queued frame
    /// if the writer has fallen behind; in every other phase the frame is
    /// not taken.
    pub fn capture(&mut self, frame: AudioFrame) -> (r: PushOutcome)
        requires
            old(self).wf(),
            frame.wf(),
        ensures
            final(self).wf(),
            final(self)@ == old(self)@.capture(frame@),
            r == (if old(self)@.phase != SessionPhase::Streaming {
                PushOutcome::Closed
            } else if old(self)@.queue.full() {
                PushOutcome::Overrun
            } else {
                PushOutcome::Queued
            }),
    {
        match self.phase {
            SessionPhase::Streaming => self.queue.push(frame),
            _ => PushOutcome::Closed,
        }
    }

    /// Asks a streaming session to stop: it takes no more frames and drains
    /// what is queued.
    pub fn request_stop(&mut self) -> (r: Result<(), SessionError>)
        requires
            old(self).wf(),
        ensures
            final(self).wf(),
            final(self)@ == old(self)@.request_stop(),
            r is Ok <==> old(self)@.phase == SessionPhase::Streaming,
            r is Err ==> r == Err::<(), SessionError>(SessionError::WrongPhase),
    {
        match self.phase {
            SessionPhase::Streaming => {
                self.phase = SessionPhase::Draining;
                self.queue.close();
                Ok(())
            },
            _ => Err(SessionError::WrongPhase),
        }
    }

    /// Reports a fault: a device that went away while streaming, or a file
    /// that could not be written while streaming or draining. The session
    /// has then failed and takes no more frames. After a lost device the
    /// writer still gets what is queued, to save what can be saved. Tells
    /// whether the fault applied.
    pub fn fail(&mut self, fault: CaptureFault) -> (applied: bool)
        requires
            old(self).wf(),
        ensures
            final(self).wf(),
            final(self)@ == old(self)@.fail(fault),
            applied == (final(self)@ != old(self)@),
    {
        let applies = match self.phase {
            SessionPhase::Streaming => true,
            SessionPhase::Draining => match fault {
                CaptureFault::WriteFailed => true,
                CaptureFault::DeviceLost => false,
            },
            _ => false,
        };
        if applies {
            self.phase = SessionPhase::Failed;
            self.queue.close();
            self.fault = Some(fault);
        }
        applies
    }

    /// The next step of the writer.
    ///
    /// While the writer has a file to work on: the oldest queued frame
    /// leaves the queue and its bytes are to be appended; with nothing
    /// queued the writer waits, or, once the queue is closed, finishes the
    /// file, which ends a draining session. A frame that the file cannot
    /// hold any more ends the session as failed, with the file finished as
    /// it is.
    pub fn write_step(&mut self) -> (r: WriteStep)
        requires
            old(self).wf(),
        ensures
            final(self).wf(),
            final(self)@ == old(self)@.write_step(),
            r is Done <==> !old(self)@.writer_active(),
            r is Wait <==> old(self)@.writer_active() && old(self)@.queue.frames.len() == 0 && !old(self)@.queue.closed,
            r is Append <==> old(self)@.writer_active() && old(self)@.queue.frames.len() > 0 && old(self)@.fits(),
            r matches WriteStep::Append(bytes) ==> {
                &&& bytes@ == data_image(old(self)@.queue.frames[0])
                &&& final(self)@.writer.image() == old(self)@.writer.image() + bytes@
            },
            r matches WriteStep::Finish(patch) ==> {
                &&& patch.data_len == 2 * old(self)@.writer.samples.len()
                &&& patch.riff_len == RIFF_OVERHEAD + 2 * old(self)@.writer.samples.len()
                &&& final(self)@.writer.image() == patched(
                    old(self)@.writer.image(),
                    patch.riff_len as int,
                    patch.data_len as int,
                )
                &&& final(self)@.writer.image() == finished_image(old(self)@.writer.samples)
            },
    {
        let active = !self.writer.is_finalized() && match self.phase {
            SessionPhase::Streaming => true,
            SessionPhase::Draining => true,
            SessionPhase::Failed => match self.fault {
                Some(CaptureFault::DeviceLost) => true,
                _ => false,
            },
            _ => false,
        };
        if !active {
            return WriteStep::Done;
        }
        match self.queue.pop() {
            PopOutcome::Frame(frame) => {
                match self.writer.write_frame(&frame) {
                    Ok(bytes) => WriteStep::Append(bytes),
                    Err(_) => {
                        self.queue.close();
                        self.phase = SessionPhase::Failed;
                        if self.fault.is_none() {
                            self.fault = Some(CaptureFault::WriteFailed);
                        }
                        match self.writer.finalize() {
                            Ok(patch) => WriteStep::Finish(patch),
                            Err(_) => WriteStep::Done,
                        }
                    },
                }
            },
            PopOutcome::Empty => WriteStep::Wait,
            PopOutcome::EndOfStream => {
                match self.phase {
                    SessionPhase::Draining => {
                        self.phase = SessionPhase::Closed;
                    },
                    _ => {},
                }
                match self.writer.finalize() {
                    Ok(patch) => WriteStep::Finish(patch),
                    Err(_) => WriteStep::Done,
                }
            },
        }
    }

    pub fn phase(&self) -> (p: SessionPhase)
        ensures
            p == self@.phase,
    {
        self.phase
    }

    /// The fault that ended the session, if one did.
    pub fn fault(&self) -> (f: Option<CaptureFault>)
        ensures
            f == self@.fault,
    {
        self.fault
    }

    /// Frames given up so far because the writer fell behind.
    pub fn overruns(&self) -> (n: u64)
        ensures
            n == self@.queue.overruns,
    {
        self.queue.overruns()
    }

    /// Frames that wait for the writer.
    pub fn queued(&self) -> (n: usize)
        ensures
            n == self@.queue.frames.len(),
    {
        self.queue.len()
    }

    /// Sample values that the writer has taken so far.
    pub fn samples_written(&self) -> (n: u32)
        requires
            self.wf(),
        ensures
            n == self@.writer.samples.len(),
    {
        self.writer.samples_written()
    }
}

/// The samples of some frames and one more are the samples of the frames,
/// then those of the one.
pub proof fn lemma_concat_push(frames: Seq<Seq<i16>>, frame: Seq<i16>)
    ensures
        concat_frames(frames.push(frame)) == concat_frames(frames) + frame,
    decreases frames.len(),
{
    let longer = frames.push(frame);
    if frames.len() == 0 {
        assert(longer.drop_first() =~= Seq::<Seq<i16>>::empty());
        assert(concat_frames(longer.drop_first()) =~= Seq::<i16>::empty());
        assert(concat_frames(longer) == longer[0] + concat_frames(longer.drop_first()));
        assert(concat_frames(longer) =~= concat_frames(frames) + frame);
    } else {
        lemma_concat_push(frames.drop_first(), frame);
        assert(longer.drop_first() =~= frames.drop_first().push(frame));
        assert(concat_frames(longer) == longer[0] + concat_frames(longer.drop_first()));
        assert(concat_frames(frames) == frames[0] + concat_frames(frames.drop_first()));
        assert(concat_frames(longer) =~= concat_frames(frames) + frame);
    }
}

/// Whole frames make `FRAME_SAMPLES` samples each.
pub proof fn lemma_concat_len(frames: Seq<Seq<i16>>)
    requires
        forall|i: int| 0 <= i < frames.len() ==> (#[trigger] frames[i]).len() == FRAME_SAMPLES,
    ensures
        concat_frames(frames).len() == frames.len() * FRAME_SAMPLES,
    decreases frames.len(),
{
    if frames.len() > 0 {
        let rest = frames.drop_first();
        assert forall|i: int| 0 <= i < rest.len() implies (#[trigger] rest[i]).len()
            == FRAME_SAMPLES by {
            assert(rest[i] == frames[i + 1]);
        }
        lemma_concat_len(rest);
    }
}

/// Every event leaves a well-formed session well-formed.
pub proof fn lemma_events_keep_wf(s: SessionState, outcome: OpenOutcome, frame: Seq<i16>, fault: CaptureFault)
    requires
        s.wf(),
        frame.len() == FRAME_SAMPLES,
    ensures
        s.begin_open().wf(),
        s.finish_open(outcome).wf(),
        s.capture(frame).wf(),
        s.request_stop().wf(),
        s.fail(fault).wf(),
        s.write_step().wf(),
{
    let pushed = s.queue.push(frame);
    assert(pushed.wf()) by {
        assert forall|i: int| 0 <= i < pushed.frames.len() implies (#[trigger] pushed.frames[i]).len()
            == FRAME_SAMPLES by {
            if !s.queue.closed && s.queue.full() && i < pushed.frames.len() - 1 {
                assert(pushed.frames[i] == s.queue.frames[i + 1]);
            }
        }
    }
    let popped = s.queue.pop();
    assert(popped.wf()) by {
        assert forall|i: int| 0 <= i < popped.frames.len() implies (#[trigger] popped.frames[i]).len()
            == FRAME_SAMPLES by {
            if s.queue.frames.len() > 0 {
                assert(popped.frames[i] == s.queue.frames[i + 1]);
            }
        }
    }
    if s.queue.frames.len() > 0 {
        assert(s.queue.frames[0].len() == FRAME_SAMPLES);
    }
}

/// The final phases are final: no event leads out of `Closed` or `Failed`.
pub proof fn lemma_final_phases(s: SessionState, outcome: OpenOutcome, frame: Seq<i16>, fault: CaptureFault)
    requires
        s.wf(),
        s.phase == SessionPhase::Closed || s.phase == SessionPhase::Failed,
    ensures
        s.begin_open() == s,
        s.finish_open(outcome) == s,
        s.capture(frame) == s,
        s.request_stop() == s,
        s.fail(fault) == s,
        s.write_step().phase == s.phase,
        s.phase == SessionPhase::Closed ==> s.write_step() == s,
{
}

/// A frame that is taken without an overrun goes behind everything that the
/// session holds; nothing that it holds moves or is lost.
pub proof fn lemma_capture_keeps_order(s: SessionState, frame: Seq<i16>)
    requires
        s.wf(),
        s.phase == SessionPhase::Streaming,
        !s.queue.full(),
    ensures
        s.capture(frame).held() == s.held() + frame,
{
    lemma_concat_push(s.queue.frames, frame);
    assert(s.capture(frame).held() =~= s.held() + frame);
}

/// The writer takes frames in the order they were queued, each once: a
/// step that appends moves the oldest queued frame to the end of what is
/// written, and no step changes what the session holds as a whole.
pub proof fn lemma_write_keeps_order(s: SessionState)
    requires
        s.wf(),
        s.fits() || s.queue.frames.len() == 0,
    ensures
        s.write_step().held() == s.held(),
        s.writer_active() && s.queue.frames.len() > 0 ==> s.write_step().writer.samples
            == s.writer.samples + s.queue.frames[0],
{
    if s.writer_active() && s.queue.frames.len() > 0 {
        assert(s.write_step().held() =~= s.held());
    }
}

/// Draining ends. A draining session whose file can hold what is queued
/// needs one step of the writer for each queued frame and one more: then it
/// is closed, and its file holds, in order, everything that the session held
/// when the stop was asked for.
pub proof fn lemma_drain_completes(s: SessionState)
    requires
        s.wf(),
        s.phase == SessionPhase::Draining,
        2 * s.held().len() <= MAX_DATA_LEN,
    ensures
        s.write_steps(s.queue.frames.len() + 1).phase == SessionPhase::Closed,
        s.write_steps(s.queue.frames.len() + 1).writer == (WriterState {
            samples: s.held(),
            finalized: true,
        }),
        s.write_steps(s.queue.frames.len() + 1).queue.overruns == s.queue.overruns,
    decreases s.queue.frames.len(),
{
    let k = s.queue.frames.len();
    let next = s.write_step();
    assert(s.write_steps(k + 1) == next.write_steps(k));
    if k == 0 {
        assert(s.held() =~= s.writer.samples);
        assert(next.write_steps(0) == next);
    } else {
        lemma_concat_len_first(s.queue.frames);
        lemma_events_keep_wf(s, OpenOutcome::Opened, s.queue.frames[0], CaptureFault::DeviceLost);
        lemma_write_keeps_order(s);
        lemma_drain_completes(next);
    }
}

/// What is queued is at least as long as its first frame.
proof fn lemma_concat_len_first(frames: Seq<Seq<i16>>)
    requires
        frames.len() > 0,
    ensures
        concat_frames(frames).len() >= frames[0].len(),
{
}

/// A closed session leaves a file that reads back as what was written:
/// parsed, it reports the recording's sample count.
pub proof fn lemma_closed_session_reads_back(s: SessionState)
    requires
        s.wf(),
        s.phase == SessionPhase::Closed,
    ensures
        s.writer.image() == finished_image(s.writer.samples),
        parse_spec(s.writer.image()) is Ok,
        parse_spec(s.writer.image())->Ok_0.spec_sample_count() == s.writer.samples.len(),
        parse_spec(s.writer.image())->Ok_0.spec_duration() == s.writer.samples.len() / 2,
{
    lemma_finished_file_reads_back(s.writer.samples);
}

/// Frames that the queue has room for are all taken, with no overrun.
pub proof fn lemma_capture_all(s: SessionState, frames: Seq<Seq<i16>>)
    requires
        s.wf(),
        s.phase == SessionPhase::Streaming,
        s.queue.frames.len() + frames.len() <= s.queue.capacity,
        forall|i: int| 0 <= i < frames.len() ==> (#[trigger] frames[i]).len() == FRAME_SAMPLES,
    ensures
        s.capture_all(frames).wf(),
        s.capture_all(frames).phase == SessionPhase::Streaming,
        s.capture_all(frames).writer == s.writer,
        s.capture_all(frames).queue.frames == s.queue.frames + frames,
        s.capture_all(frames).queue.overruns == s.queue.overruns,
        s.capture_all(frames).queue.capacity == s.queue.capacity,
        s.capture_all(frames).held() == s.held() + concat_frames(frames),
    decreases frames.len(),
{
    if frames.len() == 0 {
        assert(s.queue.frames + frames =~= s.queue.frames);
        assert(s.held() + concat_frames(frames) =~= s.held());
    } else {
        let init = frames.drop_last();
        lemma_capture_all(s, init);
        let mid = s.capture_all(init);
        lemma_events_keep_wf(mid, OpenOutcome::Opened, frames.last(), CaptureFault::DeviceLost);
        lemma_capture_keeps_order(mid, frames.last());
        lemma_concat_push(init, frames.last());
        assert(init.push(frames.last()) =~= frames);
        assert(mid.capture(frames.last()).queue.frames =~= s.queue.frames + frames);
        assert(s.capture_all(frames).held() =~= s.held() + concat_frames(frames));
    }
}

/// Round trip of a whole recording. A session that has just begun to
/// stream takes frames without an overrun, is asked to stop, and drains.
/// Then it is closed, and its file, parsed, reports exactly the frames that
/// were handed in: `FRAME_SAMPLES` samples for each.
pub proof fn lemma_session_round_trip(s: SessionState, frames: Seq<Seq<i16>>)
    requires
        s.wf(),
        s.phase == SessionPhase::Streaming,
        s.queue.frames.len() == 0,
        s.writer.samples.len() == 0,
        frames.len() <= s.queue.capacity,
        frames.len() * FRAME_BYTES <= MAX_DATA_LEN,
        forall|i: int| 0 <= i < frames.len() ==> (#[trigger] frames[i]).len() == FRAME_SAMPLES,
    ensures
        ({
            let end = s.capture_all(frames).request_stop().write_steps(frames.len() + 1);
            &&& end.phase == SessionPhase::Closed
            &&& end.writer.image() == finished_image(concat_frames(frames))
            &&& parse_spec(end.writer.image()) is Ok
            &&& parse_spec(end.writer.image())->Ok_0.spec_sample_count() == frames.len()
                * FRAME_SAMPLES
            &&& end.queue.overruns == s.queue.overruns
        }),
{
    lemma_capture_all(s, frames);
    lemma_concat_len(frames);
    let stopping = s.capture_all(frames).request_stop();
    assert(s.held() =~= Seq::<i16>::empty());
    assert(stopping.held() =~= concat_frames(frames));
    assert(stopping.queue.frames.len() == frames.len());
    lemma_drain_completes(stopping);
    lemma_finished_file_reads_back(concat_frames(frames));
}

} // verus!
