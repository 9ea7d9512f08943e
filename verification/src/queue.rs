//! The bounded queue that carries frames from the capture side to the writer.
//!
//! The capture side must never wait for a slow disk, so a push on a full
//! queue makes room by giving up the oldest frame and counts an overrun. The
//! queue itself never blocks: where the writer would have to wait, `pop` says
//! so and the caller waits.

use std::collections::VecDeque;
use vstd::prelude::*;
use crate::frame::AudioFrame;
use crate::frame::FRAME_SAMPLES;

verus! {

/// Frames that the queue of a session holds: about one second of audio.
pub const QUEUE_CAPACITY: usize = 44;

/// A queue as mathematics: what it holds, oldest frame first, its bound,
/// whether it was closed, and how many frames were given up so far.
pub struct QueueState {
    pub frames: Seq<Seq<i16>>,
    pub capacity: nat,
    pub closed: bool,
    pub overruns: nat,
}

/// The overrun counter after one more overrun. It stops at `u64::MAX`.
pub open spec fn bump(overruns: nat) -> nat {
    if overruns < u64::MAX {
        overruns + 1
    } else {
        overruns
    }
}

impl QueueState {
    pub open spec fn wf(self) -> bool {
        &&& 1 <= self.capacity
        &&& self.frames.len() <= self.capacity
        &&& self.overruns <= u64::MAX
        &&& forall|i: int| 0 <= i < self.frames.len() ==> (#[trigger] self.frames[i]).len() == FRAME_SAMPLES
    }

    pub open spec fn full(self) -> bool {
        self.frames.len() >= self.capacity
    }

    /// The queue after a push of `frame`: a closed queue takes nothing, a
    /// full one gives up its oldest frame and counts that.
    pub open spec fn push(self, frame: Seq<i16>) -> QueueState {
        if self.closed {
            self
        } else if self.full() {
            QueueState {
                frames: self.frames.drop_first().push(frame),
                overruns: bump(self.overruns),
                ..self
            }
        } else {
            QueueState { frames: self.frames.push(frame), ..self }
        }
    }

    /// The queue after a pop: without its oldest frame, if it had one.
    pub open spec fn pop(self) -> QueueState {
        if self.frames.len() > 0 {
            QueueState { frames: self.frames.drop_first(), ..self }
        } else {
            self
        }
    }

    pub open spec fn close(self) -> QueueState {
        QueueState { closed: true, ..self }
    }

    /// The queue after the pushes of `frames`, first to last.
    pub open spec fn push_all(self, frames: Seq<Seq<i16>>) -> QueueState
        decreases frames.len(),
    {
        if frames.len() == 0 {
            self
        } else {
            self.push_all(frames.drop_last()).push(frames.last())
        }
    }
}

/// What became of a pushed frame.
#[derive(Debug, Clone, Copy, PartialEq, Eq, Structural)]
pub enum PushOutcome {
    /// The frame is in the queue; nothing was lost.
    Queued,
    /// The frame is in the queue; the oldest frame was given up for it.
    Overrun,
    /// The queue is closed; the frame was not taken.
    Closed,
}

/// What the writer gets when it asks for the next frame.
#[derive(Debug, Clone, PartialEq, Eq)]
pub enum PopOutcome {
    /// The oldest frame, now out of the queue.
    Frame(AudioFrame),
    /// Nothing to hand out yet: the caller waits and asks again.
    Empty,
    /// The queue is closed and drained: no frame will ever come.
    EndOfStream,
}

/// A bounded first-in first-out queue of frames.
pub struct FrameQueue {
    frames: VecDeque<AudioFrame>,
    capacity: usize,
    closed: bool,
    overruns: u64,
}

impl View for FrameQueue {
    type V = QueueState;

    closed spec fn view(&self) -> QueueState {
        QueueState {
            frames: Seq::new(self.frames@.len(), |i: int| self.frames@[i]@),
            capacity: self.capacity as nat,
            closed: self.closed,
            overruns: self.overruns as nat,
        }
    }
}

impl FrameQueue {
    pub open spec fn wf(&self) -> bool {
        self@.wf()
    }

    /// An open, empty queue of `QUEUE_CAPACITY` frames.
    pub fn new() -> (q: FrameQueue)
        ensures
            q.wf(),
            q@ == (QueueState {
                frames: Seq::empty(),
                capacity: QUEUE_CAPACITY as nat,
                closed: false,
                overruns: 0,
            }),
    {
        let q = FrameQueue { frames: VecDeque::new(), capacity: QUEUE_CAPACITY, closed: false, overruns: 0 };
        assert(q@.frames =~= Seq::empty());
        q
    }

    /// An open, empty queue of `capacity` frames. `None` for a capacity of
    /// zero, which could hold nothing.
    pub fn with_capacity(capacity: usize) -> (r: Option<FrameQueue>)
        ensures
            r is Some <==> capacity >= 1,
            r matches Some(q) ==> q.wf() && q@ == (QueueState {
                frames: Seq::empty(),
                capacity: capacity as nat,
                closed: false,
                overruns: 0,
            }),
    {
        if capacity == 0 {
            None
        } else {
            let q = FrameQueue { frames: VecDeque::new(), capacity, closed: false, overruns: 0 };
            assert(q@.frames =~= Seq::empty());
            Some(q)
        }
    }

    /// Puts `frame` at the end of the queue and returns at once, whatever the
    /// state of the queue: a closed queue refuses the frame, a full one drops
    /// its oldest frame and counts one overrun.
    pub fn push(&mut self, frame: AudioFrame) -> (r: PushOutcome)
        requires
            old(self).wf(),
            frame.wf(),
        ensures
            final(self).wf(),
            final(self)@ == old(self)@.push(frame@),
            r == (if old(self)@.closed {
                PushOutcome::Closed
            } else if old(self)@.full() {
                PushOutcome::Overrun
            } else {
                PushOutcome::Queued
            }),
    {
        if self.closed {
            return PushOutcome::Closed;
        }
        let ghost before = self@;
        if self.frames.len() >= self.capacity {
            let dropped = self.frames.pop_front();
            self.frames.push_back(frame);
            if self.overruns < u64::MAX {
                self.overruns = self.overruns + 1;
            }
            assert(self@.frames =~= before.frames.drop_first().push(frame@));
            PushOutcome::Overrun
        } else {
            self.frames.push_back(frame);
            assert(self@.frames =~= before.frames.push(frame@));
            PushOutcome::Queued
        }
    }

    /// Takes the oldest frame out. On an empty queue it tells an open queue
    /// (`Empty`: wait) from a closed one (`EndOfStream`).
    pub fn pop(&mut self) -> (r: PopOutcome)
        requires
            old(self).wf(),
        ensures
            final(self).wf(),
            final(self)@ == old(self)@.pop(),
            r is Frame <==> old(self)@.frames.len() > 0,
            r matches PopOutcome::Frame(f) ==> f.wf() && f@ == old(self)@.frames[0],
            r is EndOfStream <==> old(self)@.frames.len() == 0 && old(self)@.closed,
            r is Empty <==> old(self)@.frames.len() == 0 && !old(self)@.closed,
    {
        let ghost before = self@;
        match self.frames.pop_front() {
            Some(frame) => {
                assert(frame@ == before.frames[0]);
                assert(self@.frames =~= before.frames.drop_first());
                PopOutcome::Frame(frame)
            },
            None => {
                assert(self@.frames =~= before.frames);
                if self.closed {
                    PopOutcome::EndOfStream
                } else {
                    PopOutcome::Empty
                }
            },
        }
    }

    /// Closes the queue for good: it takes no more frames, and once drained
    /// it reports the end of the stream. Closing a closed queue changes
    /// nothing.
    pub fn close(&mut self)
        requires
            old(self).wf(),
        ensures
            final(self).wf(),
            final(self)@ == old(self)@.close(),
    {
        self.closed = true;
    }

    /// Frames waiting in the queue.
    pub fn len(&self) -> (n: usize)
        ensures
            n == self@.frames.len(),
    {
        self.frames.len()
    }

    pub fn is_empty(&self) -> (b: bool)
        ensures
            b == (self@.frames.len() == 0),
    {
        self.frames.len() == 0
    }

    pub fn capacity(&self) -> (n: usize)
        ensures
            n == self@.capacity,
    {
        self.capacity
    }

    pub fn is_closed(&self) -> (b: bool)
        ensures
            b == self@.closed,
    {
        self.closed
    }

    /// Frames given up so far because the writer fell behind.
    pub fn overruns(&self) -> (n: u64)
        ensures
            n == self@.overruns,
    {
        self.overruns
    }
}

/// No operation reopens a queue: once closed, it stays closed through every
/// push, pop and close.
pub proof fn lemma_close_is_final(q: QueueState, frame: Seq<i16>)
    requires
        q.closed,
    ensures
        q.push(frame) == q,
        q.pop().closed,
        q.close() == q,
{
}

/// A closed queue hands out what it still holds, oldest first, and then
/// nothing: after as many pops as it held frames it is empty and stays so.
pub proof fn lemma_closed_queue_drains(q: QueueState, n: nat)
    requires
        q.closed,
        n <= q.frames.len(),
    ensures
        pop_times(q, n).frames == q.frames.skip(n as int),
        pop_times(q, n).closed,
        pop_times(q, q.frames.len()).pop() == pop_times(q, q.frames.len()),
{
    lemma_pop_times(q, n);
    lemma_pop_times(q, q.frames.len());
}

/// The queue after `n` pops.
pub open spec fn pop_times(q: QueueState, n: nat) -> QueueState
    decreases n,
{
    if n == 0 {
        q
    } else {
        pop_times(q, (n - 1) as nat).pop()
    }
}

/// `n` pops take the `n` oldest frames, in order, and touch nothing else.
pub proof fn lemma_pop_times(q: QueueState, n: nat)
    requires
        n <= q.frames.len(),
    ensures
        pop_times(q, n).frames == q.frames.skip(n as int),
        pop_times(q, n).closed == q.closed,
        pop_times(q, n).capacity == q.capacity,
        pop_times(q, n).overruns == q.overruns,
    decreases n,
{
    if n == 0 {
        assert(q.frames.skip(0) =~= q.frames);
    } else {
        lemma_pop_times(q, (n - 1) as nat);
        let p = pop_times(q, (n - 1) as nat);
        assert(p.frames.drop_first() =~= q.frames.skip(n as int));
    }
}

/// The overrun counter after `k` more overruns.
pub open spec fn bump_times(overruns: nat, k: nat) -> nat {
    if overruns + k <= u64::MAX {
        overruns + k
    } else if overruns <= u64::MAX {
        u64::MAX as nat
    } else {
        overruns
    }
}

/// Frames of `total` that do not fit into `capacity`.
pub open spec fn excess(total: nat, capacity: nat) -> nat {
    if total > capacity {
        (total - capacity) as nat
    } else {
        0
    }
}

/// Backpressure with a stalled writer. While nothing is popped, any number
/// of pushes go through on an open queue: it never grows beyond its bound,
/// it holds the newest frames in the order they came, and the overrun
/// counter has gone up by one for every frame that did not fit.
pub proof fn lemma_stalled_writer(q: QueueState, frames: Seq<Seq<i16>>)
    requires
        q.wf(),
        !q.closed,
        forall|i: int| 0 <= i < frames.len() ==> (#[trigger] frames[i]).len() == FRAME_SAMPLES,
    ensures
        q.push_all(frames).wf(),
        !q.push_all(frames).closed,
        q.push_all(frames).capacity == q.capacity,
        q.push_all(frames).frames == (q.frames + frames).skip(
            excess(q.frames.len() + frames.len(), q.capacity) as int,
        ),
        q.push_all(frames).overruns == bump_times(
            q.overruns,
            excess(q.frames.len() + frames.len(), q.capacity),
        ),
    decreases frames.len(),
{
    if frames.len() == 0 {
        assert((q.frames + frames).skip(0) =~= q.frames);
    } else {
        let init = frames.drop_last();
        lemma_stalled_writer(q, init);
        let mid = q.push_all(init);
        let all = q.frames + frames;
        let e1 = excess(q.frames.len() + frames.len(), q.capacity);
        assert(q.frames + init =~= all.drop_last());
        assert(mid.push(frames.last()).frames =~= all.skip(e1 as int));
    }
}

/// A push on a full, open queue always counts: below its ceiling the overrun
/// counter goes up by exactly one.
pub proof fn lemma_overrun_counts(q: QueueState, frame: Seq<i16>)
    requires
        q.wf(),
        !q.closed,
        q.full(),
        q.overruns < u64::MAX,
    ensures
        q.push(frame).overruns == q.overruns + 1,
        q.push(frame).frames.len() == q.capacity,
        q.push(frame).frames.last() == frame,
{
}

} // verus!
