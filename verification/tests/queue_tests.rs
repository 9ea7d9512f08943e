use gong::frame::{AudioFrame, FRAME_SAMPLES};
use gong::queue::{FrameQueue, PopOutcome, PushOutcome, QUEUE_CAPACITY};

fn frame_of(value: i16) -> AudioFrame {
    AudioFrame::new(vec![value; FRAME_SAMPLES]).unwrap()
}

fn first_sample(outcome: PopOutcome) -> i16 {
    match outcome {
        PopOutcome::Frame(f) => f.samples()[0],
        other => panic!("expected a frame, got {:?}", other),
    }
}

#[test]
fn frame_takes_exactly_one_frame_of_samples() {
    assert!(AudioFrame::new(vec![0; FRAME_SAMPLES]).is_some());
    assert!(AudioFrame::new(vec![0; FRAME_SAMPLES - 1]).is_none());
    assert!(AudioFrame::new(vec![0; FRAME_SAMPLES + 1]).is_none());
    assert!(AudioFrame::new(Vec::new()).is_none());
}

#[test]
fn frame_keeps_its_samples() {
    let mut samples = vec![0i16; FRAME_SAMPLES];
    samples[0] = -7;
    samples[FRAME_SAMPLES - 1] = 9;
    let frame = AudioFrame::new(samples.clone()).unwrap();
    assert_eq!(frame.samples(), &samples);
    assert_eq!(frame.into_samples(), samples);
}

#[test]
fn silence_is_a_frame_of_zeros() {
    let frame = AudioFrame::silence();
    assert_eq!(frame.samples().len(), FRAME_SAMPLES);
    assert!(frame.samples().iter().all(|s| *s == 0));
}

#[test]
fn new_queue_is_open_and_empty() {
    let q = FrameQueue::new();
    assert_eq!(q.capacity(), QUEUE_CAPACITY);
    assert_eq!(q.capacity(), 44);
    assert_eq!(q.len(), 0);
    assert!(q.is_empty());
    assert!(!q.is_closed());
    assert_eq!(q.overruns(), 0);
}

#[test]
fn queue_of_no_capacity_is_refused() {
    assert!(FrameQueue::with_capacity(0).is_none());
    assert_eq!(FrameQueue::with_capacity(1).unwrap().capacity(), 1);
}

#[test]
fn frames_come_out_in_the_order_they_went_in() {
    let mut q = FrameQueue::with_capacity(4).unwrap();
    assert_eq!(q.push(frame_of(1)), PushOutcome::Queued);
    assert_eq!(q.push(frame_of(2)), PushOutcome::Queued);
    assert_eq!(q.push(frame_of(3)), PushOutcome::Queued);
    assert_eq!(q.len(), 3);
    assert_eq!(first_sample(q.pop()), 1);
    assert_eq!(first_sample(q.pop()), 2);
    assert_eq!(first_sample(q.pop()), 3);
    assert_eq!(q.pop(), PopOutcome::Empty);
}

#[test]
fn full_queue_gives_up_its_oldest_frame() {
    let mut q = FrameQueue::with_capacity(2).unwrap();
    assert_eq!(q.push(frame_of(1)), PushOutcome::Queued);
    assert_eq!(q.push(frame_of(2)), PushOutcome::Queued);
    assert_eq!(q.overruns(), 0);
    assert_eq!(q.push(frame_of(3)), PushOutcome::Overrun);
    assert_eq!(q.overruns(), 1);
    assert_eq!(q.len(), 2);
    assert_eq!(first_sample(q.pop()), 2);
    assert_eq!(first_sample(q.pop()), 3);
}

#[test]
fn stalled_writer_never_blocks_the_capture_side() {
    let mut q = FrameQueue::new();
    let mut last_overruns = 0;
    for i in 0..100i16 {
        let outcome = q.push(frame_of(i));
        if (i as usize) < QUEUE_CAPACITY {
            assert_eq!(outcome, PushOutcome::Queued);
            assert_eq!(q.overruns(), 0);
        } else {
            assert_eq!(outcome, PushOutcome::Overrun);
            assert!(q.overruns() > last_overruns);
            assert_eq!(q.overruns(), last_overruns + 1);
        }
        last_overruns = q.overruns();
        assert!(q.len() <= QUEUE_CAPACITY);
    }
    assert_eq!(q.overruns(), 56);
    assert_eq!(q.len(), 44);
    for i in 56..100i16 {
        assert_eq!(first_sample(q.pop()), i);
    }
    assert_eq!(q.pop(), PopOutcome::Empty);
}

#[test]
fn empty_open_queue_asks_the_writer_to_wait() {
    let mut q = FrameQueue::new();
    assert_eq!(q.pop(), PopOutcome::Empty);
    assert_eq!(q.pop(), PopOutcome::Empty);
    assert!(!q.is_closed());
}

#[test]
fn closed_queue_drains_and_then_ends() {
    let mut q = FrameQueue::with_capacity(3).unwrap();
    q.push(frame_of(10));
    q.push(frame_of(20));
    q.close();
    assert!(q.is_closed());
    assert_eq!(first_sample(q.pop()), 10);
    assert_eq!(first_sample(q.pop()), 20);
    assert_eq!(q.pop(), PopOutcome::EndOfStream);
    assert_eq!(q.pop(), PopOutcome::EndOfStream);
}

#[test]
fn closed_queue_takes_no_frame() {
    let mut q = FrameQueue::with_capacity(3).unwrap();
    q.push(frame_of(1));
    q.close();
    assert_eq!(q.push(frame_of(2)), PushOutcome::Closed);
    assert_eq!(q.len(), 1);
    assert_eq!(q.overruns(), 0);
    q.close();
    assert!(q.is_closed());
    assert_eq!(first_sample(q.pop()), 1);
    assert_eq!(q.pop(), PopOutcome::EndOfStream);
    assert!(q.is_closed());
}
