use std::collections::VecDeque;

use coreaudio::audio_queue::{
    AudioQueueBuffer, AudioQueueInput, AudioQueueOutput, BorrowedAudioQueueBuffer, BufferState,
    InputCallback,
};
use coreaudio::{Error, SampleFormat};

/// A timestamp as a test host hands it out.
#[derive(Debug, Clone, Copy, PartialEq)]
struct Stamp {
    sample_time: f64,
    host_time: u64,
}

/// Records every invocation it receives.
struct Recorder {
    calls: Vec<(Stamp, usize, usize)>,
}

impl InputCallback<Stamp> for Recorder {
    fn audio_input(&mut self, start_time: Stamp, buffer: &AudioQueueBuffer) {
        self.calls.push((start_time, buffer.len(), buffer.capacity()));
    }
}

/// Requests a buffer, letting the simulated host complete the oldest
/// enqueued buffer whenever none is available.
fn request_with_host(
    q: &mut AudioQueueOutput,
    host: &mut VecDeque<usize>,
) -> BorrowedAudioQueueBuffer {
    loop {
        if let Some(g) = q.request_buffer() {
            return g;
        }
        let done = host.pop_front().expect("a buffer in the host");
        assert!(q.complete(done));
    }
}

#[test]
fn test_queue_output() {
    let mut q = AudioQueueOutput::new(SampleFormat::F32, SampleFormat::F32, 10, 64).unwrap();
    q.start(0).unwrap();

    let angular_frequency = 2.0 * std::f32::consts::PI * 440.0;
    let sample_period = 1.0 / 48_000.0;
    let mut i = 0;
    let mut host = VecDeque::new();

    for _ in 0..300 {
        let buf = request_with_host(&mut q, &mut host);
        buf.resize(&mut q, 128);
        assert_eq!(buf.buffer(&q).len(), 64);

        let mut samples = vec![0.0_f32; buf.buffer(&q).len()];
        for sample in samples.iter_mut() {
            *sample = (angular_frequency * i as f32 * sample_period).sin() * 0.1;
            i += 1;
        }
        assert_eq!(samples.len(), 64);

        let index = buf.index();
        buf.enqueue(&mut q, 0).unwrap();
        host.push_back(index);
    }
    assert_eq!(i, 300 * 64);
}

#[test]
fn test_queue_input() {
    let mut q = AudioQueueInput::new(
        SampleFormat::F32,
        SampleFormat::F32,
        Recorder { calls: Vec::new() },
    )
    .unwrap();
    q.start(0).unwrap();
    let stamp = Stamp { sample_time: 44_100.0, host_time: 7 };
    q.dispatch(stamp, 2048, 1024);
    println!("{:?}", q.callback().calls);
    assert_eq!(q.callback().calls.len(), 1);
}

#[test]
fn all_identities_available_after_construction() {
    for count in 1..6 {
        let q = AudioQueueOutput::new(SampleFormat::I16, SampleFormat::I16, count, 16).unwrap();
        assert_eq!(q.buffer_count(), count);
        assert_eq!(q.available_count(), count);
        for i in 0..count {
            assert_eq!(q.state(i), BufferState::Available);
        }
    }
}

#[test]
fn live_guards_have_distinct_identities() {
    let mut q = AudioQueueOutput::new(SampleFormat::F32, SampleFormat::F32, 3, 8).unwrap();
    let a = q.request_buffer().unwrap();
    let b = q.request_buffer().unwrap();
    let c = q.request_buffer().unwrap();
    assert_eq!((a.index(), b.index(), c.index()), (0, 1, 2));
    assert!(q.request_buffer().is_none());
    a.enqueue(&mut q, 0).unwrap();
    assert_eq!(q.state(0), BufferState::Enqueued);
    assert!(q.request_buffer().is_none());
    b.release(&mut q);
    let d = q.request_buffer().unwrap();
    assert_eq!(d.index(), 1);
    assert_ne!(d.index(), c.index());
}

#[test]
fn resize_twice_gives_same_length() {
    let mut q = AudioQueueOutput::new(SampleFormat::I32, SampleFormat::I32, 1, 100).unwrap();
    let g = q.request_buffer().unwrap();
    g.resize(&mut q, 37);
    let first = g.buffer(&q).len();
    g.resize(&mut q, 37);
    assert_eq!(first, 37);
    assert_eq!(g.buffer(&q).len(), first);
    assert_eq!(g.buffer(&q).byte_size(), 37 * 4);
}

#[test]
fn resize_clamps_to_capacity_and_zero() {
    let mut q = AudioQueueOutput::new(SampleFormat::I24, SampleFormat::I24, 1, 256).unwrap();
    let g = q.request_buffer().unwrap();
    let capacity = g.buffer(&q).capacity();
    assert_eq!(capacity, 256);
    g.resize(&mut q, capacity + 1000);
    assert_eq!(g.buffer(&q).len(), capacity);
    assert_eq!(g.buffer(&q).byte_size(), 256 * 3);
    g.resize(&mut q, 0);
    assert_eq!(g.buffer(&q).len(), 0);
    assert_eq!(g.buffer(&q).byte_size(), 0);
}

#[test]
fn dropped_guard_is_available_again_without_host() {
    let mut q = AudioQueueOutput::new(SampleFormat::F32, SampleFormat::F32, 1, 32).unwrap();
    let g = q.request_buffer().unwrap();
    assert!(q.request_buffer().is_none());
    g.release(&mut q);
    assert_eq!(q.state(0), BufferState::Available);
    let again = q.request_buffer().unwrap();
    assert_eq!(again.index(), 0);
}

#[test]
fn fifth_request_waits_for_a_completion() {
    let mut q = AudioQueueOutput::new(SampleFormat::F32, SampleFormat::F32, 4, 256).unwrap();
    q.start(0).unwrap();
    assert!(q.is_running());
    let mut host: VecDeque<usize> = VecDeque::new();
    for n in 0..10 {
        if n >= 4 {
            // Every buffer is out: the request waits until the host completes one.
            assert_eq!(q.available_count(), 0);
            assert!(q.request_buffer().is_none());
            let done = host.pop_front().unwrap();
            assert!(q.complete(done));
        }
        let g = q.request_buffer().unwrap();
        assert_eq!(g.index(), n % 4);
        host.push_back(g.index());
        g.enqueue(&mut q, 0).unwrap();
    }
    q.stop(0).unwrap();
    assert!(!q.is_running());
}

#[test]
fn format_mismatch_creates_nothing() {
    let r = AudioQueueOutput::new(SampleFormat::I16, SampleFormat::F32, 4, 256);
    assert!(matches!(r, Err(Error::FormatMismatch)));
    let i = AudioQueueInput::new(SampleFormat::F32, SampleFormat::I32, Recorder { calls: Vec::new() });
    assert!(matches!(i, Err(Error::FormatMismatch)));
}

#[test]
fn input_dispatch_reports_host_length_and_time() {
    let mut q = AudioQueueInput::new(
        SampleFormat::I16,
        SampleFormat::I16,
        Recorder { calls: Vec::new() },
    )
    .unwrap();
    let stamp = Stamp { sample_time: 512.0, host_time: 99 };
    q.dispatch(stamp, 4096, 300);
    assert_eq!(q.callback().calls, vec![(stamp, 150, 2048)]);
}

#[test]
fn failed_enqueue_loses_the_identity() {
    let mut q = AudioQueueOutput::new(SampleFormat::F32, SampleFormat::F32, 2, 8).unwrap();
    let g = q.request_buffer().unwrap();
    assert_eq!(g.enqueue(&mut q, -50), Err(Error::HostStatus(-50)));
    assert_eq!(q.state(0), BufferState::Lost);
    assert!(!q.complete(0));
    assert_eq!(q.available_count(), 1);
}

#[test]
fn completion_of_a_buffer_not_enqueued_is_ignored() {
    let mut q = AudioQueueOutput::new(SampleFormat::F32, SampleFormat::F32, 2, 8).unwrap();
    assert!(!q.complete(0));
    assert!(!q.complete(7));
    let g = q.request_buffer().unwrap();
    assert!(!q.complete(g.index()));
    assert_eq!(q.available_count(), 1);
}

#[test]
fn start_and_stop_report_host_status() {
    let mut q = AudioQueueOutput::new(SampleFormat::F32, SampleFormat::F32, 1, 8).unwrap();
    assert_eq!(q.start(-1), Err(Error::HostStatus(-1)));
    assert!(!q.is_running());
    q.start(0).unwrap();
    assert_eq!(q.stop(12), Err(Error::HostStatus(12)));
    assert!(q.is_running());
}

#[test]
fn new_buffers_are_owned_views_are_not() {
    let b = AudioQueueBuffer::new(64, SampleFormat::I16);
    assert!(b.is_owned());
    assert_eq!((b.len(), b.capacity(), b.capacity_bytes()), (0, 32, 64));
    let v = AudioQueueBuffer::borrowed(64, 10, SampleFormat::I16);
    assert!(!v.is_owned());
    assert_eq!(v.len(), 5);
}

#[test]
fn format_mismatch_whatever_the_buffer_size() {
    let r = AudioQueueOutput::new(SampleFormat::I8, SampleFormat::F32, 3, usize::MAX);
    assert!(matches!(r, Err(Error::FormatMismatch)));
}

#[test]
fn each_dispatch_reaches_the_callback_once() {
    let mut q = AudioQueueInput::new(SampleFormat::F32, SampleFormat::F32, Recorder { calls: Vec::new() })
        .unwrap();
    let a = Stamp { sample_time: 0.0, host_time: 1 };
    let b = Stamp { sample_time: 256.0, host_time: 2 };
    q.dispatch(a, 1024, 1024);
    q.dispatch(b, 1024, 12);
    assert_eq!(q.callback().calls, vec![(a, 256, 256), (b, 3, 256)]);
}
