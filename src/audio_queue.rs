use vstd::prelude::*;

use crate::error::{status_result, Error, OSStatus};
use crate::sample_format::{sample_size, SampleFormat};

verus! {

/// The smaller of two naturals.
pub open spec fn min_nat(a: nat, b: nat) -> nat {
    if a <= b {
        a
    } else {
        b
    }
}

/// `after` is `before` with its logical length set to `len` samples, clamped
/// to the capacity: a whole number of samples, nothing else changed.
pub open spec fn resized(before: AudioQueueBuffer, after: AudioQueueBuffer, len: usize) -> bool {
    &&& after.wf()
    &&& after.len_spec() == min_nat(len as nat, before.capacity_spec())
    &&& after.byte_size_spec() == after.len_spec() * after.sample_size_spec()
    &&& after.capacity_bytes_spec() == before.capacity_bytes_spec()
    &&& after.sample_size_spec() == before.sample_size_spec()
    &&& after.owned_spec() == before.owned_spec()
}

/// The view of a host-owned region of `capacity_bytes` bytes that the host
/// filled with `byte_size` bytes of `format` samples.
pub closed spec fn host_view(capacity_bytes: u32, byte_size: u32, format: SampleFormat) -> AudioQueueBuffer {
    AudioQueueBuffer {
        capacity_bytes,
        byte_size,
        sample_size: sample_size(format) as usize,
        free_on_drop: false,
    }
}

/// One region of sample memory handed between the application and the host.
///
/// The region has a fixed capacity in bytes and a logical length in bytes
/// that never exceeds it. An owned buffer is released by its pool at
/// teardown; a borrowed one is a view of memory that the host keeps.
pub struct AudioQueueBuffer {
    capacity_bytes: u32,
    byte_size: u32,
    sample_size: usize,
    free_on_drop: bool,
}

impl AudioQueueBuffer {
    /// The capacity of the region in bytes.
    pub closed spec fn capacity_bytes_spec(&self) -> nat {
        self.capacity_bytes as nat
    }

    /// The logical length of the region in bytes.
    pub closed spec fn byte_size_spec(&self) -> nat {
        self.byte_size as nat
    }

    /// The size in bytes of one sample.
    pub closed spec fn sample_size_spec(&self) -> nat {
        self.sample_size as nat
    }

    /// Whether the region belongs to the buffer and is released with it.
    pub closed spec fn owned_spec(&self) -> bool {
        self.free_on_drop
    }

    /// The logical length in samples.
    pub open spec fn len_spec(&self) -> nat {
        self.byte_size_spec() / self.sample_size_spec()
    }

    /// The capacity in samples.
    pub open spec fn capacity_spec(&self) -> nat {
        self.capacity_bytes_spec() / self.sample_size_spec()
    }

    /// The length never exceeds the capacity and a sample has a size.
    pub open spec fn wf(&self) -> bool {
        &&& 1 <= self.sample_size_spec() <= 4
        &&& self.byte_size_spec() <= self.capacity_bytes_spec()
    }

    /// A buffer that owns a region of `capacity_bytes` bytes, logically empty.
    pub fn new(capacity_bytes: u32, format: SampleFormat) -> (r: Self)
        ensures
            r.wf(),
            r.capacity_bytes_spec() == capacity_bytes,
            r.byte_size_spec() == 0,
            r.sample_size_spec() == sample_size(format),
            r.owned_spec(),
    {
        AudioQueueBuffer {
            capacity_bytes,
            byte_size: 0,
            sample_size: format.size_in_bytes(),
            free_on_drop: true,
        }
    }

    /// A non-owning view of a region that the host filled with `byte_size`
    /// bytes out of `capacity_bytes`.
    pub fn borrowed(capacity_bytes: u32, byte_size: u32, format: SampleFormat) -> (r: Self)
        requires
            byte_size <= capacity_bytes,
        ensures
            r.wf(),
            r.capacity_bytes_spec() == capacity_bytes,
            r.byte_size_spec() == byte_size,
            r.sample_size_spec() == sample_size(format),
            !r.owned_spec(),
            r == host_view(capacity_bytes, byte_size, format),
    {
        AudioQueueBuffer {
            capacity_bytes,
            byte_size,
            sample_size: format.size_in_bytes(),
            free_on_drop: false,
        }
    }

    /// The logical length in samples.
    pub fn len(&self) -> (r: usize)
        requires
            self.wf(),
        ensures
            r == self.len_spec(),
    {
        self.byte_size as usize / self.sample_size
    }

    /// The capacity in samples.
    pub fn capacity(&self) -> (r: usize)
        requires
            self.wf(),
        ensures
            r == self.capacity_spec(),
    {
        self.capacity_bytes as usize / self.sample_size
    }

    /// The logical length in bytes.
    pub fn byte_size(&self) -> (r: u32)
        ensures
            r == self.byte_size_spec(),
    {
        self.byte_size
    }

    /// The capacity in bytes.
    pub fn capacity_bytes(&self) -> (r: u32)
        ensures
            r == self.capacity_bytes_spec(),
    {
        self.capacity_bytes
    }

    /// Whether the region is released together with this buffer.
    pub fn is_owned(&self) -> (r: bool)
        ensures
            r == self.owned_spec(),
    {
        self.free_on_drop
    }

    /// Sets the logical length to `len` samples, clamped to the capacity.
    ///
    /// The byte length becomes a whole number of samples; nothing else changes.
    pub fn resize(&mut self, len: usize)
        requires
            old(self).wf(),
        ensures
            resized(*old(self), *final(self), len),
    {
        let ss = self.sample_size;
        let max = self.capacity_bytes as usize / ss;
        let clamped = if len < max { len } else { max };
        let cap = self.capacity_bytes as usize;
        proof {
            assert(clamped * ss <= max * ss) by (nonlinear_arith)
                requires clamped <= max, ss >= 1;
            assert(max * ss <= cap) by (nonlinear_arith)
                requires max == cap / ss, ss >= 1;
            assert(((clamped as int) * (ss as int)) / (ss as int) == clamped as int) by (nonlinear_arith)
                requires ss >= 1;
        }
        self.byte_size = (clamped * ss) as u32;
    }
}

/// Where one buffer identity of an output stream stands.
#[derive(Debug, Clone, Copy, PartialEq, Eq, Structural)]
pub enum BufferState {
    /// Waiting in the exchange channel to be requested.
    Available,
    /// Handed to the application through a guard.
    Borrowed,
    /// Handed to the host for playback.
    Enqueued,
    /// The host refused to take it; it does not come back.
    Lost,
}

/// One step of tearing a stream down.
#[derive(Debug, Clone, Copy, PartialEq, Eq, Structural)]
pub enum TeardownStep {
    /// Stop the stream, waiting until the host makes no further calls.
    Stop,
    /// Free the host region of the buffer with this identity.
    FreeBuffer(usize),
    /// Dispose of the host's stream handle.
    Dispose,
    /// Release the callback that the host was calling.
    ReleaseCallback,
}

/// The order in which an output stream of `count` buffers is torn down:
/// stop, free every buffer by identity, dispose of the stream, and only then
/// release the callback, which no host call can reach any more.
pub open spec fn output_teardown(count: nat) -> Seq<TeardownStep> {
    seq![TeardownStep::Stop] + Seq::new(count, |i: int| TeardownStep::FreeBuffer(i as usize)) + seq![
        TeardownStep::Dispose,
        TeardownStep::ReleaseCallback,
    ]
}

/// The order in which an input stream is torn down.
pub open spec fn input_teardown() -> Seq<TeardownStep> {
    seq![TeardownStep::Stop, TeardownStep::Dispose, TeardownStep::ReleaseCallback]
}

/// Exclusive, temporary access to one buffer of an output stream.
///
/// A guard is consumed exactly once: by `enqueue`, which hands the buffer
/// to the host, or by `release`, which returns it to the channel at once.
pub struct BorrowedAudioQueueBuffer {
    index: usize,
}

/// A stream that the host plays from a fixed pool of buffers.
///
/// Each buffer has an identity, its index in the pool. The exchange channel
/// holds the identities that are available, first in, first out. The host's
/// completion of a buffer puts its identity back on the channel.
pub struct AudioQueueOutput {
    format: SampleFormat,
    buffers: Vec<AudioQueueBuffer>,
    states: Vec<BufferState>,
    next_buffer: Vec<usize>,
    running: bool,
}

impl BorrowedAudioQueueBuffer {
    /// The identity of the borrowed buffer.
    pub closed spec fn index_spec(&self) -> nat {
        self.index as nat
    }

    /// The identity of the borrowed buffer.
    pub fn index(&self) -> (r: usize)
        ensures
            r == self.index_spec(),
    {
        self.index
    }
}

impl AudioQueueOutput {
    /// The sample format of the stream.
    pub closed spec fn format_spec(&self) -> SampleFormat {
        self.format
    }

    /// The pool, by identity.
    pub closed spec fn buffers_spec(&self) -> Seq<AudioQueueBuffer> {
        self.buffers@
    }

    /// The state of each identity.
    pub closed spec fn states(&self) -> Seq<BufferState> {
        self.states@
    }

    /// The identities waiting in the exchange channel, the next one first.
    pub closed spec fn channel(&self) -> Seq<usize> {
        self.next_buffer@
    }

    /// Whether the host was last told to run the stream.
    pub closed spec fn running_spec(&self) -> bool {
        self.running
    }

    /// The number of buffers in the pool.
    pub open spec fn count_spec(&self) -> nat {
        self.states().len()
    }

    /// Whether `g` is a guard that is still out on this stream.
    pub open spec fn is_live(&self, g: BorrowedAudioQueueBuffer) -> bool {
        &&& g.index_spec() < self.count_spec()
        &&& self.states()[g.index_spec() as int] == BufferState::Borrowed
    }

    /// The pool's invariant: every buffer is owned and sized for the format,
    /// and the channel holds each available identity exactly once and no
    /// other.
    pub open spec fn wf(&self) -> bool {
        &&& self.count_spec() <= usize::MAX
        &&& self.buffers_spec().len() == self.count_spec()
        &&& forall|i: int|
            0 <= i < self.count_spec() ==> {
                &&& (#[trigger] self.buffers_spec()[i]).wf()
                &&& self.buffers_spec()[i].owned_spec()
                &&& self.buffers_spec()[i].byte_size_spec() % self.buffers_spec()[i].sample_size_spec() == 0
                &&& self.buffers_spec()[i].sample_size_spec() == sample_size(self.format_spec())
            }
        &&& forall|k: int|
            0 <= k < self.channel().len() ==> {
                &&& (#[trigger] self.channel()[k]) < self.count_spec()
                &&& self.states()[self.channel()[k] as int] == BufferState::Available
            }
        &&& forall|i: int|
            0 <= i < self.count_spec() && #[trigger] self.states()[i] == BufferState::Available
                ==> self.channel().contains(i as usize)
        &&& self.channel().no_duplicates()
    }

    /// What a request does to `before`: with the channel empty nothing
    /// happens and no guard comes; else the first identity of the channel
    /// leaves it and is borrowed by the guard that comes.
    pub open spec fn requested(before: Self, after: Self, r: Option<BorrowedAudioQueueBuffer>) -> bool {
        if before.channel().len() == 0 {
            &&& r is None
            &&& after == before
        } else {
            let i = before.channel()[0];
            &&& r is Some
            &&& r->Some_0.index_spec() == i
            &&& after.channel() == before.channel().drop_first()
            &&& after.states() == before.states().update(i as int, BufferState::Borrowed)
            &&& after.buffers_spec() == before.buffers_spec()
            &&& after.format_spec() == before.format_spec()
            &&& after.running_spec() == before.running_spec()
        }
    }

    /// What giving back the guard for identity `i` does: the identity goes to
    /// the back of the channel, with nothing asked of the host.
    pub open spec fn released(before: Self, after: Self, i: nat) -> bool {
        &&& after.channel() == before.channel().push(i as usize)
        &&& after.states() == before.states().update(i as int, BufferState::Available)
        &&& after.buffers_spec() == before.buffers_spec()
        &&& after.format_spec() == before.format_spec()
        &&& after.running_spec() == before.running_spec()
    }

    /// Creates the pool of an output stream: `buffer_count` buffers of
    /// `buffer_size` samples each, all available, in the channel by identity.
    ///
    /// `sample` is the caller's sample representation and `format` the
    /// stream's; when they differ nothing is created.
    pub fn new(sample: SampleFormat, format: SampleFormat, buffer_count: usize, buffer_size: usize)
        -> (r: Result<Self, Error>)
        requires
            sample == format ==> buffer_size * sample_size(format) <= u32::MAX,
        ensures
            sample != format ==> r == Err::<Self, Error>(Error::FormatMismatch),
            sample == format ==> r is Ok,
            r matches Ok(o) ==> {
                &&& o.wf()
                &&& o.format_spec() == format
                &&& o.count_spec() == buffer_count
                &&& o.channel() == Seq::new(buffer_count as nat, |i: int| i as usize)
                &&& !o.running_spec()
                &&& forall|i: int|
                    0 <= i < buffer_count ==> {
                        &&& #[trigger] o.states()[i] == BufferState::Available
                        &&& o.buffers_spec()[i].capacity_bytes_spec() == buffer_size * sample_size(format)
                        &&& o.buffers_spec()[i].byte_size_spec() == 0
                    }
            },
    {
        if sample != format {
            return Err(Error::FormatMismatch);
        }
        let ss = format.size_in_bytes();
        let capacity = (buffer_size * ss) as u32;
        let mut buffers: Vec<AudioQueueBuffer> = Vec::new();
        let mut states: Vec<BufferState> = Vec::new();
        let mut next_buffer: Vec<usize> = Vec::new();
        let mut idx: usize = 0;
        while idx < buffer_count
            invariant
                idx <= buffer_count,
                capacity == buffer_size * sample_size(format),
                buffers@.len() == idx,
                states@.len() == idx,
                next_buffer@ == Seq::new(idx as nat, |i: int| i as usize),
                forall|i: int|
                    0 <= i < idx ==> {
                        &&& (#[trigger] buffers@[i]).wf()
                        &&& buffers@[i].owned_spec()
                        &&& buffers@[i].sample_size_spec() == sample_size(format)
                        &&& buffers@[i].capacity_bytes_spec() == capacity
                        &&& buffers@[i].byte_size_spec() == 0
                    },
                forall|i: int| 0 <= i < idx ==> #[trigger] states@[i] == BufferState::Available,
            decreases buffer_count - idx,
        {
            buffers.push(AudioQueueBuffer::new(capacity, format));
            states.push(BufferState::Available);
            next_buffer.push(idx);
            proof {
                assert(next_buffer@ =~= Seq::new((idx + 1) as nat, |i: int| i as usize));
            }
            idx = idx + 1;
        }
        let o = AudioQueueOutput { format, buffers, states, next_buffer, running: false };
        proof {
            assert forall|i: int|
                0 <= i < o.count_spec() && #[trigger] o.states()[i] == BufferState::Available
                implies o.channel().contains(i as usize) by {
                assert(o.channel()[i] == i as usize);
            }
        }
        Ok(o)
    }

    /// The number of buffers in the pool.
    pub fn buffer_count(&self) -> (r: usize)
        requires
            self.wf(),
        ensures
            r == self.count_spec(),
    {
        self.states.len()
    }

    /// The number of identities waiting in the channel.
    pub fn available_count(&self) -> (r: usize)
        ensures
            r == self.channel().len(),
    {
        self.next_buffer.len()
    }

    /// The state of identity `index`.
    pub fn state(&self, index: usize) -> (r: BufferState)
        requires
            index < self.count_spec(),
        ensures
            r == self.states()[index as int],
    {
        self.states[index]
    }

    /// The buffer with identity `index`.
    pub fn buffer(&self, index: usize) -> (r: &AudioQueueBuffer)
        requires
            self.wf(),
            index < self.count_spec(),
        ensures
            *r == self.buffers_spec()[index as int],
    {
        &self.buffers[index]
    }

    /// Takes the next available identity out of the channel and hands it out
    /// in a guard; gives `None`, changing nothing, when none is available.
    ///
    /// The caller waits for a completion from the host before asking again.
    pub fn request_buffer(&mut self) -> (r: Option<BorrowedAudioQueueBuffer>)
        requires
            old(self).wf(),
        ensures
            final(self).wf(),
            Self::requested(*old(self), *final(self), r),
    {
        if self.next_buffer.len() == 0 {
            return None;
        }
        let index = self.next_buffer.remove(0);
        self.states.set(index, BufferState::Borrowed);
        proof {
            let o = *old(self);
            assert(index == o.channel()[0]);
            assert(self.channel() =~= o.channel().drop_first());
            assert forall|k: int| 0 <= k < self.channel().len() implies
                #[trigger] self.channel()[k] != index by {
                assert(self.channel()[k] == o.channel()[k + 1]);
            }
            assert forall|i: int|
                0 <= i < self.count_spec() && #[trigger] self.states()[i] == BufferState::Available
                implies self.channel().contains(i as usize) by {
                assert(i != index as int);
                assert(o.states()[i] == BufferState::Available);
                let k = choose|k: int| 0 <= k < o.channel().len() && o.channel()[k] == i as usize;
                assert(o.channel()[k] == i as usize);
                assert(k != 0);
                assert(self.channel()[k - 1] == i as usize);
            }
        }
        Some(BorrowedAudioQueueBuffer { index })
    }

    /// Reports that the host finished playing buffer `index`: an enqueued
    /// identity goes back to the channel and `true` comes back; for any other
    /// identity nothing changes and `false` comes back.
    pub fn complete(&mut self, index: usize) -> (r: bool)
        requires
            old(self).wf(),
        ensures
            final(self).wf(),
            r == (index < old(self).count_spec()
                && old(self).states()[index as int] == BufferState::Enqueued),
            r ==> Self::released(*old(self), *final(self), index as nat),
            !r ==> *final(self) == *old(self),
    {
        if index >= self.states.len() || self.states[index] != BufferState::Enqueued {
            return false;
        }
        self.make_available(index);
        true
    }

    /// Puts identity `index`, which is not in the channel, back on it.
    fn make_available(&mut self, index: usize)
        requires
            old(self).wf(),
            index < old(self).count_spec(),
            old(self).states()[index as int] != BufferState::Available,
        ensures
            final(self).wf(),
            Self::released(*old(self), *final(self), index as nat),
    {
        proof {
            let o = *old(self);
            assert(!o.channel().contains(index));
        }
        self.next_buffer.push(index);
        self.states.set(index, BufferState::Available);
        proof {
            let o = *old(self);
            assert forall|i: int|
                0 <= i < self.count_spec() && #[trigger] self.states()[i] == BufferState::Available
                implies self.channel().contains(i as usize) by {
                if i != index {
                    let k = choose|k: int| 0 <= k < o.channel().len() && o.channel()[k] == i as usize;
                    assert(self.channel()[k] == i as usize);
                } else {
                    assert(self.channel()[o.channel().len() as int] == index);
                }
            }
            assert forall|k: int| 0 <= k < self.channel().len() implies {
                &&& (#[trigger] self.channel()[k]) < self.count_spec()
                &&& self.states()[self.channel()[k] as int] == BufferState::Available
            } by {
                if k < o.channel().len() {
                    assert(self.channel()[k] == o.channel()[k]);
                }
            }
        }
    }

    /// Records the host's answer to starting the stream.
    pub fn start(&mut self, status: OSStatus) -> (r: Result<(), Error>)
        requires
            old(self).wf(),
        ensures
            final(self).wf(),
            r == status_result(status),
            final(self).running_spec() == (status == 0 || old(self).running_spec()),
            final(self).channel() == old(self).channel(),
            final(self).states() == old(self).states(),
            final(self).buffers_spec() == old(self).buffers_spec(),
            final(self).format_spec() == old(self).format_spec(),
    {
        let r = Error::from_os_status(status);
        if r.is_ok() {
            self.running = true;
        }
        r
    }

    /// Records the host's answer to stopping the stream; once it succeeded
    /// the host makes no further completion calls.
    pub fn stop(&mut self, status: OSStatus) -> (r: Result<(), Error>)
        requires
            old(self).wf(),
        ensures
            final(self).wf(),
            r == status_result(status),
            final(self).running_spec() == (status != 0 && old(self).running_spec()),
            final(self).channel() == old(self).channel(),
            final(self).states() == old(self).states(),
            final(self).buffers_spec() == old(self).buffers_spec(),
            final(self).format_spec() == old(self).format_spec(),
    {
        let r = Error::from_os_status(status);
        if r.is_ok() {
            self.running = false;
        }
        r
    }

    /// Whether the host was last told to run the stream.
    pub fn is_running(&self) -> (r: bool)
        ensures
            r == self.running_spec(),
    {
        self.running
    }

    /// The steps that tear this stream down, in order.
    pub fn teardown_plan(&self) -> (r: Vec<TeardownStep>)
        requires
            self.wf(),
        ensures
            r@ == output_teardown(self.count_spec()),
    {
        let mut plan: Vec<TeardownStep> = Vec::new();
        plan.push(TeardownStep::Stop);
        let n = self.states.len();
        let mut i: usize = 0;
        while i < n
            invariant
                n == self.count_spec(),
                i <= n,
                plan@ == seq![TeardownStep::Stop] + Seq::new(i as nat, |k: int| TeardownStep::FreeBuffer(k as usize)),
            decreases n - i,
        {
            plan.push(TeardownStep::FreeBuffer(i));
            proof {
                assert(plan@ =~= seq![TeardownStep::Stop] + Seq::new((i + 1) as nat, |k: int| TeardownStep::FreeBuffer(k as usize)));
            }
            i = i + 1;
        }
        plan.push(TeardownStep::Dispose);
        plan.push(TeardownStep::ReleaseCallback);
        proof {
            assert(plan@ =~= output_teardown(self.count_spec()));
        }
        plan
    }
}

impl BorrowedAudioQueueBuffer {
    /// Commits the guard: the buffer has been handed to the host, which
    /// answered `status`. On success the identity is enqueued and comes back
    /// through `complete`; on failure it is lost and the host's status is the
    /// error.
    pub fn enqueue(self, output: &mut AudioQueueOutput, status: OSStatus) -> (r: Result<(), Error>)
        requires
            old(output).wf(),
            old(output).is_live(self),
        ensures
            final(output).wf(),
            r == status_result(status),
            final(output).states() == old(output).states().update(
                self.index_spec() as int,
                if status == 0 {
                    BufferState::Enqueued
                } else {
                    BufferState::Lost
                },
            ),
            final(output).channel() == old(output).channel(),
            final(output).buffers_spec() == old(output).buffers_spec(),
            final(output).format_spec() == old(output).format_spec(),
            final(output).running_spec() == old(output).running_spec(),
    {
        let r = Error::from_os_status(status);
        let next = if r.is_ok() {
            BufferState::Enqueued
        } else {
            BufferState::Lost
        };
        output.states.set(self.index, next);
        proof {
            let o = *old(output);
            assert forall|k: int| 0 <= k < output.channel().len() implies {
                &&& (#[trigger] output.channel()[k]) < output.count_spec()
                &&& output.states()[output.channel()[k] as int] == BufferState::Available
            } by {
                assert(o.states()[o.channel()[k] as int] == BufferState::Available);
            }
        }
        r
    }

    /// Gives the guard back without committing it: the identity returns to
    /// the channel at once, with nothing asked of the host.
    pub fn release(self, output: &mut AudioQueueOutput)
        requires
            old(output).wf(),
            old(output).is_live(self),
        ensures
            final(output).wf(),
            AudioQueueOutput::released(*old(output), *final(output), self.index_spec()),
    {
        output.make_available(self.index);
    }

    /// Sets the logical length of the borrowed buffer to `len` samples,
    /// clamped to its capacity.
    pub fn resize(&self, output: &mut AudioQueueOutput, len: usize)
        requires
            old(output).wf(),
            old(output).is_live(*self),
        ensures
            final(output).wf(),
            final(output).buffers_spec().len() == old(output).buffers_spec().len(),
            resized(
                old(output).buffers_spec()[self.index_spec() as int],
                final(output).buffers_spec()[self.index_spec() as int],
                len,
            ),
            forall|i: int|
                0 <= i < old(output).count_spec() && i != self.index_spec() ==>
                    #[trigger] final(output).buffers_spec()[i] == old(output).buffers_spec()[i],
            final(output).states() == old(output).states(),
            final(output).channel() == old(output).channel(),
            final(output).format_spec() == old(output).format_spec(),
            final(output).running_spec() == old(output).running_spec(),
    {
        let mut b = AudioQueueBuffer {
            capacity_bytes: output.buffers[self.index].capacity_bytes,
            byte_size: output.buffers[self.index].byte_size,
            sample_size: output.buffers[self.index].sample_size,
            free_on_drop: output.buffers[self.index].free_on_drop,
        };
        b.resize(len);
        proof {
            let n = b.len_spec();
            let ss = b.sample_size_spec();
            assert((n * ss) % ss == 0) by (nonlinear_arith)
                requires ss >= 1;
        }
        output.buffers.set(self.index, b);
    }

    /// The borrowed buffer.
    pub fn buffer<'a>(&self, output: &'a AudioQueueOutput) -> (r: &'a AudioQueueBuffer)
        requires
            output.wf(),
            output.is_live(*self),
        ensures
            *r == output.buffers_spec()[self.index_spec() as int],
    {
        output.buffer(self.index)
    }
}

/// Receives the buffers that the host fills on an input stream.
///
/// The host calls it from its realtime context: it must return promptly and
/// must not keep the buffer past the call.
pub trait InputCallback<Stamp>: Sized {
    /// The captures handed to the callback so far, in order: each one's
    /// start time and buffer view.
    ///
    /// An implementation that Verus checks defines it; the closed default
    /// lets an implementation written in plain Rust compile without one.
    closed spec fn received(&self) -> Seq<(Stamp, AudioQueueBuffer)> {
        Seq::empty()
    }

    /// Receives one capture.
    fn audio_input(&mut self, start_time: Stamp, buffer: &AudioQueueBuffer)
        ensures
            final(self).received() == old(self).received().push((start_time, *buffer)),
    ;
}

/// A stream that the host records into, handing each filled buffer to a
/// callback.
pub struct AudioQueueInput<C> {
    format: SampleFormat,
    callback: C,
    running: bool,
}

impl<C> AudioQueueInput<C> {
    /// The sample format of the stream.
    pub closed spec fn format_spec(&self) -> SampleFormat {
        self.format
    }

    /// Whether the host was last told to run the stream.
    pub closed spec fn running_spec(&self) -> bool {
        self.running
    }

    /// The callback that receives the captures.
    pub closed spec fn callback_spec(&self) -> C {
        self.callback
    }

    /// Creates an input stream that hands its buffers to `callback`.
    ///
    /// `sample` is the caller's sample representation and `format` the
    /// stream's; when they differ nothing is created.
    pub fn new(sample: SampleFormat, format: SampleFormat, callback: C) -> (r: Result<Self, Error>)
        ensures
            sample != format <==> r is Err,
            r is Err ==> r->Err_0 == Error::FormatMismatch,
            r matches Ok(i) ==> i.format_spec() == format && !i.running_spec() && i.callback_spec() == callback,
    {
        if sample != format {
            return Err(Error::FormatMismatch);
        }
        Ok(AudioQueueInput { format, callback, running: false })
    }

    /// Hands one buffer that the host filled with `byte_size` bytes out of
    /// `capacity_bytes` to the callback, with the capture time, as a view
    /// that does not own the host's memory.
    pub fn dispatch<Stamp>(&mut self, start_time: Stamp, capacity_bytes: u32, byte_size: u32)
        where C: InputCallback<Stamp>,
        requires
            byte_size <= capacity_bytes,
        ensures
            final(self).callback_spec().received() == old(self).callback_spec().received().push(
                (start_time, host_view(capacity_bytes, byte_size, old(self).format_spec())),
            ),
            final(self).format_spec() == old(self).format_spec(),
            final(self).running_spec() == old(self).running_spec(),
    {
        let view = AudioQueueBuffer::borrowed(capacity_bytes, byte_size, self.format);
        self.callback.audio_input(start_time, &view);
    }

    /// Records the host's answer to starting the stream.
    pub fn start(&mut self, status: OSStatus) -> (r: Result<(), Error>)
        ensures
            r == status_result(status),
            final(self).running_spec() == (status == 0 || old(self).running_spec()),
            final(self).format_spec() == old(self).format_spec(),
    {
        let r = Error::from_os_status(status);
        if r.is_ok() {
            self.running = true;
        }
        r
    }

    /// Records the host's answer to stopping the stream; once it succeeded
    /// the host makes no further calls of the callback.
    pub fn stop(&mut self, status: OSStatus) -> (r: Result<(), Error>)
        ensures
            r == status_result(status),
            final(self).running_spec() == (status != 0 && old(self).running_spec()),
            final(self).format_spec() == old(self).format_spec(),
    {
        let r = Error::from_os_status(status);
        if r.is_ok() {
            self.running = false;
        }
        r
    }

    /// Whether the host was last told to run the stream.
    pub fn is_running(&self) -> (r: bool)
        ensures
            r == self.running_spec(),
    {
        self.running
    }

    /// The callback, for reading what it gathered.
    pub fn callback(&self) -> (r: &C)
        ensures
            *r == self.callback_spec(),
    {
        &self.callback
    }

    /// The steps that tear this stream down, in order.
    pub fn teardown_plan(&self) -> (r: Vec<TeardownStep>)
        ensures
            r@ == input_teardown(),
    {
        let mut plan: Vec<TeardownStep> = Vec::new();
        plan.push(TeardownStep::Stop);
        plan.push(TeardownStep::Dispose);
        plan.push(TeardownStep::ReleaseCallback);
        proof {
            assert(plan@ =~= input_teardown());
        }
        plan
    }
}

/// A request never hands out the identity of a guard that is still out:
/// the guard it returns differs from every live guard, and both are live
/// afterwards.
pub proof fn lemma_request_unique(
    before: AudioQueueOutput,
    after: AudioQueueOutput,
    r: BorrowedAudioQueueBuffer,
    g: BorrowedAudioQueueBuffer,
)
    requires
        before.wf(),
        AudioQueueOutput::requested(before, after, Some(r)),
        before.is_live(g),
    ensures
        r.index_spec() != g.index_spec(),
        after.is_live(r),
        after.is_live(g),
{
    assert(before.channel().len() > 0);
    assert(before.states()[before.channel()[0] as int] == BufferState::Available);
}

/// Resizing twice to the same length gives the same length both times.
pub proof fn lemma_resize_idempotent(
    b0: AudioQueueBuffer,
    b1: AudioQueueBuffer,
    b2: AudioQueueBuffer,
    len: usize,
)
    requires
        b0.wf(),
        resized(b0, b1, len),
        resized(b1, b2, len),
    ensures
        b2.len_spec() == b1.len_spec(),
        b2.byte_size_spec() == b1.byte_size_spec(),
{
}

/// Resizing to 1000 samples past the capacity gives the capacity; resizing
/// to zero gives zero.
pub proof fn lemma_resize_bounds(
    b0: AudioQueueBuffer,
    over: AudioQueueBuffer,
    empty: AudioQueueBuffer,
)
    requires
        b0.wf(),
        b0.capacity_spec() + 1000 <= usize::MAX,
        resized(b0, over, (b0.capacity_spec() + 1000) as usize),
        resized(b0, empty, 0),
    ensures
        over.len_spec() == b0.capacity_spec(),
        empty.len_spec() == 0,
{
}

/// Giving back a guard without committing it makes its identity available
/// again at once, with the pool and the stream's state untouched; when no
/// other identity was waiting, the very next request returns it.
pub proof fn lemma_release_then_request(
    o0: AudioQueueOutput,
    g: BorrowedAudioQueueBuffer,
    o1: AudioQueueOutput,
    o2: AudioQueueOutput,
    r: Option<BorrowedAudioQueueBuffer>,
)
    requires
        o0.wf(),
        o0.is_live(g),
        AudioQueueOutput::released(o0, o1, g.index_spec()),
        AudioQueueOutput::requested(o1, o2, r),
    ensures
        o1.states()[g.index_spec() as int] == BufferState::Available,
        o1.channel().contains(g.index_spec() as usize),
        o1.buffers_spec() == o0.buffers_spec(),
        o1.running_spec() == o0.running_spec(),
        o0.channel().len() == 0 ==> r is Some && r->Some_0.index_spec() == g.index_spec(),
{
    assert(o1.channel()[o0.channel().len() as int] == g.index_spec() as usize);
}

/// The view handed to an input callback has the length the host filled,
/// not the region's capacity, and does not own the host's memory.
pub proof fn lemma_host_view(capacity_bytes: u32, byte_size: u32, format: SampleFormat)
    requires
        byte_size <= capacity_bytes,
    ensures
        host_view(capacity_bytes, byte_size, format).wf(),
        host_view(capacity_bytes, byte_size, format).byte_size_spec() == byte_size,
        host_view(capacity_bytes, byte_size, format).capacity_bytes_spec() == capacity_bytes,
        host_view(capacity_bytes, byte_size, format).len_spec() == byte_size as nat / sample_size(format),
        !host_view(capacity_bytes, byte_size, format).owned_spec(),
{
}

/// The channel of a fresh pool of `n` buffers after `k` requests: the
/// identities from `min(k, n)` on, in order.
pub open spec fn fresh_channel_after(n: nat, k: nat) -> Seq<usize> {
    let m = if k <= n {
        k
    } else {
        n
    };
    Seq::new((n - m) as nat, |i: int| (i + m) as usize)
}

#[verifier::rlimit(40)]
proof fn lemma_fresh_channel(
    os: Seq<AudioQueueOutput>,
    rs: Seq<Option<BorrowedAudioQueueBuffer>>,
    n: nat,
    k: int,
)
    requires
        os.len() == rs.len() + 1,
        os[0].channel() == Seq::new(n, |i: int| i as usize),
        forall|j: int| 0 <= j < rs.len() ==> AudioQueueOutput::requested(#[trigger] os[j], os[j + 1], rs[j]),
        0 <= k < os.len(),
    ensures
        os[k].channel() == fresh_channel_after(n, k as nat),
    decreases k,
{
    if k == 0 {
        assert(os[0].channel() =~= fresh_channel_after(n, 0));
    } else {
        lemma_fresh_channel(os, rs, n, k - 1);
        assert(AudioQueueOutput::requested(os[k - 1], os[k], rs[k - 1]));
        if k - 1 < n {
            assert(os[k].channel() =~= fresh_channel_after(n, k as nat));
        } else {
            assert(os[k].channel() =~= fresh_channel_after(n, k as nat));
        }
    }
}

/// On a fresh pool of `n` buffers, all available in the channel by identity,
/// the first `n` requests hand out the identities 0, 1, ..., n - 1 in order
/// without waiting, and every later request finds none available.
#[verifier::rlimit(40)]
pub proof fn lemma_fresh_requests(
    os: Seq<AudioQueueOutput>,
    rs: Seq<Option<BorrowedAudioQueueBuffer>>,
    n: nat,
)
    requires
        os.len() == rs.len() + 1,
        os[0].wf(),
        os[0].count_spec() == n,
        os[0].channel() == Seq::new(n, |i: int| i as usize),
        forall|k: int| 0 <= k < rs.len() ==> AudioQueueOutput::requested(#[trigger] os[k], os[k + 1], rs[k]),
    ensures
        forall|k: int| 0 <= k < rs.len() && k < n ==> (#[trigger] rs[k]) is Some && rs[k]->Some_0.index_spec() == k,
        forall|k: int| n <= k < rs.len() ==> (#[trigger] rs[k]) is None,
{
    assert forall|k: int| 0 <= k < rs.len() && k < n implies (#[trigger] rs[k]) is Some
        && rs[k]->Some_0.index_spec() == k by {
        lemma_fresh_channel(os, rs, n, k);
        assert(AudioQueueOutput::requested(os[k], os[k + 1], rs[k]));
        assert(os[k].channel()[0] == k as usize);
    }
    assert forall|k: int| n <= k < rs.len() implies (#[trigger] rs[k]) is None by {
        lemma_fresh_channel(os, rs, n, k);
        assert(AudioQueueOutput::requested(os[k], os[k + 1], rs[k]));
    }
}

} // verus!
