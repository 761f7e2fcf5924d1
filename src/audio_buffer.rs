use vstd::prelude::*;

use crate::sample_format::{sample_size, SampleFormat};

verus! {

/// The layout of a buffer list with one interleaved buffer: the number of
/// channels, the size of its data in bytes, and the size of one sample.
pub struct AudioBufferList {
    number_channels: u32,
    data_byte_size: u32,
    sample_size: usize,
}

impl AudioBufferList {
    /// The number of interleaved channels.
    pub closed spec fn channels_spec(&self) -> nat {
        self.number_channels as nat
    }

    /// The size of the data in bytes.
    pub closed spec fn byte_size_spec(&self) -> nat {
        self.data_byte_size as nat
    }

    /// The size of one sample in bytes.
    pub closed spec fn sample_size_spec(&self) -> nat {
        self.sample_size as nat
    }

    /// A sample has a size.
    pub open spec fn wf(&self) -> bool {
        1 <= self.sample_size_spec() <= 4
    }

    /// The number of samples the data holds.
    pub open spec fn len_spec(&self) -> nat {
        self.byte_size_spec() / self.sample_size_spec()
    }

    /// Lays out a list for `size` frames of `channels` interleaved samples
    /// of `format`.
    pub fn new(channels: usize, size: usize, format: SampleFormat) -> (r: Self)
        requires
            channels <= u32::MAX,
            channels * size * sample_size(format) <= u32::MAX,
        ensures
            r.wf(),
            r.channels_spec() == channels,
            r.byte_size_spec() == channels * size * sample_size(format),
            r.sample_size_spec() == sample_size(format),
            r.len_spec() == channels * size,
    {
        let ss = format.size_in_bytes();
        proof {
            assert(channels * size <= channels * size * ss) by (nonlinear_arith)
                requires ss >= 1;
        }
        let len = channels * size;
        let byte_size = len * ss;
        proof {
            assert(((len as int) * (ss as int)) / (ss as int) == len as int) by (nonlinear_arith)
                requires ss >= 1;
        }
        AudioBufferList {
            number_channels: channels as u32,
            data_byte_size: byte_size as u32,
            sample_size: ss,
        }
    }

    /// The number of interleaved channels.
    pub fn number_channels(&self) -> (r: u32)
        ensures
            r == self.channels_spec(),
    {
        self.number_channels
    }

    /// The size of the data in bytes.
    pub fn data_byte_size(&self) -> (r: u32)
        ensures
            r == self.byte_size_spec(),
    {
        self.data_byte_size
    }

    /// The number of samples the data holds.
    pub fn len(&self) -> (r: usize)
        requires
            self.wf(),
        ensures
            r == self.len_spec(),
    {
        self.data_byte_size as usize / self.sample_size
    }
}

} // verus!
