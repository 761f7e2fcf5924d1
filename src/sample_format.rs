use vstd::prelude::*;

verus! {

/// The encodings a stream's samples can have.
#[derive(Debug, Clone, Copy, PartialEq, Eq, Structural)]
pub enum SampleFormat {
    F32,
    I32,
    I24,
    I16,
    I8,
}

/// The number of bytes one sample of a format takes.
pub open spec fn sample_size(f: SampleFormat) -> nat {
    match f {
        SampleFormat::F32 => 4,
        SampleFormat::I32 => 4,
        SampleFormat::I24 => 3,
        SampleFormat::I16 => 2,
        SampleFormat::I8 => 1,
    }
}

impl SampleFormat {
    /// The number of bytes one sample of this format takes.
    pub fn size_in_bytes(&self) -> (r: usize)
        ensures
            r == sample_size(*self),
            1 <= r <= 4,
    {
        match self {
            SampleFormat::F32 => 4,
            SampleFormat::I32 => 4,
            SampleFormat::I24 => 3,
            SampleFormat::I16 => 2,
            SampleFormat::I8 => 1,
        }
    }
}

} // verus!
