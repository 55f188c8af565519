use vstd::prelude::*;

verus! {

/// Header carried by every wire record: the declared number of samples in the
/// frame and the sample rate in Hz.
#[derive(Debug, Clone, Copy, PartialEq, Eq, Structural)]
pub struct Metadata {
    pub sample_rate: i32,
    pub buffer_size: i32,
}

impl Default for Metadata {
    fn default() -> (m: Metadata)
        ensures
            m.sample_rate == 0,
            m.buffer_size == 0,
    {
        Metadata { sample_rate: 0, buffer_size: 0 }
    }
}

} // verus!
