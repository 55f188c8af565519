use vstd::prelude::*;

verus! {

/// Number of samples a wire record carries room for.
pub const AUDIO_BUFFER_SIZE: usize = 2048;

/// Bytes of header in front of the samples: two little-endian `i32` fields.
pub const METADATA_SIZE: usize = 8;

/// Total bytes of one wire record.
pub const BUFFER_SIZE: usize = AUDIO_BUFFER_SIZE * 4 + METADATA_SIZE;

/// Frames that must have accumulated, unread, before playback may start.
pub const PREBUFFER_SIZE: usize = 5;

} // verus!
