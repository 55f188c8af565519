use vstd::prelude::*;

use crate::audiosource::AudioSource;
use crate::codec::{decode, decode_ok, decoded_frame, DecodeError};

verus! {

/// Configuration of the ingest listener: the TCP port it accepts stream
/// connections on. Accepting connections and reading records is I/O and
/// lives with the embedding program; every record read from a connection is
/// handed to `ingest_record`.
pub struct AudioSocketServer {
    pub port: u16,
}

impl AudioSocketServer {
    pub fn new(port: u16) -> (s: AudioSocketServer)
        ensures
            s.port == port,
    {
        AudioSocketServer { port }
    }
}

/// One iteration of a connection's read loop, once the record's bytes are in
/// hand: decode the record and append the resulting frame to the queue. A
/// malformed record is reported and leaves the queue exactly as it was — the
/// caller drops the connection rather than resynchronize. The cursor never
/// moves here.
pub fn ingest_record(source: &mut AudioSource, bytes: &Vec<u8>) -> (r: Result<(), DecodeError>)
    ensures
        match r {
            Ok(_) => decode_ok(bytes@) && final(source).frames() == old(source).frames().push(
                decoded_frame(bytes@),
            ) && final(source).current_buffer_idx == old(source).current_buffer_idx,
            Err(e) => !decode_ok(bytes@) && e == DecodeError::Truncated && *final(source) == *old(
                source,
            ),
        },
        old(source).wf() ==> final(source).wf(),
{
    match decode(bytes) {
        Ok(frame) => {
            source.add_buffer(frame);
            Ok(())
        },
        Err(e) => Err(e),
    }
}

} // verus!
