use vstd::prelude::*;

use crate::audiobuffer::{AudioBuffer, FrameView};
use crate::config::METADATA_SIZE;
use crate::metadata::Metadata;

verus! {

/// Why a wire record failed to decode: it is too short for its own header, or
/// its sample region is shorter than the count the header declares.
#[derive(Debug, Clone, Copy, PartialEq, Eq, Structural)]
pub enum DecodeError {
    Truncated,
}

// ----- little-endian 32-bit words -----

pub open spec fn word_of_bytes(b0: u8, b1: u8, b2: u8, b3: u8) -> u32 {
    (b0 as u32) | ((b1 as u32) << 8) | ((b2 as u32) << 16) | ((b3 as u32) << 24)
}

pub open spec fn byte_of_word(w: u32, j: int) -> u8 {
    if j == 0 {
        (w & 0xff) as u8
    } else if j == 1 {
        ((w >> 8) & 0xff) as u8
    } else if j == 2 {
        ((w >> 16) & 0xff) as u8
    } else {
        ((w >> 24) & 0xff) as u8
    }
}

/// The word whose four little-endian bytes sit at `off .. off + 4`.
pub open spec fn word_at(bytes: Seq<u8>, off: int) -> u32 {
    word_of_bytes(bytes[off], bytes[off + 1], bytes[off + 2], bytes[off + 3])
}

/// Splitting a word into its four bytes and reassembling them gives the word
/// back.
pub proof fn lemma_word_of_bytes_of_word(w: u32)
    ensures
        word_of_bytes(
            byte_of_word(w, 0),
            byte_of_word(w, 1),
            byte_of_word(w, 2),
            byte_of_word(w, 3),
        ) == w,
{
    assert((((w & 0xff) as u8) as u32) | ((((w >> 8) & 0xff) as u8) as u32) << 8 | ((((w >> 16)
        & 0xff) as u8) as u32) << 16 | ((((w >> 24) & 0xff) as u8) as u32) << 24 == w)
        by (bit_vector);
}

// ----- two's-complement view of the header fields -----

pub open spec fn bits_of_i32(v: i32) -> u32 {
    if v >= 0 {
        v as u32
    } else {
        (v + 0x1_0000_0000) as u32
    }
}

pub open spec fn i32_of_bits(w: u32) -> i32 {
    if w < 0x8000_0000 {
        w as i32
    } else {
        (w - 0x1_0000_0000) as i32
    }
}

pub proof fn lemma_i32_bits_roundtrip(v: i32)
    ensures
        i32_of_bits(bits_of_i32(v)) == v,
{
}

fn word_to_i32(w: u32) -> (v: i32)
    ensures
        v == i32_of_bits(w),
{
    if w < 0x8000_0000 {
        w as i32
    } else {
        ((w as i64) - 0x1_0000_0000) as i32
    }
}

fn i32_to_word(v: i32) -> (w: u32)
    ensures
        w == bits_of_i32(v),
{
    if v >= 0 {
        v as u32
    } else {
        ((v as i64) + 0x1_0000_0000) as u32
    }
}

// ----- the wire record -----

/// The sample count the record's header declares.
pub open spec fn declared_size_of(bytes: Seq<u8>) -> i32 {
    i32_of_bits(word_at(bytes, 0))
}

/// The sample rate the record's header declares.
pub open spec fn rate_of(bytes: Seq<u8>) -> i32 {
    i32_of_bits(word_at(bytes, 4))
}

/// A record decodes iff it has a full header, the declared sample count is
/// non-negative, and at least that many whole samples follow the header.
/// Bytes beyond the declared samples are ignored.
pub open spec fn decode_ok(bytes: Seq<u8>) -> bool {
    &&& bytes.len() >= METADATA_SIZE as int
    &&& declared_size_of(bytes) >= 0
    &&& METADATA_SIZE as int + 4 * declared_size_of(bytes) <= bytes.len()
}

pub open spec fn decoded_frame(bytes: Seq<u8>) -> FrameView {
    FrameView {
        samples: Seq::new(
            declared_size_of(bytes) as nat,
            |i: int| word_at(bytes, METADATA_SIZE as int + 4 * i),
        ),
        sample_rate: rate_of(bytes) as int,
        buffer_size: declared_size_of(bytes) as int,
    }
}

pub open spec fn decode_spec(bytes: Seq<u8>) -> Result<FrameView, DecodeError> {
    if decode_ok(bytes) {
        Ok(decoded_frame(bytes))
    } else {
        Err(DecodeError::Truncated)
    }
}

pub open spec fn encoded_byte(f: FrameView, i: int) -> u8 {
    if i < 4 {
        byte_of_word(bits_of_i32(f.buffer_size as i32), i)
    } else if i < 8 {
        byte_of_word(bits_of_i32(f.sample_rate as i32), i - 4)
    } else {
        byte_of_word(f.samples[(i - 8) / 4], (i - 8) % 4)
    }
}

/// The encoded record: the two header words followed by every sample, all
/// little-endian.
pub open spec fn encode_spec(f: FrameView) -> Seq<u8> {
    Seq::new((8 + 4 * f.samples.len()) as nat, |i: int| encoded_byte(f, i))
}

proof fn lemma_quad_index(m: int, k: int)
    requires
        0 <= k < 4,
    ensures
        (4 * m + k) / 4 == m,
        (4 * m + k) % 4 == k,
{
    vstd::arithmetic::div_mod::lemma_fundamental_div_mod_converse(4 * m + k, 4, m, k);
}

fn read_word_le(bytes: &Vec<u8>, off: usize) -> (w: u32)
    requires
        off + 4 <= bytes@.len(),
    ensures
        w == word_at(bytes@, off as int),
{
    let len = bytes.len();
    assert(off + 4 <= len);
    (bytes[off] as u32) | ((bytes[off + 1] as u32) << 8) | ((bytes[off + 2] as u32) << 16) | ((
    bytes[off + 3] as u32) << 24)
}

fn push_word_le(out: &mut Vec<u8>, w: u32)
    ensures
        final(out)@ == old(out)@ + seq![
            byte_of_word(w, 0),
            byte_of_word(w, 1),
            byte_of_word(w, 2),
            byte_of_word(w, 3),
        ],
{
    out.push((w & 0xff) as u8);
    out.push(((w >> 8) & 0xff) as u8);
    out.push(((w >> 16) & 0xff) as u8);
    out.push(((w >> 24) & 0xff) as u8);
    proof {
        assert(out@ =~= old(out)@ + seq![
            byte_of_word(w, 0),
            byte_of_word(w, 1),
            byte_of_word(w, 2),
            byte_of_word(w, 3),
        ]);
    }
}

/// Serialize a frame into one wire record.
pub fn encode(frame: &AudioBuffer) -> (out: Vec<u8>)
    requires
        frame.wf(),
    ensures
        out@ == encode_spec(frame@),
        out@.len() == 8 + 4 * frame@.samples.len(),
{
    let ghost f = frame@;
    let mut out: Vec<u8> = Vec::new();
    let size_word = i32_to_word(frame.metadata.buffer_size);
    let rate_word = i32_to_word(frame.metadata.sample_rate);
    push_word_le(&mut out, size_word);
    push_word_le(&mut out, rate_word);
    let n = frame.samples.len();
    let mut i: usize = 0;
    while i < n
        invariant
            f == frame@,
            n == frame.samples@.len(),
            i <= n,
            out@.len() == 8 + 4 * i,
            forall|j: int| 0 <= j < out@.len() ==> out@[j] == encoded_byte(f, j),
        decreases n - i,
    {
        let w = frame.samples[i];
        push_word_le(&mut out, w);
        proof {
            assert forall|j: int| 8 + 4 * i <= j < 8 + 4 * (i + 1) implies out@[j]
                == encoded_byte(f, j) by {
                lemma_quad_index(i as int, j - 8 - 4 * i);
            }
        }
        i += 1;
    }
    proof {
        assert(out@ =~= encode_spec(f));
    }
    out
}

/// Parse one wire record. The record must hold a full header and at least as
/// many samples as the header declares; extra trailing bytes are ignored.
pub fn decode(bytes: &Vec<u8>) -> (r: Result<AudioBuffer, DecodeError>)
    ensures
        match r {
            Ok(frame) => decode_ok(bytes@) && frame@ == decoded_frame(bytes@) && frame.wf(),
            Err(e) => !decode_ok(bytes@) && e == DecodeError::Truncated,
        },
{
    if bytes.len() < METADATA_SIZE {
        return Err(DecodeError::Truncated);
    }
    let size_word = read_word_le(bytes, 0);
    let rate_word = read_word_le(bytes, 4);
    let declared = word_to_i32(size_word);
    let rate = word_to_i32(rate_word);
    if declared < 0 {
        return Err(DecodeError::Truncated);
    }
    let n = declared as usize;
    if (bytes.len() as u64) - (METADATA_SIZE as u64) < 4 * (n as u64) {
        return Err(DecodeError::Truncated);
    }
    let len = bytes.len();
    let mut samples: Vec<u32> = Vec::with_capacity(n);
    let mut i: usize = 0;
    while i < n
        invariant
            n == declared,
            len == bytes@.len(),
            METADATA_SIZE as int + 4 * n <= bytes@.len(),
            i <= n,
            samples@.len() == i,
            forall|j: int| 0 <= j < i ==> samples@[j] == word_at(
                bytes@,
                METADATA_SIZE as int + 4 * j,
            ),
        decreases n - i,
    {
        let w = read_word_le(bytes, METADATA_SIZE + 4 * i);
        samples.push(w);
        i += 1;
    }
    let frame = AudioBuffer {
        samples,
        metadata: Metadata { sample_rate: rate, buffer_size: declared },
    };
    proof {
        assert(frame@.samples =~= decoded_frame(bytes@).samples);
        assert(frame@ =~= decoded_frame(bytes@));
    }
    Ok(frame)
}

/// Whether `f` is internally consistent and encodable: its declared size
/// matches its sample count and both header fields fit their wire type.
pub open spec fn frame_encodable(f: FrameView) -> bool {
    &&& f.samples.len() == f.buffer_size
    &&& 0 <= f.buffer_size <= i32::MAX
    &&& i32::MIN <= f.sample_rate <= i32::MAX
}

/// The frame a record carries when every whole four-byte group after the
/// header is read as one sample, as the relay subsystem's byte parser does.
pub open spec fn raw_record_view(bytes: Seq<u8>) -> FrameView {
    FrameView {
        samples: Seq::new(
            ((bytes.len() - 8) / 4) as nat,
            |i: int| word_at(bytes, METADATA_SIZE as int + 4 * i),
        ),
        sample_rate: rate_of(bytes) as int,
        buffer_size: declared_size_of(bytes) as int,
    }
}

/// Reading an encoded record back sample group by sample group gives the
/// frame that was encoded.
pub proof fn lemma_raw_record_of_encode(f: FrameView)
    requires
        frame_encodable(f),
    ensures
        raw_record_view(encode_spec(f)) == f,
{
    let bytes = encode_spec(f);
    let n = f.samples.len() as int;
    assert(bytes.len() == 8 + 4 * n);
    lemma_quad_index(n, 0);
    assert((bytes.len() - 8) / 4 == n);
    lemma_word_of_bytes_of_word(bits_of_i32(f.buffer_size as i32));
    lemma_word_of_bytes_of_word(bits_of_i32(f.sample_rate as i32));
    lemma_i32_bits_roundtrip(f.buffer_size as i32);
    lemma_i32_bits_roundtrip(f.sample_rate as i32);
    assert forall|i: int| 0 <= i < n implies raw_record_view(bytes).samples[i] == f.samples[i] by {
        assert forall|k: int| 0 <= k < 4 implies bytes[8 + 4 * i + k] == byte_of_word(
            f.samples[i],
            k,
        ) by {
            lemma_quad_index(i, k);
        }
        lemma_word_of_bytes_of_word(f.samples[i]);
    }
    assert(raw_record_view(bytes).samples =~= f.samples);
    assert(raw_record_view(bytes) =~= f);
}

/// Round trip: decoding an encoded frame gives the frame back, for every
/// frame whose declared size matches its sample count.
pub proof fn lemma_round_trip(f: FrameView)
    requires
        frame_encodable(f),
    ensures
        decode_spec(encode_spec(f)) == Ok::<FrameView, DecodeError>(f),
{
    let bytes = encode_spec(f);
    let n = f.samples.len() as int;
    assert(bytes.len() == 8 + 4 * n);
    lemma_word_of_bytes_of_word(bits_of_i32(f.buffer_size as i32));
    lemma_word_of_bytes_of_word(bits_of_i32(f.sample_rate as i32));
    assert(word_at(bytes, 0) == bits_of_i32(f.buffer_size as i32));
    assert(word_at(bytes, 4) == bits_of_i32(f.sample_rate as i32));
    lemma_i32_bits_roundtrip(f.buffer_size as i32);
    lemma_i32_bits_roundtrip(f.sample_rate as i32);
    assert(declared_size_of(bytes) == f.buffer_size);
    assert(decode_ok(bytes));
    assert forall|i: int| 0 <= i < n implies decoded_frame(bytes).samples[i] == f.samples[i] by {
        assert forall|k: int| 0 <= k < 4 implies bytes[8 + 4 * i + k] == byte_of_word(
            f.samples[i],
            k,
        ) by {
            lemma_quad_index(i, k);
        }
        lemma_word_of_bytes_of_word(f.samples[i]);
    }
    assert(decoded_frame(bytes).samples =~= f.samples);
    assert(decoded_frame(bytes) =~= f);
}

} // verus!
