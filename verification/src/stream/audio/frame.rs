//! The frames that every capture backend hands to the encoder.
//!
//! A frame is one tick worth of interleaved samples for the negotiated channel
//! count. Samples are single-precision numbers between minus one and one, held
//! as their bit patterns.

use crate::float::{
    fraction_of, is_fraction_of, law_a_sample_has_one_fraction, law_fractions_keep_the_order,
};
use crate::le::{i16_at, read_i16, u16_at};
use vstd::prelude::*;

verus! {

/// Sample rate at which frames are produced. Matches Opus' native 48 kHz.
pub const CAPTURE_SAMPLE_RATE: u32 = 48000;

/// A buffer of interleaved samples ready for Opus encoding.
#[derive(Debug, PartialEq, Eq)]
pub struct AudioFrame {
    /// Interleaved samples for the negotiated channel count, as bit patterns of
    /// single-precision numbers.
    pub buf: Vec<u32>,
    /// Capture timestamp in milliseconds since process start.
    pub capture_ts_ms: u64,
}

/// The samples of a buffer of 16-bit little-endian PCM.
pub open spec fn samples_of(bytes: Seq<u8>) -> Seq<i16> {
    Seq::new(bytes.len() / 2, |i: int| i16_at(bytes, 2 * i))
}

/// Whether a frame holds the samples of a buffer of 16-bit little-endian PCM,
/// each divided by 32768.
pub open spec fn is_frame_of(frame: Seq<u32>, bytes: Seq<u8>) -> bool {
    &&& frame.len() == samples_of(bytes).len()
    &&& forall|i: int|
        0 <= i < frame.len() ==> is_fraction_of(#[trigger] frame[i], samples_of(bytes)[i])
}

/// Makes a frame of a buffer of 16-bit little-endian PCM.
pub fn decode_samples(bytes: &[u8]) -> (frame: Vec<u32>)
    ensures
        is_frame_of(frame@, bytes@),
{
    let count: usize = bytes.len() / 2;
    let mut frame: Vec<u32> = Vec::new();
    for i in 0..count
        invariant
            count == bytes@.len() / 2,
            bytes@.len() == bytes.len(),
            frame@.len() == i,
            forall|j: int|
                0 <= j < i ==> is_fraction_of(#[trigger] frame@[j], samples_of(bytes@)[j]),
    {
        frame.push(fraction_of(read_i16(bytes, 2 * i)));
    }
    frame
}

/// Whether two bytes are a sample, least significant byte first: read as a
/// number, they differ from it by a multiple of the number of words there are.
pub open spec fn are_sample(low: u8, high: u8, sample: i16) -> bool {
    (low + 256 * high - sample) % 0x1_0000 == 0
}

/// Samples that were encoded as two little-endian bytes each come out of the
/// frame in their places, each divided by 32768: every sample, however many.
pub proof fn law_encoded_samples_come_out(samples: Seq<i16>, bytes: Seq<u8>, frame: Seq<u32>)
    requires
        bytes.len() == 2 * samples.len(),
        forall|i: int|
            0 <= i < samples.len() ==> are_sample(
                bytes[2 * i],
                bytes[2 * i + 1],
                #[trigger] samples[i],
            ),
        is_frame_of(frame, bytes),
    ensures
        frame.len() == samples.len(),
        forall|i: int| 0 <= i < samples.len() ==> is_fraction_of(#[trigger] frame[i], samples[i]),
{
    assert forall|i: int| 0 <= i < samples.len() implies is_fraction_of(
        #[trigger] frame[i],
        samples[i],
    ) by {
        assert(are_sample(bytes[2 * i], bytes[2 * i + 1], samples[i]));
        assert(samples_of(bytes)[i] == samples[i]);
    }
}

/// A frame has one element for each two bytes; a last single byte is left out.
/// Each element depends on its own two bytes and on nothing else: changing them
/// changes that element, and changing any others does not.
pub proof fn law_each_sample_has_its_element(
    bytes: Seq<u8>,
    frame: Seq<u32>,
    other_bytes: Seq<u8>,
    other_frame: Seq<u32>,
    i: int,
)
    requires
        is_frame_of(frame, bytes),
        is_frame_of(other_frame, other_bytes),
        0 <= 2 * i && 2 * i + 1 < bytes.len() && 2 * i + 1 < other_bytes.len(),
    ensures
        2 * frame.len() == bytes.len() || 2 * frame.len() == bytes.len() - 1,
        frame[i] == other_frame[i] <==> bytes[2 * i] == other_bytes[2 * i] && bytes[2 * i + 1]
            == other_bytes[2 * i + 1],
{
    let a = samples_of(bytes)[i];
    let b = samples_of(other_bytes)[i];
    assert(is_fraction_of(frame[i], a));
    assert(is_fraction_of(other_frame[i], b));
    let word = u16_at(bytes, 2 * i);
    let other_word = u16_at(other_bytes, 2 * i);
    assert(word == bytes[2 * i] + 256 * bytes[2 * i + 1]);
    assert(other_word == other_bytes[2 * i] + 256 * other_bytes[2 * i + 1]);
    assert(a == b <==> word == other_word);
    if a == b {
        law_a_sample_has_one_fraction(frame[i], other_frame[i], a);
    } else if a < b {
        law_fractions_keep_the_order(frame[i], a, other_frame[i], b);
    } else {
        law_fractions_keep_the_order(other_frame[i], b, frame[i], a);
    }
}

} // verus!
