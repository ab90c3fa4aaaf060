//! Little-endian layout of unsigned 16-bit samples.

use byteorder::ByteOrder;
use vstd::prelude::*;

verus! {

/// The first byte of a sample on the wire: its low eight bits.
pub open spec fn le_low(x: u16) -> u8 {
    (x % 256) as u8
}

/// The second byte of a sample on the wire: its high eight bits.
pub open spec fn le_high(x: u16) -> u8 {
    (x / 256) as u8
}

/// The sample that two consecutive bytes on the wire stand for.
pub open spec fn le_u16(low: u8, high: u8) -> u16 {
    (low + 256 * high) as u16
}

/// The wire form of a run of samples: two bytes each, low byte first.
pub open spec fn le_bytes(samples: Seq<u16>) -> Seq<u8> {
    Seq::new(
        (2 * samples.len()) as nat,
        |i: int|
            if i % 2 == 0 {
                le_low(samples[i / 2])
            } else {
                le_high(samples[i / 2])
            },
    )
}

/// The samples that a run of bytes stands for, pair by pair. A trailing odd
/// byte stands for nothing.
pub open spec fn le_samples(bytes: Seq<u8>) -> Seq<u16> {
    Seq::new((bytes.len() / 2) as nat, |i: int| le_u16(bytes[2 * i], bytes[2 * i + 1]))
}

/// Splitting a sample into two bytes and joining them gives the sample back.
pub proof fn lemma_le_u16_of_bytes(x: u16)
    ensures
        le_u16(le_low(x), le_high(x)) == x,
{
}

/// Joining two bytes into a sample and splitting it gives the bytes back.
pub proof fn lemma_le_bytes_of_u16(low: u8, high: u8)
    ensures
        le_low(le_u16(low, high)) == low,
        le_high(le_u16(low, high)) == high,
{
}

/// Decoding the wire form of a run of samples gives the run back.
pub proof fn lemma_le_samples_of_bytes(samples: Seq<u16>)
    ensures
        le_samples(le_bytes(samples)) == samples,
{
    let bytes = le_bytes(samples);
    assert(bytes.len() / 2 == samples.len());
    assert forall|i: int| 0 <= i < samples.len() implies le_samples(bytes)[i] == samples[i] by {
        assert(bytes[2 * i] == le_low(samples[i]));
        assert(bytes[2 * i + 1] == le_high(samples[i]));
        lemma_le_u16_of_bytes(samples[i]);
    }
    assert(le_samples(bytes) =~= samples);
}

/// Encoding the samples that an even run of bytes stands for gives the run
/// back.
pub proof fn lemma_le_bytes_of_samples(bytes: Seq<u8>)
    requires
        bytes.len() % 2 == 0,
    ensures
        le_bytes(le_samples(bytes)) == bytes,
{
    let samples = le_samples(bytes);
    assert forall|i: int| 0 <= i < bytes.len() implies le_bytes(samples)[i] == bytes[i] by {
        let k = i / 2;
        lemma_le_bytes_of_u16(bytes[2 * k], bytes[2 * k + 1]);
    }
    assert(le_bytes(samples) =~= bytes);
}

/// The low byte of a sample.
pub fn low_byte(x: u16) -> (b: u8)
    ensures
        b == le_low(x),
{
    (x % 256) as u8
}

/// The high byte of a sample.
pub fn high_byte(x: u16) -> (b: u8)
    ensures
        b == le_high(x),
{
    (x / 256) as u8
}

/// The sample made of a low and a high byte.
pub fn join_bytes(low: u8, high: u8) -> (x: u16)
    ensures
        x == le_u16(low, high),
{
    low as u16 + 256 * (high as u16)
}

/// `LittleEndian::write_u16_into` of byteorder: fills `dst` with the samples
/// of `src`, two bytes each, low byte first. The outside function panics
/// unless `dst` is exactly twice as long as `src`.
#[verifier::external_body]
pub(crate) fn write_u16_le(src: &Vec<u16>, dst: &mut Vec<u8>)
    requires
        old(dst).len() == 2 * src.len(),
    ensures
        final(dst)@ == le_bytes(src@),
{
    byteorder::LittleEndian::write_u16_into(src, dst);
}

/// `LittleEndian::read_u16_into` of byteorder: fills `dst` with the samples
/// that the byte pairs of `src` stand for, low byte first. The outside
/// function panics unless `src` is exactly twice as long as `dst`.
#[verifier::external_body]
pub(crate) fn read_u16_le(src: &[u8], dst: &mut Vec<u16>)
    requires
        src.len() == 2 * old(dst).len(),
    ensures
        final(dst)@ == le_samples(src@),
{
    byteorder::LittleEndian::read_u16_into(src, dst);
}

} // verus!
