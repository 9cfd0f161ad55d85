//! Interleaved 16-bit PCM samples and their little-endian byte layout.
//!
//! The rest of the crate handles audio as plain byte counts; this module is
//! the one place where samples and bytes meet.
use vstd::prelude::*;

verus! {

/// Number of bytes that one sample takes.
pub const SAMPLE_BYTES: usize = 2;

/// The signed 16-bit value held by a little-endian byte pair.
pub open spec fn sample_of(lo: u8, hi: u8) -> int {
    let u = lo as int + 256 * (hi as int);
    if u >= 32768 { u - 65536 } else { u }
}

/// The two's-complement bit pattern of a sample, as an unsigned number.
pub open spec fn unsigned_of(s: i16) -> int {
    if s < 0 { s as int + 65536 } else { s as int }
}

/// Low byte of a sample in little-endian order.
pub open spec fn low_byte(s: i16) -> u8 {
    (unsigned_of(s) % 256) as u8
}

/// High byte of a sample in little-endian order.
pub open spec fn high_byte(s: i16) -> u8 {
    (unsigned_of(s) / 256) as u8
}

/// The byte sequence of a sample sequence: each sample as its low then high byte.
pub open spec fn le_bytes_of(samples: Seq<i16>) -> Seq<u8>
    decreases samples.len(),
{
    if samples.len() == 0 {
        Seq::empty()
    } else {
        le_bytes_of(samples.drop_last()).push(low_byte(samples.last())).push(
            high_byte(samples.last()),
        )
    }
}

/// The sample sequence that a byte sequence encodes, pair by pair; an odd
/// trailing byte is not part of any sample.
pub open spec fn samples_of(bytes: Seq<u8>) -> Seq<i16> {
    Seq::new(bytes.len() / 2, |i: int| sample_of(bytes[2 * i], bytes[2 * i + 1]) as i16)
}

/// Decodes one little-endian 16-bit sample.
pub fn sample_from_le(lo: u8, hi: u8) -> (r: i16)
    ensures
        r as int == sample_of(lo, hi),
{
    let u: u32 = lo as u32 + 256 * (hi as u32);
    if u >= 32768 {
        (u as i32 - 65536) as i16
    } else {
        u as i16
    }
}

/// Encodes one sample as its little-endian byte pair.
pub fn sample_to_le(s: i16) -> (r: (u8, u8))
    ensures
        r.0 == low_byte(s),
        r.1 == high_byte(s),
{
    let v: i32 = s as i32;
    let u: i32 = if v < 0 { v + 65536 } else { v };
    ((u % 256) as u8, (u / 256) as u8)
}

/// A byte pair read back gives the sample that was written.
pub proof fn lemma_sample_round_trip(s: i16)
    ensures
        sample_of(low_byte(s), high_byte(s)) == s as int,
{
}

proof fn lemma_le_bytes_len(samples: Seq<i16>)
    ensures
        le_bytes_of(samples).len() == 2 * samples.len(),
    decreases samples.len(),
{
    if samples.len() > 0 {
        lemma_le_bytes_len(samples.drop_last());
    }
}

proof fn lemma_le_bytes_index(samples: Seq<i16>, i: int)
    requires
        0 <= i < samples.len(),
    ensures
        le_bytes_of(samples)[2 * i] == low_byte(samples[i]),
        le_bytes_of(samples)[2 * i + 1] == high_byte(samples[i]),
    decreases samples.len(),
{
    lemma_le_bytes_len(samples.drop_last());
    if i < samples.len() - 1 {
        lemma_le_bytes_index(samples.drop_last(), i);
    }
}

/// Every sample sequence, written as bytes and read back, is unchanged.
pub proof fn lemma_samples_round_trip(samples: Seq<i16>)
    ensures
        samples_of(le_bytes_of(samples)) == samples,
{
    lemma_le_bytes_len(samples);
    assert forall|i: int| 0 <= i < samples.len() implies #[trigger] samples_of(
        le_bytes_of(samples),
    )[i] == samples[i] by {
        lemma_le_bytes_index(samples, i);
        lemma_sample_round_trip(samples[i]);
    }
    assert(samples_of(le_bytes_of(samples)) =~= samples);
}

/// Writes samples out in little-endian byte order.
pub fn samples_to_le_bytes(samples: &[i16]) -> (r: Vec<u8>)
    ensures
        r@ == le_bytes_of(samples@),
{
    let mut out: Vec<u8> = Vec::new();
    let mut i: usize = 0;
    while i < samples.len()
        invariant
            i <= samples@.len(),
            out@ == le_bytes_of(samples@.subrange(0, i as int)),
        decreases samples.len() - i,
    {
        let (lo, hi) = sample_to_le(samples[i]);
        out.push(lo);
        out.push(hi);
        proof {
            let next = samples@.subrange(0, i + 1);
            assert(next.drop_last() =~= samples@.subrange(0, i as int));
        }
        i = i + 1;
    }
    assert(samples@.subrange(0, i as int) =~= samples@);
    out
}

/// Reads little-endian samples out of a byte buffer; an odd trailing byte is
/// ignored.
pub fn le_bytes_to_samples(bytes: &[u8]) -> (r: Vec<i16>)
    ensures
        r@ == samples_of(bytes@),
{
    let n: usize = bytes.len() / 2;
    let mut out: Vec<i16> = Vec::new();
    let mut i: usize = 0;
    while i < n
        invariant
            n == bytes@.len() / 2,
            i <= n,
            out@.len() == i,
            forall|j: int| 0 <= j < i ==> out@[j] == samples_of(bytes@)[j],
        decreases n - i,
    {
        assert(2 * i + 1 < bytes.len()) by (nonlinear_arith)
            requires
                i < n,
                n == bytes.len() / 2,
        ;
        let s = sample_from_le(bytes[2 * i], bytes[2 * i + 1]);
        out.push(s);
        i = i + 1;
    }
    assert(out@ =~= samples_of(bytes@));
    out
}

/// Reads little-endian samples out of `bytes` into `out`, which holds
/// exactly one sample per byte pair; nothing is allocated.
pub fn le_bytes_into_samples(bytes: &[u8], out: &mut [i16])
    requires
        bytes@.len() == 2 * old(out)@.len(),
    ensures
        final(out)@ == samples_of(bytes@),
{
    let n: usize = out.len();
    let mut i: usize = 0;
    while i < n
        invariant
            n == out@.len(),
            bytes@.len() == 2 * n,
            i <= n,
            forall|j: int| 0 <= j < i ==> out@[j] == samples_of(bytes@)[j],
        decreases n - i,
    {
        assert(2 * i + 1 < bytes.len());
        out[i] = sample_from_le(bytes[2 * i], bytes[2 * i + 1]);
        i = i + 1;
    }
    assert(out@ =~= samples_of(bytes@));
}

} // verus!
