//! Captured audio, as sent to the recogniser: 16 kHz mono `pcm_s16le`.
use vstd::prelude::*;

verus! {

/// The 16-bit two's-complement pattern of a sample, as an unsigned number.
pub open spec fn sample_bits(s: i16) -> nat {
    if s >= 0 {
        s as nat
    } else {
        (s + 65536) as nat
    }
}

/// Samples as little-endian bytes, two per sample, low byte first
/// (`i16::to_le_bytes`, concatenated).
pub open spec fn le_bytes(samples: Seq<i16>) -> Seq<u8>
    decreases samples.len(),
{
    if samples.len() == 0 {
        Seq::empty()
    } else {
        le_bytes(samples.drop_last()) + seq![
            (sample_bits(samples.last()) % 256) as u8,
            (sample_bits(samples.last()) / 256) as u8,
        ]
    }
}

/// The sample a little-endian byte pair encodes.
pub open spec fn sample_from_le(lo: u8, hi: u8) -> int {
    let bits = lo + 256 * hi;
    if bits >= 32768 {
        bits - 65536
    } else {
        bits
    }
}

/// The captured samples as the byte stream the recogniser is sent.
pub fn pcm_le_bytes(samples: &Vec<i16>) -> (out: Vec<u8>)
    ensures
        out@ == le_bytes(samples@),
{
    let mut out: Vec<u8> = Vec::new();
    let mut i: usize = 0;
    while i < samples.len()
        invariant
            i <= samples.len(),
            out@ == le_bytes(samples@.take(i as int)),
        decreases samples.len() - i,
    {
        let s = samples[i];
        let bits: u32 = if s >= 0 {
            s as u32
        } else {
            (s as i32 + 65536) as u32
        };
        assert(bits == sample_bits(s));
        out.push((bits % 256) as u8);
        out.push((bits / 256) as u8);
        assert(samples@.take(i + 1).drop_last() =~= samples@.take(i as int));
        assert(out@ =~= le_bytes(samples@.take(i + 1)));
        i = i + 1;
    }
    assert(samples@.take(samples.len() as int) =~= samples@);
    out
}

/// The bytes sent hold two per sample, and each pair decodes back to its sample.
pub proof fn le_bytes_round_trip(samples: Seq<i16>)
    ensures
        le_bytes(samples).len() == 2 * samples.len(),
        forall|i: int|
            0 <= i < samples.len() ==> sample_from_le(
                #[trigger] le_bytes(samples)[2 * i],
                le_bytes(samples)[2 * i + 1],
            ) == samples[i],
    decreases samples.len(),
{
    if samples.len() > 0 {
        let p = samples.drop_last();
        le_bytes_round_trip(p);
        let b = le_bytes(samples);
        assert forall|i: int| 0 <= i < samples.len() implies sample_from_le(
            #[trigger] b[2 * i],
            b[2 * i + 1],
        ) == samples[i] by {
            if i < p.len() {
                assert(b[2 * i] == le_bytes(p)[2 * i]);
                assert(b[2 * i + 1] == le_bytes(p)[2 * i + 1]);
                assert(samples[i] == p[i]);
            } else {
                let s = samples.last();
                let bits = sample_bits(s);
                assert(b[2 * i] == (bits % 256) as u8);
                assert(b[2 * i + 1] == (bits / 256) as u8);
                assert((bits % 256) + 256 * (bits / 256) == bits) by (nonlinear_arith);
            }
        }
    }
}

} // verus!
