use vstd::arithmetic::div_mod::{lemma_fundamental_div_mod, lemma_fundamental_div_mod_converse};
use vstd::prelude::*;
use vstd::string::*;

use crate::error::AudioError;

verus! {

/// Offset that maps a signed 16-bit sample onto `0..=65535`.
pub open spec fn pcm_offset() -> int {
    32768
}

/// Number of samples that `len` input samples become when converted from
/// `source` Hz to `target` Hz: `len * target / source`, rounded half up.
pub open spec fn resampled_len(len: nat, source: nat, target: nat) -> nat
    recommends
        source > 0,
{
    ((2 * len * target + source) / (2 * source)) as nat
}

/// Linear blend of `a` and `b` at fraction `num / den` of the way from `a` to `b`,
/// rounded down (computed on offset, non-negative values).
pub open spec fn blend(a: i16, b: i16, num: int, den: int) -> int
    recommends
        den > 0,
        0 <= num < den,
{
    ((a + pcm_offset()) * (den - num) + (b + pcm_offset()) * num) / den - pcm_offset()
}

/// Output sample `i` of resampling `s` from `source` Hz to `target` Hz: the
/// position `i * source / target` in the input, interpolated linearly between
/// its two nearest input samples.
pub open spec fn resampled_at(s: Seq<i16>, i: int, source: nat, target: nat) -> int
    recommends
        target > 0,
{
    let pos = i * source;
    let idx = pos / (target as int);
    let rem = pos % (target as int);
    if idx + 1 < s.len() {
        blend(s[idx], s[idx + 1], rem, target as int)
    } else if idx < s.len() {
        s[idx] as int
    } else {
        0
    }
}

proof fn lemma_blend_bounds(a: i16, b: i16, num: int, den: int)
    requires
        den > 0,
        0 <= num < den,
    ensures
        i16::MIN <= blend(a, b, num, den) <= i16::MAX,
{
    let x = a + pcm_offset();
    let y = b + pcm_offset();
    assert(0 <= x <= 65535);
    assert(0 <= y <= 65535);
    let t = x * (den - num) + y * num;
    assert(0 <= t <= 65535 * den) by (nonlinear_arith)
        requires
            0 <= x <= 65535,
            0 <= y <= 65535,
            0 <= num < den,
            t == x * (den - num) + y * num,
    ;
    assert(0 <= t / den <= 65535) by (nonlinear_arith)
        requires
            0 <= t <= 65535 * den,
            den > 0,
    ;
}

proof fn lemma_blend_zero(a: i16, b: i16, den: int)
    requires
        den > 0,
    ensures
        blend(a, b, 0, den) == a,
{
    let x = a + pcm_offset();
    assert((x * (den - 0) + (b + pcm_offset()) * 0) / den == x) by (nonlinear_arith)
        requires
            den > 0,
    ;
}

/// The output length is the integer nearest to `len * target / source`
/// (halves round up): it is within half a sample of the exact length.
pub proof fn lemma_resampled_len_is_nearest(len: nat, source: nat, target: nat)
    requires
        source > 0,
    ensures
        2 * source * resampled_len(len, source, target) <= 2 * len * target + source,
        2 * len * target + source < 2 * source * (resampled_len(len, source, target) + 1),
{
    let x = (2 * len * target + source) as int;
    let d = (2 * source) as int;
    lemma_fundamental_div_mod(x, d);
    let q = x / d;
    let r = x % d;
    assert(0 <= r < d);
    assert(d * q + r == x);
    assert(d * (q + 1) == d * q + d) by (nonlinear_arith);
}

/// Resampling a signal to its own rate keeps its length and every sample.
pub proof fn lemma_resample_same_rate(s: Seq<i16>, rate: nat)
    requires
        rate > 0,
    ensures
        resampled_len(s.len(), rate, rate) == s.len(),
        forall|i: int| 0 <= i < s.len() ==> #[trigger] resampled_at(s, i, rate, rate) == s[i],
{
    let n = s.len() as int;
    let r = rate as int;
    assert(2 * n * r + r == n * (2 * r) + r) by (nonlinear_arith);
    lemma_fundamental_div_mod_converse(2 * n * r + r, 2 * r, n, r);
    assert forall|i: int| 0 <= i < s.len() implies #[trigger] resampled_at(s, i, rate, rate) == s[i] by {
        lemma_fundamental_div_mod_converse(i * r, r, i, 0);
        if i + 1 < s.len() {
            lemma_blend_zero(s[i], s[i + 1], rate as int);
        }
    }
}

/// Converts `samples` from `source_rate` Hz to `target_rate` Hz by linear
/// interpolation between the two nearest input samples. Equal rates copy the
/// input unchanged.
pub fn resample(samples: &Vec<i16>, source_rate: u32, target_rate: u32) -> (out: Vec<i16>)
    requires
        source_rate > 0,
        target_rate > 0,
        resampled_len(samples@.len(), source_rate as nat, target_rate as nat) <= usize::MAX,
    ensures
        out@.len() == resampled_len(samples@.len(), source_rate as nat, target_rate as nat),
        forall|i: int|
            0 <= i < out@.len() ==> out@[i] as int == #[trigger] resampled_at(
                samples@,
                i,
                source_rate as nat,
                target_rate as nat,
            ),
        source_rate == target_rate ==> out@ == samples@,
{
    let ghost s = samples@;
    let len = samples.len();
    let src = source_rate as u128;
    let tgt = target_rate as u128;
    assert(2 * len * target_rate + source_rate <= u128::MAX) by (nonlinear_arith)
        requires
            len <= usize::MAX,
            target_rate <= u32::MAX,
            source_rate <= u32::MAX,
    ;
    let out_len = ((2 * (len as u128) * tgt + src) / (2 * src)) as usize;
    let mut out: Vec<i16> = Vec::with_capacity(out_len);
    let mut i: usize = 0;
    while i < out_len
        invariant
            s == samples@,
            len == s.len(),
            src == source_rate,
            tgt == target_rate,
            tgt > 0,
            source_rate > 0,
            out_len == resampled_len(s.len(), source_rate as nat, target_rate as nat),
            i <= out_len,
            out@.len() == i,
            forall|j: int|
                0 <= j < i ==> out@[j] as int == #[trigger] resampled_at(
                    s,
                    j,
                    source_rate as nat,
                    target_rate as nat,
                ),
        decreases out_len - i,
    {
        assert((i as u128) * src <= u128::MAX) by (nonlinear_arith)
            requires
                i <= usize::MAX,
                src <= u32::MAX,
        ;
        let pos = (i as u128) * src;
        let idx = pos / tgt;
        let rem = pos % tgt;
        let v: i16 = if idx < len as u128 && idx + 1 < len as u128 {
            let a = samples[idx as usize];
            let b = samples[(idx + 1) as usize];
            proof {
                lemma_blend_bounds(a, b, rem as int, tgt as int);
            }
            let ua = (a as i32 + 32768) as u128;
            let ub = (b as i32 + 32768) as u128;
            assert(ua * (tgt - rem) + ub * rem <= 65535 * tgt) by (nonlinear_arith)
                requires
                    ua <= 65535,
                    ub <= 65535,
                    rem < tgt,
            ;
            let mixed = (ua * (tgt - rem) + ub * rem) / tgt;
            (mixed as i32 - 32768) as i16
        } else if idx < len as u128 {
            samples[idx as usize]
        } else {
            0
        };
        out.push(v);
        i = i + 1;
    }
    proof {
        if source_rate == target_rate {
            lemma_resample_same_rate(s, source_rate as nat);
            assert forall|j: int| 0 <= j < out@.len() implies out@[j] == s[j] by {
                assert(out@[j] as int == resampled_at(s, j, source_rate as nat, target_rate as nat));
            }
            assert(out@ =~= s);
        }
    }
    out
}

/// How a capture binds to the hardware.
#[derive(Debug, Clone, PartialEq, Eq)]
pub struct CaptureConfig {
    /// Rate of the samples that the capture emits, in Hz.
    pub sample_rate: u32,
    /// Input device name (none: the system default).
    pub device_name: Option<String>,
    /// Capacity of the queue between the hardware callback and its consumer.
    pub buffer_size: usize,
}

impl Default for CaptureConfig {
    fn default() -> (r: Self)
        ensures
            r.sample_rate == 16000,
            r.device_name is None,
            r.buffer_size == 4096,
    {
        CaptureConfig { sample_rate: 16000, device_name: None, buffer_size: 4096 }
    }
}

/// What the hardware callback does with one block of input: nothing once
/// capture has been stopped (the flag is level-triggered, so a stop takes
/// effect at the next block), else the block converted to the target rate.
pub fn capture_block(active: bool, block: Vec<i16>, source_rate: u32, target_rate: u32) -> (r:
    Option<Vec<i16>>)
    requires
        source_rate > 0,
        target_rate > 0,
        resampled_len(block@.len(), source_rate as nat, target_rate as nat) <= usize::MAX,
    ensures
        !active ==> r is None,
        active ==> (r matches Some(out) && out@.len() == resampled_len(
            block@.len(),
            source_rate as nat,
            target_rate as nat,
        ) && (forall|i: int|
            0 <= i < out@.len() ==> out@[i] as int == #[trigger] resampled_at(
                block@,
                i,
                source_rate as nat,
                target_rate as nat,
            ))),
        active && source_rate == target_rate ==> (r matches Some(out) && out@ == block@),
{
    if !active {
        None
    } else if source_rate == target_rate {
        proof {
            lemma_resample_same_rate(block@, source_rate as nat);
        }
        Some(block)
    } else {
        Some(resample(&block, source_rate, target_rate))
    }
}

/// `x` as two little-endian bytes.
pub open spec fn le16(x: nat) -> Seq<u8> {
    seq![(x % 256) as u8, ((x / 256) % 256) as u8]
}

/// `x` as four little-endian bytes.
pub open spec fn le32(x: nat) -> Seq<u8> {
    seq![
        (x % 256) as u8,
        ((x / 256) % 256) as u8,
        ((x / 65536) % 256) as u8,
        ((x / 16777216) % 256) as u8,
    ]
}

/// The 44-byte header of a WAVE stream of `n` samples, one channel of 16-bit
/// integer PCM at `rate` Hz: the RIFF chunk (`RIFF`, size, `WAVE`), a
/// 16-byte `fmt ` chunk (format 1, one channel, rate, byte rate, block
/// align 2, 16 bits) and the header of the `data` chunk.
pub open spec fn wav_header(n: nat, rate: nat) -> Seq<u8> {
    seq![0x52u8, 0x49, 0x46, 0x46] + le32(36 + 2 * n) + seq![0x57u8, 0x41, 0x56, 0x45]
        + seq![0x66u8, 0x6d, 0x74, 0x20] + le32(16) + le16(1) + le16(1) + le32(rate) + le32(
        2 * rate,
    ) + le16(2) + le16(16) + seq![0x64u8, 0x61, 0x74, 0x61] + le32(2 * n)
}

/// A sample's two's-complement bit pattern.
pub open spec fn pcm_bits(s: i16) -> nat {
    (if s < 0 {
        s + 65536
    } else {
        s as int
    }) as nat
}

/// Each sample as two little-endian bytes, in order.
pub open spec fn pcm_bytes(samples: Seq<i16>) -> Seq<u8>
    decreases samples.len(),
{
    if samples.len() == 0 {
        Seq::empty()
    } else {
        pcm_bytes(samples.drop_last()) + le16(pcm_bits(samples.last()))
    }
}

/// A RIFF/WAVE stream holding `samples` as one channel of 16-bit integer PCM
/// at `sample_rate` Hz.
pub open spec fn wav_of(samples: Seq<i16>, sample_rate: nat) -> Seq<u8> {
    wav_header(samples.len(), sample_rate) + pcm_bytes(samples)
}

proof fn lemma_pcm_bytes_len(samples: Seq<i16>)
    ensures
        pcm_bytes(samples).len() == 2 * samples.len(),
    decreases samples.len(),
{
    if samples.len() > 0 {
        lemma_pcm_bytes_len(samples.drop_last());
    }
}

/// Largest number of samples whose WAVE stream sizes fit the format's
/// 32-bit length fields.
pub open spec fn max_wav_samples() -> nat {
    ((u32::MAX - 36) / 2) as nat
}

/// Sample rates that a WAVE header can hold: positive, with the byte rate
/// (twice the sample rate) fitting its 32-bit field.
pub open spec fn wav_rate_ok(sample_rate: u32) -> bool {
    0 < sample_rate <= u32::MAX / 2
}

/// Relies on `hound::WavWriter` over an in-memory cursor (`new`,
/// `write_sample`, `finalize`): for one channel of 16-bit integer samples it
/// writes the PCMWAVEFORMAT header and then each sample as two little-endian
/// bytes, and writing to a `Cursor` over a `Vec` does not fail.
#[verifier::external_body]
fn write_wav(samples: &[i16], sample_rate: u32) -> (r: Result<Vec<u8>, String>)
    requires
        samples@.len() <= max_wav_samples(),
        wav_rate_ok(sample_rate),
    ensures
        r is Ok,
        r matches Ok(b) ==> b@ == wav_of(samples@, sample_rate as nat),
{
    let spec = hound::WavSpec {
        channels: 1,
        sample_rate,
        bits_per_sample: 16,
        sample_format: hound::SampleFormat::Int,
    };
    let mut cursor = std::io::Cursor::new(Vec::new());
    let mut writer = hound::WavWriter::new(&mut cursor, spec).map_err(|e| e.to_string())?;
    for s in samples {
        writer.write_sample(*s).map_err(|e| e.to_string())?;
    }
    writer.finalize().map_err(|e| e.to_string())?;
    Ok(cursor.into_inner())
}

/// Encodes a snapshot as a mono 16-bit PCM WAVE stream for the remote
/// providers.
pub fn encode_wav(samples: &Vec<i16>, sample_rate: u32) -> (r: Result<Vec<u8>, AudioError>)
    requires
        samples@.len() <= max_wav_samples(),
        wav_rate_ok(sample_rate),
    ensures
        r is Ok,
        r matches Ok(b) ==> b@ == wav_of(samples@, sample_rate as nat) && b@.len() == 44 + 2
            * samples@.len(),
{
    proof {
        lemma_pcm_bytes_len(samples@);
    }
    match write_wav(samples.as_slice(), sample_rate) {
        Ok(b) => Ok(b),
        Err(m) => Err(AudioError::WavError(m)),
    }
}

} // verus!
