//! PCM handling of the broadcast: the microphone ring buffer, mixing the
//! microphone over the music with a gain, and the silence sent while the queue
//! is empty.
use vstd::prelude::*;
use std::collections::VecDeque;

use crate::broadcast::ffmpeg::{PCM_BYTES_PER_SAMPLE, PCM_CHANNELS, PCM_SAMPLE_RATE};

verus! {

broadcast use vstd::std_specs::vecdeque::axiom_spec_len;

/// Milliseconds of PCM in one chunk of silence.
pub const SILENCE_CHUNK_MILLIS: usize = 250;

/// Seconds of microphone audio the capture buffer keeps at most.
pub const MICROPHONE_BUFFER_SECONDS: usize = 2;

/// Integer division rounding toward zero, as Rust's `/` on signed integers.
pub open spec fn div_toward_zero(a: int, b: int) -> int {
    if a >= 0 {
        a / b
    } else {
        -((-a) / b)
    }
}

/// `v` limited to the range of `i16`.
pub open spec fn clamp_i16(v: int) -> int {
    if v < -32768 {
        -32768
    } else if v > 32767 {
        32767
    } else {
        v
    }
}

/// The music sample plus the microphone sample scaled by `gain_percent`/100,
/// limited to the range of a 16-bit sample.
pub open spec fn mixed_sample(music: int, microphone: int, gain_percent: int) -> int {
    clamp_i16(music + div_toward_zero(microphone * gain_percent, 100))
}

/// At 100% gain the samples add when their sum fits a 16-bit sample, and a sum
/// beyond the range stops at its edge instead of wrapping around.
pub proof fn lemma_mix_unity_gain(music: int, microphone: int)
    requires
        -32768 <= music <= 32767,
        -32768 <= microphone <= 32767,
    ensures
        -32768 <= music + microphone <= 32767 ==> mixed_sample(music, microphone, 100) == music
            + microphone,
        music + microphone > 32767 ==> mixed_sample(music, microphone, 100) == 32767,
        music + microphone < -32768 ==> mixed_sample(music, microphone, 100) == -32768,
{
    if microphone >= 0 {
        assert((microphone * 100) / 100 == microphone) by (nonlinear_arith)
            requires
                microphone >= 0,
        ;
    } else {
        assert((-(microphone * 100)) / 100 == -microphone) by (nonlinear_arith)
            requires
                microphone < 0,
        ;
    }
}

/// Mixes one microphone sample over one music sample.
pub fn mix_pcm_sample(music: i16, microphone: i16, gain_percent: u16) -> (r: i16)
    ensures
        r == mixed_sample(music as int, microphone as int, gain_percent as int),
        gain_percent == 0 || microphone == 0 ==> r == music,
        gain_percent == 100 && -32768 <= music + microphone <= 32767 ==> r == music + microphone,
        gain_percent == 100 && music + microphone > 32767 ==> r == 32767,
        gain_percent == 100 && music + microphone < -32768 ==> r == -32768,
{
    proof {
        if gain_percent == 0 || microphone == 0 {
            lemma_mix_identity(music as int, microphone as int, gain_percent as int);
        }
        lemma_mix_unity_gain(music as int, microphone as int);
    }
    let m = microphone as i32;
    let g = gain_percent as i32;
    assert(-2147450880 <= m * g <= 2147450880) by (nonlinear_arith)
        requires
            -32768 <= m <= 32767,
            0 <= g <= 65535,
    ;
    let product: i32 = m * g;
    let scaled: i32 = if product >= 0 {
        product / 100
    } else {
        -((-product) / 100)
    };
    let sum: i32 = music as i32 + scaled;
    if sum < -32768 {
        -32768
    } else if sum > 32767 {
        32767
    } else {
        sum as i16
    }
}

/// The signed 16-bit value of two little-endian bytes.
pub open spec fn le_i16(low: u8, high: u8) -> int {
    if high < 128 {
        high * 256 + low
    } else {
        high * 256 + low - 65536
    }
}

/// The low byte of a 16-bit sample in little-endian order.
pub open spec fn le_low(v: int) -> u8 {
    (if v >= 0 {
        v
    } else {
        v + 65536
    } % 256) as u8
}

/// The high byte of a 16-bit sample in little-endian order.
pub open spec fn le_high(v: int) -> u8 {
    (if v >= 0 {
        v
    } else {
        v + 65536
    } / 256) as u8
}

/// Reading back the bytes of a sample gives the sample.
pub proof fn lemma_le_roundtrip(v: int)
    requires
        -32768 <= v <= 32767,
    ensures
        le_i16(le_low(v), le_high(v)) == v,
{
}

fn sample_from_le(low: u8, high: u8) -> (r: i16)
    ensures
        r == le_i16(low, high),
{
    let v: i32 = if high < 128 {
        high as i32 * 256 + low as i32
    } else {
        high as i32 * 256 + low as i32 - 65536
    };
    v as i16
}

fn sample_to_le(v: i16) -> (r: (u8, u8))
    ensures
        r.0 == le_low(v as int),
        r.1 == le_high(v as int),
{
    let u: i32 = if v >= 0 {
        v as i32
    } else {
        v as i32 + 65536
    };
    ((u % 256) as u8, (u / 256) as u8)
}

/// Bytes dropped from the front of the microphone buffer so that it holds no
/// more than one output chunk; whole stereo frames (4 bytes) are dropped.
pub open spec fn stale_microphone_bytes(buffered: nat, output: nat) -> nat {
    if buffered > output {
        ((buffered - output) as nat / 4 * 4) as nat
    } else {
        0
    }
}

/// How many output bytes receive microphone samples: as many as both sides have,
/// rounded down to whole samples.
pub open spec fn mixed_bytes(buffered: nat, output: nat) -> nat {
    let n = if output < buffered {
        output
    } else {
        buffered
    };
    (n / 2 * 2) as nat
}

/// The output chunk after mixing `mic` over it from the start.
pub open spec fn mixed_output(output: Seq<u8>, mic: Seq<u8>, n: nat, gain_percent: u16) -> Seq<u8> {
    Seq::new(
        output.len(),
        |k: int|
            if k < n {
                let j = k / 2 * 2;
                let v = mixed_sample(
                    le_i16(output[j], output[j + 1]),
                    le_i16(mic[j], mic[j + 1]),
                    gain_percent as int,
                );
                if k % 2 == 0 {
                    le_low(v)
                } else {
                    le_high(v)
                }
            } else {
                output[k]
            },
    )
}

/// Mixes the buffered microphone audio over one chunk of music. Stale frames are
/// dropped first so that the microphone lags the music by at most one chunk; the
/// samples used are consumed from the buffer.
pub fn mix_microphone_into(microphone: &mut VecDeque<u8>, output: &mut [u8], gain_percent: u16)
    ensures
        ({
            let drop = stale_microphone_bytes(old(microphone)@.len(), old(output)@.len());
            let fresh = old(microphone)@.skip(drop as int);
            let n = mixed_bytes(fresh.len(), old(output)@.len());
            &&& final(output)@ == mixed_output(old(output)@, fresh, n, gain_percent)
            &&& final(microphone)@ == fresh.skip(n as int)
        }),
{
    let ghost m0 = microphone@;
    let ghost o0 = output@;
    let out_len = output.len();
    if microphone.len() > out_len {
        let aligned = (microphone.len() - out_len) / 4 * 4;
        let mut k: usize = 0;
        while k < aligned
            invariant
                k <= aligned,
                aligned <= m0.len(),
                microphone@ == m0.skip(k as int),
            decreases aligned - k,
        {
            microphone.pop_front();
            k = k + 1;
            assert(m0.skip(k - 1).subrange(1, m0.skip(k - 1).len() as int) =~= m0.skip(k as int));
        }
    } else {
        assert(m0.skip(0) =~= m0);
    }
    let ghost fresh = microphone@;
    let available = if out_len < microphone.len() {
        out_len
    } else {
        microphone.len()
    };
    let sample_bytes = available / 2 * 2;
    let mut i: usize = 0;
    assert(fresh.skip(0) =~= fresh);
    while i < sample_bytes
        invariant
            sample_bytes == mixed_bytes(fresh.len(), o0.len()),
            sample_bytes <= fresh.len(),
            sample_bytes <= o0.len(),
            sample_bytes % 2 == 0,
            i % 2 == 0,
            i <= sample_bytes,
            output@.len() == o0.len(),
            microphone@ == fresh.skip(i as int),
            forall|k: int|
                0 <= k < o0.len() ==> #[trigger] output@[k] == if k < i {
                    mixed_output(o0, fresh, sample_bytes as nat, gain_percent)[k]
                } else {
                    o0[k]
                },
        decreases sample_bytes - i,
    {
        let low = match microphone.pop_front() {
            Some(b) => b,
            None => 0,
        };
        let high = match microphone.pop_front() {
            Some(b) => b,
            None => 0,
        };
        assert(low == fresh[i as int] && high == fresh[i + 1]);
        assert(microphone@ =~= fresh.skip(i + 2));
        let music = sample_from_le(output[i], output[i + 1]);
        let mic = sample_from_le(low, high);
        let mixed = mix_pcm_sample(music, mic, gain_percent);
        let (lo, hi) = sample_to_le(mixed);
        output[i] = lo;
        output[i + 1] = hi;
        proof {
            assert((i as int) / 2 * 2 == i);
            assert((i + 1) / 2 * 2 == i);
        }
        i = i + 2;
    }
    assert(output@ =~= mixed_output(o0, fresh, sample_bytes as nat, gain_percent));
}

/// Bytes dropped from the front of the capture buffer when it holds more than
/// `maximum`: the excess rounded up to whole stereo frames, at most the buffer.
pub open spec fn overflow_bytes(len: nat, maximum: nat) -> nat {
    if len > maximum {
        let aligned = ((len - maximum + 3) as nat / 4 * 4) as nat;
        if aligned < len {
            aligned
        } else {
            len
        }
    } else {
        0
    }
}

/// Appends one chunk read from the microphone process to the capture buffer and
/// drops the oldest whole frames beyond `maximum` bytes.
pub fn receive_capture_chunk(buffer: &mut VecDeque<u8>, chunk: &[u8], maximum: usize)
    ensures
        ({
            let all = old(buffer)@ + chunk@;
            final(buffer)@ == all.skip(overflow_bytes(all.len(), maximum as nat) as int)
        }),
{
    let ghost b0 = buffer@;
    let mut i: usize = 0;
    while i < chunk.len()
        invariant
            i <= chunk.len(),
            buffer@ == b0 + chunk@.take(i as int),
        decreases chunk.len() - i,
    {
        buffer.push_back(chunk[i]);
        i = i + 1;
        assert(b0 + chunk@.take(i as int) =~= (b0 + chunk@.take(i - 1)).push(chunk@[i - 1]));
    }
    assert(chunk@.take(chunk.len() as int) =~= chunk@);
    let ghost all = buffer@;
    if buffer.len() > maximum {
        let excess = buffer.len() - maximum;
        let rounded_down = excess / 4 * 4;
        let drop = if excess % 4 == 0 {
            rounded_down
        } else if buffer.len() - rounded_down > 4 {
            rounded_down + 4
        } else {
            buffer.len()
        };
        assert(drop == overflow_bytes(all.len(), maximum as nat));
        let mut k: usize = 0;
        assert(all.skip(0) =~= all);
        while k < drop
            invariant
                k <= drop,
                drop <= all.len(),
                buffer@ == all.skip(k as int),
            decreases drop - k,
        {
            buffer.pop_front();
            k = k + 1;
            assert(all.skip(k - 1).subrange(1, all.skip(k - 1).len() as int) =~= all.skip(
                k as int,
            ));
        }
    } else {
        assert(all.skip(0) =~= all);
    }
}

/// The capture buffer never grows past its maximum when that maximum is made of
/// whole frames, and it is only ever cut by whole frames unless it is emptied.
pub proof fn lemma_capture_buffer_bounded(len: nat, maximum: nat)
    requires
        maximum % 4 == 0,
    ensures
        len - overflow_bytes(len, maximum) <= maximum,
        overflow_bytes(len, maximum) % 4 == 0 || overflow_bytes(len, maximum) == len,
{
}

/// Mixing drops only whole frames, never uses more than it has, and leaves the
/// rest of the buffer for the next chunk.
pub proof fn lemma_mix_consumes_whole_frames(buffered: nat, output: nat)
    ensures
        stale_microphone_bytes(buffered, output) % 4 == 0,
        stale_microphone_bytes(buffered, output) <= buffered,
        mixed_bytes((buffered - stale_microphone_bytes(buffered, output)) as nat, output)
            <= output,
        mixed_bytes((buffered - stale_microphone_bytes(buffered, output)) as nat, output) % 2
            == 0,
{
}

/// With no gain, or with a silent microphone, the music passes unchanged.
pub proof fn lemma_mix_identity(music: int, microphone: int, gain_percent: int)
    requires
        -32768 <= music <= 32767,
        gain_percent == 0 || microphone == 0,
    ensures
        mixed_sample(music, microphone, gain_percent) == music,
{
    if gain_percent == 0 {
        assert(microphone * gain_percent == 0) by (nonlinear_arith)
            requires
                gain_percent == 0,
        ;
    } else {
        assert(microphone * gain_percent == 0) by (nonlinear_arith)
            requires
                microphone == 0,
        ;
    }
}

/// Number of bytes in one chunk of silence: a quarter second of stereo 44.1 kHz
/// 16-bit PCM.
pub open spec fn silence_chunk_len() -> nat {
    (44100 * 2 * 2 * 250 / 1000) as nat
}

/// A quarter second of PCM silence.
pub fn silence_chunk() -> (r: Vec<u8>)
    ensures
        r@.len() == silence_chunk_len(),
        forall|i: int| 0 <= i < r@.len() ==> r@[i] == 0,
{
    let bytes = PCM_SAMPLE_RATE * PCM_CHANNELS * PCM_BYTES_PER_SAMPLE * SILENCE_CHUNK_MILLIS / 1000;
    let mut v: Vec<u8> = Vec::new();
    let mut i: usize = 0;
    while i < bytes
        invariant
            i <= bytes,
            bytes == silence_chunk_len(),
            v@.len() == i,
            forall|k: int| 0 <= k < i ==> v@[k] == 0,
        decreases bytes - i,
    {
        v.push(0);
        i = i + 1;
    }
    v
}

/// The largest size of the microphone capture buffer, in bytes.
pub fn microphone_buffer_limit() -> (r: usize)
    ensures
        r == 44100 * 2 * 2 * 2,
{
    PCM_SAMPLE_RATE * PCM_CHANNELS * PCM_BYTES_PER_SAMPLE * MICROPHONE_BUFFER_SECONDS
}

} // verus!
