//! The output format chosen when the audio track of a chart is decoded, and
//! the number of output samples a block of input samples becomes.

use vstd::prelude::*;

verus! {

/// Sample rate that decoded audio is resampled to, unless asked not to compress.
pub const AUDIO_DECODING_SAMPLE_RATE: i32 = 44100;

/// Channel layout of mono audio (a single front-centre channel).
pub const CH_LAYOUT_MONO: u64 = 0x4;

/// Channel layout of stereo audio (front left and front right).
pub const CH_LAYOUT_STEREO: u64 = 0x3;

/// Sample format code of packed 32-bit float samples.
pub const SAMPLE_FMT_FLT: i32 = 3;

/// The shape of an audio stream.
#[derive(Clone, Copy, Debug, PartialEq, Eq)]
pub struct AudioStreamFormat {
    /// Channel layout mask; `0` when the stream does not say.
    pub channel_layout: u64,
    /// Number of channels; `0` when the stream does not say.
    pub channels: i32,
    /// Sample format code.
    pub sample_fmt: i32,
    /// Samples per second.
    pub sample_rate: i32,
}

/// How a track is decoded: the format it is converted to, and whether the
/// high-quality resampler is used.
#[derive(Clone, Copy, Debug, PartialEq, Eq)]
pub struct DecodePlan {
    /// Format of the decoded samples.
    pub output: AudioStreamFormat,
    /// Whether the slower, high-quality resampler is used.
    pub high_quality: bool,
}

/// The output format for an input stream. Without compression the input's
/// rate and channels are kept (an unknown channel count becomes two, an
/// unknown layout the mono or stereo layout that fits the channels);
/// otherwise audio becomes stereo at the decoding rate. Samples are always
/// 32-bit floats.
pub open spec fn spec_output_format(input: AudioStreamFormat, no_compress: bool) -> AudioStreamFormat {
    if no_compress {
        let channels = if input.channels == 0 { 2 } else { input.channels };
        AudioStreamFormat {
            channel_layout: if input.channel_layout == 0 {
                if channels == 1 { CH_LAYOUT_MONO } else { CH_LAYOUT_STEREO }
            } else {
                input.channel_layout
            },
            channels,
            sample_fmt: SAMPLE_FMT_FLT,
            sample_rate: input.sample_rate,
        }
    } else {
        AudioStreamFormat {
            channel_layout: CH_LAYOUT_STEREO,
            channels: 2,
            sample_fmt: SAMPLE_FMT_FLT,
            sample_rate: AUDIO_DECODING_SAMPLE_RATE,
        }
    }
}

/// How a track with this input format is decoded.
pub fn decode_plan(input: &AudioStreamFormat, no_compress: bool) -> (r: DecodePlan)
    ensures
        r.output == spec_output_format(*input, no_compress),
        r.high_quality == no_compress,
        r.output.sample_fmt == SAMPLE_FMT_FLT,
        !no_compress ==> r.output.channels == 2 && r.output.channel_layout == CH_LAYOUT_STEREO
            && r.output.sample_rate == 44100,
        no_compress ==> r.output.sample_rate == input.sample_rate,
        no_compress && input.channels != 0 ==> r.output.channels == input.channels,
        no_compress && input.channels == 0 ==> r.output.channels == 2,
        no_compress && input.channel_layout != 0 ==> r.output.channel_layout == input.channel_layout,
        no_compress && input.channel_layout == 0 ==> r.output.channel_layout == (if r.output.channels
            == 1 {
            0x4u64
        } else {
            0x3u64
        }),
{
    let output = if no_compress {
        let channels = if input.channels == 0 { 2 } else { input.channels };
        let channel_layout = if input.channel_layout == 0 {
            if channels == 1 { CH_LAYOUT_MONO } else { CH_LAYOUT_STEREO }
        } else {
            input.channel_layout
        };
        AudioStreamFormat {
            channel_layout,
            channels,
            sample_fmt: SAMPLE_FMT_FLT,
            sample_rate: input.sample_rate,
        }
    } else {
        AudioStreamFormat {
            channel_layout: CH_LAYOUT_STEREO,
            channels: 2,
            sample_fmt: SAMPLE_FMT_FLT,
            sample_rate: AUDIO_DECODING_SAMPLE_RATE,
        }
    };
    DecodePlan { output, high_quality: no_compress }
}

/// `n / d` rounded up, for `d > 0`.
pub open spec fn ceil_div(n: int, d: int) -> int {
    -((-n) / d)
}

/// How many output samples `a` input samples become when `b` output samples
/// stand for `c` input samples: `a * b / c` rounded up. `None` when that
/// does not fit in an `i64`.
pub fn rescale_round_up(a: i64, b: i64, c: i64) -> (r: Option<i64>)
    requires
        b >= 0,
        c > 0,
    ensures
        match r {
            Some(v) => v == ceil_div(a * b, c as int),
            None => ceil_div(a * b, c as int) < i64::MIN || ceil_div(a * b, c as int) > i64::MAX,
        },
{
    let aw = a as i128;
    let bw = b as i128;
    let cw = c as i128;
    assert(-0x8000_0000_0000_0000 * 0x7fff_ffff_ffff_ffff <= a * b <= 0x8000_0000_0000_0000
        * 0x7fff_ffff_ffff_ffff) by (nonlinear_arith)
        requires
            -0x8000_0000_0000_0000 <= a <= 0x7fff_ffff_ffff_ffff,
            0 <= b <= 0x7fff_ffff_ffff_ffff,
    ;
    let n = aw * bw;
    let q: i128 = if n >= 0 {
        let up = (n + cw - 1) / cw;
        assert(up == ceil_div(n as int, c as int)) by (nonlinear_arith)
            requires
                n >= 0,
                c > 0,
                up == (n + c - 1) / (c as int),
        ;
        up
    } else {
        let m = -n;
        let down = m / cw;
        assert(-down == ceil_div(n as int, c as int));
        -down
    };
    if q < i64::MIN as i128 || q > i64::MAX as i128 {
        None
    } else {
        Some(q as i64)
    }
}

/// Decoding always yields 32-bit float samples. Compressed decoding
/// ignores the input's shape: whatever the track, it becomes stereo at
/// 44,100 samples per second, so two tracks that differ in layout, channels,
/// format or rate are decoded to the same format. Uncompressed decoding keeps
/// the input's rate, and its channel count unless that count is unknown.
pub proof fn lemma_output_format(a: AudioStreamFormat, b: AudioStreamFormat, no_compress: bool)
    ensures
        spec_output_format(a, no_compress).sample_fmt == 3,
        spec_output_format(a, false) == spec_output_format(b, false),
        spec_output_format(a, false).channels == 2,
        spec_output_format(a, false).channel_layout == 0x3,
        spec_output_format(a, false).sample_rate == 44100,
        spec_output_format(a, true).sample_rate == a.sample_rate,
        a.channels != 0 ==> spec_output_format(a, true).channels == a.channels,
        a.channels == 0 ==> spec_output_format(a, true).channels == 2,
        a.channel_layout != 0 ==> spec_output_format(a, true).channel_layout == a.channel_layout,
        a.channel_layout == 0 && a.channels == 1 ==> spec_output_format(a, true).channel_layout == 0x4,
        a.channel_layout == 0 && a.channels != 1 ==> spec_output_format(a, true).channel_layout == 0x3,
{
}

} // verus!
