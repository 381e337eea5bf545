use vstd::prelude::*;
use crate::command::same_text;

verus! {

/// How a WAV file stores its samples.
#[derive(Clone, Copy, Debug, PartialEq, Eq, Structural)]
pub enum SampleFormat {
    Int,
    Float,
}

/// The sample layouts that can be decoded.
#[derive(Clone, Copy, Debug, PartialEq, Eq, Structural)]
pub enum SampleEncoding {
    Int16,
    Int24,
    Int32,
    Float32,
}

#[derive(Clone, Debug)]
pub enum DecodeError {
    /// Neither 16-, 24- or 32-bit integer PCM nor 32-bit float.
    UnsupportedFormat { format: SampleFormat, bits: u16 },
    /// The file holds no sample, or too few to fill a single window: no
    /// curve point could be measured.
    EmptySampleData,
    /// The window or the hop spans no sample at this sample rate.
    InvalidWindowConfig,
    /// The file could not be opened or read.
    Io(String),
}

pub open spec fn encoding_of(format: SampleFormat, bits: u16) -> Option<SampleEncoding> {
    match (format, bits) {
        (SampleFormat::Int, 16) => Some(SampleEncoding::Int16),
        (SampleFormat::Int, 24) => Some(SampleEncoding::Int24),
        (SampleFormat::Int, 32) => Some(SampleEncoding::Int32),
        (SampleFormat::Float, 32) => Some(SampleEncoding::Float32),
        _ => None,
    }
}

/// Picks the decoder for a sample format and bit depth; any other
/// combination is refused rather than reinterpreted.
pub fn select_encoding(format: SampleFormat, bits: u16) -> (r: Result<SampleEncoding, DecodeError>)
    ensures
        encoding_of(format, bits) matches Some(e) ==> r == Ok::<SampleEncoding, DecodeError>(e),
        encoding_of(format, bits) is None ==> r == Err::<SampleEncoding, DecodeError>(
            (DecodeError::UnsupportedFormat { format, bits }),
        ),
{
    match (format, bits) {
        (SampleFormat::Int, 16) => Ok(SampleEncoding::Int16),
        (SampleFormat::Int, 24) => Ok(SampleEncoding::Int24),
        (SampleFormat::Int, 32) => Ok(SampleEncoding::Int32),
        (SampleFormat::Float, 32) => Ok(SampleEncoding::Float32),
        _ => Err(DecodeError::UnsupportedFormat { format, bits }),
    }
}

impl SampleEncoding {
    /// The magnitude that maps to full scale: 2^(bits - 1) for integer PCM,
    /// 1 for float samples, which are already normalized.
    pub open spec fn full_scale_spec(self) -> nat {
        match self {
            SampleEncoding::Int16 => pow2(15),
            SampleEncoding::Int24 => pow2(23),
            SampleEncoding::Int32 => pow2(31),
            SampleEncoding::Float32 => 1,
        }
    }

    pub fn full_scale(&self) -> (r: u64)
        ensures
            r == self.full_scale_spec(),
    {
        proof {
            lemma_pow2_values();
        }
        match self {
            SampleEncoding::Int16 => 1u64 << 15u64,
            SampleEncoding::Int24 => 1u64 << 23u64,
            SampleEncoding::Int32 => 1u64 << 31u64,
            SampleEncoding::Float32 => 1,
        }
    }
}

pub open spec fn pow2(e: nat) -> nat
    decreases e,
{
    if e == 0 {
        1
    } else {
        2 * pow2((e - 1) as nat)
    }
}

proof fn lemma_pow2_values()
    ensures
        pow2(15) == 1u64 << 15u64,
        pow2(23) == 1u64 << 23u64,
        pow2(31) == 1u64 << 31u64,
{
    assert(1u64 << 15u64 == 32768) by (bit_vector);
    assert(1u64 << 23u64 == 8388608) by (bit_vector);
    assert(1u64 << 31u64 == 2147483648) by (bit_vector);
    reveal_with_fuel(pow2, 32);
}

/// Window length in tenths of a second.
pub const WINDOW_TENTHS: u64 = 4;

/// Hop between window starts in tenths of a second.
pub const HOP_TENTHS: u64 = 1;

/// Interleaved samples covered by one window.
pub open spec fn span_of(sample_rate: u32, channels: u16) -> nat {
    ((sample_rate * WINDOW_TENTHS) / 10 * channels) as nat
}

/// Interleaved samples between the starts of two consecutive windows.
pub open spec fn step_of(sample_rate: u32, channels: u16) -> nat {
    ((sample_rate * HOP_TENTHS) / 10 * channels) as nat
}

/// Largest window a 32-bit sample rate and 16-bit channel count can give.
pub const MAX_SPAN: u64 = 0xffff_ffff * 0xffff;

/// Number of whole windows that fit in `total` samples.
pub open spec fn window_count(total: nat, span: nat, step: nat) -> nat {
    if step > 0 && total >= span {
        ((total - span) as nat / step + 1) as nat
    } else {
        0
    }
}

/// Placement of the overlapping analysis windows over an interleaved sample
/// stream: window `k` covers samples `[k * step, k * step + span)` and its
/// time is its middle sample, `k * step + span / 2`, divided by
/// `samples_per_second`.
#[derive(Clone, Copy, Debug, PartialEq, Eq, Structural)]
pub struct WindowPlan {
    pub total: u64,
    pub span: u64,
    pub step: u64,
    pub count: u64,
    pub samples_per_second: u64,
}

impl WindowPlan {
    pub open spec fn wf(self) -> bool {
        &&& 0 < self.span <= MAX_SPAN
        &&& self.step > 0
        &&& self.count == window_count(self.total as nat, self.span as nat, self.step as nat)
    }

    /// First sample of window `k`.
    pub fn start(&self, k: u64) -> (r: u64)
        requires
            self.wf(),
            k < self.count,
        ensures
            r == k * self.step,
            r + self.span <= self.total,
    {
        proof {
            lemma_window_fits(self.total as nat, self.span as nat, self.step as nat, k as nat);
        }
        k * self.step
    }

    /// Sample at the middle of window `k`, which dates the window.
    pub open spec fn midpoint_of(self, k: int) -> int {
        k * self.step + self.span / 2
    }

    pub fn midpoint(&self, k: u64) -> (r: u64)
        requires
            self.wf(),
            k < self.count,
        ensures
            r == self.midpoint_of(k as int),
    {
        let s = self.start(k);
        s + self.span / 2
    }

    /// The first sample of every window, in order.
    pub fn starts(&self) -> (r: Vec<u64>)
        requires
            self.wf(),
        ensures
            r@.len() == self.count,
            forall|k: int| 0 <= k < self.count ==> #[trigger] r@[k] == k * self.step,
    {
        let mut out: Vec<u64> = Vec::new();
        let mut k: u64 = 0;
        while k < self.count
            invariant
                self.wf(),
                k <= self.count,
                out@.len() == k,
                forall|j: int| 0 <= j < k ==> #[trigger] out@[j] == j * self.step,
            decreases self.count - k,
        {
            let s = self.start(k);
            out.push(s);
            k = k + 1;
        }
        out
    }
}

/// Windows are dated in strictly increasing order, so a curve built from
/// them has strictly increasing times.
pub proof fn lemma_midpoints_increase(plan: WindowPlan, j: int, k: int)
    requires
        plan.wf(),
        0 <= j < k,
    ensures
        plan.midpoint_of(j) < plan.midpoint_of(k),
{
    assert(j * plan.step < k * plan.step) by (nonlinear_arith)
        requires
            j < k,
            plan.step > 0,
    ;
}

proof fn lemma_window_fits(total: nat, span: nat, step: nat, k: nat)
    requires
        step > 0,
        k < window_count(total, span, step),
    ensures
        k * step + span <= total,
{
    let q = (total - span) as nat / step;
    assert(k <= q);
    assert(q * step <= (total - span) as nat) by (nonlinear_arith)
        requires
            q == (total - span) as nat / step,
            step > 0,
    ;
    assert(k * step <= q * step) by (nonlinear_arith)
        requires
            k <= q,
    ;
}

/// Plans the windows over `total` interleaved samples at `sample_rate` with
/// `channels` channels: a 0.4 s window every 0.1 s. A successful plan has at
/// least one window, so the curve built from it is never empty.
pub fn plan_windows(total: u64, sample_rate: u32, channels: u16) -> (r: Result<WindowPlan, DecodeError>)
    ensures
        total == 0 ==> r == Err::<WindowPlan, DecodeError>(DecodeError::EmptySampleData),
        total > 0 && (span_of(sample_rate, channels) == 0 || step_of(sample_rate, channels) == 0)
            ==> r == Err::<WindowPlan, DecodeError>(DecodeError::InvalidWindowConfig),
        total > 0 && span_of(sample_rate, channels) > 0 && step_of(sample_rate, channels) > 0 && total
            < span_of(sample_rate, channels) ==> r == Err::<WindowPlan, DecodeError>(
            DecodeError::EmptySampleData,
        ),
        span_of(sample_rate, channels) > 0 && step_of(sample_rate, channels) > 0 && total >= span_of(
            sample_rate,
            channels,
        ) ==> (r == Ok::<WindowPlan, DecodeError>(
            (WindowPlan {
                total,
                span: span_of(sample_rate, channels) as u64,
                step: step_of(sample_rate, channels) as u64,
                count: window_count(
                    total as nat,
                    span_of(sample_rate, channels),
                    step_of(sample_rate, channels),
                ) as u64,
                samples_per_second: (sample_rate * channels) as u64,
            }),
        )),
        r matches Ok(p) ==> p.wf() && p.count > 0,
{
    if total == 0 {
        return Err(DecodeError::EmptySampleData);
    }
    let rate = sample_rate as u64;
    let ch = channels as u64;
    let window_frames = rate * WINDOW_TENTHS / 10;
    let hop_frames = rate * HOP_TENTHS / 10;
    assert(window_frames * ch <= 0xffff_ffff * 0xffff) by (nonlinear_arith)
        requires
            window_frames <= rate,
            rate <= 0xffff_ffff,
            ch <= 0xffff,
    ;
    assert(hop_frames * ch <= 0xffff_ffff * 0xffff) by (nonlinear_arith)
        requires
            hop_frames <= rate,
            rate <= 0xffff_ffff,
            ch <= 0xffff,
    ;
    assert(rate * ch <= 0xffff_ffff * 0xffff) by (nonlinear_arith)
        requires
            rate <= 0xffff_ffff,
            ch <= 0xffff,
    ;
    let span = window_frames * ch;
    let step = hop_frames * ch;
    if span == 0 || step == 0 {
        return Err(DecodeError::InvalidWindowConfig);
    }
    if total < span {
        return Err(DecodeError::EmptySampleData);
    }
    let count = (total - span) / step + 1;
    Ok(WindowPlan { total, span, step, count, samples_per_second: rate * ch })
}

/// Where a curve comes from: a CSV table of points, or WAV samples.
#[derive(Clone, Copy, Debug, PartialEq, Eq, Structural)]
pub enum SourceKind {
    Csv,
    Wav,
}

/// A file whose extension is exactly `csv` is read as a table of points;
/// every other file is decoded as WAV.
pub fn source_kind(extension: Option<&str>) -> (r: SourceKind)
    ensures
        r == (if extension matches Some(e) && e@ == "csv"@ {
            SourceKind::Csv
        } else {
            SourceKind::Wav
        }),
{
    match extension {
        Some(e) => if same_text(e, "csv") {
            SourceKind::Csv
        } else {
            SourceKind::Wav
        },
        None => SourceKind::Wav,
    }
}

} // verus!
