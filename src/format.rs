//! The sample formats a WAV header may announce, and the fixed-point scale
//! that brings each of them onto the canonical range.
use vstd::prelude::*;

verus! {

/// How the samples of a WAV body are stored.
#[derive(Clone, Copy, Debug, PartialEq, Eq, Structural)]
pub enum SampleKind {
    Int16,
    Int24,
    Int32,
    /// IEEE single precision; its samples reach the library already in
    /// canonical fixed point.
    Float32,
}

/// A validated WAV header: one or two channels and a supported sample kind.
#[derive(Clone, Copy, Debug, PartialEq, Eq, Structural)]
pub struct WavFormat {
    pub channels: u16,
    pub kind: SampleKind,
    pub sample_rate: u32,
}

/// Errors of header validation and sample decoding.
#[derive(Clone, Copy, Debug, PartialEq, Eq, Structural)]
pub enum FormatError {
    /// Channel count outside {1, 2}, or bit depth / sample format outside
    /// {16, 24, 32 int, 32 float}.
    UnsupportedFormat,
}

/// The channel counts the pipeline handles.
pub open spec fn channels_supported(channels: u16) -> bool {
    channels == 1 || channels == 2
}

/// The sample kind that a bit depth and sample format denote, if supported.
pub open spec fn kind_of(bits: u16, is_float: bool) -> Option<SampleKind> {
    if bits == 16 && !is_float {
        Some(SampleKind::Int16)
    } else if bits == 24 && !is_float {
        Some(SampleKind::Int24)
    } else if bits == 32 && !is_float {
        Some(SampleKind::Int32)
    } else if bits == 32 && is_float {
        Some(SampleKind::Float32)
    } else {
        None
    }
}

/// The stored bit width of one raw sample of this kind.
pub open spec fn raw_bits(kind: SampleKind) -> nat {
    match kind {
        SampleKind::Int16 => 16,
        SampleKind::Int24 => 24,
        SampleKind::Int32 => 32,
        SampleKind::Float32 => 32,
    }
}

/// The factor that maps a raw sample onto canonical fixed point:
/// `2^(31 - (bits - 1))`, i.e. raw / 2^(bits-1) == canonical / 2^31.
/// Float samples arrive already in canonical fixed point.
pub open spec fn scale_of(kind: SampleKind) -> int {
    match kind {
        SampleKind::Int16 => 65536,
        SampleKind::Int24 => 256,
        SampleKind::Int32 => 1,
        SampleKind::Float32 => 1,
    }
}

/// The smallest raw value a sample of this kind can hold.
pub open spec fn raw_min(kind: SampleKind) -> int {
    match kind {
        SampleKind::Int16 => -32768,
        SampleKind::Int24 => -8388608,
        _ => i32::MIN as int,
    }
}

/// The largest raw value a sample of this kind can hold.
pub open spec fn raw_max(kind: SampleKind) -> int {
    match kind {
        SampleKind::Int16 => 32767,
        SampleKind::Int24 => 8388607,
        _ => i32::MAX as int,
    }
}

/// The raw value that stands for full amplitude: the documented divisor of
/// each depth (32768, 8388608, 2147483648). Float samples arrive already
/// multiplied by 2^31, so theirs is 2^31 as well.
pub open spec fn full_scale(kind: SampleKind) -> int {
    match kind {
        SampleKind::Int16 => 32768,
        SampleKind::Int24 => 8388608,
        _ => 2147483648,
    }
}

/// The canonical value of a raw sample. A canonical value `c` stands for
/// the amplitude `c / 2^31`.
pub open spec fn canonical_value(kind: SampleKind, raw: int) -> int {
    raw * scale_of(kind)
}

/// The format a header denotes, or the reason it is refused.
pub open spec fn format_of(channels: u16, bits: u16, is_float: bool, sample_rate: u32) -> Result<
    WavFormat,
    FormatError,
> {
    if !channels_supported(channels) {
        Err(FormatError::UnsupportedFormat)
    } else {
        match kind_of(bits, is_float) {
            Some(kind) => Ok(WavFormat { channels, kind, sample_rate }),
            None => Err(FormatError::UnsupportedFormat),
        }
    }
}

impl WavFormat {
    pub open spec fn is_stereo(self) -> bool {
        self.channels == 2
    }

    /// A header that passed validation.
    pub open spec fn wf(self) -> bool {
        channels_supported(self.channels)
    }
}

/// Validates the fields of a WAV header and resolves its sample kind. Fails
/// with `UnsupportedFormat` exactly when the channel count or the bit depth /
/// sample format pair is not one the pipeline handles.
pub fn resolve_format(channels: u16, bits: u16, is_float: bool, sample_rate: u32) -> (r: Result<
    WavFormat,
    FormatError,
>)
    ensures
        r == format_of(channels, bits, is_float, sample_rate),
        r matches Ok(f) ==> f.wf(),
{
    if channels != 1 && channels != 2 {
        return Err(FormatError::UnsupportedFormat);
    }
    let kind = if bits == 16 && !is_float {
        SampleKind::Int16
    } else if bits == 24 && !is_float {
        SampleKind::Int24
    } else if bits == 32 && !is_float {
        SampleKind::Int32
    } else if bits == 32 && is_float {
        SampleKind::Float32
    } else {
        return Err(FormatError::UnsupportedFormat);
    };
    Ok(WavFormat { channels, kind, sample_rate })
}

/// Whether a raw sample lies within the range its stored width allows.
pub fn raw_in_range(kind: SampleKind, raw: i32) -> (r: bool)
    ensures
        r == (raw_min(kind) <= raw && raw <= raw_max(kind)),
{
    match kind {
        SampleKind::Int16 => -32768 <= raw && raw <= 32767,
        SampleKind::Int24 => -8388608 <= raw && raw <= 8388607,
        _ => true,
    }
}

/// Brings one in-range raw sample onto canonical fixed point.
pub fn to_canonical(kind: SampleKind, raw: i32) -> (r: i32)
    requires
        raw_min(kind) <= raw <= raw_max(kind),
    ensures
        r == canonical_value(kind, raw as int),
{
    match kind {
        SampleKind::Int16 => raw * 65536,
        SampleKind::Int24 => raw * 256,
        _ => raw,
    }
}

/// Decoding scales by the documented constant of each depth: the amplitude of
/// the canonical value, `c / 2^31`, equals `raw / full_scale(kind)`, exactly.
pub proof fn lemma_canonical_amplitude(kind: SampleKind, raw: int)
    ensures
        canonical_value(kind, raw) * full_scale(kind) == raw * 2147483648,
{
    match kind {
        SampleKind::Int16 => {
            assert(raw * 65536 * 32768 == raw * 2147483648) by (nonlinear_arith);
        },
        SampleKind::Int24 => {
            assert(raw * 256 * 8388608 == raw * 2147483648) by (nonlinear_arith);
        },
        _ => {},
    }
}

} // verus!
