//! Configuration and resource-limit logic of the codec-trait integration.
use vstd::prelude::*;
use crate::config::{
    TiffDecodeConfig, TiffEncodeConfig, height_limit_message, memory_limit_message,
    pixel_limit_message, width_limit_message,
};
use crate::error::ZentiffError;

verus! {

/// Source encoding details for TIFF (always lossless).
#[derive(Debug, Clone, Copy)]
pub struct TiffSourceEncoding;

impl TiffSourceEncoding {
    /// TIFF has no generic quality setting.
    pub fn source_generic_quality_is_none(&self) -> (r: bool)
        ensures
            r,
    {
        true
    }

    /// TIFF is always lossless.
    pub fn is_lossless(&self) -> (r: bool)
        ensures
            r,
    {
        true
    }
}

/// Resource limits of a codec job, as the limit checks read them.
#[derive(Clone, Copy, Debug, PartialEq, Eq)]
pub struct CodecLimits {
    pub max_pixels: Option<u64>,
    pub max_memory_bytes: Option<u64>,
    pub max_width: Option<u32>,
    pub max_height: Option<u32>,
    pub max_input_bytes: Option<u64>,
}

/// Encoding configuration for TIFF via the codec traits.
/// TIFF is always lossless; quality/effort knobs are no-ops.
#[derive(Clone, Copy, Debug)]
pub struct TiffEncoderCodecConfig {
    inner: TiffEncodeConfig,
}

impl TiffEncoderCodecConfig {
    pub closed spec fn spec_inner(&self) -> TiffEncodeConfig {
        self.inner
    }

    /// Create a new TIFF encoder config with default settings (LZW + horizontal prediction).
    pub fn new() -> (r: Self)
        ensures
            r.spec_inner() == (TiffEncodeConfig {
                compression: crate::config::TiffCompression::Lzw,
                predictor: crate::config::TiffPredictor::Horizontal,
                big_tiff: false,
            }),
    {
        TiffEncoderCodecConfig { inner: TiffEncodeConfig::default() }
    }

    /// Create from an existing [`TiffEncodeConfig`].
    pub fn from_config(config: TiffEncodeConfig) -> (r: Self)
        ensures
            r.spec_inner() == config,
    {
        TiffEncoderCodecConfig { inner: config }
    }

    /// Access the inner [`TiffEncodeConfig`].
    pub fn inner(&self) -> (r: &TiffEncodeConfig)
        ensures
            *r == self.spec_inner(),
    {
        &self.inner
    }

    /// Mutably access the inner [`TiffEncodeConfig`].
    pub fn inner_mut(&mut self) -> (r: &mut TiffEncodeConfig)
        ensures
            *r == old(self).spec_inner(),
            final(self).spec_inner() == *final(r),
    {
        &mut self.inner
    }

    /// TIFF encoding is always lossless.
    pub fn is_lossless(&self) -> (r: Option<bool>)
        ensures
            r == Some(true),
    {
        Some(true)
    }
}

impl Default for TiffEncoderCodecConfig {
    fn default() -> (r: Self)
        ensures
            r.spec_inner() == (TiffEncodeConfig {
                compression: crate::config::TiffCompression::Lzw,
                predictor: crate::config::TiffPredictor::Horizontal,
                big_tiff: false,
            }),
    {
        Self::new()
    }
}

/// Decoding configuration for TIFF via the codec traits.
#[derive(Clone, Copy, Debug)]
pub struct TiffDecoderCodecConfig {
    inner: TiffDecodeConfig,
}

impl TiffDecoderCodecConfig {
    pub closed spec fn spec_inner(&self) -> TiffDecodeConfig {
        self.inner
    }

    /// Create a new TIFF decoder config with default resource limits.
    pub fn new() -> (r: Self)
        ensures
            r.spec_inner().max_pixels == Some(crate::config::DEFAULT_MAX_PIXELS),
            r.spec_inner().max_memory_bytes == Some(crate::config::DEFAULT_MAX_MEMORY),
            r.spec_inner().max_width is None,
            r.spec_inner().max_height is None,
    {
        TiffDecoderCodecConfig { inner: TiffDecodeConfig::default() }
    }

    /// Create from an existing [`TiffDecodeConfig`].
    pub fn from_config(config: TiffDecodeConfig) -> (r: Self)
        ensures
            r.spec_inner() == config,
    {
        TiffDecoderCodecConfig { inner: config }
    }

    /// Access the inner [`TiffDecodeConfig`].
    pub fn inner(&self) -> (r: &TiffDecodeConfig)
        ensures
            *r == self.spec_inner(),
    {
        &self.inner
    }

    /// Mutably access the inner [`TiffDecodeConfig`].
    pub fn inner_mut(&mut self) -> (r: &mut TiffDecodeConfig)
        ensures
            *r == old(self).spec_inner(),
            final(self).spec_inner() == *final(r),
    {
        &mut self.inner
    }
}

impl Default for TiffDecoderCodecConfig {
    fn default() -> (r: Self)
        ensures
            r.spec_inner().max_pixels == Some(crate::config::DEFAULT_MAX_PIXELS),
            r.spec_inner().max_memory_bytes == Some(crate::config::DEFAULT_MAX_MEMORY),
            r.spec_inner().max_width is None,
            r.spec_inner().max_height is None,
    {
        Self::new()
    }
}

fn or_u64(a: Option<u64>, b: Option<u64>) -> (r: Option<u64>)
    ensures
        r == (if a is Some { a } else { b }),
{
    match a {
        Some(x) => Some(x),
        None => b,
    }
}

fn or_u32(a: Option<u32>, b: Option<u32>) -> (r: Option<u32>)
    ensures
        r == (if a is Some { a } else { b }),
{
    match a {
        Some(x) => Some(x),
        None => b,
    }
}

/// The decode configuration of a job: each limit of the job's resource limits where it sets
/// one, else the base configuration's.
pub open spec fn job_decode_config(base: TiffDecodeConfig, limits: Option<CodecLimits>) -> TiffDecodeConfig {
    match limits {
        None => base,
        Some(l) => TiffDecodeConfig {
            max_pixels: if l.max_pixels is Some { l.max_pixels } else { base.max_pixels },
            max_memory_bytes: if l.max_memory_bytes is Some {
                l.max_memory_bytes
            } else {
                base.max_memory_bytes
            },
            max_width: if l.max_width is Some { l.max_width } else { base.max_width },
            max_height: if l.max_height is Some { l.max_height } else { base.max_height },
        },
    }
}

/// The decode configuration of a job: each limit of the job's resource limits where it sets
/// one, else the base configuration's.
pub fn effective_decode_config(base: &TiffDecodeConfig, limits: Option<CodecLimits>) -> (r:
    TiffDecodeConfig)
    ensures
        r == job_decode_config(*base, limits),
{
    match limits {
        Some(l) => TiffDecodeConfig {
            max_pixels: or_u64(l.max_pixels, base.max_pixels),
            max_memory_bytes: or_u64(l.max_memory_bytes, base.max_memory_bytes),
            max_width: or_u32(l.max_width, base.max_width),
            max_height: or_u32(l.max_height, base.max_height),
        },
        None => *base,
    }
}

/// Error message text, built with `format!`; no contract is claimed of the text.
#[verifier::external_body]
fn input_limit_message(len: usize, max: u64) -> String {
    format!("input size {len} exceeds limit {max}")
}

/// Rejects input data longer than `max_input_bytes`.
pub fn check_input_size(max_input_bytes: Option<u64>, len: usize) -> (r: Result<(), ZentiffError>)
    ensures
        r is Ok <==> !(max_input_bytes matches Some(m) && len > m),
        r matches Err(e) ==> e is LimitExceeded,
{
    if let Some(max) = max_input_bytes {
        if len as u64 > max {
            return Err(ZentiffError::LimitExceeded(input_limit_message(len, max)));
        }
    }
    Ok(())
}

/// Whether an image to encode exceeds the job's limits: pixel count, width, height or
/// estimated memory.
pub open spec fn encode_exceeds(l: CodecLimits, width: u32, height: u32, bytes_per_pixel: u64) -> bool {
    ||| l.max_pixels matches Some(m) && width * height > m
    ||| l.max_width matches Some(m) && width > m
    ||| l.max_height matches Some(m) && height > m
    ||| l.max_memory_bytes matches Some(m) && width * height * bytes_per_pixel > m
}

/// The job's limits are upper bounds for an image to encode: it passes exactly when its pixel
/// count, width, height and memory at `bytes_per_pixel` are each at most the limit set for it
/// (a value equal to a limit passes), and an image no larger in any measure than one that passes
/// passes too.
pub proof fn lemma_encode_limits_are_upper_bounds(
    l: CodecLimits,
    width: u32,
    height: u32,
    bytes_per_pixel: u64,
    width2: u32,
    height2: u32,
    bytes_per_pixel2: u64,
)
    ensures
        !encode_exceeds(l, width, height, bytes_per_pixel) <==> ((l.max_pixels matches Some(m) ==> width
            * height <= m) && (l.max_width matches Some(m) ==> width <= m) && (l.max_height matches Some(m)
            ==> height <= m) && (l.max_memory_bytes matches Some(m) ==> width * height * bytes_per_pixel
            <= m)),
        !encode_exceeds(l, width, height, bytes_per_pixel) && width2 <= width && height2 <= height
            && bytes_per_pixel2 <= bytes_per_pixel ==> !encode_exceeds(l, width2, height2, bytes_per_pixel2),
{
    if width2 <= width && height2 <= height && bytes_per_pixel2 <= bytes_per_pixel {
        assert(width2 * height2 <= width * height) by (nonlinear_arith)
            requires
                width2 <= width,
                height2 <= height,
        ;
        assert(width2 * height2 * bytes_per_pixel2 <= width * height * bytes_per_pixel) by (nonlinear_arith)
            requires
                width2 * height2 <= width * height,
                bytes_per_pixel2 <= bytes_per_pixel,
        ;
    }
}

/// The memory estimate is only computed once the other checks pass; it must then fit in 64 bits.
pub open spec fn encode_estimate_fits(l: CodecLimits, width: u32, height: u32, bytes_per_pixel: u64) -> bool {
    (l.max_memory_bytes is Some && !(l.max_pixels matches Some(m) && width * height > m) && !(
    l.max_width matches Some(m) && width > m) && !(l.max_height matches Some(m) && height > m))
        ==> width * height * bytes_per_pixel <= u64::MAX
}

/// Whether [`check_encode_limits`] can compute its memory estimate in 64 bits for these
/// dimensions.
pub fn encode_estimate_in_range(limits: Option<CodecLimits>, width: u32, height: u32, bytes_per_pixel: u64) -> (r: bool)
    ensures
        r == (limits matches Some(l) ==> encode_estimate_fits(l, width, height, bytes_per_pixel)),
{
    match limits {
        None => true,
        Some(l) => {
            assert(width * height <= u64::MAX) by (nonlinear_arith)
                requires
                    width <= u32::MAX,
                    height <= u32::MAX,
            ;
            let pixels = width as u64 * height as u64;
            let earlier_pass = !(match l.max_pixels {
                Some(m) => pixels > m,
                None => false,
            }) && !(match l.max_width {
                Some(m) => width > m,
                None => false,
            }) && !(match l.max_height {
                Some(m) => height > m,
                None => false,
            });
            if l.max_memory_bytes.is_some() && earlier_pass {
                assert(pixels * bytes_per_pixel <= u128::MAX) by (nonlinear_arith)
                    requires
                        pixels <= u64::MAX,
                        bytes_per_pixel <= u64::MAX,
                ;
                pixels as u128 * bytes_per_pixel as u128 <= u64::MAX as u128
            } else {
                true
            }
        },
    }
}

/// Checks an image to encode against the job's resource limits, in the order pixel count,
/// width, height, memory; no limits means no check.
pub fn check_encode_limits(limits: Option<CodecLimits>, width: u32, height: u32, bytes_per_pixel: u64) -> (r:
    Result<(), ZentiffError>)
    requires
        limits matches Some(l) ==> encode_estimate_fits(l, width, height, bytes_per_pixel),
    ensures
        r is Ok <==> !(limits matches Some(l) && encode_exceeds(l, width, height, bytes_per_pixel)),
        r matches Err(e) ==> e is LimitExceeded,
{
    if let Some(l) = limits {
        assert(width * height <= u64::MAX) by (nonlinear_arith)
            requires
                width <= u32::MAX,
                height <= u32::MAX,
        ;
        let pixel_count = width as u64 * height as u64;
        if let Some(max_px) = l.max_pixels {
            if pixel_count > max_px {
                return Err(ZentiffError::LimitExceeded(pixel_limit_message(pixel_count, max_px)));
            }
        }
        if let Some(max_w) = l.max_width {
            if width > max_w {
                return Err(ZentiffError::LimitExceeded(width_limit_message(width, max_w)));
            }
        }
        if let Some(max_h) = l.max_height {
            if height > max_h {
                return Err(ZentiffError::LimitExceeded(height_limit_message(height, max_h)));
            }
        }
        if let Some(max_mem) = l.max_memory_bytes {
            let estimated = pixel_count * bytes_per_pixel;
            if estimated > max_mem {
                return Err(ZentiffError::LimitExceeded(memory_limit_message(estimated, max_mem)));
            }
        }
    }
    Ok(())
}

/// A job's resource limits take precedence over the base decode configuration: an image that
/// breaks a limit the job sets is rejected by the job's decode configuration whatever the base
/// says, and a limit the job leaves unset is the base configuration's.
pub proof fn lemma_job_limits_take_precedence(
    base: TiffDecodeConfig,
    l: CodecLimits,
    width: u32,
    height: u32,
    bytes_per_pixel: u64,
)
    ensures
        ({
            let c = job_decode_config(base, Some(l));
            &&& (l.max_pixels matches Some(m) && width * height > m) ==> c.spec_exceeds(
                width,
                height,
                bytes_per_pixel,
            )
            &&& (l.max_memory_bytes matches Some(m) && width * height * bytes_per_pixel > m)
                ==> c.spec_exceeds(width, height, bytes_per_pixel)
            &&& (l.max_width matches Some(m) && width > m) ==> c.spec_exceeds(
                width,
                height,
                bytes_per_pixel,
            )
            &&& (l.max_height matches Some(m) && height > m) ==> c.spec_exceeds(
                width,
                height,
                bytes_per_pixel,
            )
            &&& (l.max_pixels is None && l.max_memory_bytes is None && l.max_width is None
                && l.max_height is None) ==> c == base
        }),
{
}

} // verus!
