//! Decode and encode configuration.
use vstd::prelude::*;
use crate::error::ZentiffError;

verus! {

/// Decode configuration: resource limits, each `None` for no limit.
#[derive(Clone, Copy, Debug, PartialEq, Eq)]
#[non_exhaustive]
pub struct TiffDecodeConfig {
    /// Maximum total pixels (width * height). `None` = no limit.
    pub max_pixels: Option<u64>,
    /// Maximum memory allocation in bytes. `None` = no limit.
    pub max_memory_bytes: Option<u64>,
    /// Maximum image width in pixels. `None` = no limit.
    pub max_width: Option<u32>,
    /// Maximum image height in pixels. `None` = no limit.
    pub max_height: Option<u32>,
}

/// Default maximum pixel count: 100 million.
pub const DEFAULT_MAX_PIXELS: u64 = 100_000_000;

/// Default maximum memory: 4 GiB.
pub const DEFAULT_MAX_MEMORY: u64 = 4294967296;

/// Error message text, built with `format!`; no contract is claimed of the text.
#[verifier::external_body]
pub(crate) fn pixel_limit_message(pixels: u64, max: u64) -> String {
    format!("pixel count {pixels} exceeds limit {max}")
}

/// Error message text, built with `format!`; no contract is claimed of the text.
#[verifier::external_body]
pub(crate) fn memory_limit_message(estimated: u64, max: u64) -> String {
    format!("estimated memory {estimated} bytes exceeds limit {max}")
}

/// Error message text, built with `format!`; no contract is claimed of the text.
#[verifier::external_body]
pub(crate) fn width_limit_message(width: u32, max: u32) -> String {
    format!("width {width} exceeds limit {max}")
}

/// Error message text, built with `format!`; no contract is claimed of the text.
#[verifier::external_body]
pub(crate) fn height_limit_message(height: u32, max: u32) -> String {
    format!("height {height} exceeds limit {max}")
}

/// Whether an image of `width` x `height` pixels of `bytes_per_pixel` bytes exceeds one of the
/// limits: the pixel count, the estimated memory, the width or the height.
pub open spec fn exceeds_limits(
    max_pixels: Option<u64>,
    max_memory_bytes: Option<u64>,
    max_width: Option<u32>,
    max_height: Option<u32>,
    width: u32,
    height: u32,
    bytes_per_pixel: u64,
) -> bool {
    ||| max_pixels matches Some(m) && width * height > m
    ||| max_memory_bytes matches Some(m) && width * height * bytes_per_pixel > m
    ||| max_width matches Some(m) && width > m
    ||| max_height matches Some(m) && height > m
}

/// The limits are upper bounds: an image passes exactly when its pixel count, its memory at
/// `bytes_per_pixel`, its width and its height are each at most the limit set for it (a value
/// equal to a limit passes), so with no limits every image passes, and an image no larger in any
/// measure than one that passes passes too.
pub proof fn lemma_limits_are_upper_bounds(
    max_pixels: Option<u64>,
    max_memory_bytes: Option<u64>,
    max_width: Option<u32>,
    max_height: Option<u32>,
    width: u32,
    height: u32,
    bytes_per_pixel: u64,
    width2: u32,
    height2: u32,
    bytes_per_pixel2: u64,
)
    ensures
        !exceeds_limits(max_pixels, max_memory_bytes, max_width, max_height, width, height, bytes_per_pixel)
            <==> ((max_pixels matches Some(m) ==> width * height <= m) && (max_memory_bytes matches Some(m)
            ==> width * height * bytes_per_pixel <= m) && (max_width matches Some(m) ==> width <= m) && (
        max_height matches Some(m) ==> height <= m)),
        (max_pixels is None && max_memory_bytes is None && max_width is None && max_height is None)
            ==> !exceeds_limits(max_pixels, max_memory_bytes, max_width, max_height, width, height, bytes_per_pixel),
        !exceeds_limits(max_pixels, max_memory_bytes, max_width, max_height, width, height, bytes_per_pixel)
            && width2 <= width && height2 <= height && bytes_per_pixel2 <= bytes_per_pixel ==> !exceeds_limits(
            max_pixels,
            max_memory_bytes,
            max_width,
            max_height,
            width2,
            height2,
            bytes_per_pixel2,
        ),
{
    if width2 <= width && height2 <= height && bytes_per_pixel2 <= bytes_per_pixel {
        assert(width2 * height2 <= width * height) by (nonlinear_arith)
            requires
                width2 <= width,
                height2 <= height,
        ;
        assert(width2 * height2 * bytes_per_pixel2 <= width * height * bytes_per_pixel) by (nonlinear_arith)
            requires
                width2 * height2 <= width * height,
                bytes_per_pixel2 <= bytes_per_pixel,
        ;
    }
}

/// The memory estimate is only computed when the pixel check passes; it must then fit in 64 bits.
pub open spec fn memory_estimate_fits(
    max_pixels: Option<u64>,
    max_memory_bytes: Option<u64>,
    width: u32,
    height: u32,
    bytes_per_pixel: u64,
) -> bool {
    max_memory_bytes is Some && !(max_pixels matches Some(m) && width * height > m)
        ==> width * height * bytes_per_pixel <= u64::MAX
}

/// Checks an image against resource limits, in the order pixel count, memory, width, height.
pub fn check_limits(
    max_pixels: Option<u64>,
    max_memory_bytes: Option<u64>,
    max_width: Option<u32>,
    max_height: Option<u32>,
    width: u32,
    height: u32,
    bytes_per_pixel: u64,
) -> (r: Result<(), ZentiffError>)
    requires
        memory_estimate_fits(max_pixels, max_memory_bytes, width, height, bytes_per_pixel),
    ensures
        r is Ok <==> !exceeds_limits(
            max_pixels,
            max_memory_bytes,
            max_width,
            max_height,
            width,
            height,
            bytes_per_pixel,
        ),
        r matches Err(e) ==> e is LimitExceeded,
{
    assert(width * height <= u64::MAX) by (nonlinear_arith)
        requires
            width <= u32::MAX,
            height <= u32::MAX,
    ;
    let pixels = width as u64 * height as u64;
    if let Some(max_px) = max_pixels {
        if pixels > max_px {
            return Err(ZentiffError::LimitExceeded(pixel_limit_message(pixels, max_px)));
        }
    }
    if let Some(max_mem) = max_memory_bytes {
        let estimated = pixels * bytes_per_pixel;
        if estimated > max_mem {
            return Err(ZentiffError::LimitExceeded(memory_limit_message(estimated, max_mem)));
        }
    }
    if let Some(max_w) = max_width {
        if width > max_w {
            return Err(ZentiffError::LimitExceeded(width_limit_message(width, max_w)));
        }
    }
    if let Some(max_h) = max_height {
        if height > max_h {
            return Err(ZentiffError::LimitExceeded(height_limit_message(height, max_h)));
        }
    }
    Ok(())
}

impl TiffDecodeConfig {
    /// No resource limits. Caller takes responsibility.
    pub fn none() -> (r: Self)
        ensures
            r.max_pixels is None,
            r.max_memory_bytes is None,
            r.max_width is None,
            r.max_height is None,
    {
        TiffDecodeConfig { max_pixels: None, max_memory_bytes: None, max_width: None, max_height: None }
    }

    /// Set maximum pixel count (width * height).
    pub fn with_max_pixels(self, max: u64) -> (r: Self)
        ensures
            r == (TiffDecodeConfig { max_pixels: Some(max), ..self }),
    {
        TiffDecodeConfig { max_pixels: Some(max), ..self }
    }

    /// Set maximum memory allocation in bytes.
    pub fn with_max_memory(self, max: u64) -> (r: Self)
        ensures
            r == (TiffDecodeConfig { max_memory_bytes: Some(max), ..self }),
    {
        TiffDecodeConfig { max_memory_bytes: Some(max), ..self }
    }

    /// Set maximum image width.
    pub fn with_max_width(self, max: u32) -> (r: Self)
        ensures
            r == (TiffDecodeConfig { max_width: Some(max), ..self }),
    {
        TiffDecodeConfig { max_width: Some(max), ..self }
    }

    /// Set maximum image height.
    pub fn with_max_height(self, max: u32) -> (r: Self)
        ensures
            r == (TiffDecodeConfig { max_height: Some(max), ..self }),
    {
        TiffDecodeConfig { max_height: Some(max), ..self }
    }

    pub open spec fn spec_exceeds(self, width: u32, height: u32, bytes_per_pixel: u64) -> bool {
        exceeds_limits(
            self.max_pixels,
            self.max_memory_bytes,
            self.max_width,
            self.max_height,
            width,
            height,
            bytes_per_pixel,
        )
    }

    pub open spec fn spec_estimate_fits(self, width: u32, height: u32, bytes_per_pixel: u64) -> bool {
        memory_estimate_fits(self.max_pixels, self.max_memory_bytes, width, height, bytes_per_pixel)
    }

    /// Whether [`validate`](Self::validate) can compute its memory estimate in 64 bits for
    /// these dimensions.
    pub fn estimate_fits(&self, width: u32, height: u32, bytes_per_pixel: u32) -> (r: bool)
        ensures
            r == self.spec_estimate_fits(width, height, bytes_per_pixel as u64),
    {
        assert(width * height <= u64::MAX) by (nonlinear_arith)
            requires
                width <= u32::MAX,
                height <= u32::MAX,
        ;
        let pixels = width as u64 * height as u64;
        let pixel_check_passes = match self.max_pixels {
            Some(m) => pixels <= m,
            None => true,
        };
        if self.max_memory_bytes.is_some() && pixel_check_passes {
            assert(pixels * bytes_per_pixel <= u128::MAX) by (nonlinear_arith)
                requires
                    pixels <= u64::MAX,
                    bytes_per_pixel <= u64::MAX,
            ;
            pixels as u128 * bytes_per_pixel as u128 <= u64::MAX as u128
        } else {
            true
        }
    }

    /// Checks an image of `width` x `height` pixels of `bytes_per_pixel` output bytes against
    /// the limits; `Err(LimitExceeded)` exactly when one is exceeded.
    pub fn validate(&self, width: u32, height: u32, bytes_per_pixel: u32) -> (r: Result<(), ZentiffError>)
        requires
            self.spec_estimate_fits(width, height, bytes_per_pixel as u64),
        ensures
            r is Ok <==> !self.spec_exceeds(width, height, bytes_per_pixel as u64),
            r matches Err(e) ==> e is LimitExceeded,
    {
        check_limits(
            self.max_pixels,
            self.max_memory_bytes,
            self.max_width,
            self.max_height,
            width,
            height,
            bytes_per_pixel as u64,
        )
    }
}

impl Default for TiffDecodeConfig {
    /// The default limits: 100 MP pixel count, 4 GiB memory, no width or height limit.
    fn default() -> (r: Self)
        ensures
            r.max_pixels == Some(DEFAULT_MAX_PIXELS),
            r.max_memory_bytes == Some(DEFAULT_MAX_MEMORY),
            r.max_width is None,
            r.max_height is None,
    {
        TiffDecodeConfig {
            max_pixels: Some(DEFAULT_MAX_PIXELS),
            max_memory_bytes: Some(DEFAULT_MAX_MEMORY),
            max_width: None,
            max_height: None,
        }
    }
}

/// Compression method for TIFF encoding.
#[derive(Clone, Copy, Debug, PartialEq, Eq, Structural)]
#[non_exhaustive]
pub enum TiffCompression {
    /// No compression.
    Uncompressed,
    /// LZW compression.
    Lzw,
    /// DEFLATE/zlib compression.
    Deflate,
    /// PackBits run-length encoding.
    PackBits,
}

impl Default for TiffCompression {
    fn default() -> (r: Self)
        ensures
            r == TiffCompression::Uncompressed,
    {
        TiffCompression::Uncompressed
    }
}

/// Predictor for TIFF encoding.
#[derive(Clone, Copy, Debug, PartialEq, Eq, Structural)]
#[non_exhaustive]
pub enum TiffPredictor {
    /// No prediction.
    NoPrediction,
    /// Horizontal differencing (each sample stores the difference from the previous).
    Horizontal,
}

impl Default for TiffPredictor {
    fn default() -> (r: Self)
        ensures
            r == TiffPredictor::NoPrediction,
    {
        TiffPredictor::NoPrediction
    }
}

/// Encode configuration for TIFF operations.
#[derive(Clone, Copy, Debug, PartialEq, Eq, Structural)]
#[non_exhaustive]
pub struct TiffEncodeConfig {
    /// Compression method.
    pub compression: TiffCompression,
    /// Predictor (improves compression ratio).
    pub predictor: TiffPredictor,
    /// Use BigTIFF format (64-bit offsets, supports >4GB files).
    pub big_tiff: bool,
}

impl TiffEncodeConfig {
    /// Create a config with LZW + horizontal prediction (good default).
    pub fn new() -> (r: Self)
        ensures
            r == (TiffEncodeConfig {
                compression: TiffCompression::Lzw,
                predictor: TiffPredictor::Horizontal,
                big_tiff: false,
            }),
    {
        Self::default()
    }

    /// Set compression method.
    pub fn with_compression(self, compression: TiffCompression) -> (r: Self)
        ensures
            r == (TiffEncodeConfig { compression, ..self }),
    {
        TiffEncodeConfig { compression, ..self }
    }

    /// Set predictor.
    pub fn with_predictor(self, predictor: TiffPredictor) -> (r: Self)
        ensures
            r == (TiffEncodeConfig { predictor, ..self }),
    {
        TiffEncodeConfig { predictor, ..self }
    }

    /// Enable BigTIFF format for files >4GB.
    pub fn with_big_tiff(self, big: bool) -> (r: Self)
        ensures
            r == (TiffEncodeConfig { big_tiff: big, ..self }),
    {
        TiffEncodeConfig { big_tiff: big, ..self }
    }
}

impl Default for TiffEncodeConfig {
    fn default() -> (r: Self)
        ensures
            r == (TiffEncodeConfig {
                compression: TiffCompression::Lzw,
                predictor: TiffPredictor::Horizontal,
                big_tiff: false,
            }),
    {
        TiffEncodeConfig { compression: TiffCompression::Lzw, predictor: TiffPredictor::Horizontal, big_tiff: false }
    }
}

} // verus!
