use zentiff::codec::encode_estimate_in_range;
use zentiff::codec::{
    check_encode_limits, check_input_size, effective_decode_config, CodecLimits,
    TiffDecoderCodecConfig, TiffEncoderCodecConfig, TiffSourceEncoding,
};
use zentiff::config::{TiffCompression, TiffPredictor, TiffDecodeConfig, TiffEncodeConfig};
use zentiff::error::ZentiffError;

#[test]
fn default_config_has_limits() {
    let config = TiffDecodeConfig::default();
    assert_eq!(config.max_pixels, Some(100_000_000));
    assert_eq!(config.max_memory_bytes, Some(4 * 1024 * 1024 * 1024));
}

#[test]
fn none_config_has_no_limits() {
    let config = TiffDecodeConfig::none();
    assert!(config.max_pixels.is_none());
    assert!(config.max_memory_bytes.is_none());
}

#[test]
fn builder_sets_max_pixels() {
    let config = TiffDecodeConfig::none().with_max_pixels(5_000);
    assert_eq!(config.max_pixels, Some(5_000));
}

#[test]
fn builder_sets_max_memory() {
    let config = TiffDecodeConfig::none().with_max_memory(20_000);
    assert_eq!(config.max_memory_bytes, Some(20_000));
}

#[test]
fn default_config() {
    let config = TiffEncodeConfig::default();
    assert_eq!(config.compression, TiffCompression::Lzw);
    assert_eq!(config.predictor, TiffPredictor::Horizontal);
    assert!(!config.big_tiff);
}

#[test]
fn builder_chain() {
    let config = TiffEncodeConfig::new()
        .with_compression(TiffCompression::Deflate)
        .with_predictor(TiffPredictor::NoPrediction)
        .with_big_tiff(true);
    assert_eq!(config.compression, TiffCompression::Deflate);
    assert_eq!(config.predictor, TiffPredictor::NoPrediction);
    assert!(config.big_tiff);
}

#[test]
fn lossless_always_true() {
    let config = TiffEncoderCodecConfig::new();
    assert_eq!(config.is_lossless(), Some(true));
}

#[test]
fn enum_defaults_are_the_plain_variants() {
    assert_eq!(TiffCompression::default(), TiffCompression::Uncompressed);
    assert_eq!(TiffPredictor::default(), TiffPredictor::NoPrediction);
}

#[test]
fn builders_set_width_and_height_limits() {
    let config = TiffDecodeConfig::none().with_max_width(50).with_max_height(60);
    assert_eq!(config.max_width, Some(50));
    assert_eq!(config.max_height, Some(60));
    assert_eq!(config.max_pixels, None);
}

#[test]
fn validate_rejects_oversized_pixel_count() {
    let config = TiffDecodeConfig::none().with_max_pixels(100);
    let r = config.validate(5000, 5000, 3);
    assert!(matches!(r, Err(ZentiffError::LimitExceeded(_))));
    assert!(config.validate(10, 10, 3).is_ok());
    assert!(matches!(config.validate(11, 10, 3), Err(ZentiffError::LimitExceeded(_))));
}

#[test]
fn validate_rejects_oversized_memory() {
    let config = TiffDecodeConfig::none().with_max_memory(300);
    assert!(config.validate(10, 10, 3).is_ok());
    assert!(matches!(config.validate(10, 10, 4), Err(ZentiffError::LimitExceeded(_))));
}

#[test]
fn validate_rejects_width_and_height() {
    let config = TiffDecodeConfig::none().with_max_width(50).with_max_height(50);
    assert!(matches!(config.validate(100, 10, 1), Err(ZentiffError::LimitExceeded(_))));
    assert!(matches!(config.validate(10, 100, 1), Err(ZentiffError::LimitExceeded(_))));
    assert!(config.validate(50, 50, 1).is_ok());
}

#[test]
fn no_limits_accept_large_images() {
    let config = TiffDecodeConfig::none();
    assert!(config.validate(u32::MAX, u32::MAX, 16).is_ok());
}

#[test]
fn default_limits_reject_above_hundred_megapixels() {
    let config = TiffDecodeConfig::default();
    assert!(config.validate(10_000, 10_000, 4).is_ok());
    assert!(matches!(config.validate(10_001, 10_000, 4), Err(ZentiffError::LimitExceeded(_))));
}

fn limits(
    max_pixels: Option<u64>,
    max_memory_bytes: Option<u64>,
    max_width: Option<u32>,
    max_height: Option<u32>,
    max_input_bytes: Option<u64>,
) -> CodecLimits {
    CodecLimits { max_pixels, max_memory_bytes, max_width, max_height, max_input_bytes }
}

#[test]
fn job_limits_override_base_config() {
    let base = TiffDecodeConfig::default();
    let eff = effective_decode_config(&base, Some(limits(None, None, Some(50), None, None)));
    assert_eq!(eff.max_width, Some(50));
    assert_eq!(eff.max_pixels, Some(100_000_000));
    assert_eq!(eff.max_memory_bytes, Some(4 * 1024 * 1024 * 1024));
    assert!(matches!(eff.validate(100, 10, 4), Err(ZentiffError::LimitExceeded(_))));
    let eff = effective_decode_config(&base, Some(limits(Some(10), None, None, None, None)));
    assert_eq!(eff.max_pixels, Some(10));
    let eff = effective_decode_config(&base, None);
    assert_eq!(eff, base);
}

#[test]
fn decode_job_dimension_limits() {
    let base = TiffDecodeConfig::default();
    let eff = effective_decode_config(&base, Some(limits(None, None, None, Some(50), None)));
    assert!(matches!(eff.validate(10, 100, 3), Err(ZentiffError::LimitExceeded(_))));
    let eff = effective_decode_config(&base, Some(limits(None, None, Some(100), Some(100), None)));
    assert!(eff.validate(10, 100, 3).is_ok());
}

#[test]
fn input_size_limit() {
    assert!(check_input_size(None, 1_000_000).is_ok());
    assert!(check_input_size(Some(10), 10).is_ok());
    assert!(matches!(check_input_size(Some(10), 11), Err(ZentiffError::LimitExceeded(_))));
}

#[test]
fn encode_limits() {
    assert!(check_encode_limits(None, 100, 100, 3).is_ok());
    let mem = limits(None, Some(1000), None, None, None);
    assert!(matches!(check_encode_limits(Some(mem), 100, 100, 3), Err(ZentiffError::LimitExceeded(_))));
    let width = limits(None, None, Some(100), None, None);
    assert!(matches!(check_encode_limits(Some(width), 200, 10, 3), Err(ZentiffError::LimitExceeded(_))));
    let roomy = limits(None, Some(100_000), None, None, None);
    assert!(check_encode_limits(Some(roomy), 10, 10, 4).is_ok());
    let pixels = limits(Some(99), None, None, None, None);
    assert!(matches!(check_encode_limits(Some(pixels), 10, 10, 1), Err(ZentiffError::LimitExceeded(_))));
    let height = limits(None, None, None, Some(9), None);
    assert!(matches!(check_encode_limits(Some(height), 10, 10, 1), Err(ZentiffError::LimitExceeded(_))));
}

#[test]
fn codec_configs_wrap_inner_configs() {
    let enc = TiffEncoderCodecConfig::from_config(TiffEncodeConfig::new().with_big_tiff(true));
    assert!(enc.inner().big_tiff);
    let mut enc = TiffEncoderCodecConfig::default();
    assert_eq!(enc.inner().compression, TiffCompression::Lzw);
    enc.inner_mut().compression = TiffCompression::PackBits;
    assert_eq!(enc.inner().compression, TiffCompression::PackBits);

    let dec = TiffDecoderCodecConfig::new();
    assert_eq!(dec.inner().max_pixels, Some(100_000_000));
    let mut dec = TiffDecoderCodecConfig::from_config(TiffDecodeConfig::none());
    assert_eq!(dec.inner().max_pixels, None);
    dec.inner_mut().max_pixels = Some(7);
    assert_eq!(dec.inner().max_pixels, Some(7));
    assert_eq!(TiffDecoderCodecConfig::default().inner().max_memory_bytes, Some(4 * 1024 * 1024 * 1024));
}

#[test]
fn source_encoding_reports_lossless() {
    let s = TiffSourceEncoding;
    assert!(s.is_lossless());
    assert!(s.source_generic_quality_is_none());
}

#[test]
fn memory_estimates_in_range() {
    let config = TiffDecodeConfig::none().with_max_memory(10);
    assert!(config.estimate_fits(100, 100, 4));
    assert!(!config.estimate_fits(u32::MAX, u32::MAX, 8));
    assert!(TiffDecodeConfig::none().estimate_fits(u32::MAX, u32::MAX, 8));
    let capped = TiffDecodeConfig::none().with_max_memory(10).with_max_pixels(5);
    assert!(capped.estimate_fits(u32::MAX, u32::MAX, 8));
    let mem = limits(None, Some(1), None, None, None);
    assert!(encode_estimate_in_range(Some(mem), 10, 10, 4));
    assert!(!encode_estimate_in_range(Some(mem), u32::MAX, u32::MAX, u64::MAX));
    assert!(encode_estimate_in_range(None, u32::MAX, u32::MAX, u64::MAX));
}
