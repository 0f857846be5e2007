use zentiff::codec::{check_encode_limits, check_input_size, effective_decode_config, CodecLimits, TiffDecoderCodecConfig};
use zentiff::color::{ChannelLayout, ChannelType, PixelDescriptor};
use zentiff::config::{TiffCompression, TiffDecodeConfig, TiffEncodeConfig, TiffPredictor};
use zentiff::convert::Converted;
use zentiff::error::ZentiffError;
use zentiff::info::TiffInfo;
use zentiff::reader::{decode_samples, probe};
use zentiff::writer::{encode_pixels, expand_graya_bytes};

fn rgb8() -> PixelDescriptor {
    PixelDescriptor::new(ChannelLayout::Rgb, ChannelType::U8)
}

fn make_gradient_rgb8(width: u32, height: u32) -> Vec<u8> {
    let mut data = Vec::with_capacity((width * height) as usize * 3);
    for y in 0..height {
        for x in 0..width {
            data.push((x * 255 / width.max(1)) as u8);
            data.push((y * 255 / height.max(1)) as u8);
            data.push(128u8);
        }
    }
    data
}

fn make_gradient_rgba8(width: u32, height: u32) -> Vec<u8> {
    let mut data = Vec::with_capacity((width * height) as usize * 4);
    for y in 0..height {
        for x in 0..width {
            data.push((x * 255 / width.max(1)) as u8);
            data.push((y * 255 / height.max(1)) as u8);
            data.push(128u8);
            data.push(255u8);
        }
    }
    data
}

fn make_gradient_gray8(width: u32, height: u32) -> Vec<u8> {
    let mut data = Vec::with_capacity((width * height) as usize);
    for y in 0..height {
        for x in 0..width {
            data.push(((x + y) * 255 / (width + height).max(1)) as u8);
        }
    }
    data
}

fn make_gradient_rgb16(width: u32, height: u32) -> Vec<u8> {
    let mut data: Vec<u16> = Vec::with_capacity((width * height) as usize * 3);
    for y in 0..height {
        for x in 0..width {
            data.push((x as u16 * 256) + 128);
            data.push((y as u16 * 256) + 128);
            data.push(32768u16);
        }
    }
    bytemuck::cast_slice::<u16, u8>(&data).to_vec()
}

/// Decodes `encoded` with the default configuration and returns the info and the pixel bytes
/// with their format.
fn decode_pixels_of(encoded: &[u8]) -> (TiffInfo, Vec<u8>, PixelDescriptor) {
    match decode_samples(encoded, &TiffDecodeConfig::default()).unwrap() {
        (info, Converted::Pixels(bytes, desc)) => (info, bytes, desc),
        (_, other) => panic!("unexpected decode result {other:?}"),
    }
}

#[test]
fn roundtrip_rgb8_lzw() {
    let data = make_gradient_rgb8(64, 48);
    let encoded = encode_pixels(rgb8(), 64, 48, &data, &TiffEncodeConfig::new()).unwrap();
    let (info, decoded, desc) = decode_pixels_of(&encoded);
    assert_eq!(info.width, 64);
    assert_eq!(info.height, 48);
    assert_eq!(desc.layout(), ChannelLayout::Rgb);
    assert_eq!(desc.channel_type(), ChannelType::U8);
    assert_eq!(data, decoded);
}

#[test]
fn roundtrip_rgba8_deflate() {
    let data = make_gradient_rgba8(32, 32);
    let config = TiffEncodeConfig::new()
        .with_compression(TiffCompression::Deflate)
        .with_predictor(TiffPredictor::NoPrediction);
    let desc = PixelDescriptor::new(ChannelLayout::Rgba, ChannelType::U8);
    let encoded = encode_pixels(desc, 32, 32, &data, &config).unwrap();
    let (info, decoded, desc) = decode_pixels_of(&encoded);
    assert_eq!(info.width, 32);
    assert_eq!(info.height, 32);
    assert_eq!(desc.layout(), ChannelLayout::Rgba);
    assert_eq!(desc.channel_type(), ChannelType::U8);
    assert_eq!(data, decoded);
}

#[test]
fn roundtrip_gray8_uncompressed() {
    let data = make_gradient_gray8(16, 16);
    let config = TiffEncodeConfig::new()
        .with_compression(TiffCompression::Uncompressed)
        .with_predictor(TiffPredictor::NoPrediction);
    let desc = PixelDescriptor::new(ChannelLayout::Gray, ChannelType::U8);
    let encoded = encode_pixels(desc, 16, 16, &data, &config).unwrap();
    let (info, decoded, desc) = decode_pixels_of(&encoded);
    assert_eq!(info.width, 16);
    assert_eq!(info.height, 16);
    assert_eq!(desc.layout(), ChannelLayout::Gray);
    assert_eq!(desc.channel_type(), ChannelType::U8);
    assert_eq!(data, decoded);
}

#[test]
fn roundtrip_rgb16_packbits() {
    let data = make_gradient_rgb16(24, 24);
    let config = TiffEncodeConfig::new()
        .with_compression(TiffCompression::PackBits)
        .with_predictor(TiffPredictor::NoPrediction);
    let desc = PixelDescriptor::new(ChannelLayout::Rgb, ChannelType::U16);
    let encoded = encode_pixels(desc, 24, 24, &data, &config).unwrap();
    let (info, decoded, desc) = decode_pixels_of(&encoded);
    assert_eq!(info.width, 24);
    assert_eq!(info.height, 24);
    assert_eq!(desc.layout(), ChannelLayout::Rgb);
    assert_eq!(desc.channel_type(), ChannelType::U16);
    assert_eq!(data, decoded);
}

#[test]
fn probe_returns_metadata() {
    let data = make_gradient_rgb8(100, 50);
    let encoded = encode_pixels(rgb8(), 100, 50, &data, &TiffEncodeConfig::new()).unwrap();
    let info = probe(&encoded).unwrap();
    assert_eq!(info.width, 100);
    assert_eq!(info.height, 50);
    assert_eq!(info.channels, 3);
    assert_eq!(info.bit_depth, 8);
}

#[test]
fn limits_reject_oversized() {
    let data = make_gradient_rgb8(100, 100);
    let encoded = encode_pixels(rgb8(), 100, 100, &data, &TiffEncodeConfig::new()).unwrap();
    let config = TiffDecodeConfig::none().with_max_pixels(5_000);
    let result = decode_samples(&encoded, &config);
    assert!(result.is_err());
    assert!(matches!(result, Err(ZentiffError::LimitExceeded(_))));
}

#[test]
fn bigtiff_roundtrip() {
    let data = make_gradient_rgb8(32, 32);
    let config = TiffEncodeConfig::new().with_big_tiff(true);
    let encoded = encode_pixels(rgb8(), 32, 32, &data, &config).unwrap();
    assert!(encoded[2..4] == [43, 0] || encoded[2..4] == [0, 43], "BigTIFF version expected");
    let (info, decoded, _) = decode_pixels_of(&encoded);
    assert_eq!(info.width, 32);
    assert_eq!(info.height, 32);
    assert_eq!(data, decoded);
}

#[test]
fn encode_1x1_pixel() {
    let data = vec![255u8, 0, 128];
    let config = TiffEncodeConfig::new().with_compression(TiffCompression::Uncompressed);
    let encoded = encode_pixels(rgb8(), 1, 1, &data, &config).unwrap();
    let (info, decoded, _) = decode_pixels_of(&encoded);
    assert_eq!(info.width, 1);
    assert_eq!(info.height, 1);
    assert_eq!(decoded, vec![255u8, 0, 128]);
}

#[test]
fn graya_encodes_as_rgba() {
    let data = vec![10u8, 200, 20, 100];
    let desc = PixelDescriptor::new(ChannelLayout::GrayAlpha, ChannelType::U8);
    let encoded = encode_pixels(desc, 2, 1, &data, &TiffEncodeConfig::new()).unwrap();
    let (_, decoded, out) = decode_pixels_of(&encoded);
    assert_eq!(out.layout(), ChannelLayout::Rgba);
    assert_eq!(decoded, vec![10, 10, 10, 200, 20, 20, 20, 100]);
    assert_eq!(expand_graya_bytes(&data, 1), decoded);
}

#[test]
fn unencodable_format_is_unsupported() {
    let desc = PixelDescriptor::new(ChannelLayout::Cmyk, ChannelType::U8);
    let result = encode_pixels(desc, 1, 1, &[0, 0, 0, 0], &TiffEncodeConfig::new());
    assert!(matches!(result, Err(ZentiffError::Unsupported(_))));
}

fn job_limits() -> CodecLimits {
    CodecLimits { max_pixels: None, max_memory_bytes: None, max_width: None, max_height: None, max_input_bytes: None }
}

/// Decodes as a decode job with resource limits: input size first, then the job's effective
/// configuration.
fn decode_job(data: &[u8], limits: CodecLimits) -> Result<(TiffInfo, Converted), ZentiffError> {
    check_input_size(limits.max_input_bytes, data.len())?;
    let config = effective_decode_config(TiffDecoderCodecConfig::new().inner(), Some(limits));
    decode_samples(data, &config)
}

#[test]
fn decode_rejects_exceeding_max_width() {
    let data = make_gradient_rgb8(100, 10);
    let tiff_data = encode_pixels(rgb8(), 100, 10, &data, &TiffEncodeConfig::new()).unwrap();
    let limits = CodecLimits { max_width: Some(50), ..job_limits() };
    assert!(decode_job(&tiff_data, limits).is_err(), "should reject width 100 > limit 50");
}

#[test]
fn decode_rejects_exceeding_max_height() {
    let data = make_gradient_rgb8(10, 100);
    let tiff_data = encode_pixels(rgb8(), 10, 100, &data, &TiffEncodeConfig::new()).unwrap();
    let limits = CodecLimits { max_height: Some(50), ..job_limits() };
    assert!(decode_job(&tiff_data, limits).is_err(), "should reject height 100 > limit 50");
}

#[test]
fn decode_accepts_within_dimension_limits() {
    let data = make_gradient_rgb8(10, 10);
    let tiff_data = encode_pixels(rgb8(), 10, 10, &data, &TiffEncodeConfig::new()).unwrap();
    let limits = CodecLimits { max_width: Some(100), max_height: Some(100), ..job_limits() };
    let (info, _) = decode_job(&tiff_data, limits).unwrap();
    assert_eq!(info.width, 10);
    assert_eq!(info.height, 10);
}

#[test]
fn encode_rejects_exceeding_max_memory() {
    let limits = CodecLimits { max_memory_bytes: Some(1000), ..job_limits() };
    assert!(check_encode_limits(Some(limits), 100, 100, 3).is_err(), "should reject 30KB > 1KB memory limit");
}

#[test]
fn encode_rejects_exceeding_max_width() {
    let limits = CodecLimits { max_width: Some(100), ..job_limits() };
    assert!(check_encode_limits(Some(limits), 200, 10, 3).is_err(), "should reject width 200 > limit 100");
}

#[test]
fn encode_accepts_within_memory_limits() {
    let limits = CodecLimits { max_memory_bytes: Some(100_000), ..job_limits() };
    assert!(check_encode_limits(Some(limits), 10, 10, 3).is_ok());
    let data = make_gradient_rgb8(10, 10);
    let output = encode_pixels(rgb8(), 10, 10, &data, &TiffEncodeConfig::new()).unwrap();
    assert!(!output.is_empty());
}

#[test]
fn decode_rejects_exceeding_max_input_bytes() {
    let data = make_gradient_rgb8(10, 10);
    let tiff_data = encode_pixels(rgb8(), 10, 10, &data, &TiffEncodeConfig::new()).unwrap();
    let limits = CodecLimits { max_input_bytes: Some(10), ..job_limits() };
    assert!(decode_job(&tiff_data, limits).is_err(), "should reject input larger than 10 bytes");
}

#[test]
fn roundtrip_rgba8_via_traits() {
    let data = make_gradient_rgba8(8, 4);
    let desc = PixelDescriptor::new(ChannelLayout::Rgba, ChannelType::U8);
    let encoded = encode_pixels(desc, 8, 4, &data, &TiffEncodeConfig::new()).unwrap();
    match decode_job(&encoded, job_limits()).unwrap() {
        (info, Converted::Pixels(bytes, out)) => {
            assert_eq!((info.width, info.height), (8, 4));
            assert_eq!(out.layout(), ChannelLayout::Rgba);
            assert_eq!(bytes, data);
        }
        (_, other) => panic!("unexpected decode result {other:?}"),
    }
}

#[test]
fn roundtrip_gray8_via_traits() {
    let data = make_gradient_gray8(8, 4);
    let desc = PixelDescriptor::new(ChannelLayout::Gray, ChannelType::U8);
    let encoded = encode_pixels(desc, 8, 4, &data, &TiffEncodeConfig::new()).unwrap();
    match decode_job(&encoded, job_limits()).unwrap() {
        (info, Converted::Pixels(bytes, out)) => {
            assert_eq!((info.width, info.height), (8, 4));
            assert_eq!(out.layout(), ChannelLayout::Gray);
            assert_eq!(bytes, data);
        }
        (_, other) => panic!("unexpected decode result {other:?}"),
    }
}

/// Gray samples stored as 16-bit IEEE floats.
struct GrayF16;

impl tiff::encoder::colortype::ColorType for GrayF16 {
    type Inner = u16;
    const TIFF_VALUE: tiff::tags::PhotometricInterpretation = tiff::tags::PhotometricInterpretation::BlackIsZero;
    const BITS_PER_SAMPLE: &'static [u16] = &[16];
    const SAMPLE_FORMAT: &'static [tiff::tags::SampleFormat] = &[tiff::tags::SampleFormat::IEEEFP];

    fn horizontal_predict(row: &[u16], result: &mut Vec<u16>) {
        result.extend_from_slice(row);
    }
}

fn gray_f16_tiff(width: u32, height: u32) -> Vec<u8> {
    let samples = vec![0x3C00u16; (width * height) as usize];
    let mut buf = Vec::new();
    {
        let cursor = std::io::Cursor::new(&mut buf);
        let mut enc = tiff::encoder::TiffEncoder::new(cursor).unwrap();
        enc.write_image::<GrayF16>(width, height, &samples).unwrap();
    }
    buf
}

#[test]
fn float16_output_is_limited_at_four_bytes_per_sample() {
    let data = gray_f16_tiff(10, 10);
    let tight = TiffDecodeConfig::none().with_max_memory(200);
    assert!(matches!(decode_samples(&data, &tight), Err(ZentiffError::LimitExceeded(_))));
    let enough = TiffDecodeConfig::none().with_max_memory(400);
    match decode_samples(&data, &enough).unwrap() {
        (info, Converted::Widen(samples, desc)) => {
            assert!(info.is_float);
            assert_eq!(desc.channel_type(), ChannelType::F32);
            assert_eq!(desc.layout(), ChannelLayout::Gray);
            assert!(matches!(samples, zentiff::samples::Samples::F16(ref v) if v.len() == 100 && v[0] == 0x3C00));
        }
        (_, other) => panic!("unexpected decode result {other:?}"),
    }
}

#[test]
fn decoder_failures_are_reported_by_kind() {
    assert!(matches!(probe(b"II*\0\x08\0\0\0"), Err(ZentiffError::Decode(_)) | Err(ZentiffError::Io(_))));
    assert!(matches!(probe(b"not a tiff file"), Err(ZentiffError::Decode(_))));
}
