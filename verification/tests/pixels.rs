use zentiff::color::{
    descriptor_for, has_alpha_from_color_type, output_bytes_per_pixel, ChannelLayout, ChannelType,
    TiffColorType, PixelDescriptor,
};
use zentiff::convert::{convert_to_pixel_buffer, Converted};
use zentiff::encode::{
    encode_plan, expand_graya_to_rgba, expand_graya_to_rgba_u16, expand_graya_to_rgba_u8,
    EncodeColorType,
};
use zentiff::error::ZentiffError;
use zentiff::palette::expand_palette;
use zentiff::samples::{
    adjust_channels_u16, adjust_channels_u8, conversion_is_defined, expand_channels,
    interleave_planes, result_format_flags, result_to_bytes, truncate_channels, unpack_palette_indices,
    unpack_subbyte, Samples,
};

#[test]
fn descriptor_for_gray8() {
    let d = descriptor_for(TiffColorType::Gray(8), false);
    assert_eq!(d.channel_type(), ChannelType::U8);
    assert_eq!(d.layout(), ChannelLayout::Gray);
}

#[test]
fn descriptor_for_rgb16() {
    let d = descriptor_for(TiffColorType::RGB(16), false);
    assert_eq!(d.channel_type(), ChannelType::U16);
    assert_eq!(d.layout(), ChannelLayout::Rgb);
}

#[test]
fn descriptor_for_rgba_float() {
    let d = descriptor_for(TiffColorType::RGBA(32), true);
    assert_eq!(d.channel_type(), ChannelType::F32);
    assert_eq!(d.layout(), ChannelLayout::Rgba);
}

#[test]
fn descriptor_for_cmyk() {
    let d = descriptor_for(TiffColorType::CMYK(8), false);
    assert_eq!(d.layout(), ChannelLayout::Rgba);
}

#[test]
fn descriptor_for_palette() {
    let d = descriptor_for(TiffColorType::Palette(8), false);
    assert_eq!(d, PixelDescriptor::new(ChannelLayout::Rgb, ChannelType::U8));
}

#[test]
fn descriptor_for_multiband_2ch() {
    let d = descriptor_for(TiffColorType::Multiband { bit_depth: 8, num_samples: 2 }, false);
    assert_eq!(d.layout(), ChannelLayout::GrayAlpha);
    assert_eq!(d.channel_type(), ChannelType::U8);
}

#[test]
fn descriptor_for_wide_and_multiband() {
    assert_eq!(descriptor_for(TiffColorType::Gray(32), false).channel_type(), ChannelType::U16);
    assert_eq!(descriptor_for(TiffColorType::Gray(64), true).channel_type(), ChannelType::F32);
    assert_eq!(descriptor_for(TiffColorType::YCbCr(8), false).layout(), ChannelLayout::Rgb);
    let d = descriptor_for(TiffColorType::Multiband { bit_depth: 16, num_samples: 7 }, true);
    assert_eq!(d.layout(), ChannelLayout::Rgba);
    assert_eq!(d.channel_type(), ChannelType::U16);
    assert_eq!(d.bytes_per_pixel(), 8);
}

#[test]
fn unpack_1bit() {
    let packed = vec![0b1011_0100];
    let result = unpack_subbyte(&packed, 8, 1, 1, 1);
    assert_eq!(result, vec![255, 0, 255, 255, 0, 255, 0, 0]);
}

#[test]
fn unpack_2bit() {
    let packed = vec![0b11_10_01_00];
    let result = unpack_subbyte(&packed, 4, 1, 2, 1);
    assert_eq!(result, vec![255, 170, 85, 0]);
}

#[test]
fn unpack_4bit() {
    let packed = vec![0xF0];
    let result = unpack_subbyte(&packed, 2, 1, 4, 1);
    assert_eq!(result, vec![255, 0]);
}

#[test]
fn unpack_6bit_spans_bytes() {
    let packed = vec![0b0000_0111, 0b1100_0000];
    let result = unpack_subbyte(&packed, 2, 1, 6, 1);
    assert_eq!(result, vec![4, 242]);
}

#[test]
fn unpack_rows_are_byte_aligned() {
    let packed = vec![0b1010_0000, 0b0100_0000];
    let result = unpack_subbyte(&packed, 3, 2, 1, 1);
    assert_eq!(result, vec![255, 0, 255, 0, 255, 0]);
}

#[test]
fn unpack_scales_extremes() {
    assert_eq!(unpack_subbyte(&[0b1110_0000], 1, 1, 3, 1), vec![255]);
    assert_eq!(unpack_subbyte(&[0b0000_0000], 1, 1, 3, 1), vec![0]);
}

#[test]
fn palette_indices_are_raw() {
    let packed = vec![0b1011_0100];
    assert_eq!(unpack_palette_indices(&packed, 8, 1, 1), vec![1, 0, 1, 1, 0, 1, 0, 0]);
    assert_eq!(unpack_palette_indices(&[0b11_10_01_00], 4, 1, 2), vec![3, 2, 1, 0]);
}

#[test]
fn expand_graya_u8() {
    let input = [128u8, 255, 64, 128];
    let result = expand_graya_to_rgba_u8(&input);
    assert_eq!(result, [128, 128, 128, 255, 64, 64, 64, 128]);
}

#[test]
fn expand_graya_u16_and_generic() {
    assert_eq!(expand_graya_to_rgba_u16(&[1000u16, 65535]), vec![1000, 1000, 1000, 65535]);
    assert_eq!(expand_graya_to_rgba(&[0.5f32, 1.0, 0.25]), vec![0.5, 0.5, 0.5, 1.0]);
}

#[test]
fn channel_truncate_and_expand() {
    let data = [1u8, 2, 3, 4, 5, 6, 7];
    assert_eq!(truncate_channels(&data, 3, 2, 2, 1), vec![1, 2, 4, 5]);
    assert_eq!(expand_channels(&[1u8, 2], 1, 3, 2, 1), vec![1, 255, 255, 2, 255, 255]);
    let padded = expand_channels(&data, 3, 4, 2, 1);
    assert_eq!(padded, vec![1, 2, 3, 255, 4, 5, 6, 255]);
    assert_eq!(truncate_channels(&padded, 4, 3, 2, 1), vec![1, 2, 3, 4, 5, 6]);
}

#[test]
fn channel_adjust_by_sample_type() {
    assert_eq!(adjust_channels_u8(vec![1, 2, 3, 4, 5, 6], 3, 1, 2, 1), vec![1, 4]);
    assert_eq!(adjust_channels_u8(vec![9, 8], 1, 2, 2, 1), vec![9, 255, 8, 255]);
    assert_eq!(adjust_channels_u16(vec![1, 2], 1, 2, 2, 1), vec![1, 65535, 2, 65535]);
    assert_eq!(adjust_channels_u16(vec![1, 2, 3, 4, 5, 6], 3, 2, 2, 1), vec![1, 2, 4, 5]);
}

#[test]
fn interleave_rgb_planes() {
    let r = interleave_planes(Samples::U8(vec![1, 2, 3, 4, 5, 6]), 2, 1, 3);
    assert!(matches!(r, Samples::U8(ref v) if *v == vec![1, 3, 5, 2, 4, 6]));
    let r = interleave_planes(Samples::U16(vec![10, 20, 30, 40]), 1, 2, 2);
    assert!(matches!(r, Samples::U16(ref v) if *v == vec![10, 30, 20, 40]));
}

#[test]
fn interleave_leaves_short_or_other_data() {
    let r = interleave_planes(Samples::U8(vec![1, 2, 3]), 2, 1, 3);
    assert!(matches!(r, Samples::U8(ref v) if *v == vec![1, 2, 3]));
    let r = interleave_planes(Samples::F32(vec![1, 2, 3, 4]), 2, 1, 2);
    assert!(matches!(r, Samples::F32(ref v) if *v == vec![1, 2, 3, 4]));
}

#[test]
fn format_flags() {
    assert_eq!(result_format_flags(&Samples::F32(vec![])), (true, false));
    assert_eq!(result_format_flags(&Samples::F16(vec![])), (true, false));
    assert_eq!(result_format_flags(&Samples::I16(vec![])), (false, true));
    assert_eq!(result_format_flags(&Samples::U64(vec![])), (false, false));
}

fn gray8() -> PixelDescriptor {
    descriptor_for(TiffColorType::Gray(8), false)
}

#[test]
fn signed_bytes_are_offset() {
    let out = result_to_bytes(3, 1, TiffColorType::Gray(8), Samples::I8(vec![-128, 0, 127]), gray8());
    assert_eq!(out.unwrap(), vec![0, 128, 255]);
}

#[test]
fn wide_samples_keep_top_sixteen_bits() {
    let desc = descriptor_for(TiffColorType::Gray(32), false);
    let out = result_to_bytes(2, 1, TiffColorType::Gray(32), Samples::U32(vec![0x1234_5678, 0xFFFF_0000]), desc).unwrap();
    let mut expected = Vec::new();
    expected.extend_from_slice(&0x1234u16.to_ne_bytes());
    expected.extend_from_slice(&0xFFFFu16.to_ne_bytes());
    assert_eq!(out, expected);
    let out = result_to_bytes(1, 1, TiffColorType::Gray(32), Samples::I32(vec![-1]), desc).unwrap();
    assert_eq!(out, 0x7FFFu16.to_ne_bytes().to_vec());
}

#[test]
fn sixteen_bit_samples_in_machine_order() {
    let desc = descriptor_for(TiffColorType::Gray(16), false);
    let out = result_to_bytes(2, 1, TiffColorType::Gray(16), Samples::U16(vec![0x0102, 0xA0B0]), desc).unwrap();
    let mut expected = Vec::new();
    expected.extend_from_slice(&0x0102u16.to_ne_bytes());
    expected.extend_from_slice(&0xA0B0u16.to_ne_bytes());
    assert_eq!(out, expected);
    let out = result_to_bytes(1, 1, TiffColorType::Gray(16), Samples::I16(vec![-32768]), desc).unwrap();
    assert_eq!(out, vec![0, 0]);
}

#[test]
fn multiband_channels_adjusted() {
    let ct = TiffColorType::Multiband { bit_depth: 8, num_samples: 5 };
    let desc = descriptor_for(ct, false);
    let out = result_to_bytes(2, 1, ct, Samples::U8(vec![1, 2, 3, 4, 5, 6, 7, 8, 9, 10]), desc).unwrap();
    assert_eq!(out, vec![1, 2, 3, 4, 6, 7, 8, 9]);
}

#[test]
fn subbyte_gray_decodes_scaled() {
    let out = result_to_bytes(4, 1, TiffColorType::Gray(2), Samples::U8(vec![0b11_10_01_00]), gray8()).unwrap();
    assert_eq!(out, vec![255, 170, 85, 0]);
}

#[test]
fn mismatched_sample_type_is_unsupported() {
    let desc = descriptor_for(TiffColorType::RGB(16), false);
    let out = result_to_bytes(1, 1, TiffColorType::RGB(16), Samples::U8(vec![1, 2, 3]), desc);
    assert!(matches!(out, Err(ZentiffError::Unsupported(_))));
    assert!(conversion_is_defined(1, 1, TiffColorType::RGB(16), &Samples::U8(vec![1, 2, 3]), desc));
}

#[test]
fn conversion_needs_all_packed_rows() {
    assert!(!conversion_is_defined(8, 2, TiffColorType::Gray(1), &Samples::U8(vec![0xFF]), gray8()));
    assert!(conversion_is_defined(8, 2, TiffColorType::Gray(1), &Samples::U8(vec![0xFF, 0]), gray8()));
}

#[test]
fn limit_estimates() {
    assert_eq!(output_bytes_per_pixel(TiffColorType::CMYK(8)), 4);
    assert_eq!(output_bytes_per_pixel(TiffColorType::Palette(8)), 3);
    assert_eq!(output_bytes_per_pixel(TiffColorType::Multiband { bit_depth: 8, num_samples: 2 }), 2);
    assert_eq!(output_bytes_per_pixel(TiffColorType::RGB(16)), 6);
    assert_eq!(output_bytes_per_pixel(TiffColorType::Gray(32)), 4);
    assert_eq!(output_bytes_per_pixel(TiffColorType::Gray(64)), 8);
    assert_eq!(output_bytes_per_pixel(TiffColorType::CMYKA(16)), 8);
    for (ct, is_float) in [
        (TiffColorType::RGB(8), false),
        (TiffColorType::Gray(32), true),
        (TiffColorType::Palette(4), false),
        (TiffColorType::Multiband { bit_depth: 8, num_samples: 6 }, false),
        (TiffColorType::CMYK(16), false),
    ] {
        assert!(descriptor_for(ct, is_float).bytes_per_pixel() <= output_bytes_per_pixel(ct));
    }
    // Half floats decode to 32-bit floats, beyond the estimate.
    assert!(descriptor_for(TiffColorType::Gray(16), true).bytes_per_pixel() > output_bytes_per_pixel(TiffColorType::Gray(16)));
}

#[test]
fn alpha_detection() {
    assert!(has_alpha_from_color_type(TiffColorType::RGBA(8)));
    assert!(has_alpha_from_color_type(TiffColorType::CMYKA(8)));
    assert!(has_alpha_from_color_type(TiffColorType::Multiband { bit_depth: 8, num_samples: 4 }));
    assert!(!has_alpha_from_color_type(TiffColorType::Multiband { bit_depth: 8, num_samples: 3 }));
    assert!(!has_alpha_from_color_type(TiffColorType::CMYK(8)));
}

#[test]
fn encode_plans() {
    let ga8 = PixelDescriptor::new(ChannelLayout::GrayAlpha, ChannelType::U8);
    assert_eq!(encode_plan(ga8), Some((EncodeColorType::RGBA8, true)));
    let rgb16 = PixelDescriptor::new(ChannelLayout::Rgb, ChannelType::U16);
    assert_eq!(encode_plan(rgb16), Some((EncodeColorType::RGB16, false)));
    let bgra = PixelDescriptor::new(ChannelLayout::Bgra, ChannelType::U8);
    assert_eq!(encode_plan(bgra), None);
    let half = PixelDescriptor::new(ChannelLayout::Rgb, ChannelType::F16);
    assert_eq!(encode_plan(half), None);
}

fn small_map() -> Vec<u16> {
    vec![0x1000, 0xFF00, 0x2000, 0xEE00, 0x3000, 0xDD00]
}

#[test]
fn palette_expands_through_color_map() {
    let out = expand_palette(2, 1, 1, Samples::U8(vec![0b0100_0000]), &small_map()).unwrap();
    assert_eq!(out, vec![0x10, 0x20, 0x30, 0xFF, 0xEE, 0xDD]);
}

#[test]
fn palette_errors() {
    let short = expand_palette(2, 1, 1, Samples::U8(vec![0]), &[0, 0, 0]);
    assert!(matches!(short, Err(ZentiffError::Decode(_))));
    let depth = expand_palette(2, 1, 1, Samples::U16(vec![0, 1]), &small_map());
    assert!(matches!(depth, Err(ZentiffError::Unsupported(_))));
    let map9 = vec![0u16; 3 * 512];
    let range = expand_palette(1, 1, 9, Samples::U16(vec![600]), &map9);
    assert!(matches!(range, Err(ZentiffError::Decode(_))));
    let map8 = vec![0u16; 3 * 256];
    let few = expand_palette(2, 1, 8, Samples::U8(vec![1]), &map8);
    assert!(matches!(few, Err(ZentiffError::Decode(_))));
    let ok = expand_palette(1, 1, 9, Samples::U16(vec![511]), &map9);
    assert_eq!(ok.unwrap(), vec![0, 0, 0]);
}

#[test]
fn conversion_by_color_type() {
    let c = convert_to_pixel_buffer(1, 1, TiffColorType::CMYK(8), Samples::U8(vec![1, 2, 3, 4]), None).unwrap();
    assert!(matches!(c, Converted::Cmyk(Samples::U8(ref v), false) if *v == vec![1, 2, 3, 4]));
    let c = convert_to_pixel_buffer(1, 1, TiffColorType::CMYKA(8), Samples::U8(vec![1, 2, 3, 4, 5]), None).unwrap();
    assert!(matches!(c, Converted::Cmyk(_, true)));
    let p = convert_to_pixel_buffer(2, 1, TiffColorType::Palette(1), Samples::U8(vec![0b0100_0000]), None);
    assert!(matches!(p, Err(ZentiffError::Unsupported(_))));
    let map = small_map();
    let p = convert_to_pixel_buffer(2, 1, TiffColorType::Palette(1), Samples::U8(vec![0b0100_0000]), Some(&map)).unwrap();
    assert!(matches!(p, Converted::Pixels(ref v, d) if *v == vec![0x10, 0x20, 0x30, 0xFF, 0xEE, 0xDD]
        && d == PixelDescriptor::new(ChannelLayout::Rgb, ChannelType::U8)));
    let g = convert_to_pixel_buffer(2, 1, TiffColorType::Gray(8), Samples::U8(vec![7, 9]), None).unwrap();
    assert!(matches!(g, Converted::Pixels(ref v, d) if *v == vec![7, 9] && d == gray8()));
}

#[test]
fn written_formats_decode_back() {
    let cases = [
        (ChannelLayout::Rgb, ChannelType::U16, TiffColorType::RGB(16), false),
        (ChannelLayout::Gray, ChannelType::F32, TiffColorType::Gray(32), true),
        (ChannelLayout::Rgba, ChannelType::U8, TiffColorType::RGBA(8), false),
    ];
    for (layout, ct, written, is_float) in cases {
        let desc = PixelDescriptor::new(layout, ct);
        assert!(encode_plan(desc).is_some());
        assert_eq!(descriptor_for(written, is_float), desc);
    }
    let ga = PixelDescriptor::new(ChannelLayout::GrayAlpha, ChannelType::U16);
    assert_eq!(encode_plan(ga), Some((EncodeColorType::RGBA16, true)));
    assert_eq!(descriptor_for(TiffColorType::RGBA(16), false).layout(), ChannelLayout::Rgba);
}

#[test]
fn indices_scale_to_unpacked_samples() {
    let packed = [0b11_10_01_00u8, 0b00_01_10_11];
    let idx = unpack_palette_indices(&packed, 4, 2, 2);
    let scaled = unpack_subbyte(&packed, 4, 2, 2, 1);
    let expected: Vec<u8> = idx.iter().map(|&i| (i * 255 / 3) as u8).collect();
    assert_eq!(scaled, expected);
    assert_eq!(idx, vec![3, 2, 1, 0, 0, 1, 2, 3]);
}
