//! Conversion of decoded samples to interleaved pixel bytes, by color type.
use vstd::prelude::*;
use crate::color::{
    TiffColorType, ChannelLayout, ChannelType, PixelDescriptor, Transfer, decoded_layout,
    decoded_channel_type, descriptor_for, layout_channels, channel_bytes,
};
use crate::error::ZentiffError;
use crate::palette::{
    expand_palette, palette_decodable, palette_entries, palette_indices, palette_rgb,
    packed_rows_present,
};
use crate::samples::{
    Samples, conversion_defined, conversion_supported, converted_bytes, result_to_bytes,
};

verus! {

/// Converted decoded samples.
#[derive(Debug)]
pub enum Converted {
    /// Interleaved pixel bytes in the given format.
    Pixels(Vec<u8>, PixelDescriptor),
    /// CMYK samples still to be converted to RGBA; the flag tells whether an alpha sample
    /// follows each CMYK quadruple.
    Cmyk(Samples, bool),
    /// Half- or double-precision floating-point samples, or 32-bit integer samples, still to
    /// be converted to 32-bit floats of the given format.
    Widen(Samples, PixelDescriptor),
}

/// The bytes of one sample of decoded samples.
pub open spec fn sample_width(s: Samples) -> int {
    match s {
        Samples::U8(_) | Samples::I8(_) => 1,
        Samples::U16(_) | Samples::I16(_) | Samples::F16(_) => 2,
        Samples::U32(_) | Samples::I32(_) | Samples::F32(_) => 4,
        Samples::U64(_) | Samples::I64(_) | Samples::F64(_) => 8,
    }
}

/// The bytes per pixel of the output a conversion leads to: those of the pixel format of
/// converted or widened pixels, and RGBA of the CMYK samples' width for CMYK.
pub open spec fn converted_pixel_bytes(c: Converted) -> int {
    match c {
        Converted::Pixels(_, d) => layout_channels(d.layout) * channel_bytes(d.channel_type),
        Converted::Widen(_, d) => layout_channels(d.layout) * channel_bytes(d.channel_type),
        Converted::Cmyk(s, _) => 4 * sample_width(s),
    }
}

/// Computes [`converted_pixel_bytes`].
pub fn converted_bytes_per_pixel(c: &Converted) -> (r: u32)
    ensures
        r == converted_pixel_bytes(*c),
{
    match c {
        Converted::Pixels(_, d) => d.bytes_per_pixel() as u32,
        Converted::Widen(_, d) => d.bytes_per_pixel() as u32,
        Converted::Cmyk(s, _) => match s {
            Samples::U8(_) | Samples::I8(_) => 4,
            Samples::U16(_) | Samples::I16(_) | Samples::F16(_) => 8,
            Samples::U32(_) | Samples::I32(_) | Samples::F32(_) => 16,
            Samples::U64(_) | Samples::I64(_) | Samples::F64(_) => 32,
        },
    }
}

/// Whether samples of a 32-bit float target format come as half or double floats, or as 32-bit
/// integers, and must be converted to 32-bit floats.
pub open spec fn needs_float_widening(result: Samples, desc: PixelDescriptor) -> bool {
    desc.channel_type == ChannelType::F32 && (result is F16 || result is F64 || result is U32)
}

/// Whether decoded samples are floating point.
pub open spec fn samples_are_float(result: Samples) -> bool {
    result is F16 || result is F32 || result is F64
}

/// The pixel format a color type decodes to, for float or integer samples.
pub open spec fn decoded_descriptor(ct: TiffColorType, is_float: bool) -> PixelDescriptor {
    PixelDescriptor {
        layout: decoded_layout(ct),
        channel_type: decoded_channel_type(ct, is_float),
        transfer: Transfer::Unknown,
    }
}

/// The inputs on which a conversion is defined: a palette image with a color map meets the
/// bounds of palette expansion, and any image but a palette or CMYK one meets those of the
/// sample conversion.
pub open spec fn pixel_conversion_defined(
    width: u32,
    height: u32,
    ct: TiffColorType,
    result: Samples,
    color_map: Option<Seq<u16>>,
) -> bool {
    match ct {
        TiffColorType::Palette(bits) => color_map matches Some(m) ==> {
            &&& bits < usize::BITS
            &&& 3 * palette_entries(bits) <= usize::MAX
            &&& width * height <= usize::MAX
            &&& width * 8 <= usize::MAX
            &&& m.len() >= 3 * palette_entries(bits) ==> packed_rows_present(width, height, bits, result)
        },
        TiffColorType::CMYK(_) | TiffColorType::CMYKA(_) => true,
        _ => conversion_defined(width, height, ct, result, decoded_descriptor(ct, samples_are_float(result))),
    }
}

/// What converting decoded samples gives: palette indices expanded through the color map to
/// RGB8 (`Unsupported` without a color map); CMYK and CMYKA samples handed back for conversion
/// to RGBA; samples needing float widening handed back with their format; every other color type
/// through the sample conversion into the decoded format.
pub open spec fn converted_as(
    width: u32,
    height: u32,
    color_type: TiffColorType,
    result: Samples,
    color_map: Option<Seq<u16>>,
    r: Result<Converted, ZentiffError>,
) -> bool {
    ({
            match color_type {
                TiffColorType::Palette(bits) => match color_map {
                    None => r matches Err(e) && e is Unsupported,
                    Some(m) => {
                        &&& r is Ok <==> palette_decodable(width, height, bits, result, m)
                        &&& r matches Ok(c) ==> c matches Converted::Pixels(v, d) && d == (
                        PixelDescriptor {
                            layout: ChannelLayout::Rgb,
                            channel_type: ChannelType::U8,
                            transfer: Transfer::Unknown,
                        }) && v@ == palette_rgb(
                            m,
                            palette_entries(bits),
                            palette_indices(width, height, bits, result)->0,
                            width * height,
                        )
                        &&& r matches Err(e) ==> (e is Unsupported <==> (m.len() >= 3
                            * palette_entries(bits) && palette_indices(width, height, bits, result)
                            is None))
                        &&& r matches Err(e) ==> (e is Unsupported || e is Decode)
                    },
                },
                TiffColorType::CMYK(_) => r matches Ok(c) && c matches Converted::Cmyk(s, a) && s
                    == result && !a,
                TiffColorType::CMYKA(_) => r matches Ok(c) && c matches Converted::Cmyk(s, a) && s
                    == result && a,
                _ => {
                    let desc = decoded_descriptor(color_type, samples_are_float(result));
                    &&& r is Ok <==> (conversion_supported(color_type, result, desc)
                        || needs_float_widening(result, desc))
                    &&& needs_float_widening(result, desc) ==> (r matches Ok(c) && c matches Converted::Widen(
                        s,
                        d,
                    ) && s == result && d == desc)
                    &&& !needs_float_widening(result, desc) ==> (r matches Ok(c) ==> c matches Converted::Pixels(
                        b,
                        d,
                    ) && d == desc && (b@ == converted_bytes(true, width, height, color_type, result, desc)
                        || b@ == converted_bytes(false, width, height, color_type, result, desc)))
                    &&& r matches Err(e) ==> e is Unsupported
                },
            }
        })
}

/// Converts decoded samples to interleaved pixel bytes in the best-fit format for the color
/// type. Palette indices are expanded through the color map to RGB8 (`Unsupported` without a
/// color map); CMYK and CMYKA samples are handed back for conversion to RGBA; every other color
/// type goes through the sample conversion into [`descriptor_for`]'s format.
pub fn convert_to_pixel_buffer(
    width: u32,
    height: u32,
    color_type: TiffColorType,
    result: Samples,
    color_map: Option<&[u16]>,
) -> (r: Result<Converted, ZentiffError>)
    requires
        pixel_conversion_defined(
            width,
            height,
            color_type,
            result,
            match color_map {
                Some(m) => Some(m@),
                None => None,
            },
        ),
    ensures
        converted_as(
            width,
            height,
            color_type,
            result,
            match color_map {
                Some(m) => Some(m@),
                None => None,
            },
            r,
        ),
{
    let is_float = matches!(result, Samples::F16(_)) || matches!(result, Samples::F32(_))
        || matches!(result, Samples::F64(_));
    let descriptor = descriptor_for(color_type, is_float);
    match color_type {
        TiffColorType::Palette(bits) => match color_map {
            Some(map) => match expand_palette(width, height, bits, result, map) {
                Ok(rgb) => Ok(
                    Converted::Pixels(rgb, PixelDescriptor::new(ChannelLayout::Rgb, ChannelType::U8)),
                ),
                Err(e) => Err(e),
            },
            None => Err(ZentiffError::Unsupported(String::from_str("palette TIFF decoding needs the image's color map"))),
        },
        TiffColorType::CMYK(_) => Ok(Converted::Cmyk(result, false)),
        TiffColorType::CMYKA(_) => Ok(Converted::Cmyk(result, true)),
        _ => {
            assert(descriptor == decoded_descriptor(color_type, samples_are_float(result)));
            let widen = descriptor.channel_type == ChannelType::F32 && (matches!(result, Samples::F16(_))
                || matches!(result, Samples::F64(_)) || matches!(result, Samples::U32(_)));
            if widen {
                return Ok(Converted::Widen(result, descriptor));
            }
            match result_to_bytes(width, height, color_type, result, descriptor) {
                Ok(bytes) => Ok(Converted::Pixels(bytes, descriptor)),
                Err(e) => Err(e),
            }
        },
    }
}

/// Decoded 8- and 16-bit gray, RGB and RGBA samples pass through unchanged: the pixel bytes are
/// the samples themselves (16-bit samples in the byte order of the conversion).
pub proof fn lemma_plain_samples_pass_through(
    is_le: bool,
    width: u32,
    height: u32,
    ct: TiffColorType,
    result: Samples,
)
    requires
        ct == TiffColorType::Gray(8) || ct == TiffColorType::RGB(8) || ct == TiffColorType::RGBA(8)
            || ct == TiffColorType::Gray(16) || ct == TiffColorType::RGB(16) || ct == TiffColorType::RGBA(16),
        ct.spec_bit_depth() == 8 ==> result is U8,
        ct.spec_bit_depth() == 16 ==> result is U16,
    ensures
        conversion_supported(ct, result, decoded_descriptor(ct, false)),
        result matches Samples::U8(v) ==> converted_bytes(
            is_le,
            width,
            height,
            ct,
            result,
            decoded_descriptor(ct, false),
        ) == v@,
        result matches Samples::U16(v) ==> converted_bytes(
            is_le,
            width,
            height,
            ct,
            result,
            decoded_descriptor(ct, false),
        ) == crate::samples::u16s_bytes(is_le, v@),
{
}

/// Converting decoded 8-bit gray, RGB or RGBA samples succeeds and gives the samples
/// themselves as the pixel bytes, in the decoded format: the decoder's samples come back
/// unchanged, whatever the image's dimensions.
pub proof fn lemma_eight_bit_samples_convert_unchanged(
    width: u32,
    height: u32,
    ct: TiffColorType,
    v: Vec<u8>,
    r: Result<Converted, ZentiffError>,
)
    requires
        ct == TiffColorType::Gray(8) || ct == TiffColorType::RGB(8) || ct == TiffColorType::RGBA(8),
        converted_as(width, height, ct, Samples::U8(v), None, r),
    ensures
        r matches Ok(c) && c matches Converted::Pixels(b, d) && b@ == v@ && d == decoded_descriptor(ct, false),
{
    lemma_plain_samples_pass_through(true, width, height, ct, Samples::U8(v));
    lemma_plain_samples_pass_through(false, width, height, ct, Samples::U8(v));
}

} // verus!
