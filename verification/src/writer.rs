//! Encoding pixels to TIFF bytes: the color type chosen for the pixel format, gray+alpha
//! expansion, and the `tiff` encoder writing the image.
use vstd::prelude::*;
use std::io::Cursor;
use tiff::encoder::{TiffEncoder, colortype};
use tiff::tags::ByteOrder;
use crate::color::{PixelDescriptor, channel_bytes, layout_channels};
use crate::config::{TiffCompression, TiffPredictor, TiffEncodeConfig};
use crate::encode::{EncodeColorType, encode_plan, encode_plan_spec};
use crate::error::{CodecError, CodecErrorKind, ZentiffError, codec_error_reported, map_codec_error};
use crate::reader::codec_error_of;
use crate::samples::map_pixels;

verus! {

#[verifier::external_type_specification]
#[verifier::external_body]
pub struct ExCodecCompression(tiff::encoder::Compression);

#[verifier::external_type_specification]
#[verifier::external_body]
pub struct ExCodecPredictor(tiff::tags::Predictor);

/// The TIFF file the encoder writes for an image of encoder color type `ct`, `width` x `height`
/// pixels whose samples are the bytes `samples`, with the given compression, predictor and
/// format (BigTIFF or standard), on a machine of the given byte order (the encoder writes files
/// in the machine's byte order); the kind of the failure when the encoder fails.
pub uninterp spec fn tiff_encoded(
    ct: EncodeColorType,
    width: u32,
    height: u32,
    samples: Seq<u8>,
    compression: TiffCompression,
    predictor: TiffPredictor,
    big: bool,
    little_endian: bool,
) -> Result<Seq<u8>, CodecErrorKind>;

/// The bytes of one pixel of an encoder color type.
pub open spec fn encoded_pixel_bytes(ct: EncodeColorType) -> int {
    match ct {
        EncodeColorType::Gray8 => 1,
        EncodeColorType::Gray16 => 2,
        EncodeColorType::Gray32Float => 4,
        EncodeColorType::RGB8 => 3,
        EncodeColorType::RGB16 => 6,
        EncodeColorType::RGB32Float => 12,
        EncodeColorType::RGBA8 => 4,
        EncodeColorType::RGBA16 => 8,
        EncodeColorType::RGBA32Float => 16,
    }
}

proof fn lemma_plan_pixel_bytes(desc: PixelDescriptor)
    ensures
        encode_plan_spec(desc) matches Some((ct, expand)) ==> encoded_pixel_bytes(ct) == (if expand {
            2int
        } else {
            1int
        }) * layout_channels(desc.layout) * channel_bytes(desc.channel_type),
{
    let lc = layout_channels(desc.layout) as int;
    let cb = channel_bytes(desc.channel_type) as int;
    if let Some((ct, expand)) = encode_plan_spec(desc) {
        assert(desc.layout == crate::color::ChannelLayout::Gray || desc.layout
            == crate::color::ChannelLayout::GrayAlpha || desc.layout == crate::color::ChannelLayout::Rgb
            || desc.layout == crate::color::ChannelLayout::Rgba);
        assert(desc.channel_type != crate::color::ChannelType::F16);
        assert(expand <==> desc.layout == crate::color::ChannelLayout::GrayAlpha);
        assert(encoded_pixel_bytes(ct) == (if expand { 2int } else { 1int }) * lc * cb) by (nonlinear_arith)
            requires
                encoded_pixel_bytes(ct) == (if expand { 4 * cb } else { lc * cb }),
                expand ==> lc == 2,
        {
        }
    }
}

/// What an encoding outcome is: the bytes of the named encoding, or the encoder's failure
/// reported by its kind.
pub open spec fn encoded_as(encoding: Result<Seq<u8>, CodecErrorKind>, r: Result<Vec<u8>, ZentiffError>) -> bool {
    match encoding {
        Ok(b) => r matches Ok(v) && v@ == b,
        Err(k) => r matches Err(e) && codec_error_reported(k, e),
    }
}

/// The encoder's compression for a compression method, one for each (Deflate at its balanced
/// level, 6).
#[verifier::external_body]
fn codec_compression(c: TiffCompression) -> tiff::encoder::Compression {
    match c {
        TiffCompression::Uncompressed => tiff::encoder::Compression::Uncompressed,
        TiffCompression::Lzw => tiff::encoder::Compression::Lzw,
        TiffCompression::Deflate => tiff::encoder::Compression::Deflate(tiff::encoder::DeflateLevel::Balanced),
        TiffCompression::PackBits => tiff::encoder::Compression::Packbits,
    }
}

/// The encoder's predictor for a predictor setting, one for each.
#[verifier::external_body]
fn codec_predictor(p: TiffPredictor) -> tiff::tags::Predictor {
    match p {
        TiffPredictor::NoPrediction => tiff::tags::Predictor::None,
        TiffPredictor::Horizontal => tiff::tags::Predictor::Horizontal,
    }
}

/// Encodes the sample bytes `data` as 8-bit gray standard TIFF with
/// `tiff::encoder::TiffEncoder::new`, `with_compression`, `with_predictor` and
/// `write_image::<colortype::Gray8>`. With the result comes the byte order the file was written in,
/// that of the machine (`ByteOrder::native`); the result is the named encoding for it.
#[verifier::external_body]
fn write_gray8(w: u32, h: u32, data: &[u8], c: TiffCompression, p: TiffPredictor) -> (r: (Result<Vec<u8>, CodecError>, bool))
    requires
        data@.len() == w * h * encoded_pixel_bytes(EncodeColorType::Gray8),
    ensures
        tiff_encoded(EncodeColorType::Gray8, w, h, data@, c, p, false, r.1) == match r.0 {
            Ok(b) => Ok(b@),
            Err(e) => Err(e.kind()),
        },
{
    let mut buf = Cursor::new(Vec::new());
    let written = match TiffEncoder::new(&mut buf) {
        Ok(encoder) => encoder.with_compression(codec_compression(c)).with_predictor(codec_predictor(p))
            .write_image::<colortype::Gray8>(w, h, data),
        Err(e) => Err(e),
    };
    (written.map(|_| buf.into_inner()).map_err(codec_error_of), ByteOrder::native() == ByteOrder::LittleEndian)
}

/// Encodes the sample bytes `data` as 8-bit gray BigTIFF with
/// `tiff::encoder::TiffEncoder::new_big`, `with_compression`, `with_predictor` and
/// `write_image::<colortype::Gray8>`. With the result comes the byte order the file was written in,
/// that of the machine (`ByteOrder::native`); the result is the named encoding for it.
#[verifier::external_body]
fn write_gray8_big(w: u32, h: u32, data: &[u8], c: TiffCompression, p: TiffPredictor) -> (r: (Result<Vec<u8>, CodecError>, bool))
    requires
        data@.len() == w * h * encoded_pixel_bytes(EncodeColorType::Gray8),
    ensures
        tiff_encoded(EncodeColorType::Gray8, w, h, data@, c, p, true, r.1) == match r.0 {
            Ok(b) => Ok(b@),
            Err(e) => Err(e.kind()),
        },
{
    let mut buf = Cursor::new(Vec::new());
    let written = match TiffEncoder::new_big(&mut buf) {
        Ok(encoder) => encoder.with_compression(codec_compression(c)).with_predictor(codec_predictor(p))
            .write_image::<colortype::Gray8>(w, h, data),
        Err(e) => Err(e),
    };
    (written.map(|_| buf.into_inner()).map_err(codec_error_of), ByteOrder::native() == ByteOrder::LittleEndian)
}

/// Encodes the sample bytes `data` (its bytes regrouped into samples in the machine's byte order by
/// `bytemuck::pod_collect_to_vec`) as 16-bit gray standard TIFF with
/// `tiff::encoder::TiffEncoder::new`, `with_compression`, `with_predictor` and
/// `write_image::<colortype::Gray16>`. With the result comes the byte order the file was written in,
/// that of the machine (`ByteOrder::native`); the result is the named encoding for it.
#[verifier::external_body]
fn write_gray16(w: u32, h: u32, data: &[u8], c: TiffCompression, p: TiffPredictor) -> (r: (Result<Vec<u8>, CodecError>, bool))
    requires
        data@.len() == w * h * encoded_pixel_bytes(EncodeColorType::Gray16),
    ensures
        tiff_encoded(EncodeColorType::Gray16, w, h, data@, c, p, false, r.1) == match r.0 {
            Ok(b) => Ok(b@),
            Err(e) => Err(e.kind()),
        },
{
    let mut buf = Cursor::new(Vec::new());
    let written = match TiffEncoder::new(&mut buf) {
        Ok(encoder) => encoder.with_compression(codec_compression(c)).with_predictor(codec_predictor(p))
            .write_image::<colortype::Gray16>(w, h, &bytemuck::pod_collect_to_vec(data)),
        Err(e) => Err(e),
    };
    (written.map(|_| buf.into_inner()).map_err(codec_error_of), ByteOrder::native() == ByteOrder::LittleEndian)
}

/// Encodes the sample bytes `data` (its bytes regrouped into samples in the machine's byte order by
/// `bytemuck::pod_collect_to_vec`) as 16-bit gray BigTIFF with
/// `tiff::encoder::TiffEncoder::new_big`, `with_compression`, `with_predictor` and
/// `write_image::<colortype::Gray16>`. With the result comes the byte order the file was written in,
/// that of the machine (`ByteOrder::native`); the result is the named encoding for it.
#[verifier::external_body]
fn write_gray16_big(w: u32, h: u32, data: &[u8], c: TiffCompression, p: TiffPredictor) -> (r: (Result<Vec<u8>, CodecError>, bool))
    requires
        data@.len() == w * h * encoded_pixel_bytes(EncodeColorType::Gray16),
    ensures
        tiff_encoded(EncodeColorType::Gray16, w, h, data@, c, p, true, r.1) == match r.0 {
            Ok(b) => Ok(b@),
            Err(e) => Err(e.kind()),
        },
{
    let mut buf = Cursor::new(Vec::new());
    let written = match TiffEncoder::new_big(&mut buf) {
        Ok(encoder) => encoder.with_compression(codec_compression(c)).with_predictor(codec_predictor(p))
            .write_image::<colortype::Gray16>(w, h, &bytemuck::pod_collect_to_vec(data)),
        Err(e) => Err(e),
    };
    (written.map(|_| buf.into_inner()).map_err(codec_error_of), ByteOrder::native() == ByteOrder::LittleEndian)
}

/// Encodes the sample bytes `data` (its bytes regrouped into samples in the machine's byte order by
/// `bytemuck::pod_collect_to_vec`) as 32-bit float gray standard TIFF with
/// `tiff::encoder::TiffEncoder::new`, `with_compression`, `with_predictor` and
/// `write_image::<colortype::Gray32Float>`. With the result comes the byte order the file was written in,
/// that of the machine (`ByteOrder::native`); the result is the named encoding for it.
#[verifier::external_body]
fn write_gray32_float(w: u32, h: u32, data: &[u8], c: TiffCompression, p: TiffPredictor) -> (r: (Result<Vec<u8>, CodecError>, bool))
    requires
        data@.len() == w * h * encoded_pixel_bytes(EncodeColorType::Gray32Float),
    ensures
        tiff_encoded(EncodeColorType::Gray32Float, w, h, data@, c, p, false, r.1) == match r.0 {
            Ok(b) => Ok(b@),
            Err(e) => Err(e.kind()),
        },
{
    let mut buf = Cursor::new(Vec::new());
    let written = match TiffEncoder::new(&mut buf) {
        Ok(encoder) => encoder.with_compression(codec_compression(c)).with_predictor(codec_predictor(p))
            .write_image::<colortype::Gray32Float>(w, h, &bytemuck::pod_collect_to_vec(data)),
        Err(e) => Err(e),
    };
    (written.map(|_| buf.into_inner()).map_err(codec_error_of), ByteOrder::native() == ByteOrder::LittleEndian)
}

/// Encodes the sample bytes `data` (its bytes regrouped into samples in the machine's byte order by
/// `bytemuck::pod_collect_to_vec`) as 32-bit float gray BigTIFF with
/// `tiff::encoder::TiffEncoder::new_big`, `with_compression`, `with_predictor` and
/// `write_image::<colortype::Gray32Float>`. With the result comes the byte order the file was written in,
/// that of the machine (`ByteOrder::native`); the result is the named encoding for it.
#[verifier::external_body]
fn write_gray32_float_big(w: u32, h: u32, data: &[u8], c: TiffCompression, p: TiffPredictor) -> (r: (Result<Vec<u8>, CodecError>, bool))
    requires
        data@.len() == w * h * encoded_pixel_bytes(EncodeColorType::Gray32Float),
    ensures
        tiff_encoded(EncodeColorType::Gray32Float, w, h, data@, c, p, true, r.1) == match r.0 {
            Ok(b) => Ok(b@),
            Err(e) => Err(e.kind()),
        },
{
    let mut buf = Cursor::new(Vec::new());
    let written = match TiffEncoder::new_big(&mut buf) {
        Ok(encoder) => encoder.with_compression(codec_compression(c)).with_predictor(codec_predictor(p))
            .write_image::<colortype::Gray32Float>(w, h, &bytemuck::pod_collect_to_vec(data)),
        Err(e) => Err(e),
    };
    (written.map(|_| buf.into_inner()).map_err(codec_error_of), ByteOrder::native() == ByteOrder::LittleEndian)
}

/// Encodes the sample bytes `data` as 8-bit RGB standard TIFF with
/// `tiff::encoder::TiffEncoder::new`, `with_compression`, `with_predictor` and
/// `write_image::<colortype::RGB8>`. With the result comes the byte order the file was written in,
/// that of the machine (`ByteOrder::native`); the result is the named encoding for it.
#[verifier::external_body]
fn write_rgb8(w: u32, h: u32, data: &[u8], c: TiffCompression, p: TiffPredictor) -> (r: (Result<Vec<u8>, CodecError>, bool))
    requires
        data@.len() == w * h * encoded_pixel_bytes(EncodeColorType::RGB8),
    ensures
        tiff_encoded(EncodeColorType::RGB8, w, h, data@, c, p, false, r.1) == match r.0 {
            Ok(b) => Ok(b@),
            Err(e) => Err(e.kind()),
        },
{
    let mut buf = Cursor::new(Vec::new());
    let written = match TiffEncoder::new(&mut buf) {
        Ok(encoder) => encoder.with_compression(codec_compression(c)).with_predictor(codec_predictor(p))
            .write_image::<colortype::RGB8>(w, h, data),
        Err(e) => Err(e),
    };
    (written.map(|_| buf.into_inner()).map_err(codec_error_of), ByteOrder::native() == ByteOrder::LittleEndian)
}

/// Encodes the sample bytes `data` as 8-bit RGB BigTIFF with
/// `tiff::encoder::TiffEncoder::new_big`, `with_compression`, `with_predictor` and
/// `write_image::<colortype::RGB8>`. With the result comes the byte order the file was written in,
/// that of the machine (`ByteOrder::native`); the result is the named encoding for it.
#[verifier::external_body]
fn write_rgb8_big(w: u32, h: u32, data: &[u8], c: TiffCompression, p: TiffPredictor) -> (r: (Result<Vec<u8>, CodecError>, bool))
    requires
        data@.len() == w * h * encoded_pixel_bytes(EncodeColorType::RGB8),
    ensures
        tiff_encoded(EncodeColorType::RGB8, w, h, data@, c, p, true, r.1) == match r.0 {
            Ok(b) => Ok(b@),
            Err(e) => Err(e.kind()),
        },
{
    let mut buf = Cursor::new(Vec::new());
    let written = match TiffEncoder::new_big(&mut buf) {
        Ok(encoder) => encoder.with_compression(codec_compression(c)).with_predictor(codec_predictor(p))
            .write_image::<colortype::RGB8>(w, h, data),
        Err(e) => Err(e),
    };
    (written.map(|_| buf.into_inner()).map_err(codec_error_of), ByteOrder::native() == ByteOrder::LittleEndian)
}

/// Encodes the sample bytes `data` (its bytes regrouped into samples in the machine's byte order by
/// `bytemuck::pod_collect_to_vec`) as 16-bit RGB standard TIFF with
/// `tiff::encoder::TiffEncoder::new`, `with_compression`, `with_predictor` and
/// `write_image::<colortype::RGB16>`. With the result comes the byte order the file was written in,
/// that of the machine (`ByteOrder::native`); the result is the named encoding for it.
#[verifier::external_body]
fn write_rgb16(w: u32, h: u32, data: &[u8], c: TiffCompression, p: TiffPredictor) -> (r: (Result<Vec<u8>, CodecError>, bool))
    requires
        data@.len() == w * h * encoded_pixel_bytes(EncodeColorType::RGB16),
    ensures
        tiff_encoded(EncodeColorType::RGB16, w, h, data@, c, p, false, r.1) == match r.0 {
            Ok(b) => Ok(b@),
            Err(e) => Err(e.kind()),
        },
{
    let mut buf = Cursor::new(Vec::new());
    let written = match TiffEncoder::new(&mut buf) {
        Ok(encoder) => encoder.with_compression(codec_compression(c)).with_predictor(codec_predictor(p))
            .write_image::<colortype::RGB16>(w, h, &bytemuck::pod_collect_to_vec(data)),
        Err(e) => Err(e),
    };
    (written.map(|_| buf.into_inner()).map_err(codec_error_of), ByteOrder::native() == ByteOrder::LittleEndian)
}

/// Encodes the sample bytes `data` (its bytes regrouped into samples in the machine's byte order by
/// `bytemuck::pod_collect_to_vec`) as 16-bit RGB BigTIFF with
/// `tiff::encoder::TiffEncoder::new_big`, `with_compression`, `with_predictor` and
/// `write_image::<colortype::RGB16>`. With the result comes the byte order the file was written in,
/// that of the machine (`ByteOrder::native`); the result is the named encoding for it.
#[verifier::external_body]
fn write_rgb16_big(w: u32, h: u32, data: &[u8], c: TiffCompression, p: TiffPredictor) -> (r: (Result<Vec<u8>, CodecError>, bool))
    requires
        data@.len() == w * h * encoded_pixel_bytes(EncodeColorType::RGB16),
    ensures
        tiff_encoded(EncodeColorType::RGB16, w, h, data@, c, p, true, r.1) == match r.0 {
            Ok(b) => Ok(b@),
            Err(e) => Err(e.kind()),
        },
{
    let mut buf = Cursor::new(Vec::new());
    let written = match TiffEncoder::new_big(&mut buf) {
        Ok(encoder) => encoder.with_compression(codec_compression(c)).with_predictor(codec_predictor(p))
            .write_image::<colortype::RGB16>(w, h, &bytemuck::pod_collect_to_vec(data)),
        Err(e) => Err(e),
    };
    (written.map(|_| buf.into_inner()).map_err(codec_error_of), ByteOrder::native() == ByteOrder::LittleEndian)
}

/// Encodes the sample bytes `data` (its bytes regrouped into samples in the machine's byte order by
/// `bytemuck::pod_collect_to_vec`) as 32-bit float RGB standard TIFF with
/// `tiff::encoder::TiffEncoder::new`, `with_compression`, `with_predictor` and
/// `write_image::<colortype::RGB32Float>`. With the result comes the byte order the file was written in,
/// that of the machine (`ByteOrder::native`); the result is the named encoding for it.
#[verifier::external_body]
fn write_rgb32_float(w: u32, h: u32, data: &[u8], c: TiffCompression, p: TiffPredictor) -> (r: (Result<Vec<u8>, CodecError>, bool))
    requires
        data@.len() == w * h * encoded_pixel_bytes(EncodeColorType::RGB32Float),
    ensures
        tiff_encoded(EncodeColorType::RGB32Float, w, h, data@, c, p, false, r.1) == match r.0 {
            Ok(b) => Ok(b@),
            Err(e) => Err(e.kind()),
        },
{
    let mut buf = Cursor::new(Vec::new());
    let written = match TiffEncoder::new(&mut buf) {
        Ok(encoder) => encoder.with_compression(codec_compression(c)).with_predictor(codec_predictor(p))
            .write_image::<colortype::RGB32Float>(w, h, &bytemuck::pod_collect_to_vec(data)),
        Err(e) => Err(e),
    };
    (written.map(|_| buf.into_inner()).map_err(codec_error_of), ByteOrder::native() == ByteOrder::LittleEndian)
}

/// Encodes the sample bytes `data` (its bytes regrouped into samples in the machine's byte order by
/// `bytemuck::pod_collect_to_vec`) as 32-bit float RGB BigTIFF with
/// `tiff::encoder::TiffEncoder::new_big`, `with_compression`, `with_predictor` and
/// `write_image::<colortype::RGB32Float>`. With the result comes the byte order the file was written in,
/// that of the machine (`ByteOrder::native`); the result is the named encoding for it.
#[verifier::external_body]
fn write_rgb32_float_big(w: u32, h: u32, data: &[u8], c: TiffCompression, p: TiffPredictor) -> (r: (Result<Vec<u8>, CodecError>, bool))
    requires
        data@.len() == w * h * encoded_pixel_bytes(EncodeColorType::RGB32Float),
    ensures
        tiff_encoded(EncodeColorType::RGB32Float, w, h, data@, c, p, true, r.1) == match r.0 {
            Ok(b) => Ok(b@),
            Err(e) => Err(e.kind()),
        },
{
    let mut buf = Cursor::new(Vec::new());
    let written = match TiffEncoder::new_big(&mut buf) {
        Ok(encoder) => encoder.with_compression(codec_compression(c)).with_predictor(codec_predictor(p))
            .write_image::<colortype::RGB32Float>(w, h, &bytemuck::pod_collect_to_vec(data)),
        Err(e) => Err(e),
    };
    (written.map(|_| buf.into_inner()).map_err(codec_error_of), ByteOrder::native() == ByteOrder::LittleEndian)
}

/// Encodes the sample bytes `data` as 8-bit RGBA standard TIFF with
/// `tiff::encoder::TiffEncoder::new`, `with_compression`, `with_predictor` and
/// `write_image::<colortype::RGBA8>`. With the result comes the byte order the file was written in,
/// that of the machine (`ByteOrder::native`); the result is the named encoding for it.
#[verifier::external_body]
fn write_rgba8(w: u32, h: u32, data: &[u8], c: TiffCompression, p: TiffPredictor) -> (r: (Result<Vec<u8>, CodecError>, bool))
    requires
        data@.len() == w * h * encoded_pixel_bytes(EncodeColorType::RGBA8),
    ensures
        tiff_encoded(EncodeColorType::RGBA8, w, h, data@, c, p, false, r.1) == match r.0 {
            Ok(b) => Ok(b@),
            Err(e) => Err(e.kind()),
        },
{
    let mut buf = Cursor::new(Vec::new());
    let written = match TiffEncoder::new(&mut buf) {
        Ok(encoder) => encoder.with_compression(codec_compression(c)).with_predictor(codec_predictor(p))
            .write_image::<colortype::RGBA8>(w, h, data),
        Err(e) => Err(e),
    };
    (written.map(|_| buf.into_inner()).map_err(codec_error_of), ByteOrder::native() == ByteOrder::LittleEndian)
}

/// Encodes the sample bytes `data` as 8-bit RGBA BigTIFF with
/// `tiff::encoder::TiffEncoder::new_big`, `with_compression`, `with_predictor` and
/// `write_image::<colortype::RGBA8>`. With the result comes the byte order the file was written in,
/// that of the machine (`ByteOrder::native`); the result is the named encoding for it.
#[verifier::external_body]
fn write_rgba8_big(w: u32, h: u32, data: &[u8], c: TiffCompression, p: TiffPredictor) -> (r: (Result<Vec<u8>, CodecError>, bool))
    requires
        data@.len() == w * h * encoded_pixel_bytes(EncodeColorType::RGBA8),
    ensures
        tiff_encoded(EncodeColorType::RGBA8, w, h, data@, c, p, true, r.1) == match r.0 {
            Ok(b) => Ok(b@),
            Err(e) => Err(e.kind()),
        },
{
    let mut buf = Cursor::new(Vec::new());
    let written = match TiffEncoder::new_big(&mut buf) {
        Ok(encoder) => encoder.with_compression(codec_compression(c)).with_predictor(codec_predictor(p))
            .write_image::<colortype::RGBA8>(w, h, data),
        Err(e) => Err(e),
    };
    (written.map(|_| buf.into_inner()).map_err(codec_error_of), ByteOrder::native() == ByteOrder::LittleEndian)
}

/// Encodes the sample bytes `data` (its bytes regrouped into samples in the machine's byte order by
/// `bytemuck::pod_collect_to_vec`) as 16-bit RGBA standard TIFF with
/// `tiff::encoder::TiffEncoder::new`, `with_compression`, `with_predictor` and
/// `write_image::<colortype::RGBA16>`. With the result comes the byte order the file was written in,
/// that of the machine (`ByteOrder::native`); the result is the named encoding for it.
#[verifier::external_body]
fn write_rgba16(w: u32, h: u32, data: &[u8], c: TiffCompression, p: TiffPredictor) -> (r: (Result<Vec<u8>, CodecError>, bool))
    requires
        data@.len() == w * h * encoded_pixel_bytes(EncodeColorType::RGBA16),
    ensures
        tiff_encoded(EncodeColorType::RGBA16, w, h, data@, c, p, false, r.1) == match r.0 {
            Ok(b) => Ok(b@),
            Err(e) => Err(e.kind()),
        },
{
    let mut buf = Cursor::new(Vec::new());
    let written = match TiffEncoder::new(&mut buf) {
        Ok(encoder) => encoder.with_compression(codec_compression(c)).with_predictor(codec_predictor(p))
            .write_image::<colortype::RGBA16>(w, h, &bytemuck::pod_collect_to_vec(data)),
        Err(e) => Err(e),
    };
    (written.map(|_| buf.into_inner()).map_err(codec_error_of), ByteOrder::native() == ByteOrder::LittleEndian)
}

/// Encodes the sample bytes `data` (its bytes regrouped into samples in the machine's byte order by
/// `bytemuck::pod_collect_to_vec`) as 16-bit RGBA BigTIFF with
/// `tiff::encoder::TiffEncoder::new_big`, `with_compression`, `with_predictor` and
/// `write_image::<colortype::RGBA16>`. With the result comes the byte order the file was written in,
/// that of the machine (`ByteOrder::native`); the result is the named encoding for it.
#[verifier::external_body]
fn write_rgba16_big(w: u32, h: u32, data: &[u8], c: TiffCompression, p: TiffPredictor) -> (r: (Result<Vec<u8>, CodecError>, bool))
    requires
        data@.len() == w * h * encoded_pixel_bytes(EncodeColorType::RGBA16),
    ensures
        tiff_encoded(EncodeColorType::RGBA16, w, h, data@, c, p, true, r.1) == match r.0 {
            Ok(b) => Ok(b@),
            Err(e) => Err(e.kind()),
        },
{
    let mut buf = Cursor::new(Vec::new());
    let written = match TiffEncoder::new_big(&mut buf) {
        Ok(encoder) => encoder.with_compression(codec_compression(c)).with_predictor(codec_predictor(p))
            .write_image::<colortype::RGBA16>(w, h, &bytemuck::pod_collect_to_vec(data)),
        Err(e) => Err(e),
    };
    (written.map(|_| buf.into_inner()).map_err(codec_error_of), ByteOrder::native() == ByteOrder::LittleEndian)
}

/// Encodes the sample bytes `data` (its bytes regrouped into samples in the machine's byte order by
/// `bytemuck::pod_collect_to_vec`) as 32-bit float RGBA standard TIFF with
/// `tiff::encoder::TiffEncoder::new`, `with_compression`, `with_predictor` and
/// `write_image::<colortype::RGBA32Float>`. With the result comes the byte order the file was written in,
/// that of the machine (`ByteOrder::native`); the result is the named encoding for it.
#[verifier::external_body]
fn write_rgba32_float(w: u32, h: u32, data: &[u8], c: TiffCompression, p: TiffPredictor) -> (r: (Result<Vec<u8>, CodecError>, bool))
    requires
        data@.len() == w * h * encoded_pixel_bytes(EncodeColorType::RGBA32Float),
    ensures
        tiff_encoded(EncodeColorType::RGBA32Float, w, h, data@, c, p, false, r.1) == match r.0 {
            Ok(b) => Ok(b@),
            Err(e) => Err(e.kind()),
        },
{
    let mut buf = Cursor::new(Vec::new());
    let written = match TiffEncoder::new(&mut buf) {
        Ok(encoder) => encoder.with_compression(codec_compression(c)).with_predictor(codec_predictor(p))
            .write_image::<colortype::RGBA32Float>(w, h, &bytemuck::pod_collect_to_vec(data)),
        Err(e) => Err(e),
    };
    (written.map(|_| buf.into_inner()).map_err(codec_error_of), ByteOrder::native() == ByteOrder::LittleEndian)
}

/// Encodes the sample bytes `data` (its bytes regrouped into samples in the machine's byte order by
/// `bytemuck::pod_collect_to_vec`) as 32-bit float RGBA BigTIFF with
/// `tiff::encoder::TiffEncoder::new_big`, `with_compression`, `with_predictor` and
/// `write_image::<colortype::RGBA32Float>`. With the result comes the byte order the file was written in,
/// that of the machine (`ByteOrder::native`); the result is the named encoding for it.
#[verifier::external_body]
fn write_rgba32_float_big(w: u32, h: u32, data: &[u8], c: TiffCompression, p: TiffPredictor) -> (r: (Result<Vec<u8>, CodecError>, bool))
    requires
        data@.len() == w * h * encoded_pixel_bytes(EncodeColorType::RGBA32Float),
    ensures
        tiff_encoded(EncodeColorType::RGBA32Float, w, h, data@, c, p, true, r.1) == match r.0 {
            Ok(b) => Ok(b@),
            Err(e) => Err(e.kind()),
        },
{
    let mut buf = Cursor::new(Vec::new());
    let written = match TiffEncoder::new_big(&mut buf) {
        Ok(encoder) => encoder.with_compression(codec_compression(c)).with_predictor(codec_predictor(p))
            .write_image::<colortype::RGBA32Float>(w, h, &bytemuck::pod_collect_to_vec(data)),
        Err(e) => Err(e),
    };
    (written.map(|_| buf.into_inner()).map_err(codec_error_of), ByteOrder::native() == ByteOrder::LittleEndian)
}

/// Gray+alpha sample bytes as RGBA: each complete pixel of a gray sample `g` and an alpha sample
/// `a`, each of `s` bytes, becomes `g g g a`.
pub open spec fn graya_bytes_to_rgba(data: Seq<u8>, s: int) -> Seq<u8> {
    map_pixels(
        data,
        2 * s,
        (data.len() as int) / (2 * s),
        |px: Seq<u8>| px.take(s) + px.take(s) + px.take(s) + px.subrange(s, 2 * s),
    )
}

/// Gray+alpha pixel `j`, a gray sample `g` and an alpha sample `a` of `s` bytes each, is
/// written as RGBA pixel `j`: `g` in each of the three color channels, then `a`.
pub proof fn lemma_graya_bytes_expand(data: Seq<u8>, s: int, j: int)
    requires
        1 <= s,
        0 <= j < (data.len() as int) / (2 * s),
    ensures
        graya_bytes_to_rgba(data, s).len() == 4 * s * ((data.len() as int) / (2 * s)),
        ({
            let g = data.subrange(2 * s * j, 2 * s * j + s);
            let a = data.subrange(2 * s * j + s, 2 * s * j + 2 * s);
            graya_bytes_to_rgba(data, s).subrange(4 * s * j, 4 * s * j + 4 * s) == g + g + g + a
        }),
{
    let f = |px: Seq<u8>| px.take(s) + px.take(s) + px.take(s) + px.subrange(s, 2 * s);
    let n = (data.len() as int) / (2 * s);
    assert(n * (2 * s) <= data.len()) by (nonlinear_arith)
        requires
            n == data.len() as int / (2 * s),
            s >= 1,
    ;
    assert forall|px: Seq<u8>| px.len() == 2 * s implies (#[trigger] f(px)).len() == 4 * s by {}
    crate::samples::lemma_map_pixels_slices(data, 2 * s, 4 * s, n, f);
    assert(graya_bytes_to_rgba(data, s) == map_pixels(data, 2 * s, n, f));
    assert(j * (4 * s) == 4 * s * j && j * (2 * s) == 2 * s * j) by (nonlinear_arith);
    assert(n * (4 * s) == 4 * s * n) by (nonlinear_arith);
    assert(0 <= 2 * s * j && 2 * s * j + 2 * s <= data.len()) by (nonlinear_arith)
        requires
            0 <= j < n,
            n * (2 * s) <= data.len(),
            s >= 1,
    ;
    let px = data.subrange(2 * s * j, 2 * s * j + 2 * s);
    assert(px.take(s) =~= data.subrange(2 * s * j, 2 * s * j + s));
    assert(px.subrange(s, 2 * s) =~= data.subrange(2 * s * j + s, 2 * s * j + 2 * s));
}

/// The sample bytes written for pixels of format `desc`: gray+alpha expanded to RGBA.
pub open spec fn written_samples(desc: PixelDescriptor, data: Seq<u8>) -> Seq<u8> {
    match encode_plan_spec(desc) {
        Some((_, true)) => graya_bytes_to_rgba(data, channel_bytes(desc.channel_type) as int),
        _ => data,
    }
}

fn push_range(out: &mut Vec<u8>, data: &[u8], start: usize, end: usize)
    requires
        start <= end <= data@.len(),
    ensures
        final(out)@ == old(out)@ + data@.subrange(start as int, end as int),
{
    let ghost before = out@;
    let mut k = start;
    while k < end
        invariant
            start <= k <= end,
            end <= data@.len(),
            out@ == before + data@.subrange(start as int, k as int),
        decreases end - k,
    {
        out.push(data[k]);
        assert(data@.subrange(start as int, k + 1) =~= data@.subrange(start as int, k as int).push(data@[k as int]));
        k = k + 1;
    }
}

/// Expands gray+alpha sample bytes with samples of `s` bytes to RGBA; a trailing incomplete
/// pixel is dropped.
pub fn expand_graya_bytes(data: &[u8], s: usize) -> (r: Vec<u8>)
    requires
        1 <= s <= 4,
    ensures
        r@ == graya_bytes_to_rgba(data@, s as int),
        r@.len() == (data@.len() as int / (2 * s as int)) * (4 * s as int),
{
    let px = 2 * s;
    let dlen = data.len();
    let count = dlen / px;
    let ghost f = |p: Seq<u8>| p.take(s as int) + p.take(s as int) + p.take(s as int) + p.subrange(s as int, 2 * s);
    let mut out: Vec<u8> = Vec::new();
    let mut i: usize = 0;
    while i < count
        invariant
            1 <= s <= 4,
            px == 2 * s,
            dlen == data@.len(),
            count == (data@.len() as int) / (px as int),
            i <= count,
            f == (|p: Seq<u8>| p.take(s as int) + p.take(s as int) + p.take(s as int) + p.subrange(s as int, 2 * s)),
            out@ == map_pixels(data@, px as int, i as int, f),
        decreases count - i,
    {
        proof {
            crate::samples::lemma_pixel_in_bounds(i as int, px as int, data@.len() as int);
        }
        let base = i * px;
        let ghost before = out@;
        push_range(&mut out, data, base, base + s);
        push_range(&mut out, data, base, base + s);
        push_range(&mut out, data, base, base + s);
        push_range(&mut out, data, base + s, base + px);
        proof {
            let p = data@.subrange(base as int, base + px);
            assert(p.take(s as int) =~= data@.subrange(base as int, base + s));
            assert(p.subrange(s as int, 2 * s) =~= data@.subrange(base + s, base + px));
            assert(out@ =~= before + f(p));
        }
        i = i + 1;
    }
    proof {
        assert((count as int) * (px as int) <= data@.len()) by (nonlinear_arith)
            requires
                count == data@.len() as int / px as int,
                px > 0,
        ;
        assert forall|p: Seq<u8>| p.len() == px implies (#[trigger] f(p)).len() == 4 * s by {}
        crate::samples::lemma_map_pixels_slices(data@, px as int, 4 * s as int, count as int, f);
    }
    out
}

/// Encodes `width` x `height` pixels of format `desc`, given as their sample bytes, to TIFF with
/// the color type [`encode_plan`] selects; gray+alpha pixels are first expanded to RGBA. A format
/// that is not written is `Unsupported`; an encoder failure is mapped from the `tiff` error.
pub fn encode_pixels(desc: PixelDescriptor, width: u32, height: u32, data: &[u8], config: &TiffEncodeConfig) -> (r: Result<Vec<u8>, ZentiffError>)
    requires
        data@.len() == width * height * (layout_channels(desc.layout) * channel_bytes(desc.channel_type)),
    ensures
        encode_plan_spec(desc) is None ==> (r matches Err(e) && e is Unsupported),
        encode_plan_spec(desc) matches Some((ct, _)) ==> exists|little_endian: bool|
            encoded_as(
                #[trigger] tiff_encoded(
                    ct,
                    width,
                    height,
                    written_samples(desc, data@),
                    config.compression,
                    config.predictor,
                    config.big_tiff,
                    little_endian,
                ),
                r,
            ),
{
    let (ct, expand) = match encode_plan(desc) {
        Some(plan) => plan,
        None => {
            return Err(ZentiffError::Unsupported(String::from_str("pixel format not encodable to TIFF")));
        },
    };
    let c = config.compression;
    let p = config.predictor;
    let big = config.big_tiff;
    let expanded: Vec<u8>;
    let bytes: &[u8] = if expand {
        let sample: usize = match desc.channel_type {
            crate::color::ChannelType::U8 => 1,
            crate::color::ChannelType::U16 | crate::color::ChannelType::F16 => 2,
            crate::color::ChannelType::F32 => 4,
        };
        expanded = expand_graya_bytes(data, sample);
        proof {
            lemma_plan_pixel_bytes(desc);
            let n = width * height;
            assert(desc.layout == crate::color::ChannelLayout::GrayAlpha);
            assert(sample == channel_bytes(desc.channel_type));
            assert((n * (2 * sample)) / (2 * sample as int) * (4 * sample as int) == n * (4 * sample))
                by (nonlinear_arith)
                requires
                    1 <= sample <= 4,
                    n >= 0,
            ;
            assert(n * (2 * sample) == width * height * (layout_channels(desc.layout) * channel_bytes(
                desc.channel_type,
            ))) by (nonlinear_arith)
                requires
                    n == width * height,
                    layout_channels(desc.layout) == 2,
                    channel_bytes(desc.channel_type) == sample,
            ;
            assert(n * (4 * sample) == width * height * encoded_pixel_bytes(ct)) by (nonlinear_arith)
                requires
                    n == width * height,
                    encoded_pixel_bytes(ct) == 4 * sample,
            ;
        }
        expanded.as_slice()
    } else {
        proof {
            lemma_plan_pixel_bytes(desc);
        }
        data
    };
    assert(bytes@ == written_samples(desc, data@));
    assert(bytes@.len() == width * height * encoded_pixel_bytes(ct));
    let written = match (ct, big) {
        (EncodeColorType::Gray8, false) => write_gray8(width, height, bytes, c, p),
        (EncodeColorType::Gray8, true) => write_gray8_big(width, height, bytes, c, p),
        (EncodeColorType::Gray16, false) => write_gray16(width, height, bytes, c, p),
        (EncodeColorType::Gray16, true) => write_gray16_big(width, height, bytes, c, p),
        (EncodeColorType::Gray32Float, false) => write_gray32_float(width, height, bytes, c, p),
        (EncodeColorType::Gray32Float, true) => write_gray32_float_big(width, height, bytes, c, p),
        (EncodeColorType::RGB8, false) => write_rgb8(width, height, bytes, c, p),
        (EncodeColorType::RGB8, true) => write_rgb8_big(width, height, bytes, c, p),
        (EncodeColorType::RGB16, false) => write_rgb16(width, height, bytes, c, p),
        (EncodeColorType::RGB16, true) => write_rgb16_big(width, height, bytes, c, p),
        (EncodeColorType::RGB32Float, false) => write_rgb32_float(width, height, bytes, c, p),
        (EncodeColorType::RGB32Float, true) => write_rgb32_float_big(width, height, bytes, c, p),
        (EncodeColorType::RGBA8, false) => write_rgba8(width, height, bytes, c, p),
        (EncodeColorType::RGBA8, true) => write_rgba8_big(width, height, bytes, c, p),
        (EncodeColorType::RGBA16, false) => write_rgba16(width, height, bytes, c, p),
        (EncodeColorType::RGBA16, true) => write_rgba16_big(width, height, bytes, c, p),
        (EncodeColorType::RGBA32Float, false) => write_rgba32_float(width, height, bytes, c, p),
        (EncodeColorType::RGBA32Float, true) => write_rgba32_float_big(width, height, bytes, c, p),
    };
    let (written, little_endian) = written;
    let r = match written {
        Ok(v) => Ok(v),
        Err(e) => Err(map_codec_error(e)),
    };
    assert(encoded_as(
        tiff_encoded(ct, width, height, bytes@, c, p, big, little_endian),
        r,
    ));
    r
}

} // verus!
