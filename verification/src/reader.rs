//! Reading a TIFF image from its bytes: the header, the metadata tags, the page count and the
//! pixel data, each read by the `tiff` decoder, and the image information and decoded pixels
//! assembled from them.
use vstd::prelude::*;
use std::io::Cursor;
use vstd::string::StrSliceExecFns;
use tiff::decoder::Decoder;
use tiff::tags::{ByteOrder, Tag};
use tiff::decoder::DecodingResult;
use tiff::decoder::ifd::Value as TagValue;
use half::slice::HalfFloatSliceExt;
use crate::color::TiffColorType;
use crate::config::TiffDecodeConfig;
use crate::convert::{Converted, convert_to_pixel_buffer, converted_as, converted_bytes_per_pixel, converted_pixel_bytes, decoded_descriptor, samples_are_float};
use crate::decoding::{DecodeAction, DecodeEvent, DecodeMachine, header_accepted, limit_bytes_per_pixel, planar_interleaved};
use crate::error::{CodecError, CodecErrorKind, ZentiffError, codec_error_reported, map_codec_error};
use crate::exif::{ExifEntry, ExifListItem, ExifValue, exif_blob, exif_sizes_fit, exif_sizes_ok, serialize_exif_ifd, lemma_sizes_fit_serializable};
use crate::info::{TiffInfo, dpi_spec};
use crate::samples::{Samples, conversion_defined, conversion_is_defined, result_format_flags};

verus! {

#[verifier::external_type_specification]
#[verifier::external_body]
pub struct ExCodecError(tiff::TiffError);

#[verifier::external_type_specification]
#[verifier::external_body]
pub struct ExCodecColorType(tiff::ColorType);

#[verifier::external_type_specification]
#[verifier::external_body]
pub struct ExDecodingResult(DecodingResult);

#[verifier::external_type_specification]
#[verifier::external_body]
pub struct ExTagValue(tiff::decoder::ifd::Value);

#[verifier::external_type_specification]
#[verifier::external_body]
pub struct ExCodecTag(tiff::tags::Tag);

/// Tag numbers read as metadata.
pub const TAG_ICC_PROFILE: u16 = 34675;
pub const TAG_XMP: u16 = 700;
pub const TAG_IPTC: u16 = 33723;
pub const TAG_PAGE_NAME: u16 = 285;
pub const TAG_RESOLUTION_UNIT: u16 = 296;
pub const TAG_X_RESOLUTION: u16 = 282;
pub const TAG_Y_RESOLUTION: u16 = 283;
pub const TAG_ORIENTATION: u16 = 274;
pub const TAG_COMPRESSION: u16 = 259;
pub const TAG_PHOTOMETRIC: u16 = 262;
pub const TAG_SAMPLES_PER_PIXEL: u16 = 277;

/// The header the decoder reads from `data`: dimensions and color type (`None` for a color
/// type this library does not know); the kind of the failure when the decoder fails.
pub uninterp spec fn tiff_header(data: Seq<u8>) -> Result<(u32, u32, Option<TiffColorType>), CodecErrorKind>;

/// The bytes of tag `tag` of the first image, as the decoder reads them; `None` when absent or
/// unreadable.
pub uninterp spec fn tiff_bytes_tag(data: Seq<u8>, tag: u16) -> Option<Seq<u8>>;

/// The 16-bit unsigned value of tag `tag`; `None` when absent or unreadable.
pub uninterp spec fn tiff_u16_tag(data: Seq<u8>, tag: u16) -> Option<u16>;

/// The ASCII string of tag `tag`; `None` when absent or unreadable.
pub uninterp spec fn tiff_ascii_tag(data: Seq<u8>, tag: u16) -> Option<Seq<char>>;

/// Tag `tag` when present: `Some(Some(ratio))` for a rational value, `Some(None)` for any other.
pub uninterp spec fn tiff_rational_tag(data: Seq<u8>, tag: u16) -> Option<Option<(u32, u32)>>;

/// The values of tag `tag` as a list of 32-bit unsigned integers; `None` when absent or not
/// convertible.
pub uninterp spec fn tiff_u32_list_tag(data: Seq<u8>, tag: u16) -> Option<Seq<u32>>;

/// The byte order and the entries of the EXIF sub-directory; `None` when there is none or it
/// cannot be read.
pub uninterp spec fn tiff_exif_directory(data: Seq<u8>) -> Option<(bool, Seq<ExifEntry>)>;

/// Whether the decoder, positioned at image `index`, reports more images after it.
pub uninterp spec fn tiff_more_images(data: Seq<u8>, index: int) -> bool;

/// Whether the decoder, positioned at image `index`, reads the image after it.
pub uninterp spec fn tiff_next_image_reads(data: Seq<u8>, index: int) -> bool;

/// The samples of the first image, with its number of planes; the kind of the failure when the
/// decoder fails.
pub uninterp spec fn tiff_pixels(data: Seq<u8>) -> Result<(Samples, usize), CodecErrorKind>;

/// The library's form of a `tiff::TiffError`, one variant for each: format, usage and
/// unsupported-feature errors by their text, I/O errors as they are.
#[verifier::external_body]
pub(crate) fn codec_error_of(e: tiff::TiffError) -> CodecError {
    match e {
        tiff::TiffError::FormatError(fe) => CodecError::Format(format!("format error: {fe}")),
        tiff::TiffError::UnsupportedError(ue) => CodecError::Unsupported(format!("{ue}")),
        tiff::TiffError::IoError(io) => CodecError::Io(io),
        tiff::TiffError::LimitsExceeded => CodecError::LimitsExceeded,
        tiff::TiffError::IntSizeError => CodecError::IntSize,
        tiff::TiffError::UsageError(ue) => CodecError::Usage(format!("usage error: {ue}")),
    }
}

/// The library's model of a `tiff::ColorType`, one variant for each; `None` for a variant it
/// does not know.
#[verifier::external_body]
fn color_type_of(ct: tiff::ColorType) -> Option<TiffColorType> {
    let known = match ct {
        tiff::ColorType::Gray(b) => TiffColorType::Gray(b),
        tiff::ColorType::RGB(b) => TiffColorType::RGB(b),
        tiff::ColorType::Palette(b) => TiffColorType::Palette(b),
        tiff::ColorType::GrayA(b) => TiffColorType::GrayA(b),
        tiff::ColorType::RGBA(b) => TiffColorType::RGBA(b),
        tiff::ColorType::CMYK(b) => TiffColorType::CMYK(b),
        tiff::ColorType::CMYKA(b) => TiffColorType::CMYKA(b),
        tiff::ColorType::YCbCr(b) => TiffColorType::YCbCr(b),
        tiff::ColorType::Lab(b) => TiffColorType::Lab(b),
        tiff::ColorType::Multiband { bit_depth, num_samples } => TiffColorType::Multiband { bit_depth, num_samples },
        _ => return None,
    };
    Some(known)
}

/// Decoded samples as the library holds them, one variant for each; floating-point samples
/// by their bit patterns.
#[verifier::external_body]
fn samples_of(r: DecodingResult) -> Samples {
    match r {
        DecodingResult::U8(v) => Samples::U8(v),
        DecodingResult::U16(v) => Samples::U16(v),
        DecodingResult::U32(v) => Samples::U32(v),
        DecodingResult::U64(v) => Samples::U64(v),
        DecodingResult::F16(v) => Samples::F16(v.reinterpret_cast().to_vec()),
        DecodingResult::F32(v) => Samples::F32(bytemuck::pod_collect_to_vec(&v)),
        DecodingResult::F64(v) => Samples::F64(bytemuck::pod_collect_to_vec(&v)),
        DecodingResult::I8(v) => Samples::I8(v),
        DecodingResult::I16(v) => Samples::I16(v),
        DecodingResult::I32(v) => Samples::I32(v),
        DecodingResult::I64(v) => Samples::I64(v),
    }
}

/// The serializer's model of a list element of a tag value, one variant for each it writes.
#[verifier::external_body]
fn list_item_of(v: &TagValue) -> ExifListItem {
    match v {
        TagValue::Byte(b) => ExifListItem::Byte(*b),
        TagValue::Short(s) => ExifListItem::Short(*s),
        TagValue::Unsigned(u) => ExifListItem::Unsigned(*u),
        TagValue::Rational(n, d) => ExifListItem::Rational(*n, *d),
        _ => ExifListItem::Other,
    }
}

/// The serializer's model of a tag value, one variant for each it writes.
#[verifier::external_body]
fn exif_value_of(v: TagValue) -> ExifValue {
    match v {
        TagValue::Byte(b) => ExifValue::Byte(b),
        TagValue::Short(s) => ExifValue::Short(s),
        TagValue::Unsigned(u) => ExifValue::Unsigned(u),
        TagValue::Signed(i) => ExifValue::Signed(i),
        TagValue::Rational(n, d) => ExifValue::Rational(n, d),
        TagValue::SRational(n, d) => ExifValue::SRational(n, d),
        TagValue::Ascii(s) => ExifValue::Ascii(s.into_bytes()),
        TagValue::List(items) => ExifValue::List(items.iter().map(list_item_of).collect()),
        _ => ExifValue::Other,
    }
}

/// The serializer's model of a directory entry: the tag's number and its value.
#[verifier::external_body]
fn exif_entry_of(entry: (Tag, TagValue)) -> ExifEntry {
    ExifEntry { tag: entry.0.to_u16(), value: exif_value_of(entry.1) }
}

/// Reads the dimensions and color type of the first image with `tiff::decoder::Decoder`
/// (`new`, `dimensions`, `colortype`). The result is the named header of `data`.
#[verifier::external_body]
#[allow(deprecated)]
fn read_header(data: &[u8]) -> (r: Result<(u32, u32, Option<TiffColorType>), CodecError>)
    ensures
        tiff_header(data@) == match r {
            Ok(h) => Ok(h),
            Err(e) => Err(e.kind()),
        },
{
    let mut decoder = Decoder::new(Cursor::new(data)).map_err(codec_error_of)?;
    let (width, height) = decoder.dimensions().map_err(codec_error_of)?;
    let color_type = decoder.colortype().map_err(codec_error_of)?;
    Ok((width, height, color_type_of(color_type)))
}

/// Reads a byte-array tag of the first image with `Decoder::get_tag_u8_vec`; `None` on any
/// error. The result is the named value.
#[verifier::external_body]
#[allow(deprecated)]
fn read_bytes_tag(data: &[u8], tag: u16) -> (r: Option<Vec<u8>>)
    ensures
        match r {
            Some(v) => tiff_bytes_tag(data@, tag) == Some(v@),
            None => tiff_bytes_tag(data@, tag) is None,
        },
{
    let mut decoder = Decoder::new(Cursor::new(data)).ok()?;
    decoder.get_tag_u8_vec(Tag::from_u16_exhaustive(tag)).ok()
}

/// Reads an unsigned 16-bit tag of the first image with `Decoder::find_tag_unsigned`; `None`
/// on any error. The result is the named value.
#[verifier::external_body]
#[allow(deprecated)]
fn read_u16_tag(data: &[u8], tag: u16) -> (r: Option<u16>)
    ensures
        r == tiff_u16_tag(data@, tag),
{
    let mut decoder = Decoder::new(Cursor::new(data)).ok()?;
    decoder.find_tag_unsigned::<u16>(Tag::from_u16_exhaustive(tag)).unwrap_or_default()
}

/// Reads an ASCII tag of the first image with `Decoder::get_tag_ascii_string`; `None` on any
/// error. The result is the named value.
#[verifier::external_body]
#[allow(deprecated)]
fn read_ascii_tag(data: &[u8], tag: u16) -> (r: Option<String>)
    ensures
        match r {
            Some(s) => tiff_ascii_tag(data@, tag) == Some(s@),
            None => tiff_ascii_tag(data@, tag) is None,
        },
{
    let mut decoder = Decoder::new(Cursor::new(data)).ok()?;
    decoder.get_tag_ascii_string(Tag::from_u16_exhaustive(tag)).ok()
}

/// Finds a tag of the first image with `Decoder::find_tag` and tells a rational value from any
/// other; `None` when absent or on any error. The result is the named value.
#[verifier::external_body]
#[allow(deprecated)]
fn read_rational_tag(data: &[u8], tag: u16) -> (r: Option<Option<(u32, u32)>>)
    ensures
        r == tiff_rational_tag(data@, tag),
{
    let mut decoder = Decoder::new(Cursor::new(data)).ok()?;
    match decoder.find_tag(Tag::from_u16_exhaustive(tag)) {
        Ok(Some(TagValue::Rational(n, d))) => Some(Some((n, d))),
        Ok(Some(_)) => Some(None),
        _ => None,
    }
}

/// Finds a tag of the first image with `Decoder::find_tag` and converts its value with
/// `Value::into_u32_vec`; `None` when absent or on any error. The result is the named value.
#[verifier::external_body]
#[allow(deprecated)]
fn read_u32_list_tag(data: &[u8], tag: u16) -> (r: Option<Vec<u32>>)
    ensures
        match r {
            Some(v) => tiff_u32_list_tag(data@, tag) == Some(v@),
            None => tiff_u32_list_tag(data@, tag) is None,
        },
{
    let mut decoder = Decoder::new(Cursor::new(data)).ok()?;
    decoder.find_tag(Tag::from_u16_exhaustive(tag)).ok()??.into_u32_vec().ok()
}

/// Reads the EXIF sub-directory (tag 34665) with `Decoder::find_tag`, `Value::into_ifd_pointer`,
/// `Decoder::read_directory` and `Decoder::read_directory_tags`, keeping the entries that read,
/// with the file's byte order; `None` when there is no sub-directory or it cannot be read. The
/// result is the named value.
#[verifier::external_body]
#[allow(deprecated)]
fn read_exif_directory(data: &[u8]) -> (r: Option<(bool, Vec<ExifEntry>)>)
    ensures
        match r {
            Some((le, v)) => tiff_exif_directory(data@) == Some((le, v@)),
            None => tiff_exif_directory(data@) is None,
        },
{
    let mut decoder = Decoder::new(Cursor::new(data)).ok()?;
    let ptr = decoder.find_tag(Tag::ExifDirectory).ok()??.into_ifd_pointer().ok()?;
    let dir = decoder.read_directory(ptr).ok()?;
    let entries = decoder.read_directory_tags(&dir).tag_iter().filter_map(|r| r.ok()).map(exif_entry_of).collect();
    Some((decoder.byte_order() == ByteOrder::LittleEndian, entries))
}

/// Opens a decoder on `data`, moves it to image `index` with `Decoder::seek_to_image` and asks
/// `Decoder::more_images`; false when the decoder cannot be opened or moved. The result is the
/// named value.
#[verifier::external_body]
#[allow(deprecated)]
fn read_more_images(data: &[u8], index: usize) -> (r: bool)
    ensures
        r == tiff_more_images(data@, index as int),
{
    let Ok(mut decoder) = Decoder::new(Cursor::new(data)) else { return false };
    decoder.seek_to_image(index).map(|_| decoder.more_images()).unwrap_or(false)
}

/// Opens a decoder on `data`, moves it to image `index` with `Decoder::seek_to_image` and calls
/// `Decoder::next_image`; true when all three succeed. The result is the named value.
#[verifier::external_body]
#[allow(deprecated)]
fn read_next_image(data: &[u8], index: usize) -> (r: bool)
    ensures
        r == tiff_next_image_reads(data@, index as int),
{
    let Ok(mut decoder) = Decoder::new(Cursor::new(data)) else { return false };
    decoder.seek_to_image(index).and_then(|_| decoder.next_image()).is_ok()
}

/// Reads every plane of the first image with `Decoder::image_buffer_layout` and
/// `Decoder::read_image_to_buffer`. The result is the named pixel data.
#[verifier::external_body]
#[allow(deprecated)]
fn read_pixels(data: &[u8]) -> (r: Result<(Samples, usize), CodecError>)
    ensures
        tiff_pixels(data@) == match r {
            Ok(p) => Ok(p),
            Err(e) => Err(e.kind()),
        },
{
    let mut decoder = Decoder::new(Cursor::new(data)).map_err(codec_error_of)?;
    let planes = decoder.image_buffer_layout().map_err(codec_error_of)?.planes;
    let mut result = DecodingResult::U8(Vec::new());
    decoder.read_image_to_buffer(&mut result).map_err(codec_error_of)?;
    Ok((samples_of(result), planes))
}

/// A byte or character value kept only when it is not empty.
pub open spec fn non_empty<T>(v: Option<Seq<T>>) -> Option<Seq<T>> {
    match v {
        Some(s) => if s.len() > 0 { Some(s) } else { None },
        None => None,
    }
}

/// The view of an optional byte vector.
pub open spec fn bytes_view(v: Option<Vec<u8>>) -> Option<Seq<u8>> {
    match v {
        Some(b) => Some(b@),
        None => None,
    }
}

/// The view of an optional string.
pub open spec fn chars_view(v: Option<String>) -> Option<Seq<char>> {
    match v {
        Some(s) => Some(s@),
        None => None,
    }
}

/// A resolution tag: its rational value, or else a list of exactly two 32-bit values.
pub open spec fn resolution_of(data: Seq<u8>, tag: u16) -> Option<(u32, u32)> {
    match tiff_rational_tag(data, tag) {
        Some(Some(p)) => Some(p),
        Some(None) => match tiff_u32_list_tag(data, tag) {
            Some(v) => if v.len() == 2 { Some((v[0], v[1])) } else { None },
            None => None,
        },
        None => None,
    }
}

/// The re-serialized EXIF sub-directory: present when the sub-directory reads, has entries, and
/// its offsets fit in 32 bits.
pub open spec fn exif_of(data: Seq<u8>) -> Option<Seq<u8>> {
    match tiff_exif_directory(data) {
        Some((le, entries)) => if entries.len() > 0 && exif_sizes_fit(le, entries) {
            Some(exif_blob(le, entries))
        } else {
            None
        },
        None => None,
    }
}

/// The number of readable images that follow image `index`, counting up to image `bound`.
pub open spec fn pages_following(data: Seq<u8>, index: int, bound: int) -> int
    decreases bound - index,
{
    if index < bound && tiff_more_images(data, index) && tiff_next_image_reads(data, index) {
        1 + pages_following(data, index + 1, bound)
    } else {
        0
    }
}

/// The page count: one for the first image and one for each readable image that follows it,
/// walking at most as many directories as there are bytes, capped at `u32::MAX`.
pub open spec fn page_count_of(data: Seq<u8>) -> u32 {
    let n = 1 + pages_following(data, 0, data.len() as int);
    if n > u32::MAX { u32::MAX } else { n as u32 }
}

/// The metadata of `info` is what the tags of `data` hold: ICC profile, XMP and IPTC byte
/// arrays kept when not empty, the re-serialized EXIF sub-directory, the resolution tags and
/// the DPI derived from them, orientation, compression, photometric interpretation, samples per
/// pixel, the page name kept when not empty, and the page count.
pub open spec fn metadata_of(info: TiffInfo, data: Seq<u8>) -> bool {
    &&& bytes_view(info.icc_profile) == non_empty(tiff_bytes_tag(data, TAG_ICC_PROFILE))
    &&& bytes_view(info.xmp) == non_empty(tiff_bytes_tag(data, TAG_XMP))
    &&& bytes_view(info.iptc) == non_empty(tiff_bytes_tag(data, TAG_IPTC))
    &&& bytes_view(info.exif) == exif_of(data)
    &&& info.resolution_unit == tiff_u16_tag(data, TAG_RESOLUTION_UNIT)
    &&& info.x_resolution == resolution_of(data, TAG_X_RESOLUTION)
    &&& info.y_resolution == resolution_of(data, TAG_Y_RESOLUTION)
    &&& info.dpi == dpi_spec(info.resolution_unit, info.x_resolution, info.y_resolution)
    &&& info.orientation == tiff_u16_tag(data, TAG_ORIENTATION)
    &&& info.compression == tiff_u16_tag(data, TAG_COMPRESSION)
    &&& info.photometric == tiff_u16_tag(data, TAG_PHOTOMETRIC)
    &&& info.samples_per_pixel == tiff_u16_tag(data, TAG_SAMPLES_PER_PIXEL)
    &&& chars_view(info.page_name) == non_empty(tiff_ascii_tag(data, TAG_PAGE_NAME))
    &&& info.page_count == Some(page_count_of(data))
}

/// The information of a header: dimensions, color type, its sample count and bit depth,
/// integer samples assumed.
pub open spec fn header_info(info: TiffInfo, width: u32, height: u32, ct: TiffColorType) -> bool {
    &&& info.width == width
    &&& info.height == height
    &&& info.color_type == ct
    &&& info.channels == ct.spec_num_samples()
    &&& info.bit_depth == ct.spec_bit_depth()
}

fn non_empty_bytes(v: Option<Vec<u8>>) -> (r: Option<Vec<u8>>)
    ensures
        bytes_view(r) == non_empty(bytes_view(v)),
{
    match v {
        Some(b) => if b.len() > 0 { Some(b) } else { None },
        None => None,
    }
}

fn read_resolution(data: &[u8], tag: u16) -> (r: Option<(u32, u32)>)
    ensures
        r == resolution_of(data@, tag),
{
    match read_rational_tag(data, tag) {
        Some(Some(p)) => Some(p),
        Some(None) => match read_u32_list_tag(data, tag) {
            Some(v) => if v.len() == 2 { Some((v[0], v[1])) } else { None },
            None => None,
        },
        None => None,
    }
}

fn read_exif(data: &[u8]) -> (r: Option<Vec<u8>>)
    ensures
        bytes_view(r) == exif_of(data@),
{
    match read_exif_directory(data) {
        Some((is_le, entries)) => {
            if entries.len() > 0 && exif_sizes_ok(is_le, &entries) {
                proof {
                    lemma_sizes_fit_serializable(is_le, entries@);
                }
                serialize_exif_ifd(is_le, &entries)
            } else {
                None
            }
        },
        None => None,
    }
}

/// Counts the images by walking the chain of image directories, at most one per byte of
/// `data`; the count saturates at `u32::MAX`.
fn count_pages(data: &[u8]) -> (r: u32)
    ensures
        r == page_count_of(data@),
        r >= 1,
{
    let len = data.len();
    let mut count: u32 = 1;
    let mut index: usize = 0;
    let ghost total = 1 + pages_following(data@, 0, len as int);
    while index < len && read_more_images(data, index) && read_next_image(data, index)
        invariant
            len == data@.len(),
            index <= len,
            total == 1 + pages_following(data@, 0, len as int),
            total == (1 + index) + pages_following(data@, index as int, len as int),
            count == (if 1 + index > u32::MAX { u32::MAX as int } else { 1 + index }),
            count >= 1,
        decreases len - index,
    {
        if count < u32::MAX {
            count = count + 1;
        }
        index = index + 1;
    }
    count
}

/// Reads the metadata tags of `data` into `info`.
pub fn read_metadata(data: &[u8], info: &mut TiffInfo)
    ensures
        metadata_of(*final(info), data@),
        final(info).page_count matches Some(k) && k >= 1,
        final(info).width == old(info).width,
        final(info).height == old(info).height,
        final(info).color_type == old(info).color_type,
        final(info).channels == old(info).channels,
        final(info).bit_depth == old(info).bit_depth,
        final(info).is_float == old(info).is_float,
        final(info).is_signed == old(info).is_signed,
{
    info.icc_profile = non_empty_bytes(read_bytes_tag(data, TAG_ICC_PROFILE));
    info.xmp = non_empty_bytes(read_bytes_tag(data, TAG_XMP));
    info.iptc = non_empty_bytes(read_bytes_tag(data, TAG_IPTC));
    info.exif = read_exif(data);
    let unit = read_u16_tag(data, TAG_RESOLUTION_UNIT);
    let x_res = read_resolution(data, TAG_X_RESOLUTION);
    let y_res = read_resolution(data, TAG_Y_RESOLUTION);
    info.set_resolution(unit, x_res, y_res);
    info.orientation = read_u16_tag(data, TAG_ORIENTATION);
    info.compression = read_u16_tag(data, TAG_COMPRESSION);
    info.photometric = read_u16_tag(data, TAG_PHOTOMETRIC);
    info.samples_per_pixel = read_u16_tag(data, TAG_SAMPLES_PER_PIXEL);
    info.page_name = match read_ascii_tag(data, TAG_PAGE_NAME) {
        Some(s) => if s.as_str().unicode_len() > 0 { Some(s) } else { None },
        None => None,
    };
    info.page_count = Some(count_pages(data));
}

/// Reads the header of `data`: the decoder's failure reported by its kind,
/// `Unsupported` for a color type this library does not know.
pub fn decode_header(data: &[u8]) -> (r: Result<(u32, u32, TiffColorType), ZentiffError>)
    ensures
        r is Ok <==> tiff_header(data@) matches Ok((_, _, Some(_))),
        r matches Ok((w, h, ct)) ==> tiff_header(data@) matches Ok((hw, hh, Some(hct))) && hw == w && hh == h && hct == ct,
        tiff_header(data@) matches Ok((_, _, None)) ==> (r matches Err(e) && e is Unsupported),
        tiff_header(data@) matches Err(k) ==> (r matches Err(e) && codec_error_reported(k, e)),
{
    match read_header(data) {
        Ok((w, h, Some(ct))) => Ok((w, h, ct)),
        Ok((_, _, None)) => Err(ZentiffError::Unsupported(String::from_str("unknown TIFF color type"))),
        Err(e) => Err(map_codec_error(e)),
    }
}

/// Probes TIFF metadata without decoding pixels: the header and every metadata tag.
pub fn probe(data: &[u8]) -> (r: Result<TiffInfo, ZentiffError>)
    ensures
        r is Ok <==> tiff_header(data@) matches Ok((_, _, Some(_))),
        r matches Ok(i) ==> tiff_header(data@) matches Ok((hw, hh, Some(hct))) && hw == i.width && hh == i.height && hct == i.color_type,
        r matches Ok(i) ==> header_info(i, i.width, i.height, i.color_type) && !i.is_float
            && !i.is_signed && metadata_of(i, data@),
        r matches Ok(i) ==> (i.page_count matches Some(k) && k >= 1),
        tiff_header(data@) matches Ok((_, _, None)) ==> (r matches Err(e) && e is Unsupported),
        tiff_header(data@) matches Err(k) ==> (r matches Err(e) && codec_error_reported(k, e)),
{
    let (width, height, ct) = decode_header(data)?;
    let mut info = TiffInfo::from_header(width, height, ct);
    read_metadata(data, &mut info);
    Ok(info)
}

/// Starts a decode: reads the header and checks it against the limits, before any pixel data
/// is read. A header whose memory estimate would not fit in 64 bits exceeds any memory limit
/// and is refused as well.
pub fn decode_header_checked(data: &[u8], config: &TiffDecodeConfig) -> (r: Result<DecodeMachine, ZentiffError>)
    ensures
        tiff_header(data@) matches Ok((_, _, None)) ==> (r matches Err(e) && e is Unsupported),
        tiff_header(data@) matches Err(k) ==> (r matches Err(e) && codec_error_reported(k, e)),
        !(tiff_header(data@) matches Ok((_, _, Some(_)))) ==> r is Err,
        tiff_header(data@) matches Ok((w, h, Some(ct))) ==> {
            &&& r is Ok <==> header_accepted(*config, w, h, ct)
            &&& !header_accepted(*config, w, h, ct) ==> (r matches Err(e) && e is LimitExceeded)
            &&& r matches Ok(m) ==> (m.config == *config && m.phase is AwaitMetadata && m.wf()
                && m.width == w && m.height == h && m.color_type == ct)
        },
{
    let (width, height, ct) = decode_header(data)?;
    let mut machine = DecodeMachine::new(*config);
    let event = DecodeEvent::Header { width, height, color_type: ct };
    if !machine.expects_event(&event) {
        assert(!header_accepted(*config, width, height, ct)) by {
            assert(!config.spec_estimate_fits(width, height, limit_bytes_per_pixel(ct) as u64));
        }
        return Err(ZentiffError::LimitExceeded(String::from_str("estimated memory exceeds 64 bits")));
    }
    match machine.step(event) {
        DecodeAction::ReadMetadata => Ok(machine),
        DecodeAction::Fail(e) => Err(e),
        _ => Err(ZentiffError::LimitExceeded(String::from_str("image header refused"))),
    }
}

/// Whether converting the samples is defined: palette and CMYK images always, any other when
/// packed sub-byte rows are complete and channel counts usable.
pub open spec fn pixel_conversion_ok(width: u32, height: u32, ct: TiffColorType, s: Samples) -> bool {
    match ct {
        TiffColorType::Palette(_) | TiffColorType::CMYK(_) | TiffColorType::CMYKA(_) => true,
        _ => conversion_defined(width, height, ct, s, decoded_descriptor(ct, samples_are_float(s))),
    }
}

/// `s` is the pixel-interleaved form of samples read in `planes` planes of `plane_size`
/// samples: the samples themselves for a single plane.
pub open spec fn interleaved_as(samples: Samples, s: Samples, plane_size: int, planes: int) -> bool {
    if planes > 1 {
        planar_interleaved(samples, s, plane_size, planes)
    } else {
        s == samples
    }
}

/// Whether samples are signed integers.
pub open spec fn samples_are_signed(s: Samples) -> bool {
    s is I8 || s is I16 || s is I32 || s is I64
}

/// What the limits make of a conversion's outcome: a converted output whose format, at its
/// bytes per pixel, exceeds the limits is refused with `LimitExceeded`; any other outcome
/// stands.
pub open spec fn output_limited(
    config: TiffDecodeConfig,
    width: u32,
    height: u32,
    converted: Result<Converted, ZentiffError>,
    r: Result<Converted, ZentiffError>,
) -> bool {
    match converted {
        Ok(c) => if config.spec_exceeds(width, height, converted_pixel_bytes(c) as u64) {
            r matches Err(e) && e is LimitExceeded
        } else {
            r == converted
        },
        Err(_) => r == converted,
    }
}

/// What decoding the pixel data of `data` for a `width` x `height` image of color type `ct`
/// under `config` gives: an error when the decoder fails; `LimitExceeded` when the planes of the
/// pixel data do not fit in memory; otherwise the interleaved samples converted into the
/// decoded format (`Decode` when packed sub-byte rows are missing or channels are unusable),
/// and refused with `LimitExceeded` when that output format exceeds the limits.
pub open spec fn pixels_outcome(
    data: Seq<u8>,
    config: TiffDecodeConfig,
    width: u32,
    height: u32,
    ct: TiffColorType,
    r: Result<Converted, ZentiffError>,
) -> bool {
    match tiff_pixels(data) {
        Err(k) => r matches Err(e) && codec_error_reported(k, e),
        Ok((samples, planes)) => if planes > 1 && !(width * height <= usize::MAX && width * height
            * planes <= usize::MAX) {
            r matches Err(e) && e is LimitExceeded
        } else {
            exists|s: Samples|
                #[trigger] interleaved_as(samples, s, width * height, planes as int) && (if pixel_conversion_ok(
                    width,
                    height,
                    ct,
                    s,
                ) {
                    exists|c: Result<Converted, ZentiffError>|
                        #[trigger] converted_as(width, height, ct, s, None, c) && output_limited(
                            config,
                            width,
                            height,
                            c,
                            r,
                        )
                } else {
                    r matches Err(e) && e is Decode
                })
        },
    }
}

/// The sample kind recorded in `info` is that of the pixel data of `data`.
pub open spec fn sample_flags_of(info: TiffInfo, data: Seq<u8>) -> bool {
    tiff_pixels(data) matches Ok((samples, _)) ==> info.is_float == samples_are_float(samples)
        && info.is_signed == samples_are_signed(samples)
}

/// Reads the pixel data of `data` for a decode whose header the limits accepted, records in
/// `info` whether the samples are float or signed, interleaves planar data and converts the
/// samples into the decoded format. The header's estimate counts the samples' stored width;
/// once the output format is known (16-bit float samples widen to 32-bit floats) the limits
/// are checked against it, and an output that exceeds them is refused with `LimitExceeded`.
pub fn decode_pixels(data: &[u8], machine: DecodeMachine, info: &mut TiffInfo) -> (r: Result<Converted, ZentiffError>)
    requires
        machine.phase is AwaitMetadata,
        machine.wf(),
    ensures
        pixels_outcome(data@, machine.config, machine.width, machine.height, machine.color_type, r),
        sample_flags_of(*final(info), data@),
        *final(info) == (TiffInfo { is_float: final(info).is_float, is_signed: final(info).is_signed, ..*old(info) }),
{
    let mut machine = machine;
    let width = machine.width;
    let height = machine.height;
    let ct = machine.color_type;
    let action = machine.step(DecodeEvent::MetadataRead);
    assert(action is ReadImage);
    let (samples, planes) = match read_pixels(data) {
        Ok(p) => p,
        Err(e) => {
            return Err(map_codec_error(e));
        },
    };
    let (is_float, is_signed) = result_format_flags(&samples);
    info.is_float = is_float;
    info.is_signed = is_signed;
    let ghost read = samples;
    let event = DecodeEvent::ImageRead { samples, planes };
    if !machine.expects_event(&event) {
        return Err(ZentiffError::LimitExceeded(String::from_str("planar image exceeds the address space")));
    }
    let converted = match machine.step(event) {
        DecodeAction::Convert(s) => s,
        DecodeAction::Fail(e) => {
            return Err(e);
        },
        _ => {
            return Err(ZentiffError::InvalidInput(String::from_str("unexpected decode step")));
        },
    };
    assert(interleaved_as(read, converted, width * height, planes as int));
    let is_float = matches!(converted, Samples::F16(_)) || matches!(converted, Samples::F32(_))
        || matches!(converted, Samples::F64(_));
    let defined = match ct {
        TiffColorType::Palette(_) | TiffColorType::CMYK(_) | TiffColorType::CMYKA(_) => true,
        _ => conversion_is_defined(width, height, ct, &converted, crate::color::descriptor_for(ct, is_float)),
    };
    if !defined {
        return Err(ZentiffError::Decode(String::from_str("packed sample data is shorter than the image")));
    }
    let ghost samples = converted;
    let out = convert_to_pixel_buffer(width, height, ct, converted, None);
    let ghost out_view = out;
    assert(converted_as(width, height, ct, samples, None, out_view));
    let c = match out {
        Ok(c) => c,
        Err(e) => {
            return Err(e);
        },
    };
    let config = machine.config;
    let bpp = converted_bytes_per_pixel(&c);
    if !config.estimate_fits(width, height, bpp) {
        return Err(ZentiffError::LimitExceeded(String::from_str("decoded output size exceeds 64 bits")));
    }
    match config.validate(width, height, bpp) {
        Ok(()) => Ok(c),
        Err(e) => Err(e),
    }
}

/// What decoding `data` under `config` gives: the header's error, `Unsupported` for an unknown
/// color type, `LimitExceeded` when the limits refuse the header (no pixel data is read then),
/// and otherwise the metadata of the image with its decoded pixels.
pub open spec fn decode_outcome(data: Seq<u8>, config: TiffDecodeConfig, r: Result<(TiffInfo, Converted), ZentiffError>) -> bool {
    match tiff_header(data) {
        Err(k) => r matches Err(e) && codec_error_reported(k, e),
        Ok((_, _, None)) => r matches Err(e) && e is Unsupported,
        Ok((w, h, Some(ct))) => if !header_accepted(config, w, h, ct) {
            r matches Err(e) && e is LimitExceeded
        } else {
            &&& pixels_outcome(
                data,
                config,
                w,
                h,
                ct,
                match r {
                    Ok((_, c)) => Ok(c),
                    Err(e) => Err(e),
                },
            )
            &&& r matches Ok((info, _)) ==> header_info(info, w, h, ct) && metadata_of(info, data)
                && sample_flags_of(info, data)
        },
    }
}

/// Decodes the first image of `data`: header, limits, metadata and pixels.
pub fn decode_samples(data: &[u8], config: &TiffDecodeConfig) -> (r: Result<(TiffInfo, Converted), ZentiffError>)
    ensures
        decode_outcome(data@, *config, r),
{
    let machine = decode_header_checked(data, config)?;
    let mut info = TiffInfo::from_header(machine.width, machine.height, machine.color_type);
    read_metadata(data, &mut info);
    let converted = decode_pixels(data, machine, &mut info)?;
    Ok((info, converted))
}

/// A decode that succeeds respects the limits: the image's pixel count and dimensions, and
/// the memory of its output format at that format's bytes per pixel, are within the
/// configuration.
pub proof fn lemma_decode_within_limits(
    data: Seq<u8>,
    config: TiffDecodeConfig,
    r: Result<(TiffInfo, Converted), ZentiffError>,
)
    requires
        decode_outcome(data, config, r),
    ensures
        r matches Ok((info, c)) ==> !config.spec_exceeds(info.width, info.height, converted_pixel_bytes(c) as u64),
{
}

/// Read metadata comes from the TIFF tags that carry it: the ICC profile from tag 34675, XMP
/// from 700 and IPTC from 33723 (each dropped when empty), the resolution unit from 296, the X
/// and Y resolutions from 282 and 283, the orientation from 274, the compression from 259, the
/// photometric interpretation from 262, the samples per pixel from 277 and the page name from
/// 285 (dropped when empty).
pub proof fn lemma_metadata_tags(info: TiffInfo, data: Seq<u8>)
    requires
        metadata_of(info, data),
    ensures
        bytes_view(info.icc_profile) == non_empty(tiff_bytes_tag(data, 34675)),
        bytes_view(info.xmp) == non_empty(tiff_bytes_tag(data, 700)),
        bytes_view(info.iptc) == non_empty(tiff_bytes_tag(data, 33723)),
        info.resolution_unit == tiff_u16_tag(data, 296),
        info.x_resolution == resolution_of(data, 282),
        info.y_resolution == resolution_of(data, 283),
        info.orientation == tiff_u16_tag(data, 274),
        info.compression == tiff_u16_tag(data, 259),
        info.photometric == tiff_u16_tag(data, 262),
        info.samples_per_pixel == tiff_u16_tag(data, 277),
        chars_view(info.page_name) == non_empty(tiff_ascii_tag(data, 285)),
{
}

} // verus!
