//! Image metadata reported by probing and decoding.
use vstd::prelude::*;
use crate::color::{TiffColorType, ChannelType, PixelDescriptor, Transfer, descriptor_for, decoded_layout, decoded_channel_type};

verus! {

/// Resolution in dots per unit as exact ratios, and whether the unit is the centimeter
/// (otherwise the inch). Dots per inch are `x_num / x_den` and `y_num / y_den`, times 2.54
/// for centimeters.
#[derive(Clone, Copy, Debug, PartialEq, Eq, Structural)]
pub struct Dpi {
    pub x_num: u32,
    pub x_den: u32,
    pub y_num: u32,
    pub y_den: u32,
    pub centimeters: bool,
}

/// The resolution is meaningful when the unit is inch (2) or centimeter (3) and both
/// resolutions are present with nonzero denominators.
pub open spec fn dpi_spec(unit: Option<u16>, x_res: Option<(u32, u32)>, y_res: Option<(u32, u32)>) -> Option<Dpi> {
    match (unit, x_res, y_res) {
        (Some(u), Some((xn, xd)), Some((yn, yd))) => if (u == 2 || u == 3) && xd != 0 && yd != 0 {
            Some(Dpi { x_num: xn, x_den: xd, y_num: yn, y_den: yd, centimeters: u == 3 })
        } else {
            None
        },
        _ => None,
    }
}

/// The DPI keeps each axis: its horizontal ratio is the X resolution and its vertical ratio the
/// Y resolution, in centimeters exactly when the unit is 3. It is present exactly when the unit
/// is inch (2) or centimeter (3) and both resolutions are present with nonzero denominators.
pub proof fn lemma_dpi_keeps_axes(unit: Option<u16>, x_res: Option<(u32, u32)>, y_res: Option<(u32, u32)>)
    ensures
        dpi_spec(unit, x_res, y_res) matches Some(d) ==> x_res == Some((d.x_num, d.x_den)) && y_res
            == Some((d.y_num, d.y_den)) && d.centimeters == (unit == Some(3u16)),
        dpi_spec(unit, x_res, y_res) is Some <==> (unit == Some(2u16) || unit == Some(3u16)) && (
        x_res matches Some((_, xd)) && xd != 0) && (y_res matches Some((_, yd)) && yd != 0),
{
}

/// Computes the DPI ratios from resolution values and unit. Returns `None` if the unit is
/// absent or "no unit" (1), a resolution is absent, or a denominator is zero.
pub fn compute_dpi(unit: Option<u16>, x_res: Option<(u32, u32)>, y_res: Option<(u32, u32)>) -> (r: Option<Dpi>)
    ensures
        r == dpi_spec(unit, x_res, y_res),
        r matches Some(d) ==> x_res == Some((d.x_num, d.x_den)) && y_res == Some((d.y_num, d.y_den)),
{
    let unit = match unit {
        Some(u) => u,
        None => return None,
    };
    if !(2 <= unit && unit <= 3) {
        return None;
    }
    let (xn, xd) = match x_res {
        Some(p) => p,
        None => return None,
    };
    let (yn, yd) = match y_res {
        Some(p) => p,
        None => return None,
    };
    if xd == 0 || yd == 0 {
        return None;
    }
    Some(Dpi { x_num: xn, x_den: xd, y_num: yn, y_den: yd, centimeters: unit == 3 })
}

/// TIFF image metadata from probing or decoding.
#[derive(Clone, Debug)]
#[non_exhaustive]
pub struct TiffInfo {
    /// Image width in pixels.
    pub width: u32,
    /// Image height in pixels.
    pub height: u32,
    /// Number of channels per pixel in the source.
    pub channels: u16,
    /// Bits per channel in the source.
    pub bit_depth: u8,
    /// Source color type from the TIFF decoder.
    pub color_type: TiffColorType,
    /// Whether the source uses floating-point samples.
    pub is_float: bool,
    /// Whether the source uses signed integer samples.
    pub is_signed: bool,
    /// ICC color profile (Tag 34675).
    pub icc_profile: Option<Vec<u8>>,
    /// Raw EXIF sub-IFD bytes, re-serialized from the EXIF IFD (Tag 34665 pointer).
    pub exif: Option<Vec<u8>>,
    /// XMP metadata (Tag 700).
    pub xmp: Option<Vec<u8>>,
    /// IPTC-NAA metadata (Tag 33723).
    pub iptc: Option<Vec<u8>>,
    /// Resolution unit (Tag 296): 1 = no unit, 2 = inch, 3 = centimeter.
    pub resolution_unit: Option<u16>,
    /// X resolution as a rational (numerator, denominator) (Tag 282).
    pub x_resolution: Option<(u32, u32)>,
    /// Y resolution as a rational (numerator, denominator) (Tag 283).
    pub y_resolution: Option<(u32, u32)>,
    /// Resolution as exact ratios; `None` if the unit is absent or "no unit".
    pub dpi: Option<Dpi>,
    /// EXIF orientation (Tag 274): values 1-8. `None` if not present.
    pub orientation: Option<u16>,
    /// Compression method (Tag 259).
    pub compression: Option<u16>,
    /// Photometric interpretation (Tag 262).
    pub photometric: Option<u16>,
    /// Samples per pixel (Tag 277).
    pub samples_per_pixel: Option<u16>,
    /// Number of IFDs (pages/frames) in the file.
    pub page_count: Option<u32>,
    /// Page name (Tag 285). `None` if not present.
    pub page_name: Option<String>,
}

impl TiffInfo {
    /// The information known from the image header alone: dimensions, color type, its sample
    /// count and bit depth; integer samples assumed until decoded; no metadata yet.
    pub fn from_header(width: u32, height: u32, color_type: TiffColorType) -> (r: TiffInfo)
        ensures
            r.width == width,
            r.height == height,
            r.color_type == color_type,
            r.channels == color_type.spec_num_samples(),
            r.bit_depth == color_type.spec_bit_depth(),
            !r.is_float,
            !r.is_signed,
            r.icc_profile is None,
            r.exif is None,
            r.xmp is None,
            r.iptc is None,
            r.resolution_unit is None,
            r.x_resolution is None,
            r.y_resolution is None,
            r.dpi is None,
            r.orientation is None,
            r.compression is None,
            r.photometric is None,
            r.samples_per_pixel is None,
            r.page_count is None,
            r.page_name is None,
    {
        TiffInfo {
            width,
            height,
            channels: color_type.num_samples(),
            bit_depth: color_type.bit_depth(),
            color_type,
            is_float: false,
            is_signed: false,
            icc_profile: None,
            exif: None,
            xmp: None,
            iptc: None,
            resolution_unit: None,
            x_resolution: None,
            y_resolution: None,
            dpi: None,
            orientation: None,
            compression: None,
            photometric: None,
            samples_per_pixel: None,
            page_count: None,
            page_name: None,
        }
    }

    /// Records the resolution tags and the DPI derived from them.
    pub fn set_resolution(&mut self, unit: Option<u16>, x_res: Option<(u32, u32)>, y_res: Option<(u32, u32)>)
        ensures
            final(self).resolution_unit == unit,
            final(self).x_resolution == x_res,
            final(self).y_resolution == y_res,
            final(self).dpi == dpi_spec(unit, x_res, y_res),
            final(self).width == old(self).width,
            final(self).height == old(self).height,
            final(self).color_type == old(self).color_type,
            final(self).channels == old(self).channels,
            final(self).bit_depth == old(self).bit_depth,
            final(self).is_float == old(self).is_float,
            final(self).is_signed == old(self).is_signed,
            final(self).page_count == old(self).page_count,
            final(self).icc_profile == old(self).icc_profile,
            final(self).exif == old(self).exif,
            final(self).xmp == old(self).xmp,
            final(self).iptc == old(self).iptc,
            final(self).orientation == old(self).orientation,
            final(self).compression == old(self).compression,
            final(self).photometric == old(self).photometric,
            final(self).samples_per_pixel == old(self).samples_per_pixel,
            final(self).page_name == old(self).page_name,
    {
        self.resolution_unit = unit;
        self.x_resolution = x_res;
        self.y_resolution = y_res;
        self.dpi = compute_dpi(unit, x_res, y_res);
    }
}

/// The transfer function reported for a probed format: sRGB for integer channels, linear for
/// floating-point channels.
pub open spec fn probe_transfer(ct: ChannelType) -> Transfer {
    if ct == ChannelType::F32 {
        Transfer::Linear
    } else {
        Transfer::Srgb
    }
}

/// Best-fit pixel descriptor for a probe result: the format that decoding produces, tagged
/// sRGB for integer channels and linear for floating-point channels.
pub fn descriptor_for_probe(info: &TiffInfo) -> (r: PixelDescriptor)
    ensures
        r.layout == decoded_layout(info.color_type),
        r.channel_type == decoded_channel_type(info.color_type, info.is_float),
        r.transfer == probe_transfer(r.channel_type),
{
    let d = descriptor_for(info.color_type, info.is_float);
    let transfer = if d.channel_type == ChannelType::F32 {
        Transfer::Linear
    } else {
        Transfer::Srgb
    };
    PixelDescriptor { layout: d.layout, channel_type: d.channel_type, transfer }
}

/// Whether a probe result describes a multi-page image (more than one IFD).
pub fn is_multi_page(info: &TiffInfo) -> (r: bool)
    ensures
        r == (info.page_count matches Some(n) && n > 1),
{
    match info.page_count {
        Some(n) => n > 1,
        None => false,
    }
}

} // verus!
