//! Encoding decisions: the TIFF color type written for a pixel format, and gray+alpha expansion.
use vstd::prelude::*;
use crate::color::{
    ChannelLayout, ChannelType, TiffColorType, PixelDescriptor, decoded_channel_type, decoded_layout,
    layout_channels,
};
use crate::samples::map_pixels;

verus! {

/// The TIFF encoder color types this library writes.
#[derive(Clone, Copy, Debug, PartialEq, Eq, Structural)]
pub enum EncodeColorType {
    Gray8,
    Gray16,
    Gray32Float,
    RGB8,
    RGB16,
    RGB32Float,
    RGBA8,
    RGBA16,
    RGBA32Float,
}

/// How a pixel format is written: the TIFF color type, and whether gray+alpha pixels are first
/// expanded to RGBA (the TIFF encoder has no gray+alpha color type); `None` for a format that
/// is not written (BGRA, Oklab, CMYK layouts and half-float channels).
pub open spec fn encode_plan_spec(desc: PixelDescriptor) -> Option<(EncodeColorType, bool)> {
    match (desc.layout, desc.channel_type) {
        (ChannelLayout::Gray, ChannelType::U8) => Some((EncodeColorType::Gray8, false)),
        (ChannelLayout::Gray, ChannelType::U16) => Some((EncodeColorType::Gray16, false)),
        (ChannelLayout::Gray, ChannelType::F32) => Some((EncodeColorType::Gray32Float, false)),
        (ChannelLayout::GrayAlpha, ChannelType::U8) => Some((EncodeColorType::RGBA8, true)),
        (ChannelLayout::GrayAlpha, ChannelType::U16) => Some((EncodeColorType::RGBA16, true)),
        (ChannelLayout::GrayAlpha, ChannelType::F32) => Some((EncodeColorType::RGBA32Float, true)),
        (ChannelLayout::Rgb, ChannelType::U8) => Some((EncodeColorType::RGB8, false)),
        (ChannelLayout::Rgb, ChannelType::U16) => Some((EncodeColorType::RGB16, false)),
        (ChannelLayout::Rgb, ChannelType::F32) => Some((EncodeColorType::RGB32Float, false)),
        (ChannelLayout::Rgba, ChannelType::U8) => Some((EncodeColorType::RGBA8, false)),
        (ChannelLayout::Rgba, ChannelType::U16) => Some((EncodeColorType::RGBA16, false)),
        (ChannelLayout::Rgba, ChannelType::F32) => Some((EncodeColorType::RGBA32Float, false)),
        _ => None,
    }
}

/// Selects the TIFF color type for a pixel format, and whether gray+alpha data must be
/// expanded; `None` for a format that is not written.
pub fn encode_plan(desc: PixelDescriptor) -> (r: Option<(EncodeColorType, bool)>)
    ensures
        r == encode_plan_spec(desc),
{
    match (desc.layout, desc.channel_type) {
        (ChannelLayout::Gray, ChannelType::U8) => Some((EncodeColorType::Gray8, false)),
        (ChannelLayout::Gray, ChannelType::U16) => Some((EncodeColorType::Gray16, false)),
        (ChannelLayout::Gray, ChannelType::F32) => Some((EncodeColorType::Gray32Float, false)),
        (ChannelLayout::GrayAlpha, ChannelType::U8) => Some((EncodeColorType::RGBA8, true)),
        (ChannelLayout::GrayAlpha, ChannelType::U16) => Some((EncodeColorType::RGBA16, true)),
        (ChannelLayout::GrayAlpha, ChannelType::F32) => Some((EncodeColorType::RGBA32Float, true)),
        (ChannelLayout::Rgb, ChannelType::U8) => Some((EncodeColorType::RGB8, false)),
        (ChannelLayout::Rgb, ChannelType::U16) => Some((EncodeColorType::RGB16, false)),
        (ChannelLayout::Rgb, ChannelType::F32) => Some((EncodeColorType::RGB32Float, false)),
        (ChannelLayout::Rgba, ChannelType::U8) => Some((EncodeColorType::RGBA8, false)),
        (ChannelLayout::Rgba, ChannelType::U16) => Some((EncodeColorType::RGBA16, false)),
        (ChannelLayout::Rgba, ChannelType::F32) => Some((EncodeColorType::RGBA32Float, false)),
        _ => None,
    }
}

/// The channels of an encoder color type: one for gray, three for RGB, four for RGBA.
pub open spec fn encode_channels(ct: EncodeColorType) -> int {
    match ct {
        EncodeColorType::Gray8 | EncodeColorType::Gray16 | EncodeColorType::Gray32Float => 1,
        EncodeColorType::RGB8 | EncodeColorType::RGB16 | EncodeColorType::RGB32Float => 3,
        EncodeColorType::RGBA8 | EncodeColorType::RGBA16 | EncodeColorType::RGBA32Float => 4,
    }
}

/// The sample type of an encoder color type: 8-bit, 16-bit or 32-bit float.
pub open spec fn encode_sample_type(ct: EncodeColorType) -> ChannelType {
    match ct {
        EncodeColorType::Gray8 | EncodeColorType::RGB8 | EncodeColorType::RGBA8 => ChannelType::U8,
        EncodeColorType::Gray16 | EncodeColorType::RGB16 | EncodeColorType::RGBA16 => ChannelType::U16,
        _ => ChannelType::F32,
    }
}

/// Every gray, gray+alpha, RGB or RGBA pixel format of 8-bit, 16-bit or 32-bit float channels
/// is written, and no other: the color type written has the format's sample type, and the
/// format's channels, gray+alpha (and only it) expanded to the four channels of RGBA.
pub proof fn lemma_encode_plan_covers_formats(desc: PixelDescriptor)
    ensures
        encode_plan_spec(desc) is Some <==> (desc.layout == ChannelLayout::Gray || desc.layout
            == ChannelLayout::GrayAlpha || desc.layout == ChannelLayout::Rgb || desc.layout
            == ChannelLayout::Rgba) && (desc.channel_type == ChannelType::U8 || desc.channel_type
            == ChannelType::U16 || desc.channel_type == ChannelType::F32),
        encode_plan_spec(desc) matches Some((ct, expand)) ==> encode_sample_type(ct)
            == desc.channel_type && expand == (desc.layout == ChannelLayout::GrayAlpha) && encode_channels(
            ct,
        ) == (if expand {
            4
        } else {
            layout_channels(desc.layout) as int
        }),
{
}

/// Gray+alpha pixels as RGBA: each complete pixel `[g, a]` becomes `[g, g, g, a]`.
pub open spec fn graya_to_rgba<T>(data: Seq<T>) -> Seq<T> {
    map_pixels(data, 2, (data.len() as int) / 2, |px: Seq<T>| seq![px[0], px[0], px[0], px[1]])
}

/// Expanding gray+alpha to RGBA maps pixel `j`, gray `g` and alpha `a`, to pixel `j` of four
/// samples `[g, g, g, a]`: gray in the three color channels, alpha kept last; a trailing
/// incomplete pixel is dropped.
pub proof fn lemma_graya_pixels_expand<T>(data: Seq<T>, j: int)
    requires
        0 <= j < data.len() / 2,
    ensures
        graya_to_rgba(data).len() == 4 * (data.len() / 2),
        graya_to_rgba(data).subrange(4 * j, 4 * j + 4) == seq![data[2 * j], data[2 * j], data[2 * j], data[2 * j + 1]],
{
    let f = |px: Seq<T>| seq![px[0], px[0], px[0], px[1]];
    let n = (data.len() as int) / 2;
    assert(n * 2 <= data.len()) by (nonlinear_arith)
        requires
            n == data.len() as int / 2,
    ;
    crate::samples::lemma_map_pixels_slices(data, 2, 4, n, f);
    assert(graya_to_rgba(data) == map_pixels(data, 2, n, f));
    assert(j * 4 == 4 * j && j * 2 == 2 * j);
    let px = data.subrange(2 * j, 2 * j + 2);
    assert(px[0] == data[2 * j] && px[1] == data[2 * j + 1]);
}

/// Expands gray+alpha pixels of any sample type to RGBA; a trailing incomplete pixel is dropped.
pub fn expand_graya_to_rgba<T: Copy>(data: &[T]) -> (r: Vec<T>)
    ensures
        r@ == graya_to_rgba(data@),
        r@.len() == 4 * ((data@.len() as int) / 2),
{
    let dlen = data.len();
    let pixel_count = dlen / 2;
    let ghost f = |px: Seq<T>| seq![px[0], px[0], px[0], px[1]];
    let mut rgba: Vec<T> = Vec::new();
    let mut i: usize = 0;
    while i < pixel_count
        invariant
            0 <= i <= pixel_count,
            pixel_count == (data@.len() as int) / 2,
            dlen == data@.len(),
            f == (|px: Seq<T>| seq![px[0], px[0], px[0], px[1]]),
            rgba@ == map_pixels(data@, 2, i as int, f),
            rgba@.len() == 4 * i,
        decreases pixel_count - i,
    {
        let g = data[i * 2];
        let a = data[i * 2 + 1];
        rgba.push(g);
        rgba.push(g);
        rgba.push(g);
        rgba.push(a);
        assert(f(data@.subrange(i * 2, i * 2 + 2)) =~= seq![g, g, g, a]);
        i = i + 1;
    }
    rgba
}

/// Expands 8-bit gray+alpha pixels to RGBA.
pub fn expand_graya_to_rgba_u8(data: &[u8]) -> (r: Vec<u8>)
    ensures
        r@ == graya_to_rgba(data@),
        r@.len() == 4 * ((data@.len() as int) / 2),
{
    expand_graya_to_rgba(data)
}

/// Expands 16-bit gray+alpha pixels to RGBA.
pub fn expand_graya_to_rgba_u16(data: &[u16]) -> (r: Vec<u16>)
    ensures
        r@ == graya_to_rgba(data@),
        r@.len() == 4 * ((data@.len() as int) / 2),
{
    expand_graya_to_rgba(data)
}

/// The color type and sample kind an image written with an encoder color type carries: its
/// layout, its bits per sample, and whether the samples are IEEE floating point.
pub open spec fn written_color_type(e: EncodeColorType) -> (TiffColorType, bool) {
    match e {
        EncodeColorType::Gray8 => (TiffColorType::Gray(8), false),
        EncodeColorType::Gray16 => (TiffColorType::Gray(16), false),
        EncodeColorType::Gray32Float => (TiffColorType::Gray(32), true),
        EncodeColorType::RGB8 => (TiffColorType::RGB(8), false),
        EncodeColorType::RGB16 => (TiffColorType::RGB(16), false),
        EncodeColorType::RGB32Float => (TiffColorType::RGB(32), true),
        EncodeColorType::RGBA8 => (TiffColorType::RGBA(8), false),
        EncodeColorType::RGBA16 => (TiffColorType::RGBA(16), false),
        EncodeColorType::RGBA32Float => (TiffColorType::RGBA(32), true),
    }
}

/// An image written in the encoder color type chosen for its pixel format decodes back to the
/// same channel type and layout; gray+alpha comes back as RGBA, since it is written expanded.
pub proof fn lemma_written_format_decodes_back(desc: PixelDescriptor)
    requires
        encode_plan_spec(desc) is Some,
    ensures
        ({
            let (e, expand) = encode_plan_spec(desc)->0;
            let (ct, is_float) = written_color_type(e);
            &&& decoded_channel_type(ct, is_float) == desc.channel_type
            &&& decoded_layout(ct) == (if expand { ChannelLayout::Rgba } else { desc.layout })
            &&& expand <==> desc.layout == ChannelLayout::GrayAlpha
        }),
{
}

} // verus!
