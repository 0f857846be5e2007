//! Source color types and the pixel formats they decode to.
use vstd::prelude::*;

verus! {

/// The color type and bit depth of a TIFF image, as the decoder reports it.
#[derive(Clone, Copy, Debug, PartialEq, Eq, Hash, Structural)]
pub enum TiffColorType {
    /// Pixel is grayscale
    Gray(u8),
    /// Pixel contains R, G and B channels
    RGB(u8),
    /// Pixel is an index into a color palette
    Palette(u8),
    /// Pixel is grayscale with an alpha channel
    GrayA(u8),
    /// Pixel is RGB with an alpha channel
    RGBA(u8),
    /// Pixel is CMYK
    CMYK(u8),
    /// Pixel is CMYK with an alpha channel
    CMYKA(u8),
    /// Pixel is YCbCr
    YCbCr(u8),
    /// Pixel is CIE L*a*b*
    Lab(u8),
    /// Pixel has multiple bands/channels
    Multiband { bit_depth: u8, num_samples: u16 },
}

impl TiffColorType {
    pub open spec fn spec_bit_depth(&self) -> u8 {
        match *self {
            TiffColorType::Gray(b) | TiffColorType::RGB(b) | TiffColorType::Palette(b) | TiffColorType::GrayA(b)
            | TiffColorType::RGBA(b) | TiffColorType::CMYK(b) | TiffColorType::CMYKA(b) | TiffColorType::YCbCr(b)
            | TiffColorType::Lab(b) => b,
            TiffColorType::Multiband { bit_depth, .. } => bit_depth,
        }
    }

    pub open spec fn spec_num_samples(&self) -> u16 {
        match *self {
            TiffColorType::Gray(_) => 1,
            TiffColorType::RGB(_) => 3,
            TiffColorType::Palette(_) => 1,
            TiffColorType::GrayA(_) => 2,
            TiffColorType::RGBA(_) => 4,
            TiffColorType::CMYK(_) => 4,
            TiffColorType::CMYKA(_) => 5,
            TiffColorType::YCbCr(_) => 3,
            TiffColorType::Lab(_) => 3,
            TiffColorType::Multiband { num_samples, .. } => num_samples,
        }
    }

    /// The number of bits used to store each sample.
    #[verifier::when_used_as_spec(spec_bit_depth)]
    pub fn bit_depth(&self) -> (r: u8)
        ensures
            r == self.spec_bit_depth(),
    {
        match *self {
            TiffColorType::Gray(b) | TiffColorType::RGB(b) | TiffColorType::Palette(b) | TiffColorType::GrayA(b)
            | TiffColorType::RGBA(b) | TiffColorType::CMYK(b) | TiffColorType::CMYKA(b) | TiffColorType::YCbCr(b)
            | TiffColorType::Lab(b) => b,
            TiffColorType::Multiband { bit_depth, .. } => bit_depth,
        }
    }

    /// The number of samples in each representation of a single color.
    #[verifier::when_used_as_spec(spec_num_samples)]
    pub fn num_samples(&self) -> (r: u16)
        ensures
            r == self.spec_num_samples(),
    {
        match *self {
            TiffColorType::Gray(_) => 1,
            TiffColorType::RGB(_) => 3,
            TiffColorType::Palette(_) => 1,
            TiffColorType::GrayA(_) => 2,
            TiffColorType::RGBA(_) => 4,
            TiffColorType::CMYK(_) => 4,
            TiffColorType::CMYKA(_) => 5,
            TiffColorType::YCbCr(_) => 3,
            TiffColorType::Lab(_) => 3,
            TiffColorType::Multiband { num_samples, .. } => num_samples,
        }
    }
}

/// Channel arrangement of a pixel format.
#[derive(Clone, Copy, Debug, PartialEq, Eq, Hash, Structural)]
pub enum ChannelLayout {
    Gray,
    GrayAlpha,
    Rgb,
    Rgba,
    Bgra,
    Oklab,
    OklabA,
    Cmyk,
}

/// Storage type of each channel.
#[derive(Clone, Copy, Debug, PartialEq, Eq, Hash, Structural)]
pub enum ChannelType {
    U8,
    U16,
    F32,
    F16,
}

/// Transfer function tag of a pixel descriptor.
#[derive(Clone, Copy, Debug, PartialEq, Eq, Hash, Structural)]
pub enum Transfer {
    /// Not specified.
    Unknown,
    /// sRGB transfer curve.
    Srgb,
    /// Linear light.
    Linear,
}

/// An interleaved pixel format: channel layout, channel type and transfer function.
#[derive(Clone, Copy, Debug, PartialEq, Eq, Hash, Structural)]
pub struct PixelDescriptor {
    pub layout: ChannelLayout,
    pub channel_type: ChannelType,
    pub transfer: Transfer,
}

pub open spec fn layout_channels(layout: ChannelLayout) -> usize {
    match layout {
        ChannelLayout::Gray => 1,
        ChannelLayout::GrayAlpha => 2,
        ChannelLayout::Rgb | ChannelLayout::Oklab => 3,
        ChannelLayout::Rgba | ChannelLayout::Bgra | ChannelLayout::OklabA | ChannelLayout::Cmyk => 4,
    }
}

pub open spec fn channel_bytes(ct: ChannelType) -> usize {
    match ct {
        ChannelType::U8 => 1,
        ChannelType::U16 | ChannelType::F16 => 2,
        ChannelType::F32 => 4,
    }
}

impl PixelDescriptor {
    /// A descriptor with no transfer function.
    pub fn new(layout: ChannelLayout, channel_type: ChannelType) -> (r: PixelDescriptor)
        ensures
            r == (PixelDescriptor { layout, channel_type, transfer: Transfer::Unknown }),
    {
        PixelDescriptor { layout, channel_type, transfer: Transfer::Unknown }
    }

    pub fn layout(&self) -> (r: ChannelLayout)
        ensures
            r == self.layout,
    {
        self.layout
    }

    pub fn channel_type(&self) -> (r: ChannelType)
        ensures
            r == self.channel_type,
    {
        self.channel_type
    }

    /// Number of channels per pixel.
    pub fn channels(&self) -> (r: usize)
        ensures
            r == layout_channels(self.layout),
    {
        match self.layout {
            ChannelLayout::Gray => 1,
            ChannelLayout::GrayAlpha => 2,
            ChannelLayout::Rgb | ChannelLayout::Oklab => 3,
            ChannelLayout::Rgba | ChannelLayout::Bgra | ChannelLayout::OklabA | ChannelLayout::Cmyk => 4,
        }
    }

    /// Number of bytes per pixel.
    pub fn bytes_per_pixel(&self) -> (r: usize)
        ensures
            r == layout_channels(self.layout) * channel_bytes(self.channel_type),
    {
        let per_channel: usize = match self.channel_type {
            ChannelType::U8 => 1,
            ChannelType::U16 | ChannelType::F16 => 2,
            ChannelType::F32 => 4,
        };
        self.channels() * per_channel
    }
}

/// The channel layout a color type decodes to: CMYK is converted to RGBA, palette indices are
/// expanded to RGB, YCbCr and Lab decode as RGB; a multiband image by its sample count.
pub open spec fn decoded_layout(ct: TiffColorType) -> ChannelLayout {
    match ct {
        TiffColorType::Gray(_) => ChannelLayout::Gray,
        TiffColorType::GrayA(_) => ChannelLayout::GrayAlpha,
        TiffColorType::RGB(_) | TiffColorType::YCbCr(_) | TiffColorType::Lab(_) | TiffColorType::Palette(_) => ChannelLayout::Rgb,
        TiffColorType::RGBA(_) | TiffColorType::CMYK(_) | TiffColorType::CMYKA(_) => ChannelLayout::Rgba,
        TiffColorType::Multiband { num_samples, .. } => if num_samples == 1 {
            ChannelLayout::Gray
        } else if num_samples == 2 {
            ChannelLayout::GrayAlpha
        } else if num_samples == 3 {
            ChannelLayout::Rgb
        } else {
            ChannelLayout::Rgba
        },
    }
}

/// The channel type a color type decodes to: depths 1-8 give 8-bit channels; other depths give
/// 32-bit float channels when the samples are floating point, 16-bit channels otherwise.
/// Palette images always give 8-bit channels; multiband images never give float channels.
pub open spec fn decoded_channel_type(ct: TiffColorType, is_float: bool) -> ChannelType {
    let d = ct.spec_bit_depth();
    match ct {
        TiffColorType::Palette(_) => ChannelType::U8,
        TiffColorType::Multiband { .. } => if 1 <= d <= 8 {
            ChannelType::U8
        } else {
            ChannelType::U16
        },
        _ => if 1 <= d <= 8 {
            ChannelType::U8
        } else if is_float {
            ChannelType::F32
        } else {
            ChannelType::U16
        },
    }
}

/// The decoded channel type holds the samples: samples of 1 to 8 bits decode to 8-bit channels,
/// wider integer samples to 16-bit channels, and exactly the wider floating-point samples of an
/// image that is neither palette nor multiband to 32-bit float channels; palette colors are
/// always 8-bit.
pub proof fn lemma_decoded_channel_type_holds_samples(ct: TiffColorType, is_float: bool)
    ensures
        1 <= ct.spec_bit_depth() <= 8 ==> decoded_channel_type(ct, is_float) == ChannelType::U8,
        ct is Palette ==> decoded_channel_type(ct, is_float) == ChannelType::U8,
        (decoded_channel_type(ct, is_float) == ChannelType::F32) <==> (is_float && !(1 <= ct.spec_bit_depth()
            <= 8) && !(ct is Palette) && !(ct is Multiband)),
        !(1 <= ct.spec_bit_depth() <= 8) && !(ct is Palette) && !is_float ==> decoded_channel_type(ct, is_float)
            == ChannelType::U16,
        decoded_channel_type(ct, is_float) != ChannelType::F16,
{
}

fn channel_type_for_depth(d: u8, is_float: bool) -> (r: ChannelType)
    ensures
        r == (if 1 <= d <= 8 {
            ChannelType::U8
        } else if is_float {
            ChannelType::F32
        } else {
            ChannelType::U16
        }),
{
    if 1 <= d && d <= 8 {
        ChannelType::U8
    } else if is_float {
        ChannelType::F32
    } else {
        ChannelType::U16
    }
}

/// The best-fit pixel format for decoding an image of color type `ct`.
pub fn descriptor_for(ct: TiffColorType, is_float: bool) -> (r: PixelDescriptor)
    ensures
        r.layout == decoded_layout(ct),
        r.channel_type == decoded_channel_type(ct, is_float),
        r.transfer == Transfer::Unknown,
{
    match ct {
        TiffColorType::Gray(d) => PixelDescriptor::new(ChannelLayout::Gray, channel_type_for_depth(d, is_float)),
        TiffColorType::GrayA(d) => PixelDescriptor::new(ChannelLayout::GrayAlpha, channel_type_for_depth(d, is_float)),
        TiffColorType::RGB(d) | TiffColorType::YCbCr(d) | TiffColorType::Lab(d) => PixelDescriptor::new(
            ChannelLayout::Rgb,
            channel_type_for_depth(d, is_float),
        ),
        TiffColorType::RGBA(d) => PixelDescriptor::new(ChannelLayout::Rgba, channel_type_for_depth(d, is_float)),
        TiffColorType::Palette(_) => PixelDescriptor::new(ChannelLayout::Rgb, ChannelType::U8),
        TiffColorType::CMYK(d) | TiffColorType::CMYKA(d) => PixelDescriptor::new(
            ChannelLayout::Rgba,
            channel_type_for_depth(d, is_float),
        ),
        TiffColorType::Multiband { bit_depth, num_samples } => {
            let ct = if 1 <= bit_depth && bit_depth <= 8 {
                ChannelType::U8
            } else {
                ChannelType::U16
            };
            let layout = if num_samples == 1 {
                ChannelLayout::Gray
            } else if num_samples == 2 {
                ChannelLayout::GrayAlpha
            } else if num_samples == 3 {
                ChannelLayout::Rgb
            } else {
                ChannelLayout::Rgba
            };
            PixelDescriptor::new(layout, ct)
        },
    }
}

/// Decoding keeps every channel: a gray, gray+alpha, RGB or RGBA image, or a multiband image of
/// one to four samples, decodes to a layout with as many channels as it has samples; every color
/// type with an alpha channel decodes to a layout with one (gray+alpha or RGBA), and a gray,
/// RGB, palette, YCbCr or Lab image to one without.
pub proof fn lemma_decoded_layout_keeps_channels(ct: TiffColorType)
    ensures
        (ct is Gray || ct is GrayA || ct is RGB || ct is RGBA || (ct matches TiffColorType::Multiband {
            num_samples,
            ..
        } && 1 <= num_samples <= 4)) ==> layout_channels(decoded_layout(ct)) == ct.spec_num_samples(),
        color_has_alpha(ct) ==> (decoded_layout(ct) == ChannelLayout::GrayAlpha || decoded_layout(ct)
            == ChannelLayout::Rgba),
        (ct is Gray || ct is RGB || ct is Palette || ct is YCbCr || ct is Lab) ==> (decoded_layout(ct)
            == ChannelLayout::Gray || decoded_layout(ct) == ChannelLayout::Rgb),
{
}

/// Whether a color type carries an alpha channel.
pub open spec fn color_has_alpha(ct: TiffColorType) -> bool {
    match ct {
        TiffColorType::GrayA(_) | TiffColorType::RGBA(_) | TiffColorType::CMYKA(_) => true,
        TiffColorType::Multiband { num_samples, .. } => num_samples == 2 || num_samples == 4,
        _ => false,
    }
}

/// Determines whether a color type has an alpha channel.
pub fn has_alpha_from_color_type(ct: TiffColorType) -> (r: bool)
    ensures
        r == color_has_alpha(ct),
{
    match ct {
        TiffColorType::GrayA(_) | TiffColorType::RGBA(_) | TiffColorType::CMYKA(_) => true,
        TiffColorType::Multiband { num_samples, .. } => num_samples == 2 || num_samples == 4,
        _ => false,
    }
}

/// The number of channels of the decoded image, for limit checking.
pub open spec fn output_channels(ct: TiffColorType) -> int {
    match ct {
        TiffColorType::CMYK(_) | TiffColorType::CMYKA(_) => 4,
        TiffColorType::Palette(_) => 3,
        TiffColorType::Multiband { num_samples, .. } => if num_samples == 2 {
            2
        } else {
            num_samples as int
        },
        _ => ct.spec_num_samples() as int,
    }
}

/// Bytes per channel for a bit depth: 1 up to 8 bits, 2 up to 16, 4 up to 32, else 8.
pub open spec fn depth_bytes(d: u8) -> int {
    if 1 <= d <= 8 {
        1
    } else if 9 <= d <= 16 {
        2
    } else if 17 <= d <= 32 {
        4
    } else {
        8
    }
}

/// The output bytes per pixel of a color type, for limit checking.
pub fn output_bytes_per_pixel(ct: TiffColorType) -> (r: usize)
    ensures
        r == output_channels(ct) * depth_bytes(ct.spec_bit_depth()),
{
    let channels: usize = match ct {
        TiffColorType::CMYK(_) | TiffColorType::CMYKA(_) => 4,
        TiffColorType::Palette(_) => 3,
        TiffColorType::Multiband { num_samples: 2, .. } => 2,
        _ => ct.num_samples() as usize,
    };
    let d = ct.bit_depth();
    let bytes_per_channel: usize = if 1 <= d && d <= 8 {
        1
    } else if 9 <= d && d <= 16 {
        2
    } else if 17 <= d && d <= 32 {
        4
    } else {
        8
    };
    channels * bytes_per_channel
}

/// The size estimate of the limit check covers the decoded pixel: the decoded format never
/// takes more bytes per pixel than `output_bytes_per_pixel` counts. Two inputs are left out,
/// on which the estimate falls short: 9- to 16-bit floating-point samples of a non-palette,
/// non-multiband image (they decode to 32-bit floats) and multiband images of no samples.
pub proof fn lemma_limit_estimate_covers_output(ct: TiffColorType, is_float: bool)
    requires
        !(is_float && 9 <= ct.spec_bit_depth() <= 16 && !(ct is Palette) && !(ct is Multiband)),
        !(ct matches TiffColorType::Multiband { num_samples, .. } && num_samples == 0),
    ensures
        layout_channels(decoded_layout(ct)) * channel_bytes(decoded_channel_type(ct, is_float))
            <= output_channels(ct) * depth_bytes(ct.spec_bit_depth()),
{
    let d = depth_bytes(ct.spec_bit_depth());
    let c = output_channels(ct);
    let lc = layout_channels(decoded_layout(ct)) as int;
    let cb = channel_bytes(decoded_channel_type(ct, is_float)) as int;
    assert(lc <= c);
    assert(cb <= d);
    assert(lc * cb <= c * d) by (nonlinear_arith)
        requires
            0 <= lc <= c,
            0 <= cb <= d,
    ;
}

} // verus!
