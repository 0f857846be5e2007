//! The decode sequence as a state machine: the decoder session reports what it read, and the
//! machine decides what to do next. The limits are checked on the header, before any pixel data
//! is read; metadata is read before the pixels; planar pixel data is interleaved.
use vstd::prelude::*;
use crate::color::{TiffColorType, output_bytes_per_pixel, output_channels, depth_bytes};
use crate::config::TiffDecodeConfig;
use crate::error::ZentiffError;
use crate::samples::{Samples, interleave_planes, interleaved};

verus! {

/// Where a decode stands.
#[derive(Clone, Copy, Debug, PartialEq, Eq, Structural)]
pub enum DecodePhase {
    /// Waiting for the image header.
    AwaitHeader,
    /// The header passed the limits; waiting for the metadata to be read.
    AwaitMetadata,
    /// Waiting for the pixel data.
    AwaitImage,
    /// The pixel data was handed on for conversion.
    Done,
    /// The decode was refused.
    Failed,
}

/// What the decoder session reports.
#[derive(Debug)]
pub enum DecodeEvent {
    /// The image header: dimensions and color type.
    Header { width: u32, height: u32, color_type: TiffColorType },
    /// The metadata tags were read.
    MetadataRead,
    /// The pixel data, with its number of planes.
    ImageRead { samples: Samples, planes: usize },
}

/// What the decoder session does next.
#[derive(Debug)]
pub enum DecodeAction {
    /// Read the metadata tags.
    ReadMetadata,
    /// Read the pixel data.
    ReadImage,
    /// Convert these (pixel-interleaved) samples to the output format.
    Convert(Samples),
    /// Stop with this error.
    Fail(ZentiffError),
}

/// The state of a decode: its configuration, phase and the header once read.
#[derive(Clone, Copy, Debug)]
pub struct DecodeMachine {
    pub config: TiffDecodeConfig,
    pub phase: DecodePhase,
    pub width: u32,
    pub height: u32,
    pub color_type: TiffColorType,
}

/// The bytes per pixel the limit check counts for a color type.
pub open spec fn limit_bytes_per_pixel(ct: TiffColorType) -> int {
    output_channels(ct) * depth_bytes(ct.spec_bit_depth())
}

/// Whether the limits accept an image header.
pub open spec fn header_accepted(config: TiffDecodeConfig, width: u32, height: u32, ct: TiffColorType) -> bool {
    !config.spec_exceeds(width, height, limit_bytes_per_pixel(ct) as u64)
}

proof fn lemma_limit_bytes_bounded(ct: TiffColorType)
    ensures
        0 <= limit_bytes_per_pixel(ct) <= 65535 * 8,
{
    let c = output_channels(ct);
    let d = depth_bytes(ct.spec_bit_depth());
    assert(0 <= c <= 65535);
    assert(1 <= d <= 8);
    assert(0 <= c * d <= 65535 * 8) by (nonlinear_arith)
        requires
            0 <= c <= 65535,
            1 <= d <= 8,
    ;
}

impl DecodeMachine {
    /// Every phase past the header holds a header that the limits accept.
    pub open spec fn wf(&self) -> bool {
        (self.phase is AwaitMetadata || self.phase is AwaitImage || self.phase is Done)
            ==> header_accepted(self.config, self.width, self.height, self.color_type)
    }

    /// Whether an event is the one the phase waits for, and its values lie within the bounds
    /// of the step: a header whose memory estimate fits in 64 bits, planar data whose buffer
    /// size fits in memory.
    pub open spec fn expects(&self, ev: DecodeEvent) -> bool {
        match ev {
            DecodeEvent::Header { width, height, color_type } => self.phase is AwaitHeader
                && self.config.spec_estimate_fits(
                width,
                height,
                limit_bytes_per_pixel(color_type) as u64,
            ),
            DecodeEvent::MetadataRead => self.phase is AwaitMetadata,
            DecodeEvent::ImageRead { planes, .. } => self.phase is AwaitImage && (planes > 1
                ==> self.width * self.height <= usize::MAX && self.width * self.height * planes
                <= usize::MAX),
        }
    }

    /// A decode under `config`, waiting for the header.
    pub fn new(config: TiffDecodeConfig) -> (r: DecodeMachine)
        ensures
            r.config == config,
            r.phase is AwaitHeader,
            r.wf(),
    {
        DecodeMachine { config, phase: DecodePhase::AwaitHeader, width: 0, height: 0, color_type: TiffColorType::Gray(8) }
    }

    /// Decides [`expects`](Self::expects): whether `ev` may be passed to [`step`](Self::step).
    pub fn expects_event(&self, ev: &DecodeEvent) -> (r: bool)
        ensures
            r == self.expects(*ev),
    {
        match ev {
            DecodeEvent::Header { width, height, color_type } => {
                let bpp = output_bytes_per_pixel(*color_type);
                proof {
                    lemma_limit_bytes_bounded(*color_type);
                }
                self.phase == DecodePhase::AwaitHeader && self.config.estimate_fits(*width, *height, bpp as u32)
            },
            DecodeEvent::MetadataRead => self.phase == DecodePhase::AwaitMetadata,
            DecodeEvent::ImageRead { planes, .. } => {
                let in_memory = if *planes > 1 {
                    assert(self.width * self.height <= 0xffff_ffff_ffff_ffff) by (nonlinear_arith)
                        requires
                            self.width <= 0xffff_ffff,
                            self.height <= 0xffff_ffff,
                    ;
                    let size = self.width as u128 * self.height as u128;
                    let p = *planes;
                    assert(size * p <= u128::MAX) by (nonlinear_arith)
                        requires
                            size == self.width * self.height,
                            self.width <= 0xffff_ffff,
                            self.height <= 0xffff_ffff,
                            p <= 0xffff_ffff_ffff_ffff,
                    ;
                    size <= usize::MAX as u128 && size * (p as u128) <= usize::MAX as u128
                } else {
                    true
                };
                self.phase == DecodePhase::AwaitImage && in_memory
            },
        }
    }

    /// Advances the decode by one reported event and returns what to do next.
    ///
    /// - A header the limits accept is recorded and the metadata is read next; one they reject
    ///   fails the decode with `LimitExceeded`, before any pixel data is read.
    /// - Once the metadata is read, the pixel data is read.
    /// - Pixel data of more than one plane is interleaved; the samples are then converted.
    pub fn step(&mut self, ev: DecodeEvent) -> (r: DecodeAction)
        requires
            old(self).wf(),
            old(self).expects(ev),
        ensures
            final(self).wf(),
            final(self).config == old(self).config,
            match ev {
                DecodeEvent::Header { width, height, color_type } => if header_accepted(
                    old(self).config,
                    width,
                    height,
                    color_type,
                ) {
                    &&& r is ReadMetadata
                    &&& final(self).phase is AwaitMetadata
                    &&& final(self).width == width
                    &&& final(self).height == height
                    &&& final(self).color_type == color_type
                } else {
                    &&& r matches DecodeAction::Fail(e) && e is LimitExceeded
                    &&& final(self).phase is Failed
                },
                DecodeEvent::MetadataRead => {
                    &&& r is ReadImage
                    &&& final(self).phase is AwaitImage
                    &&& *final(self) == (DecodeMachine { phase: DecodePhase::AwaitImage, ..*old(self) })
                },
                DecodeEvent::ImageRead { samples, planes } => {
                    &&& *final(self) == (DecodeMachine { phase: DecodePhase::Done, ..*old(self) })
                    &&& r matches DecodeAction::Convert(s)
                    &&& planes <= 1 ==> s == samples
                    &&& planes > 1 ==> planar_interleaved(samples, s, old(self).width * old(self).height, planes as int)
                },
            },
            r is ReadImage ==> header_accepted(final(self).config, final(self).width, final(self).height, final(self).color_type),
    {
        match ev {
            DecodeEvent::Header { width, height, color_type } => {
                let bpp = output_bytes_per_pixel(color_type);
                proof {
                    lemma_limit_bytes_bounded(color_type);
                }
                assert(bpp == limit_bytes_per_pixel(color_type));
                match self.config.validate(width, height, bpp as u32) {
                    Ok(()) => {
                        self.width = width;
                        self.height = height;
                        self.color_type = color_type;
                        self.phase = DecodePhase::AwaitMetadata;
                        DecodeAction::ReadMetadata
                    },
                    Err(e) => {
                        self.phase = DecodePhase::Failed;
                        DecodeAction::Fail(e)
                    },
                }
            },
            DecodeEvent::MetadataRead => {
                self.phase = DecodePhase::AwaitImage;
                DecodeAction::ReadImage
            },
            DecodeEvent::ImageRead { samples, planes } => {
                self.phase = DecodePhase::Done;
                if planes > 1 {
                    DecodeAction::Convert(interleave_planes(samples, self.width, self.height, planes))
                } else {
                    DecodeAction::Convert(samples)
                }
            },
        }
    }
}

/// Planar samples and their pixel-interleaved form: 8-, 16- and 32-bit unsigned and 8-bit
/// signed data holding every plane are interleaved; anything else is left as it is.
pub open spec fn planar_interleaved(planar: Samples, out: Samples, plane_size: int, planes: int) -> bool {
    match (planar, out) {
        (Samples::U8(d), Samples::U8(o)) => o@ == if d@.len() < plane_size * planes {
            d@
        } else {
            interleaved(d@, plane_size, planes, plane_size)
        },
        (Samples::U16(d), Samples::U16(o)) => o@ == if d@.len() < plane_size * planes {
            d@
        } else {
            interleaved(d@, plane_size, planes, plane_size)
        },
        (Samples::U32(d), Samples::U32(o)) => o@ == if d@.len() < plane_size * planes {
            d@
        } else {
            interleaved(d@, plane_size, planes, plane_size)
        },
        (Samples::I8(d), Samples::I8(o)) => o@ == if d@.len() < plane_size * planes {
            d@
        } else {
            interleaved(d@, plane_size, planes, plane_size)
        },
        (Samples::U8(_), _) | (Samples::U16(_), _) | (Samples::U32(_), _) | (Samples::I8(_), _) => false,
        _ => out == planar,
    }
}

} // verus!
