//! TIFF decoding and encoding support: verified pixel, metadata and
//! configuration logic around the `tiff` codec.
pub mod error;
pub mod exif;
pub mod samples;
pub mod color;
pub mod config;
pub mod codec;
pub mod encode;
pub mod info;
pub mod palette;
pub mod convert;
pub mod decoding;
pub mod reader;
pub mod writer;
