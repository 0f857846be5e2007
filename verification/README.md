# zentiff

TIFF decoding and encoding with zenpixels integration, around the `tiff` codec.

- `src/` is the verified library. Reading and writing TIFF bytes happen here, each codec call
  behind a small trusted wrapper whose result is named, and everything around those calls is
  a function with a contract proved by Verus:
  - `reader`: probing (header and metadata tags: ICC, XMP, IPTC, EXIF sub-IFD, resolution and
    DPI, orientation, compression, photometric, samples per pixel, page name, page count) and
    decoding (limits checked on the header before any pixel data is read, plane interleaving,
    conversion, and the limits checked again on the output format, which 16-bit float samples
    widen to 32-bit floats);
  - `writer`: encoding pixels with the color type chosen for their format, gray+alpha expanded
    to RGBA, with the configured compression, predictor and TIFF or BigTIFF format;
  - resource limits (`config`, `codec`), the decode state machine (`decoding`), the pixel format
    a color type decodes to and the encoder color type of a pixel format (`color`, `encode`),
    sample conversion, sub-byte unpacking, plane interleaving and channel adjustment
    (`samples`), palette expansion (`palette`), the conversion dispatch by color type
    (`convert`), EXIF sub-IFD re-serialization (`exif`) and image information (`info`).
- `app/` is the zenpixels and zencodec face of the library: it checks for cancellation before
  an encode, and before a decode and between its steps (header and limits, metadata, pixels),
  builds zenpixels buffers, performs the floating-point steps (CMYK to RGB, float
  sample widening, DPI in inches) and implements the zencodec traits.
- `tests/` exercises the library on concrete values, including encode/decode round trips and
  files written with the `tiff` encoder.
