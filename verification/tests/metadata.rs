use zentiff::exif::exif_sizes_ok;
use zentiff::codec::CodecLimits;
use zentiff::color::{ChannelLayout, ChannelType, TiffColorType};
use zentiff::exif::{serialize_exif_ifd, ExifEntry, ExifListItem, ExifValue};
use zentiff::info::{compute_dpi, descriptor_for_probe, is_multi_page, Dpi, TiffInfo};
use zentiff::color::Transfer;

#[test]
fn dpi_in_inches() {
    let d = compute_dpi(Some(2), Some((300, 1)), Some((300, 1)));
    assert_eq!(d, Some(Dpi { x_num: 300, x_den: 1, y_num: 300, y_den: 1, centimeters: false }));
}

#[test]
fn dpi_in_centimeters() {
    let d = compute_dpi(Some(3), Some((11811, 100)), Some((11811, 100))).unwrap();
    assert!(d.centimeters);
    assert_eq!((d.x_num, d.x_den), (11811, 100));
}

#[test]
fn dpi_without_unit_or_values() {
    assert_eq!(compute_dpi(Some(1), Some((72, 1)), Some((72, 1))), None);
    assert_eq!(compute_dpi(None, Some((72, 1)), Some((72, 1))), None);
    assert_eq!(compute_dpi(Some(2), None, Some((72, 1))), None);
    assert_eq!(compute_dpi(Some(2), Some((72, 0)), Some((72, 1))), None);
}

#[test]
fn info_from_header_and_resolution() {
    let mut info = TiffInfo::from_header(100, 50, TiffColorType::RGBA(8));
    assert_eq!((info.width, info.height, info.channels, info.bit_depth), (100, 50, 4, 8));
    assert!(info.dpi.is_none());
    info.set_resolution(Some(2), Some((72, 1)), Some((72, 1)));
    assert_eq!(info.resolution_unit, Some(2));
    assert_eq!(info.dpi.map(|d| d.x_num), Some(72));
    assert!(!is_multi_page(&info));
    info.page_count = Some(3);
    assert!(is_multi_page(&info));
}

#[test]
fn probe_descriptor_tags_transfer() {
    let info = TiffInfo::from_header(2, 2, TiffColorType::RGBA(8));
    let d = descriptor_for_probe(&info);
    assert_eq!(d.layout(), ChannelLayout::Rgba);
    assert_eq!(d.transfer, Transfer::Srgb);
    let mut f = TiffInfo::from_header(2, 2, TiffColorType::Gray(32));
    f.is_float = true;
    let d = descriptor_for_probe(&f);
    assert_eq!(d.channel_type(), ChannelType::F32);
    assert_eq!(d.transfer, Transfer::Linear);
}

#[test]
fn empty_directory_gives_no_blob() {
    assert_eq!(serialize_exif_ifd(true, &vec![]), None);
}

#[test]
fn exif_short_entry_little_endian() {
    let entries = vec![ExifEntry { tag: 0x0112, value: ExifValue::Short(1) }];
    let blob = serialize_exif_ifd(true, &entries).unwrap();
    assert_eq!(
        blob,
        vec![
            0x49, 0x49, 0x2A, 0x00, 0x08, 0x00, 0x00, 0x00, 0x01, 0x00, 0x12, 0x01, 0x03, 0x00,
            0x01, 0x00, 0x00, 0x00, 0x01, 0x00, 0x00, 0x00, 0x00, 0x00, 0x00, 0x00,
        ]
    );
}

#[test]
fn exif_rational_goes_after_directory() {
    let entries = vec![ExifEntry { tag: 0x011A, value: ExifValue::Rational(72, 1) }];
    let blob = serialize_exif_ifd(false, &entries).unwrap();
    assert_eq!(
        blob,
        vec![
            0x4D, 0x4D, 0x00, 0x2A, 0x00, 0x00, 0x00, 0x08, 0x00, 0x01, 0x01, 0x1A, 0x00, 0x05,
            0x00, 0x00, 0x00, 0x01, 0x00, 0x00, 0x00, 0x1A, 0x00, 0x00, 0x00, 0x00, 0x00, 0x00,
            0x00, 0x48, 0x00, 0x00, 0x00, 0x01,
        ]
    );
}

#[test]
fn exif_ascii_and_lists() {
    let entries = vec![
        ExifEntry { tag: 0x9000, value: ExifValue::List(vec![
            ExifListItem::Byte(b'0'), ExifListItem::Byte(b'2'), ExifListItem::Byte(b'3'),
            ExifListItem::Byte(b'2'),
        ]) },
        ExifEntry { tag: 0x010F, value: ExifValue::Ascii(b"Acme".to_vec()) },
    ];
    let blob = serialize_exif_ifd(true, &entries).unwrap();
    assert_eq!(blob.len(), 8 + 2 + 24 + 4 + 5);
    assert_eq!(&blob[10..22], &[0x00, 0x90, 0x01, 0x00, 0x04, 0x00, 0x00, 0x00, b'0', b'2', b'3', b'2']);
    assert_eq!(&blob[22..34], &[0x0F, 0x01, 0x02, 0x00, 0x05, 0x00, 0x00, 0x00, 38, 0x00, 0x00, 0x00]);
    assert_eq!(&blob[38..], b"Acme\0");
}

#[test]
fn codec_limits_value() {
    let l = CodecLimits { max_pixels: Some(1), max_memory_bytes: None, max_width: None, max_height: None, max_input_bytes: Some(2) };
    assert_eq!(l.max_input_bytes, Some(2));
}

#[test]
fn small_directories_fit_in_32_bits() {
    let entries = vec![
        ExifEntry { tag: 0x011A, value: ExifValue::Rational(72, 1) },
        ExifEntry { tag: 0x010F, value: ExifValue::Ascii(b"Acme".to_vec()) },
    ];
    assert!(exif_sizes_ok(true, &entries));
    assert!(exif_sizes_ok(false, &vec![]));
}
