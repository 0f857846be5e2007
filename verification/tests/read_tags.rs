use tiff::encoder::Rational;
use tiff::tags::Tag;
use zentiff::config::TiffDecodeConfig;
use zentiff::info::{Dpi, TiffInfo};
use zentiff::reader::{decode_samples, probe};

type TagImage<'a> = tiff::encoder::ImageEncoder<
    'a,
    std::io::Cursor<&'a mut Vec<u8>>,
    tiff::encoder::colortype::RGB8,
    tiff::encoder::TiffKindStandard,
>;

/// A 4x4 RGB8 TIFF written by the `tiff` encoder, with the tags that `tags` adds.
fn build_tiff_with_tags(tags: impl FnOnce(&mut TagImage<'_>)) -> Vec<u8> {
    let pixels = vec![0u8; 4 * 4 * 3];
    let mut buf = Vec::new();
    {
        let cursor = std::io::Cursor::new(&mut buf);
        let mut enc = tiff::encoder::TiffEncoder::new(cursor).unwrap();
        let mut image = enc.new_image::<tiff::encoder::colortype::RGB8>(4, 4).unwrap();
        tags(&mut image);
        image.write_data(&pixels).unwrap();
    }
    buf
}

/// A TIFF of `pages` 4x4 RGB8 images.
fn build_multipage_tiff(pages: u32) -> Vec<u8> {
    let pixels = vec![0u8; 4 * 4 * 3];
    let mut buf = Vec::new();
    {
        let cursor = std::io::Cursor::new(&mut buf);
        let mut enc = tiff::encoder::TiffEncoder::new(cursor).unwrap();
        for _ in 0..pages {
            enc.write_image::<tiff::encoder::colortype::RGB8>(4, 4, &pixels).unwrap();
        }
    }
    buf
}

fn dots_per_inch(d: Dpi) -> (f64, f64) {
    let scale = if d.centimeters { 2.54 } else { 1.0 };
    (d.x_num as f64 / d.x_den as f64 * scale, d.y_num as f64 / d.y_den as f64 * scale)
}

fn decoded_info(data: &[u8]) -> TiffInfo {
    decode_samples(data, &TiffDecodeConfig::default()).unwrap().0
}

fn write_resolution(image: &mut TagImage<'_>, n: u32, d: u32, unit: tiff::tags::ResolutionUnit) {
    image.encoder().write_tag(Tag::XResolution, Rational { n, d }).unwrap();
    image.encoder().write_tag(Tag::YResolution, Rational { n, d }).unwrap();
    image.encoder().write_tag(Tag::ResolutionUnit, unit).unwrap();
}

#[test]
fn icc_profile_extraction() {
    let fake_icc = vec![0x00, 0x00, 0x02, 0x0C, b'a', b'c', b's', b'p', 1, 2, 3, 4];
    let data = build_tiff_with_tags(|image| {
        image.encoder().write_tag(tiff::tags::Tag::IccProfile, &fake_icc[..]).unwrap();
    });
    let info = probe(&data).unwrap();
    assert_eq!(info.icc_profile.as_deref(), Some(&fake_icc[..]));
    let info = decoded_info(&data);
    assert_eq!(info.icc_profile.as_deref(), Some(&fake_icc[..]));
}

#[test]
fn resolution_300dpi() {
    let data = build_tiff_with_tags(|image| write_resolution(image, 300, 1, tiff::tags::ResolutionUnit::Inch));
    let info = probe(&data).unwrap();
    assert_eq!(info.resolution_unit, Some(2));
    assert_eq!(info.x_resolution, Some((300, 1)));
    assert_eq!(info.y_resolution, Some((300, 1)));
    let (dx, dy) = dots_per_inch(info.dpi.unwrap());
    assert!((dx - 300.0).abs() < 0.001);
    assert!((dy - 300.0).abs() < 0.001);
}

#[test]
fn resolution_72dpi_default_unit() {
    let data = build_tiff_with_tags(|image| write_resolution(image, 72, 1, tiff::tags::ResolutionUnit::Inch));
    let info = probe(&data).unwrap();
    let (dx, dy) = dots_per_inch(info.dpi.unwrap());
    assert!((dx - 72.0).abs() < 0.001);
    assert!((dy - 72.0).abs() < 0.001);
}

#[test]
fn resolution_centimeters_converted_to_dpi() {
    let data = build_tiff_with_tags(|image| {
        write_resolution(image, 11811, 100, tiff::tags::ResolutionUnit::Centimeter)
    });
    let info = probe(&data).unwrap();
    assert_eq!(info.resolution_unit, Some(3));
    let (dx, dy) = dots_per_inch(info.dpi.unwrap());
    assert!((dx - 300.0).abs() < 0.01, "dx={dx}");
    assert!((dy - 300.0).abs() < 0.01, "dy={dy}");
}

#[test]
fn resolution_unit_none_returns_no_dpi() {
    let data = build_tiff_with_tags(|_image| {});
    let info = probe(&data).unwrap();
    assert!(info.dpi.is_none(), "dpi={:?}", info.dpi);
}

#[test]
fn orientation_extraction() {
    let data = build_tiff_with_tags(|image| {
        image.encoder().write_tag(tiff::tags::Tag::Orientation, 6u16).unwrap();
    });
    let info = probe(&data).unwrap();
    assert_eq!(info.orientation, Some(6));
    assert_eq!(decoded_info(&data).orientation, Some(6));
}

#[test]
fn xmp_extraction() {
    let xmp_data = b"<?xpacket begin=\"\" id=\"W5M0MpCehiHzreSzNTczkc9d\"?><x:xmpmeta xmlns:x=\"adobe:ns:meta/\"><rdf:RDF></rdf:RDF></x:xmpmeta>";
    let data = build_tiff_with_tags(|image| {
        image.encoder().write_tag(tiff::tags::Tag::Unknown(700), &xmp_data[..]).unwrap();
    });
    let info = probe(&data).unwrap();
    assert_eq!(info.xmp.as_deref(), Some(&xmp_data[..]));
}

#[test]
fn iptc_extraction() {
    let iptc_data: Vec<u8> = vec![0x1C, 0x02, 0x78, 0x00, 0x05, b'H', b'e', b'l', b'l', b'o'];
    let data = build_tiff_with_tags(|image| {
        image.encoder().write_tag(tiff::tags::Tag::Unknown(33723), &iptc_data[..]).unwrap();
    });
    let info = probe(&data).unwrap();
    assert_eq!(info.iptc.as_deref(), Some(&iptc_data[..]));
}

#[test]
fn page_count_single() {
    let data = build_tiff_with_tags(|_image| {});
    assert_eq!(probe(&data).unwrap().page_count, Some(1));
}

#[test]
fn page_count_multi() {
    let data = build_multipage_tiff(3);
    assert_eq!(probe(&data).unwrap().page_count, Some(3));
}

#[test]
fn no_metadata_returns_none() {
    let data = build_tiff_with_tags(|_image| {});
    let info = probe(&data).unwrap();
    assert!(info.icc_profile.is_none());
    assert!(info.exif.is_none());
    assert!(info.xmp.is_none());
    assert!(info.iptc.is_none());
    assert!(info.orientation.is_none());
    assert!(info.page_name.is_none());
}

#[test]
fn compression_and_photometric_extraction() {
    let data = build_tiff_with_tags(|_image| {});
    let info = probe(&data).unwrap();
    assert!(info.compression.is_some());
    assert_eq!(info.photometric, Some(2));
    assert_eq!(info.samples_per_pixel, Some(3));
}

#[test]
fn decode_extracts_all_metadata() {
    let fake_icc = vec![0xDE, 0xAD, 0xBE, 0xEF, 0x01, 0x02, 0x03, 0x04, 0x05, 0x06];
    let xmp_bytes: &[u8] = b"<xmp>test</xmp>";
    let data = build_tiff_with_tags(|image| {
        image.encoder().write_tag(Tag::IccProfile, &fake_icc[..]).unwrap();
        image.encoder().write_tag(Tag::Unknown(700), xmp_bytes).unwrap();
        image.encoder().write_tag(Tag::Orientation, 3u16).unwrap();
        write_resolution(image, 150, 1, tiff::tags::ResolutionUnit::Inch);
    });
    let probe_info = probe(&data).unwrap();
    assert_eq!(probe_info.icc_profile.as_deref(), Some(&fake_icc[..]), "ICC profile missing from probe");

    let info = decoded_info(&data);
    assert_eq!(info.icc_profile.as_deref(), Some(&fake_icc[..]), "ICC missing from decode");
    assert_eq!(info.xmp.as_deref(), Some(xmp_bytes), "XMP missing from decode");
    assert_eq!(info.orientation, Some(3), "orientation missing");
    assert_eq!(info.x_resolution, Some((150, 1)), "x_resolution wrong");
    assert_eq!(info.y_resolution, Some((150, 1)), "y_resolution wrong");
    assert_eq!(info.resolution_unit, Some(2), "resolution_unit wrong");
    let (dx, dy) = dots_per_inch(info.dpi.unwrap());
    assert!((dx - 150.0).abs() < 0.001);
    assert!((dy - 150.0).abs() < 0.001);
    assert_eq!(info.page_count, Some(1));
}

#[test]
fn page_name_extraction() {
    let data = build_tiff_with_tags(|image| {
        image.encoder().write_tag(tiff::tags::Tag::Unknown(285), "Test Page").unwrap();
    });
    let info = probe(&data).unwrap();
    assert!(info.page_name.is_some(), "page_name should be Some");
    let name = info.page_name.unwrap();
    assert!(name.contains("Test Page"), "got: {name}");
}

#[test]
fn exif_sub_ifd_extraction() {
    let pixels = vec![0u8; 4 * 4 * 3];
    let mut buf = Vec::new();
    {
        let cursor = std::io::Cursor::new(&mut buf);
        let mut enc = tiff::encoder::TiffEncoder::new(cursor).unwrap();
        let mut exif_dir = enc.extra_directory().unwrap();
        exif_dir.write_tag(tiff::tags::Tag::ExifVersion, &b"0232"[..]).unwrap();
        let exif_offset = exif_dir.finish_with_offsets().unwrap();
        let mut image = enc.new_image::<tiff::encoder::colortype::RGB8>(4, 4).unwrap();
        image.encoder().write_tag(tiff::tags::Tag::ExifDirectory, exif_offset.offset).unwrap();
        image.write_data(&pixels).unwrap();
    }
    let info = probe(&buf).unwrap();
    assert!(info.exif.is_some(), "exif should be Some for a TIFF with EXIF sub-IFD");
    let exif_bytes = info.exif.unwrap();
    assert!(exif_bytes.len() > 8, "EXIF bytes too short: {} bytes", exif_bytes.len());
    assert!(
        &exif_bytes[..2] == b"II" || &exif_bytes[..2] == b"MM",
        "EXIF should start with TIFF header, got {:?}",
        &exif_bytes[..2]
    );
}

#[test]
fn probe_rejects_non_tiff_bytes() {
    assert!(probe(b"not a tiff file").is_err());
    assert!(decode_samples(b"", &TiffDecodeConfig::default()).is_err());
}
