use zentiff::color::TiffColorType;
use zentiff::config::TiffDecodeConfig;
use zentiff::decoding::{DecodeAction, DecodeEvent, DecodeMachine, DecodePhase};
use zentiff::error::ZentiffError;
use zentiff::samples::Samples;

#[test]
fn limits_reject_oversized_header() {
    let config = TiffDecodeConfig::none().with_max_pixels(100);
    let mut m = DecodeMachine::new(config);
    let ev = DecodeEvent::Header { width: 5000, height: 5000, color_type: TiffColorType::RGB(8) };
    assert!(m.expects_event(&ev));
    let action = m.step(ev);
    assert!(matches!(action, DecodeAction::Fail(ZentiffError::LimitExceeded(_))));
    assert_eq!(m.phase, DecodePhase::Failed);
}

#[test]
fn decode_rejects_exceeding_max_width_header() {
    let config = TiffDecodeConfig::default().with_max_width(50);
    let mut m = DecodeMachine::new(config);
    let action = m.step(DecodeEvent::Header { width: 100, height: 10, color_type: TiffColorType::RGB(8) });
    assert!(matches!(action, DecodeAction::Fail(ZentiffError::LimitExceeded(_))));
}

#[test]
fn decode_sequence_reads_metadata_then_pixels() {
    let mut m = DecodeMachine::new(TiffDecodeConfig::default());
    let header = DecodeEvent::Header { width: 2, height: 1, color_type: TiffColorType::RGB(8) };
    assert!(matches!(m.step(header), DecodeAction::ReadMetadata));
    assert_eq!((m.width, m.height, m.phase), (2, 1, DecodePhase::AwaitMetadata));
    assert!(!m.expects_event(&DecodeEvent::Header { width: 1, height: 1, color_type: TiffColorType::Gray(8) }));
    assert!(matches!(m.step(DecodeEvent::MetadataRead), DecodeAction::ReadImage));
    let image = DecodeEvent::ImageRead { samples: Samples::U8(vec![1, 2, 3, 4, 5, 6]), planes: 3 };
    assert!(m.expects_event(&image));
    match m.step(image) {
        DecodeAction::Convert(Samples::U8(v)) => assert_eq!(v, vec![1, 3, 5, 2, 4, 6]),
        other => panic!("unexpected action {other:?}"),
    }
    assert_eq!(m.phase, DecodePhase::Done);
}

#[test]
fn chunky_pixels_pass_unchanged() {
    let mut m = DecodeMachine::new(TiffDecodeConfig::none());
    m.step(DecodeEvent::Header { width: 1, height: 1, color_type: TiffColorType::Gray(16) });
    m.step(DecodeEvent::MetadataRead);
    match m.step(DecodeEvent::ImageRead { samples: Samples::U16(vec![7]), planes: 1 }) {
        DecodeAction::Convert(Samples::U16(v)) => assert_eq!(v, vec![7]),
        other => panic!("unexpected action {other:?}"),
    }
}
