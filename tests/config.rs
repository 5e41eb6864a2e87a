use bytes::Bytes;
use webcodecs::{
    HardwareAcceleration, VideoColorPrimaries, VideoColorSpaceConfig, VideoDecoderConfig,
    VideoMatrixCoefficients, VideoTransferCharacteristics,
};

#[test]
fn unset_fields_are_absent_from_native_record() {
    let n = VideoDecoderConfig::new("vp8").to_native();
    assert_eq!(n.codec, "vp8");
    assert_eq!(n.coded_width, None);
    assert_eq!(n.coded_height, None);
    assert_eq!(n.display_aspect_width, None);
    assert_eq!(n.display_aspect_height, None);
    assert!(n.description.is_none());
    assert!(n.color_space.is_none());
    assert_eq!(n.hardware_acceleration, None);
    assert_eq!(n.optimize_for_latency, None);
}

#[test]
fn every_set_field_reaches_native_record() {
    let color = VideoColorSpaceConfig::new()
        .full_range(true)
        .matrix(VideoMatrixCoefficients::Bt709)
        .primaries(VideoColorPrimaries::Bt470bg)
        .transfer(VideoTransferCharacteristics::Iec6196621);
    let n = VideoDecoderConfig::new("avc1.42E01E")
        .coded_dimensions(1920, 1080)
        .display_dimensions(16, 9)
        .description(Bytes::from_static(&[1, 2, 3, 4]))
        .color_space(color)
        .hardware_acceleration(true)
        .latency_optimized()
        .to_native();
    assert_eq!(n.codec, "avc1.42E01E");
    assert_eq!(n.coded_width, Some(1920));
    assert_eq!(n.coded_height, Some(1080));
    assert_eq!(n.display_aspect_width, Some(16));
    assert_eq!(n.display_aspect_height, Some(9));
    assert_eq!(n.description.as_deref(), Some(&[1u8, 2, 3, 4][..]));
    assert_eq!(n.color_space, Some(color));
    assert_eq!(n.hardware_acceleration, Some(HardwareAcceleration::PreferHardware));
    assert_eq!(n.optimize_for_latency, Some(true));
}

#[test]
fn software_preference_and_setter_order() {
    let a = VideoDecoderConfig::new("hev1")
        .hardware_acceleration(false)
        .display_dimensions(4, 3)
        .to_native();
    let b = VideoDecoderConfig::new("hev1")
        .display_dimensions(4, 3)
        .hardware_acceleration(false)
        .to_native();
    assert_eq!(a.hardware_acceleration, Some(HardwareAcceleration::PreferSoftware));
    assert_eq!(b.hardware_acceleration, Some(HardwareAcceleration::PreferSoftware));
    assert_eq!(a.display_aspect_width, b.display_aspect_width);
    assert_eq!(a.display_aspect_height, Some(3));
    assert_eq!(a.coded_width, None);
}

#[test]
fn later_setter_replaces_earlier_value() {
    let n = VideoDecoderConfig::new("vp09.00.10.08")
        .coded_dimensions(1, 2)
        .coded_dimensions(640, 480)
        .to_native();
    assert_eq!(n.coded_width, Some(640));
    assert_eq!(n.coded_height, Some(480));
}

#[test]
fn color_space_parts_are_independent() {
    let c = VideoColorSpaceConfig::default().primaries(VideoColorPrimaries::Bt709);
    assert_eq!(c.full_range, None);
    assert_eq!(c.matrix, None);
    assert_eq!(c.primaries, Some(VideoColorPrimaries::Bt709));
    assert_eq!(c.transfer, None);
    let d = c.full_range(false);
    assert_eq!(d.full_range, Some(false));
    assert_eq!(d.primaries, Some(VideoColorPrimaries::Bt709));
    assert_eq!(VideoColorSpaceConfig::new(), VideoColorSpaceConfig::default());
}
