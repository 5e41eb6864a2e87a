use wasm_bindgen::JsValue;
use webcodecs::{chunk_type, ChunkType, Error, OutputBridge, Pull, VideoDecoderConfig};

fn frame_of(p: Pull<u32>) -> Option<u32> {
    match p {
        Pull::Frame(f) => Some(f),
        _ => None,
    }
}

#[test]
fn new_bridge_is_open_and_empty() {
    let mut b: OutputBridge<u32> = OutputBridge::new();
    assert!(!b.is_closed());
    assert_eq!(b.queued_len(), 0);
    assert!(b.terminal_error().is_none());
    assert!(matches!(b.pull(), Pull::Pending));
}

#[test]
fn frames_come_out_in_delivery_order() {
    let mut b = OutputBridge::new();
    for f in [7u32, 3, 9, 3] {
        assert!(b.deliver(f).is_none());
    }
    assert_eq!(b.queued_len(), 4);
    assert_eq!(frame_of(b.pull()), Some(7));
    assert_eq!(frame_of(b.pull()), Some(3));
    assert!(b.deliver(11).is_none());
    assert_eq!(frame_of(b.pull()), Some(9));
    assert_eq!(frame_of(b.pull()), Some(3));
    assert_eq!(frame_of(b.pull()), Some(11));
    assert!(matches!(b.pull(), Pull::Pending));
}

#[test]
fn two_units_give_two_frames_in_submission_order() {
    let config = VideoDecoderConfig::new("test-codec").coded_dimensions(320, 240);
    let native = config.to_native();
    assert_eq!(native.codec, "test-codec");
    assert_eq!(native.coded_width, Some(320));
    assert_eq!(native.coded_height, Some(240));
    assert_eq!(chunk_type(true), ChunkType::Key);
    assert_eq!(chunk_type(false), ChunkType::Delta);

    let mut b = OutputBridge::new();
    assert!(b.deliver(String::from("frame at 0.0")).is_none());
    assert!(b.deliver(String::from("frame at 33.3")).is_none());
    let first = match b.pull() {
        Pull::Frame(f) => f,
        _ => panic!("first frame missing"),
    };
    let second = match b.pull() {
        Pull::Frame(f) => f,
        _ => panic!("second frame missing"),
    };
    assert_eq!(first, "frame at 0.0");
    assert_eq!(second, "frame at 33.3");
    assert!(matches!(b.pull(), Pull::Pending));
    assert!(!b.is_closed());
}

#[test]
fn configuration_error_leaves_signal_open() {
    let mut b: OutputBridge<u32> = OutputBridge::new();
    let rejected = Error::from(JsValue::NULL);
    assert!(matches!(rejected, Error::Unknown(_)));
    assert!(!b.is_closed());
    assert!(matches!(b.pull(), Pull::Pending));
    assert!(b.deliver(5).is_none());
    assert_eq!(frame_of(b.pull()), Some(5));
}

#[test]
fn queued_frame_comes_before_fatal_error() {
    let mut b = OutputBridge::new();
    assert!(b.deliver(1u32).is_none());
    b.fail(Error::from(JsValue::NULL));
    assert!(b.is_closed());
    assert_eq!(frame_of(b.pull()), Some(1));
    for _ in 0..3 {
        assert!(matches!(b.pull(), Pull::Closed));
        assert!(matches!(b.terminal_error(), Some(Error::Unknown(_))));
    }
}

#[test]
fn first_terminal_error_is_kept() {
    let mut b: OutputBridge<u32> = OutputBridge::new();
    b.fail(Error::Dropped);
    b.fail(Error::from(JsValue::NULL));
    assert!(b.terminal_error().unwrap().is_dropped());
    assert!(matches!(b.pull(), Pull::Closed));
    assert!(b.terminal_error().unwrap().is_dropped());
}

#[test]
fn delivery_after_consumer_left_is_refused() {
    let mut b = OutputBridge::new();
    assert!(b.deliver(1u32).is_none());
    assert!(b.deliver(2).is_none());
    assert_eq!(b.detach(), vec![1, 2]);
    assert_eq!(b.queued_len(), 0);
    assert!(!b.is_closed());
    assert_eq!(b.deliver(3), Some(3));
    assert!(b.terminal_error().unwrap().is_dropped());
    assert_eq!(b.deliver(4), Some(4));
    assert!(matches!(b.pull(), Pull::Closed));
}

#[test]
fn dropped_consumer_keeps_an_earlier_engine_error() {
    let mut b = OutputBridge::new();
    b.fail(Error::from(JsValue::NULL));
    assert!(b.detach().is_empty());
    assert_eq!(b.deliver(8u32), Some(8));
    assert!(matches!(b.terminal_error(), Some(Error::Unknown(_))));
}

#[test]
fn released_session_ends_the_stream() {
    let mut b = OutputBridge::new();
    assert!(b.deliver(4u32).is_none());
    b.finish();
    assert_eq!(frame_of(b.pull()), Some(4));
    assert!(matches!(b.pull(), Pull::Ended));
    assert!(matches!(b.pull(), Pull::Ended));
}

#[test]
fn closed_signal_wins_over_end_of_stream() {
    let mut b: OutputBridge<u32> = OutputBridge::new();
    b.finish();
    b.fail(Error::Dropped);
    assert!(matches!(b.pull(), Pull::Closed));
}

#[test]
fn error_kinds() {
    assert!(Error::Dropped.is_dropped());
    assert!(!Error::from(JsValue::UNDEFINED).is_dropped());
}
