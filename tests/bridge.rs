use screen_bridge::frame::{drop_alpha, encode_frame, package_jpeg, FrameError, FrameSettings, RawFrame};
use screen_bridge::input::{dispatch_input, parse_button, InputAction, InputEvent, MouseButton};
use screen_bridge::monitors::{describe_monitors, locate_monitor, DisplayFacts};
use screen_bridge::pacing::pause_after;
use screen_bridge::sampling::{SamplingLoop, TickOutcome};
use screen_bridge::session::{CaptureError, CaptureSession};

use base64::Engine;

#[test]
fn enumerate_start_contend_stop_restart() {
    let displays = vec![DisplayFacts {
        name: "Primary".to_string(),
        width: 1920,
        height: 1080,
        is_primary: true,
    }];
    let monitors = describe_monitors(&displays);
    assert_eq!(monitors.len(), 1);
    assert_eq!(monitors[0].id, 0);
    assert_eq!(monitors[0].name, "Primary");
    assert_eq!(monitors[0].width, 1920);
    assert_eq!(monitors[0].height, 1080);
    assert!(monitors[0].is_primary);

    let mut session = CaptureSession::new();
    assert!(session.start(0).is_ok());
    assert_eq!(session.start(0), Err(CaptureError::AlreadyCapturing));
    session.stop();
    assert!(session.start(0).is_ok());
    assert!(session.is_capturing);
    assert_eq!(session.active_monitor, Some(0));
}

#[test]
fn key_press_types_each_character_in_order() {
    let event = InputEvent::KeyPress { text: "abc".to_string() };
    assert_eq!(
        dispatch_input(&event),
        vec![
            InputAction::Keystroke { key: 'a' },
            InputAction::Keystroke { key: 'b' },
            InputAction::Keystroke { key: 'c' },
        ]
    );
}

#[test]
fn key_press_keeps_non_ascii_characters() {
    let event = InputEvent::KeyPress { text: "é😀".to_string() };
    assert_eq!(
        dispatch_input(&event),
        vec![InputAction::Keystroke { key: 'é' }, InputAction::Keystroke { key: '😀' }]
    );
}

#[test]
fn empty_key_press_types_nothing() {
    let event = InputEvent::KeyPress { text: String::new() };
    assert!(dispatch_input(&event).is_empty());
}

#[test]
fn unknown_button_is_a_silent_no_op() {
    let event = InputEvent::MouseClick { button: "up".to_string() };
    assert!(dispatch_input(&event).is_empty());
    assert_eq!(parse_button(&"Left".to_string()), None);
    assert_eq!(parse_button(&String::new()), None);
}

#[test]
fn known_buttons_click() {
    for (tag, button) in [("left", MouseButton::Left), ("right", MouseButton::Right), ("middle", MouseButton::Middle)] {
        let event = InputEvent::MouseClick { button: tag.to_string() };
        assert_eq!(dispatch_input(&event), vec![InputAction::Click(button)]);
    }
}

#[test]
fn mouse_move_passes_coordinates_through() {
    let event = InputEvent::MouseMove { x: -5, y: 40000 };
    assert_eq!(dispatch_input(&event), vec![InputAction::MoveTo { x: -5, y: 40000 }]);
}

#[test]
fn start_while_capturing_keeps_monitor() {
    let mut session = CaptureSession::new();
    let token = session.start(2).unwrap();
    assert_eq!(session.start(7), Err(CaptureError::AlreadyCapturing));
    assert_eq!(session.active_monitor, Some(2));
    assert!(session.keeps_running(token));
    assert_eq!(CaptureError::AlreadyCapturing.message(), "Already capturing");
}

#[test]
fn stop_is_idempotent() {
    let mut session = CaptureSession::new();
    session.stop();
    session.stop();
    assert!(!session.is_capturing);
    assert_eq!(session.active_monitor, None);
    session.start(1).unwrap();
    session.stop();
    let once = session;
    session.stop();
    assert_eq!(session, once);
}

#[test]
fn stale_loop_stops_after_restart() {
    let mut session = CaptureSession::new();
    let first = session.start(0).unwrap();
    session.stop();
    assert!(!session.keeps_running(first));
    let second = session.start(0).unwrap();
    assert_ne!(first, second);
    assert!(!session.keeps_running(first));
    assert!(session.keeps_running(second));
}

#[test]
fn abandon_clears_only_own_session() {
    let mut session = CaptureSession::new();
    let first = session.start(0).unwrap();
    session.stop();
    let second = session.start(1).unwrap();
    session.abandon(first);
    assert!(session.keeps_running(second));
    session.abandon(second);
    assert!(!session.is_capturing);
    assert_eq!(session.active_monitor, None);
    assert!(session.start(0).is_ok());
}

#[test]
fn pause_fills_the_period() {
    assert_eq!(pause_after(0, 66_000), 66_000);
    assert_eq!(pause_after(10_000, 66_000), 56_000);
    assert_eq!(pause_after(66_000, 66_000), 0);
    assert_eq!(pause_after(70_000, 66_000), 0);
    let total: u64 = (0..10).map(|_| pause_after(0, 66_000)).sum();
    assert_eq!(total, 660_000);
}

#[test]
fn failed_tick_does_not_end_loop() {
    let mut session = CaptureSession::new();
    let token = session.start(0).unwrap();
    let mut lp = SamplingLoop::begin(token, 0);
    assert!(lp.keeps_going(&session));
    assert_eq!(lp.record(TickOutcome::Delivered), 0);
    assert_eq!(lp.record(TickOutcome::CaptureFailed), 1);
    assert!(lp.keeps_going(&session));
    assert_eq!(lp.record(TickOutcome::Delivered), 2);
    assert_eq!(lp.ticks, 3);
    assert_eq!(lp.delivered, 2);
    session.stop();
    assert!(!lp.keeps_going(&session));
}

#[test]
fn delivered_positions_follow_capture_order() {
    let mut lp = SamplingLoop::begin(9, 0);
    let outcomes = [
        TickOutcome::Delivered,
        TickOutcome::EncodeFailed,
        TickOutcome::Delivered,
        TickOutcome::DeliveryFailed,
        TickOutcome::Delivered,
    ];
    let mut delivered = Vec::new();
    for outcome in outcomes {
        let position = lp.record(outcome);
        if outcome == TickOutcome::Delivered {
            delivered.push(position);
        }
    }
    assert_eq!(delivered, vec![0, 2, 4]);
    assert_eq!(lp.delivered, 3);
}

#[test]
fn locate_monitor_by_position() {
    assert_eq!(locate_monitor(2, 1), Some(1));
    assert_eq!(locate_monitor(2, 2), None);
    assert_eq!(locate_monitor(0, 0), None);
}

#[test]
fn describe_numbers_by_position() {
    let displays = vec![
        DisplayFacts { name: "A".to_string(), width: 800, height: 600, is_primary: false },
        DisplayFacts { name: "B".to_string(), width: 1024, height: 768, is_primary: true },
    ];
    let monitors = describe_monitors(&displays);
    assert_eq!(monitors.len(), 2);
    assert_eq!(monitors[1].id, 1);
    assert_eq!(monitors[1].name, "B");
    assert!(monitors[1].is_primary);
    assert!(describe_monitors(&Vec::new()).is_empty());
}

#[test]
fn drop_alpha_keeps_color_channels() {
    assert_eq!(drop_alpha(&vec![1, 2, 3, 4, 5, 6, 7, 8]), vec![1, 2, 3, 5, 6, 7]);
    assert!(drop_alpha(&Vec::new()).is_empty());
}

#[test]
fn standard_settings() {
    let s = FrameSettings::standard();
    assert_eq!((s.target_width, s.target_height, s.quality, s.period_micros), (1280, 720, 60, 66_000));
}

#[test]
fn bad_buffer_is_rejected() {
    let frame = RawFrame { width: 2, height: 2, pixels: vec![0; 15] };
    assert_eq!(encode_frame(&frame, &FrameSettings::standard()), Err(FrameError::BadBuffer));
}

#[test]
fn package_encodes_as_base64() {
    assert_eq!(package_jpeg(Ok(vec![1, 2, 3])), Ok("AQID".to_string()));
    assert_eq!(package_jpeg(Ok(Vec::new())), Ok(String::new()));
    assert_eq!(package_jpeg(Ok(b"hello".to_vec())), Ok("aGVsbG8=".to_string()));
}

#[test]
fn encode_frame_matches_the_codec_pipeline() {
    let (w, h) = (4u32, 3u32);
    let mut pixels = Vec::new();
    for i in 0..(w * h) {
        pixels.extend_from_slice(&[(i * 20) as u8, (255 - i * 10) as u8, (i * 7) as u8, 9]);
    }
    let settings = FrameSettings { target_width: 8, target_height: 6, quality: 60, period_micros: 66_000 };
    let frame = RawFrame { width: w, height: h, pixels: pixels.clone() };
    let payload = encode_frame(&frame, &settings).unwrap();

    let rgb: Vec<u8> = pixels.chunks(4).flat_map(|p| [p[0], p[1], p[2]]).collect();
    let source = image::RgbImage::from_raw(w, h, rgb).unwrap();
    let scaled = image::imageops::resize(&source, 8, 6, image::imageops::FilterType::Nearest);
    assert_eq!(scaled.dimensions(), (8, 6));
    let mut jpeg = Vec::new();
    image::codecs::jpeg::JpegEncoder::new_with_quality(&mut jpeg, 60)
        .encode(scaled.as_raw(), 8, 6, image::ExtendedColorType::Rgb8)
        .unwrap();
    assert_eq!(&jpeg[..2], &[0xFF, 0xD8]);
    let expected = base64::engine::general_purpose::STANDARD.encode(&jpeg);
    assert_eq!(payload, expected);
    let decoded = base64::engine::general_purpose::STANDARD.decode(&payload).unwrap();
    assert_eq!(&decoded[..2], &[0xFF, 0xD8]);
}

#[test]
fn empty_frame_still_encodes_at_target_size() {
    let frame = RawFrame { width: 0, height: 0, pixels: Vec::new() };
    let payload = encode_frame(&frame, &FrameSettings::standard()).unwrap();
    let decoded = base64::engine::general_purpose::STANDARD.decode(&payload).unwrap();
    assert_eq!(&decoded[..2], &[0xFF, 0xD8]);
}
