use send_to_vrc::capture::{
    crop_box, get_capture_url, ordinal_of_label, overlay_label, plan_overlays, send_request_event,
    CaptureError, CaptureThreadRequest, CropBox, DisplayDescriptor, FinishCaptureNextAction,
    PixelRect, SendRequestEventMode, CROPPED_FILE_NAME,
};
use send_to_vrc::controller::{send_request, start_capture, stop_capture};
use send_to_vrc::grabber::{first_frame, FrameGrabber, GrabStep, MAX_FRAME_ATTEMPTS};
use send_to_vrc::session::{CaptureSession, SessionAction, SessionEvent, SessionPhase};
use send_to_vrc::text::{decimal_string, parse_decimal};

fn two_displays() -> Vec<DisplayDescriptor> {
    vec![
        DisplayDescriptor { x: 0, y: 0, width: 1920, height: 1080 },
        DisplayDescriptor { x: 1920, y: 0, width: 1920, height: 1080 },
    ]
}

#[test]
fn two_displays_get_two_files_and_two_overlays() {
    let mut session = CaptureSession::new();
    assert_eq!(
        session.step(SessionEvent::Request(CaptureThreadRequest::Start)),
        SessionAction::HideAndCapture
    );
    assert_eq!(get_capture_url(0), "screenshot_monitor_0.png");
    assert_eq!(get_capture_url(1), "screenshot_monitor_1.png");
    assert_eq!(
        session.step(SessionEvent::Captured { displays: 2 }),
        SessionAction::OpenOverlays { count: 2 }
    );
    let plans = plan_overlays(2, &two_displays()).unwrap();
    assert_eq!(plans.len(), 2);
    assert_eq!(plans[0].label, "capture_0");
    assert_eq!((plans[0].x, plans[0].y, plans[0].width, plans[0].height), (0, 0, 1920, 1080));
    assert_eq!(plans[1].label, "capture_1");
    assert_eq!((plans[1].x, plans[1].y, plans[1].width, plans[1].height), (1920, 0, 1920, 1080));
    assert_eq!(session.open_overlays(), 2);
    assert_eq!(
        session.step(SessionEvent::Request(CaptureThreadRequest::Quit)),
        SessionAction::BeginGrace
    );
    assert_eq!(session.phase(), SessionPhase::TearingDown);
    assert_eq!(
        session.step(SessionEvent::GraceElapsed),
        SessionAction::CloseOverlays { count: 2 }
    );
    assert_eq!(session.phase(), SessionPhase::WaitingForStart);
    assert_eq!(session.open_overlays(), 0);
}

#[test]
fn empty_display_fails_while_sibling_succeeds() {
    let empty = vec![0i64; 10];
    let third_is_good = vec![0i64, 0, 1234];
    assert_eq!(first_frame(&empty), Err(CaptureError::NoFrameCaptured));
    assert_eq!(first_frame(&third_is_good), Ok(2));
}

#[test]
fn grabber_uses_exactly_ten_attempts_on_empty_frames() {
    let mut g = FrameGrabber::new();
    let mut steps = Vec::new();
    while g.has_attempts_left() {
        steps.push(g.on_frame(0));
    }
    assert_eq!(g.attempts(), MAX_FRAME_ATTEMPTS);
    assert_eq!(steps.len(), 10);
    assert!(steps[..9].iter().all(|s| *s == GrabStep::Retry));
    assert_eq!(steps[9], GrabStep::Exhausted);
}

#[test]
fn grabber_saves_first_frame_with_content() {
    let mut g = FrameGrabber::new();
    assert_eq!(g.on_frame(0), GrabStep::Retry);
    assert_eq!(g.on_frame(-5), GrabStep::Save);
    assert_eq!(g.attempts(), 2);
}

#[test]
fn frames_after_the_budget_are_not_read() {
    let mut frames = vec![0i64; 10];
    frames.push(99);
    assert_eq!(first_frame(&frames), Err(CaptureError::NoFrameCaptured));
    assert_eq!(first_frame(&vec![]), Err(CaptureError::NoFrameCaptured));
    let mut last = vec![0i64; 9];
    last.push(7);
    assert_eq!(first_frame(&last), Ok(9));
}

#[test]
fn capture_url_is_the_same_on_every_call() {
    let a = get_capture_url(3);
    let b = get_capture_url(3);
    assert_eq!(a, b);
    assert_eq!(a, "screenshot_monitor_3.png");
    assert_ne!(get_capture_url(12), get_capture_url(1));
    assert_eq!(get_capture_url(12), "screenshot_monitor_12.png");
    assert_eq!(CROPPED_FILE_NAME, "cropped.png");
}

#[test]
fn labels_round_trip() {
    assert_eq!(overlay_label(0), "capture_0");
    assert_eq!(overlay_label(407), "capture_407");
    assert_eq!(ordinal_of_label("capture_407"), Some(407));
    assert_eq!(ordinal_of_label("capture_0"), Some(0));
    assert_eq!(ordinal_of_label("capture_"), None);
    assert_eq!(ordinal_of_label("capture_07"), None);
    assert_eq!(ordinal_of_label("capture_x"), None);
    assert_eq!(ordinal_of_label("main"), None);
    assert_eq!(ordinal_of_label("capture_99999999999999999999999"), None);
}

#[test]
fn decimal_text_round_trips() {
    assert_eq!(decimal_string(0), "0");
    assert_eq!(decimal_string(1920), "1920");
    assert_eq!(decimal_string(usize::MAX), usize::MAX.to_string());
    assert_eq!(parse_decimal("1920"), Some(1920));
    assert_eq!(parse_decimal(&usize::MAX.to_string()), Some(usize::MAX));
    assert_eq!(parse_decimal(""), None);
    assert_eq!(parse_decimal("-1"), None);
}

#[test]
fn enumeration_mismatch_when_window_system_reports_fewer_displays() {
    let one = vec![DisplayDescriptor { x: 0, y: 0, width: 800, height: 600 }];
    assert!(matches!(plan_overlays(2, &one), Err(CaptureError::EnumerationMismatch)));
    let plans = plan_overlays(1, &two_displays()).unwrap();
    assert_eq!(plans.len(), 1);
    assert_eq!(plan_overlays(0, &vec![]).unwrap().len(), 0);
}

#[test]
fn crop_box_orders_corners() {
    let b = crop_box(PixelRect { x1: 300, y1: 200, x2: 100, y2: 50 }, 1920, 1080);
    assert_eq!(b, CropBox { x: 100, y: 50, width: 200, height: 150 });
}

#[test]
fn crop_box_is_clamped_to_the_image() {
    let b = crop_box(PixelRect { x1: 0, y1: 0, x2: 5000, y2: 5000 }, 1920, 1080);
    assert_eq!(b, CropBox { x: 0, y: 0, width: 1920, height: 1080 });
    let beyond = crop_box(PixelRect { x1: 4000, y1: 3000, x2: 5000, y2: 6000 }, 1920, 1080);
    assert_eq!(beyond, CropBox { x: 1920, y: 1080, width: 0, height: 0 });
    let partly = crop_box(PixelRect { x1: 1800, y1: 1000, x2: 2500, y2: 1200 }, 1920, 1080);
    assert_eq!(partly, CropBox { x: 1800, y: 1000, width: 120, height: 80 });
    let saturated = crop_box(PixelRect { x1: u32::MAX, y1: 0, x2: 0, y2: u32::MAX }, 10, 10);
    assert_eq!(saturated, CropBox { x: 0, y: 0, width: 10, height: 10 });
}

#[test]
fn quit_on_idle_session_changes_nothing() {
    let mut session = CaptureSession::new();
    assert_eq!(
        session.step(SessionEvent::Request(CaptureThreadRequest::Quit)),
        SessionAction::Idle
    );
    assert_eq!(session.phase(), SessionPhase::WaitingForStart);
    assert_eq!(session.open_overlays(), 0);
}

#[test]
fn extra_starts_during_overlays_are_ignored() {
    let mut session = CaptureSession::new();
    session.step(SessionEvent::Request(CaptureThreadRequest::Start));
    assert_eq!(
        session.step(SessionEvent::Request(CaptureThreadRequest::Start)),
        SessionAction::Idle
    );
    assert_eq!(session.phase(), SessionPhase::Capturing);
    session.step(SessionEvent::Captured { displays: 3 });
    assert_eq!(
        session.step(SessionEvent::Request(CaptureThreadRequest::Start)),
        SessionAction::Idle
    );
    assert_eq!(session.step(SessionEvent::GraceElapsed), SessionAction::Idle);
    assert_eq!(session.phase(), SessionPhase::OverlayActive);
    session.step(SessionEvent::Request(CaptureThreadRequest::Quit));
    assert_eq!(
        session.step(SessionEvent::Request(CaptureThreadRequest::Start)),
        SessionAction::Idle
    );
    assert_eq!(
        session.step(SessionEvent::GraceElapsed),
        SessionAction::CloseOverlays { count: 3 }
    );
    assert_eq!(session.phase(), SessionPhase::WaitingForStart);
}

#[test]
fn only_quit_closes_an_overlay() {
    assert!(CaptureThreadRequest::Quit.closes_overlay());
    assert!(!CaptureThreadRequest::Start.closes_overlay());
}

#[test]
fn commands_before_initialization_fail() {
    assert_eq!(start_capture(None), Err(CaptureError::NotInitialized));
    assert_eq!(stop_capture(None), Err(CaptureError::NotInitialized));
}

#[test]
fn requests_reach_every_subscriber() {
    let (tx, mut rx) = tokio::sync::broadcast::channel::<CaptureThreadRequest>(10);
    let mut overlay = tx.subscribe();
    assert_eq!(stop_capture(Some(&tx)), Ok(()));
    assert_eq!(start_capture(Some(&tx)), Ok(()));
    assert_eq!(rx.try_recv().unwrap(), CaptureThreadRequest::Quit);
    assert_eq!(overlay.try_recv().unwrap(), CaptureThreadRequest::Quit);
    assert_eq!(rx.try_recv().unwrap(), CaptureThreadRequest::Start);
}

#[test]
fn request_without_listeners_reports_closed_channel() {
    let (tx, rx) = tokio::sync::broadcast::channel::<CaptureThreadRequest>(10);
    drop(rx);
    assert_eq!(
        send_request(Some(&tx), CaptureThreadRequest::Start),
        Err(CaptureError::ChannelClosed)
    );
}

#[test]
fn next_action_picks_the_upload() {
    let e = send_request_event("/tmp/cropped.png".to_string(), FinishCaptureNextAction::Ask);
    assert_eq!(e.file, "/tmp/cropped.png");
    assert_eq!(e.mode, None);
    let e = send_request_event("f".to_string(), FinishCaptureNextAction::UploadImageToVRChatPrint);
    assert_eq!(e.mode, Some(SendRequestEventMode::UploadImageToVRChatPrint));
    assert_eq!(
        FinishCaptureNextAction::UploadImageToVideoServer.upload_mode(),
        Some(SendRequestEventMode::UploadImageToVideoServer)
    );
    assert_eq!(
        FinishCaptureNextAction::UploadImageToImageServer.upload_mode(),
        Some(SendRequestEventMode::UploadImageToImageServer)
    );
}
