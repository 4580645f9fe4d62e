use vibe_overlay::geometry::Rect;
use vibe_overlay::hotkeys::{
    HOTKEY_ID_CAPTURE, HOTKEY_ID_MOVE_UP, HOTKEY_ID_RESIZE_SMALLER, HOTKEY_ID_SEND,
    HOTKEY_ID_START_OVER, HOTKEY_ID_TOGGLE,
};
use vibe_overlay::overlay::{
    visibility_action, CapturedImage, EncodeFailure, HotkeyAction, OverlayState, PaintPlan,
    UploadOutcome, UploadRefusal, VisibilityAction, SENDING_TEXT, WELCOME_TEXT,
};

fn client() -> Rect {
    Rect { left: 0, top: 0, right: 584, bottom: 361 }
}

fn capture() -> CapturedImage {
    CapturedImage { pixels: vec![1, 2, 3, 255, 4, 5, 6, 255], width: 2, height: 1 }
}

fn painted_text(state: &OverlayState) -> (String, Rect) {
    match state.paint_plan(client()) {
        PaintPlan::Text { text, area } => (text, area),
        PaintPlan::Preview { .. } => panic!("expected text"),
    }
}

#[test]
fn starts_with_welcome_text() {
    let state = OverlayState::new();
    assert!(!state.sending);
    assert!(state.captured.is_none());
    assert!(state.response.is_none());
    let (text, area) = painted_text(&state);
    assert_eq!(text, WELCOME_TEXT);
    assert!(text.starts_with("Welcome to Vibe Coder!\n\nCtrl+H: Capture"));
    assert_eq!(area, client());
}

#[test]
fn toggle_hides_visible_and_shows_hidden() {
    assert_eq!(visibility_action(true), VisibilityAction::Hide);
    assert_eq!(visibility_action(false), VisibilityAction::ShowAndRedraw);
    let mut state = OverlayState::new();
    assert_eq!(state.handle_hotkey(HOTKEY_ID_TOGGLE), HotkeyAction::ToggleVisibility);
}

#[test]
fn send_without_capture_is_refused() {
    let mut state = OverlayState::new();
    assert_eq!(
        state.handle_hotkey(HOTKEY_ID_SEND),
        HotkeyAction::RefuseUpload(UploadRefusal::NoCapture)
    );
    assert!(!state.sending);
}

#[test]
fn capture_is_previewed_and_clears_reply() {
    let mut state = OverlayState::new();
    state.response = Some(String::from("old answer"));
    assert_eq!(state.handle_hotkey(HOTKEY_ID_CAPTURE), HotkeyAction::CaptureScreen);
    state.store_capture(capture());
    assert!(state.response.is_none());
    match state.paint_plan(client()) {
        PaintPlan::Preview { width, height } => assert_eq!((width, height), (2, 1)),
        PaintPlan::Text { .. } => panic!("expected preview"),
    }
    assert_eq!(state.handle_hotkey(HOTKEY_ID_SEND), HotkeyAction::StartUpload);
}

#[test]
fn upload_in_flight_refuses_capture_and_send() {
    let mut state = OverlayState::new();
    state.store_capture(capture());
    let snapshot = state.begin_upload().expect("capture present");
    assert_eq!(snapshot.pixels, capture().pixels);
    assert_eq!((snapshot.width, snapshot.height), (2, 1));
    assert!(state.sending);
    assert_eq!(state.handle_hotkey(HOTKEY_ID_CAPTURE), HotkeyAction::RefuseCapture);
    assert_eq!(
        state.handle_hotkey(HOTKEY_ID_SEND),
        HotkeyAction::RefuseUpload(UploadRefusal::AlreadySending)
    );
    let (text, area) = painted_text(&state);
    assert_eq!(text, SENDING_TEXT);
    assert_eq!(text, "Sending request to AI...");
    assert_eq!(area, client());
}

#[test]
fn answer_replaces_capture() {
    let mut state = OverlayState::new();
    state.store_capture(capture());
    state.begin_upload();
    state.finish_upload(UploadOutcome::Answered(String::from("use a hash map")));
    assert!(!state.sending);
    assert!(state.captured.is_none());
    let (text, area) = painted_text(&state);
    assert_eq!(text, "use a hash map");
    assert_eq!(area, Rect { left: 10, top: 10, right: 574, bottom: 351 });
}

#[test]
fn send_failure_keeps_capture_and_shows_error() {
    let mut state = OverlayState::new();
    state.store_capture(capture());
    state.begin_upload();
    state.finish_upload(UploadOutcome::SendFailed(String::from("connection refused")));
    assert!(!state.sending);
    assert!(state.captured.is_some());
    assert_eq!(state.response.as_deref(), Some("Proxy Send Error: connection refused"));
    assert_eq!(state.handle_hotkey(HOTKEY_ID_SEND), HotkeyAction::StartUpload);
}

#[test]
fn read_failure_shows_error() {
    let mut state = OverlayState::new();
    state.store_capture(capture());
    state.begin_upload();
    state.finish_upload(UploadOutcome::ReadFailed(String::from("body truncated")));
    assert_eq!(state.response.as_deref(), Some("Proxy Response Error: body truncated"));
    assert!(state.captured.is_some());
}

#[test]
fn png_failure_shows_error() {
    let mut state = OverlayState::new();
    state.store_capture(capture());
    state.begin_upload();
    state.finish_upload(UploadOutcome::Unencodable(EncodeFailure::Png(String::from("bad"))));
    assert_eq!(state.response.as_deref(), Some("PNG Encoding Error: bad"));
    assert!(!state.sending);
}

#[test]
fn rejected_buffer_changes_no_reply() {
    let mut state = OverlayState::new();
    state.store_capture(capture());
    state.begin_upload();
    state.finish_upload(UploadOutcome::Unencodable(EncodeFailure::BufferRejected));
    assert!(state.response.is_none());
    assert!(state.captured.is_some());
    assert!(!state.sending);
}

#[test]
fn missing_capture_is_reported() {
    let mut state = OverlayState::new();
    assert!(state.begin_upload().is_none());
    assert!(state.sending);
    state.finish_upload(UploadOutcome::NoCapture);
    assert!(!state.sending);
    assert_eq!(
        state.response.as_deref(),
        Some("Error: No image data was available to send.")
    );
}

#[test]
fn start_over_returns_to_welcome() {
    let mut state = OverlayState::new();
    state.store_capture(capture());
    state.begin_upload();
    state.finish_upload(UploadOutcome::Answered(String::from("done")));
    assert_eq!(state.handle_hotkey(HOTKEY_ID_START_OVER), HotkeyAction::Redraw);
    assert!(!state.sending);
    assert!(state.captured.is_none());
    assert!(state.response.is_none());
    let (text, _) = painted_text(&state);
    assert_eq!(text, WELCOME_TEXT);
}

#[test]
fn start_over_ends_sending() {
    let mut state = OverlayState::new();
    state.store_capture(capture());
    state.begin_upload();
    state.handle_hotkey(HOTKEY_ID_START_OVER);
    assert!(!state.sending);
    assert!(state.captured.is_none());
}

#[test]
fn reset_clears_everything() {
    let mut state = OverlayState::new();
    state.store_capture(capture());
    state.response = Some(String::from("x"));
    state.reset();
    assert!(!state.sending && state.captured.is_none() && state.response.is_none());
}

#[test]
fn window_hotkeys_leave_state_alone() {
    let mut state = OverlayState::new();
    state.store_capture(capture());
    assert_eq!(
        state.handle_hotkey(HOTKEY_ID_MOVE_UP),
        HotkeyAction::MoveWindow { dx: 0, dy: -10 }
    );
    assert_eq!(
        state.handle_hotkey(HOTKEY_ID_RESIZE_SMALLER),
        HotkeyAction::ResizeWindow { dw: -20, dh: -20 }
    );
    assert_eq!(state.handle_hotkey(42), HotkeyAction::Ignore);
    assert!(state.captured.is_some());
}

#[test]
fn complete_capture_fills_its_size() {
    assert!(capture().is_complete());
    let short = CapturedImage { pixels: vec![0; 7], width: 2, height: 1 };
    assert!(!short.is_complete());
    let long = CapturedImage { pixels: vec![0; 12], width: 2, height: 1 };
    assert!(!long.is_complete());
    let flat = CapturedImage { pixels: Vec::new(), width: 0, height: 5 };
    assert!(!flat.is_complete());
    let negative = CapturedImage { pixels: vec![0; 16], width: -2, height: -2 };
    assert!(!negative.is_complete());
}
