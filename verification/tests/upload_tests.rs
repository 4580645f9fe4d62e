use vibe_overlay::overlay::{CapturedImage, EncodeFailure};
use vibe_overlay::upload::{prepare_upload, upload_request, ANALYSIS_PROMPT};

#[test]
fn capture_becomes_base64_png() {
    let image = CapturedImage {
        pixels: vec![0, 0, 255, 255, 255, 0, 0, 255],
        width: 2,
        height: 1,
    };
    let request = match prepare_upload(&image) {
        Ok(request) => request,
        Err(_) => panic!("a 2x1 capture encodes"),
    };
    assert!(request.image_base64.starts_with("iVBORw0KGgo"));
    assert_eq!(request.image_base64.len() % 4, 0);
    assert!(request.image_base64.len() > 40);
    assert_eq!(request.prompt, ANALYSIS_PROMPT);
}

#[test]
fn same_capture_gives_same_request() {
    let image = CapturedImage { pixels: vec![9, 8, 7, 6, 5, 4, 3, 2], width: 1, height: 2 };
    let first = prepare_upload(&image).ok().expect("encodes").image_base64;
    let second = prepare_upload(&image).ok().expect("encodes").image_base64;
    assert_eq!(first, second);
}

#[test]
fn colour_order_reaches_the_png() {
    let blue_first = CapturedImage { pixels: vec![255, 0, 0, 255], width: 1, height: 1 };
    let red_first = CapturedImage { pixels: vec![0, 0, 255, 255], width: 1, height: 1 };
    let a = prepare_upload(&blue_first).ok().expect("encodes").image_base64;
    let b = prepare_upload(&red_first).ok().expect("encodes").image_base64;
    assert_ne!(a, b);
}

#[test]
fn short_buffer_is_rejected() {
    let image = CapturedImage { pixels: vec![0; 7], width: 2, height: 1 };
    assert!(matches!(prepare_upload(&image), Err(EncodeFailure::BufferRejected)));
}

#[test]
fn negative_width_is_rejected() {
    let image = CapturedImage { pixels: vec![0; 16], width: -2, height: 2 };
    assert!(matches!(prepare_upload(&image), Err(EncodeFailure::BufferRejected)));
}

#[test]
fn empty_capture_fails_in_the_encoder() {
    let image = CapturedImage { pixels: Vec::new(), width: 0, height: 0 };
    match prepare_upload(&image) {
        Err(EncodeFailure::Png(text)) => assert!(!text.is_empty()),
        _ => panic!("a zero-size picture is no PNG"),
    }
}

#[test]
fn request_carries_prompt() {
    let request = upload_request(String::from("QUJD"));
    assert_eq!(request.image_base64, "QUJD");
    assert!(request.prompt.starts_with("Analyze the coding problem shown in the image."));
    assert!(request.prompt.ends_with("(e.g., ```python ... ```)."));
}
