use clipmanager::monitor::{MonitorState, detect_image_format};
use clipmanager::types::{ContentType, ImageFormat};

#[test]
fn test_detect_png_signature() {
    let png_header: Vec<u8> = vec![0x89, 0x50, 0x4E, 0x47, 0x0D, 0x0A, 0x1A, 0x0A, 0, 0, 0, 13];
    assert_eq!(detect_image_format(&png_header), Some(ImageFormat::Png));
}

#[test]
fn test_detect_known_signatures() {
    let jpeg: Vec<u8> = vec![0xFF, 0xD8, 0xFF, 0xE0, 0, 0, 0, 0];
    assert_eq!(detect_image_format(&jpeg), Some(ImageFormat::Jpeg));

    let gif87: Vec<u8> = b"GIF87a__".to_vec();
    assert_eq!(detect_image_format(&gif87), Some(ImageFormat::Gif));
    let gif89: Vec<u8> = b"GIF89a__".to_vec();
    assert_eq!(detect_image_format(&gif89), Some(ImageFormat::Gif));

    let bmp: Vec<u8> = b"BM______".to_vec();
    assert_eq!(detect_image_format(&bmp), Some(ImageFormat::Bmp));
}

#[test]
fn test_unrecognized_buffer_is_never_an_image() {
    let arbitrary: Vec<u8> = vec![1, 2, 3, 4, 5, 6, 7, 8, 9];
    assert_eq!(detect_image_format(&arbitrary), None);

    // too short to carry any recognised signature, even a BMP prefix
    let short_bmp: Vec<u8> = b"BM".to_vec();
    assert_eq!(detect_image_format(&short_bmp), None);

    // an unrecognised change is dropped silently: nothing is emitted and
    // the baselines do not move
    let mut state = MonitorState::new();
    let emitted = state.observe_image(arbitrary, 3, 3, 1000);
    assert!(emitted.is_none());
    assert!(state.last_image_hash.is_none());
}

#[test]
fn test_observe_text_emits_on_change() {
    let mut state = MonitorState::new();

    let item = state.observe_text("fresh content".to_string(), 500).unwrap();
    assert_eq!(item.content_type, ContentType::Text);
    assert_eq!(item.get_text_content(), Some("fresh content"));
    assert_eq!(item.created_at, 500);
    assert_eq!(state.last_text, "fresh content");

    // the same text again is not a change
    assert!(state.observe_text("fresh content".to_string(), 600).is_none());

    // blank text is never emitted
    assert!(state.observe_text("   \t\n".to_string(), 700).is_none());
    assert_eq!(state.last_text, "fresh content");
}

#[test]
fn test_observe_image_emits_once_per_digest() {
    let mut state = MonitorState::new();
    let png: Vec<u8> = vec![0x89, 0x50, 0x4E, 0x47, 0x0D, 0x0A, 0x1A, 0x0A, 42];

    let item = state.observe_image(png.clone(), 10, 20, 900).unwrap();
    assert_eq!(item.content_type, ContentType::Image);
    let data = item.get_image_data().unwrap();
    assert_eq!(data.format, ImageFormat::Png);
    assert_eq!(data.width, 10);
    assert_eq!(data.height, 20);
    assert!(state.last_image_hash.is_some());
    // an image change clears the text baseline
    assert_eq!(state.last_text, "");

    // the same bytes again are not a change
    assert!(state.observe_image(png, 10, 20, 950).is_none());
}

#[test]
fn test_text_change_clears_image_baseline() {
    let mut state = MonitorState::new();
    let png: Vec<u8> = vec![0x89, 0x50, 0x4E, 0x47, 0x0D, 0x0A, 0x1A, 0x0A, 1];
    state.observe_image(png.clone(), 1, 1, 100).unwrap();
    assert!(state.last_image_hash.is_some());

    state.observe_text("now text".to_string(), 200).unwrap();
    assert!(state.last_image_hash.is_none());

    // with the image baseline cleared, the same image counts as new again
    assert!(state.observe_image(png, 1, 1, 300).is_some());
}

#[test]
fn test_start_is_idempotent_and_sets_baseline() {
    let mut state = MonitorState::new();

    let started = state.start(Some("already on the clipboard".to_string()));
    assert!(started);
    assert!(state.is_running);
    // the pre-existing clipboard content is the baseline, not a new change
    assert!(state.observe_text("already on the clipboard".to_string(), 100).is_none());

    let started_again = state.start(Some("other".to_string()));
    assert!(!started_again);
    assert_eq!(state.last_text, "already on the clipboard");

    state.stop();
    assert!(!state.is_running);
}

#[test]
fn test_own_write_is_not_recaptured() {
    let mut state = MonitorState::new();
    state.start(None);

    // the library wrote this itself; the baseline moves with the write
    state.note_clipboard_write("copied back");
    assert!(state.observe_text("copied back".to_string(), 100).is_none());

    // an external change is still detected
    assert!(state.observe_text("external change".to_string(), 200).is_some());
}
