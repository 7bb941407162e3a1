use magna_middleware::api::service::{give_up_reconnecting, label_lines, label_or_unknown};
use magna_middleware::input::camera::CameraInputProvider;
use magna_middleware::input::provider::{FileInputProvider, FrameData};

#[test]
fn file_provider_returns_error_then_allows_retry() {
    let mut provider = FileInputProvider::new("nonexistent.png");
    assert!(provider.wants_frame());
    let r = provider.complete_frame(Err("No such file or directory (os error 2)".into()));
    assert!(r.is_err());
    let r = provider.complete_frame(Err("No such file or directory (os error 2)".into()));
    assert!(r.is_err());
    assert!(!provider.is_consumed());
}

#[test]
fn file_provider_is_not_streaming() {
    let provider = FileInputProvider::new("test.png");
    assert!(!provider.is_streaming());
}

#[test]
fn frame_data_struct() {
    let frame = FrameData { rgb_data: vec![128; 3 * 10 * 10], width: 10, height: 10 };
    assert_eq!(frame.rgb_data.len(), 300);
}

#[test]
fn file_provider_delivers_once() {
    let mut provider = FileInputProvider::new("cat.png");
    assert_eq!(provider.source_name(), "cat.png");
    let frame = FrameData { rgb_data: vec![1, 2, 3], width: 1, height: 1 };
    let got = provider.complete_frame(Ok(frame.clone())).unwrap().unwrap();
    assert_eq!(got.rgb_data, vec![1, 2, 3]);
    assert!(provider.is_consumed());
    assert!(!provider.wants_frame());
    assert!(provider.complete_frame(Ok(frame)).unwrap().is_none());
}

#[test]
fn file_provider_error_message() {
    let mut provider = FileInputProvider::new("x.png");
    let e = provider.complete_frame(Err("unsupported format".into())).unwrap_err();
    assert_eq!(e.to_string(), "Image load failed: x.png: unsupported format");
}

#[test]
fn camera_unavailable_without_capture_support() {
    let e = CameraInputProvider::new("/dev/video0").err().unwrap();
    assert_eq!(
        e.to_string(),
        "Backend 'Camera support requires the `camera` feature flag. Build with: cargo build --features camera' is not available on this platform"
    );
}

#[test]
fn client_labels_keep_line_numbers() {
    let labels = label_lines("cat\n\n dog \r\n");
    assert_eq!(labels, vec!["cat", "", "dog"]);
    assert_eq!(label_or_unknown(&labels, 2), "dog");
    assert_eq!(label_or_unknown(&labels, 7), "unknown");
    assert_eq!(label_lines(""), Vec::<String>::new());
    assert_eq!(label_lines("a\nb"), vec!["a", "b"]);
}

#[test]
fn reconnect_limit() {
    assert!(!give_up_reconnecting(5, 0));
    assert!(!give_up_reconnecting(2, 3));
    assert!(give_up_reconnecting(3, 3));
}
