use magna_middleware::postprocess::classifier::{check_decodable, Classifier};
use magna_middleware::utils::errors::Precision;

#[test]
fn classifier_no_labels() {
    let cls = Classifier::new(true);
    assert!(!cls.has_labels());
    assert!(cls.label(9).contains("Class 9"));
}

#[test]
fn classifier_with_labels() {
    let cls = Classifier::from_label_text("cat\ndog\nfish\n", false);
    assert!(cls.has_labels());
    assert_eq!(cls.label(1), "dog");
    assert_eq!(cls.num_labels(), 3);
}

#[test]
fn generic_inference_result() {
    let cls = Classifier::new(false);
    assert!(!cls.wants_classification(1));
}

#[test]
fn generic_with_classifier() {
    let cls = Classifier::new(true);
    assert!(cls.wants_classification(1));
    assert!(!cls.wants_classification(0));
}

#[test]
fn empty_scores_fails() {
    let e = Classifier::check_scores(0).unwrap_err();
    assert_eq!(e.to_string(), "Postprocessing failed: Empty output tensor");
    assert!(Classifier::check_scores(3).is_ok());
}

#[test]
fn labels_trimmed_blank_lines_dropped() {
    let cls = Classifier::from_label_text("  tabby cat \r\n\n   \nsports car\n", true);
    assert_eq!(cls.num_labels(), 2);
    assert_eq!(cls.label(0), "tabby cat");
    assert_eq!(cls.label(1), "sports car");
    assert_eq!(cls.label(2), "Class 2");
    assert!(cls.softmax);
}

#[test]
fn labels_file_error_message() {
    let e = Classifier::labels_file_error("/l.txt", "denied");
    assert_eq!(e.to_string(), "Configuration error: Failed to load labels from '/l.txt': denied");
}

#[test]
fn only_fp32_and_fp16_decode() {
    assert!(check_decodable(Precision::FP32).is_ok());
    assert!(check_decodable(Precision::FP16).is_ok());
    assert_eq!(
        check_decodable(Precision::INT8).unwrap_err().to_string(),
        "Postprocessing failed: Cannot postprocess INT8 tensors directly \u{2014} convert to FP32 first"
    );
}
