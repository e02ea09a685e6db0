use image_classifier::error::ClassificationError;
use image_classifier::labels::{get_label, label_line};
use image_classifier::pipeline::resolve;
use image_classifier::score::{best_score, score_greater, score_is_nan};

fn bits(values: &[f32]) -> Vec<u32> {
    values.iter().map(|v| v.to_bits()).collect()
}

const LABELS: &[u8] = b"background\ntench\r\ngoldfish\n";

#[test]
fn tie_goes_to_first_maximum() {
    let scores = bits(&[0.9, 0.9, 0.3]);
    assert_eq!(best_score(&scores), Some(0));
    let c = resolve(&scores, LABELS).unwrap();
    assert_eq!(c.class, 1);
    assert_eq!(c.label, "background");
    assert_eq!(f32::from_bits(c.score), 0.9);
}

#[test]
fn highest_score_wins() {
    let scores = bits(&[0.1, 0.2, 0.7]);
    let c = resolve(&scores, LABELS).unwrap();
    assert_eq!(c.class, 3);
    assert_eq!(c.label, "goldfish");
    assert_eq!(f32::from_bits(c.score), 0.7);
}

#[test]
fn empty_scores_are_unclassified() {
    assert_eq!(best_score(&[]), None);
    assert!(matches!(resolve(&[], LABELS), Err(ClassificationError::Unclassified)));
}

#[test]
fn nan_scores_are_unclassified() {
    let scores = bits(&[0.5, f32::NAN, 0.1]);
    assert_eq!(best_score(&scores), None);
    assert!(matches!(resolve(&scores, LABELS), Err(ClassificationError::Unclassified)));
}

#[test]
fn scores_longer_than_labels_are_flagged() {
    let scores = bits(&[0.1, 0.1, 0.1, 0.9]);
    assert!(matches!(resolve(&scores, LABELS), Err(ClassificationError::MissingLabel(4))));
}

#[test]
fn negative_scores_and_zeros_order_as_floats() {
    let scores = bits(&[-3.5, -0.25, -1.0]);
    assert_eq!(best_score(&scores), Some(1));
    assert!(!score_greater(0.0f32.to_bits(), (-0.0f32).to_bits()));
    assert!(!score_greater((-0.0f32).to_bits(), 0.0f32.to_bits()));
    assert!(score_greater(1.0f32.to_bits(), (-1.0f32).to_bits()));
    assert!(score_greater(f32::INFINITY.to_bits(), f32::MAX.to_bits()));
    assert!(score_greater((-1.0f32).to_bits(), f32::NEG_INFINITY.to_bits()));
    let zeros = bits(&[-0.0, 0.0]);
    assert_eq!(best_score(&zeros), Some(0));
}

#[test]
fn nan_patterns_are_recognised() {
    assert!(score_is_nan(f32::NAN.to_bits()));
    assert!(score_is_nan((-f32::NAN).to_bits()));
    assert!(!score_is_nan(f32::INFINITY.to_bits()));
    assert!(!score_is_nan(f32::NEG_INFINITY.to_bits()));
    assert!(!score_is_nan(0.5f32.to_bits()));
}

#[test]
fn label_lines_drop_line_endings() {
    assert_eq!(label_line(LABELS, 1), Some(b"background".to_vec()));
    assert_eq!(label_line(LABELS, 2), Some(b"tench".to_vec()));
    assert_eq!(label_line(LABELS, 3), Some(b"goldfish".to_vec()));
    assert_eq!(label_line(LABELS, 4), None);
}

#[test]
fn last_line_without_newline_counts() {
    let text: &[u8] = b"a\n\nc";
    assert_eq!(label_line(text, 1), Some(b"a".to_vec()));
    assert_eq!(label_line(text, 2), Some(Vec::new()));
    assert_eq!(label_line(text, 3), Some(b"c".to_vec()));
    assert_eq!(label_line(text, 4), None);
    assert_eq!(label_line(b"", 1), None);
}

#[test]
fn get_label_reads_text() {
    assert_eq!(get_label(LABELS, 2).unwrap(), "tench");
    assert_eq!(get_label("caf\u{e9}\n".as_bytes(), 1).unwrap(), "caf\u{e9}");
}

#[test]
fn get_label_beyond_table_is_missing() {
    assert!(matches!(get_label(LABELS, 9), Err(ClassificationError::MissingLabel(9))));
}

#[test]
fn get_label_rejects_invalid_utf8() {
    let text: &[u8] = &[b'o', b'k', b'\n', 0xff, 0xfe, b'\n'];
    assert_eq!(get_label(text, 1).unwrap(), "ok");
    assert!(matches!(get_label(text, 2), Err(ClassificationError::IoError(_))));
}

#[test]
fn resolving_twice_gives_the_same_result() {
    let scores = bits(&[0.2, 0.6, 0.6]);
    let a = resolve(&scores, LABELS).unwrap();
    let b = resolve(&scores, LABELS).unwrap();
    assert_eq!((a.label, a.class, a.score), (b.label, b.class, b.score));
}
