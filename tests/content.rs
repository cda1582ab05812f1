use file_craft::content::{
    generate_content, generate_file_size, generate_paragraphs, join_paragraphs, paragraph_count,
};

#[test]
fn paragraph_count_divides_target() {
    assert_eq!(paragraph_count(4096, 100), 40);
    assert_eq!(paragraph_count(2048, 300), 6);
    assert_eq!(paragraph_count(100, 300), 0);
    assert_eq!(paragraph_count(4096, 0), 0);
}

#[test]
fn paragraphs_joined_by_newlines() {
    let ps = vec!["one".to_string(), "two".to_string(), "three".to_string()];
    assert_eq!(join_paragraphs(&ps), "one\ntwo\nthree");
    assert_eq!(join_paragraphs(&vec!["alone".to_string()]), "alone");
    assert_eq!(join_paragraphs(&Vec::new()), "");
}

#[test]
fn file_size_within_band() {
    for _ in 0..1000 {
        let s = generate_file_size();
        assert!((2048..=16384).contains(&s));
    }
}

#[test]
fn generated_paragraph_count() {
    let ps = generate_paragraphs(5);
    assert_eq!(ps.len(), 5);
    assert!(ps.iter().all(|p| !p.is_empty() && p.len() <= 543 && p.is_ascii()));
    assert!(generate_paragraphs(0).is_empty());
}

#[test]
fn generated_content_near_target() {
    for _ in 0..20 {
        let c = generate_content(16384);
        assert!(!c.is_empty());
        assert!(c.len() > 16384 / 4);
        assert!(c.len() < 16384 * 4);
    }
}

#[test]
fn content_for_smallest_band_target_not_empty() {
    for _ in 0..50 {
        assert!(!generate_content(2048).is_empty());
        assert!(!generate_content(543).is_empty());
    }
}
