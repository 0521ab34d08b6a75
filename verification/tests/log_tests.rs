use vigilance::log::{parse_log_level, to_ascii_lowercase};

#[test]
fn log_levels() {
    assert_eq!(parse_log_level(None), 0);
    assert_eq!(parse_log_level(Some("error".to_string())), 1);
    assert_eq!(parse_log_level(Some("WARN".to_string())), 2);
    assert_eq!(parse_log_level(Some("Info".to_string())), 3);
    assert_eq!(parse_log_level(Some("dEbUg".to_string())), 4);
    assert_eq!(parse_log_level(Some("trace".to_string())), 0);
    assert_eq!(parse_log_level(Some(" debug".to_string())), 0);
    assert_eq!(parse_log_level(Some(String::new())), 0);
}

#[test]
fn lowercase_ascii_only() {
    assert_eq!(to_ascii_lowercase("AbC-Ä"), "abc-Ä");
    assert_eq!(to_ascii_lowercase("ÉRROR"), "Érror");
    assert_eq!(parse_log_level(Some("ÉRROR".to_string())), 0);
}
