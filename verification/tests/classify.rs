use static_httpd::classify::{classify, get_content_type, is_text_mode};

#[test]
fn classify_pairs_the_mime_string_with_its_read_mode() {
    assert_eq!(classify("/index.html"), ("text/html; charset=utf8", true));
    assert_eq!(classify("/data.csv"), ("text/csv; charset=utf8", true));
    assert_eq!(classify("/notes.txt"), ("text/plain; charset=utf8", true));
    assert_eq!(classify("/readme"), ("text/plain", true));
    assert_eq!(classify("/odd.xyz"), ("text/plain; charset=utf8", true));
    assert_eq!(classify("/app.js"), ("text/javascript", false));
    assert_eq!(classify("/style.css"), ("text/css; charset=utf8", false));
    assert_eq!(classify("/logo.png"), ("image/png", false));
    assert_eq!(classify("/doc.pdf"), ("application/pdf", false));
}

#[test]
fn known_extensions_classify_to_documented_mime_strings() {
    assert_eq!(get_content_type("/a.gif"), "image/gif");
    assert_eq!(get_content_type("/a.jpg"), "image/jpeg");
    assert_eq!(get_content_type("/a.jpeg"), "image/jpeg");
    assert_eq!(get_content_type("/a.png"), "image/png");
    assert_eq!(get_content_type("/a.pdf"), "application/pdf");
    assert_eq!(get_content_type("/a.ttf"), "font/ttf");
    assert_eq!(get_content_type("/a.woff"), "font/woff");
    assert_eq!(get_content_type("/a.woff2"), "font/woff2");
    assert_eq!(get_content_type("/a.js"), "text/javascript");
    assert_eq!(get_content_type("/a.csv"), "text/csv; charset=utf8");
    assert_eq!(get_content_type("/a.css"), "text/css; charset=utf8");
    assert_eq!(get_content_type("/a.htm"), "text/html; charset=utf8");
    assert_eq!(get_content_type("/a.html"), "text/html; charset=utf8");
    assert_eq!(get_content_type("/a.txt"), "text/plain; charset=utf8");
}

#[test]
fn extension_is_taken_after_the_last_dot_of_the_final_segment() {
    assert_eq!(get_content_type("/archive.tar.png"), "image/png");
    assert_eq!(get_content_type("/dir.d/page.html"), "text/html; charset=utf8");
}

#[test]
fn missing_extension_defaults_to_bare_text_plain() {
    assert_eq!(get_content_type(""), "text/plain");
    assert_eq!(get_content_type("/"), "text/plain");
    assert_eq!(get_content_type("/readme"), "text/plain");
    assert_eq!(get_content_type("/dir.d/readme"), "text/plain");
}

#[test]
fn unknown_extension_defaults_to_text_plain_with_charset() {
    assert_eq!(get_content_type("/a.xyz"), "text/plain; charset=utf8");
    assert_eq!(get_content_type("/a.PNG"), "text/plain; charset=utf8");
    assert_eq!(get_content_type("/a."), "text/plain; charset=utf8");
}

#[test]
fn exactly_five_mime_strings_select_the_text_decoding_path() {
    assert!(is_text_mode("text/plain"));
    assert!(is_text_mode("text/plain; charset=utf8"));
    assert!(is_text_mode("text/html; charset=utf8"));
    assert!(is_text_mode("text/csv; charset=utf8"));
    assert!(is_text_mode("text/txt; charset=utf8"));
}

#[test]
fn text_labeled_mime_outside_the_five_set_is_binary_mode() {
    assert!(!is_text_mode("text/javascript"));
    assert!(!is_text_mode("text/css; charset=utf8"));
    assert!(!is_text_mode("image/png"));
    assert!(!is_text_mode("text/html"));
    assert!(!is_text_mode(""));
}
