use hwmr::config::device_metrics;
use hwmr::input::navigation_url;
use hwmr::qr::{deep_link, qr_text, PWA_DEEP_LINK};

#[test]
fn qr_text_generation() {
    let text = qr_text("http://example.com").unwrap();
    assert!(text.contains("██"));
    assert!(text.lines().count() > 10);
}

#[test]
fn deep_link_contains_only_bootstrap_data() {
    let link = deep_link([192, 168, 1, 20], 8787, &"a".repeat(32));
    assert!(link.starts_with(PWA_DEEP_LINK));
    assert!(link.contains("#connect="));
    assert!(!link.contains("token"));
}

#[test]
fn url_or_search() {
    assert_eq!(navigation_url("https://example.com"), "https://example.com");
    assert_eq!(
        navigation_url("hello world"),
        "https://www.google.com/search?q=hello+world"
    );
}

#[test]
fn mobile_viewport_metrics() {
    let metrics: serde_json::Value = serde_json::from_str(&device_metrics(390, 760)).unwrap();
    assert_eq!(metrics["mobile"], true);
    assert_eq!(metrics["width"], 390);
    assert_eq!(metrics["height"], 760);
}
