use ollama_chat::media::{detect_media_kind, MediaKind};
use ollama_chat::protocol::Message;
use ollama_chat::routes::{next_theme, Route};
use ollama_chat::text::{decimal_text, prefixed, starts_with};

#[test]
fn decimal_rendering() {
    assert_eq!(decimal_text(0), "0");
    assert_eq!(decimal_text(7), "7");
    assert_eq!(decimal_text(10), "10");
    assert_eq!(decimal_text(500), "500");
    assert_eq!(decimal_text(65535), "65535");
}

#[test]
fn prefix_helpers() {
    assert_eq!(prefixed("API Error: ", &"x".to_string()), "API Error: x");
    assert!(starts_with("image/png", "image/"));
    assert!(starts_with("abc", ""));
    assert!(!starts_with("imag", "image/"));
    assert!(!starts_with("video/mp4", "image/"));
}

#[test]
fn media_kinds() {
    assert_eq!(detect_media_kind("image/png"), Some(MediaKind::Image));
    assert_eq!(detect_media_kind("video/mp4"), Some(MediaKind::Video));
    assert_eq!(detect_media_kind("audio/ogg"), None);
    assert_eq!(detect_media_kind(""), None);
    assert_eq!(detect_media_kind("image"), None);
}

#[test]
fn theme_toggles() {
    assert_eq!(next_theme("light"), "dark");
    assert_eq!(next_theme("dark"), "light");
    assert_eq!(next_theme(""), "light");
}

#[test]
fn media_section_routes() {
    assert!(Route::Media.is_media_section());
    assert!(Route::Video.is_media_section());
    assert!(Route::Image.is_media_section());
    assert!(!Route::Home.is_media_section());
    assert!(!Route::Chat.is_media_section());
}

#[test]
fn message_constructors() {
    let u = Message::user("hi".to_string());
    assert_eq!(u.role, "user");
    assert_eq!(u.content, "hi");
    let s = Message::system("oops".to_string());
    assert_eq!(s.role, "system");
    assert_eq!(s.duplicate(), s);
}
