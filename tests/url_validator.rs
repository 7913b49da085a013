use tiktok_downloader::url_validator::{
    extract_tiktok_username, is_valid_tiktok_profile_url, is_valid_tiktok_url,
    normalize_tiktok_url,
};

#[test]
fn test_valid_tiktok_urls() {
    let valid_urls = vec![
        "https://www.tiktok.com/@username/video/1234567890123456789",
        "https://tiktok.com/@username/video/1234567890123456789",
        "https://vm.tiktok.com/ZTdXXXXXX/",
        "https://www.tiktok.com/t/ZTdXXXXXX/",
    ];

    for url in valid_urls {
        assert!(is_valid_tiktok_url(url), "URL should be valid: {}", url);
    }
}

#[test]
fn test_invalid_urls() {
    let invalid_urls = vec![
        "https://youtube.com/watch?v=123",
        "https://instagram.com/p/123",
        "not-a-url",
        "https://tiktok.com/invalid",
    ];

    for url in invalid_urls {
        assert!(!is_valid_tiktok_url(url), "URL should be invalid: {}", url);
    }
}

#[test]
fn test_valid_tiktok_profile_urls() {
    let valid_profile_urls = vec![
        "https://www.tiktok.com/@username",
        "https://tiktok.com/@username",
        "https://www.tiktok.com/@user_name",
        "https://www.tiktok.com/@user.name",
        "https://www.tiktok.com/@user123",
        "https://www.tiktok.com/@username/",
    ];

    for url in valid_profile_urls {
        assert!(is_valid_tiktok_profile_url(url), "Profile URL should be valid: {}", url);
    }
}

#[test]
fn test_invalid_profile_urls() {
    let invalid_profile_urls = vec![
        "https://www.tiktok.com/@",
        "https://www.tiktok.com/username",
        "https://youtube.com/@username",
        "not-a-url",
        "https://www.tiktok.com/@username/video/123",
    ];

    for url in invalid_profile_urls {
        assert!(!is_valid_tiktok_profile_url(url), "Profile URL should be invalid: {}", url);
    }
}

#[test]
fn test_extract_username() {
    let test_cases = vec![
        ("https://www.tiktok.com/@testuser", Some("testuser".to_string())),
        ("https://tiktok.com/@user_name", Some("user_name".to_string())),
        ("https://www.tiktok.com/@user.123", Some("user.123".to_string())),
        ("https://www.tiktok.com/@username/", Some("username".to_string())),
        ("invalid-url", None),
        ("https://youtube.com/@user", None),
    ];

    for (url, expected) in test_cases {
        assert_eq!(extract_tiktok_username(url), expected, "Username extraction failed for: {}", url);
    }
}

#[test]
fn short_and_mobile_video_urls_are_accepted() {
    assert!(is_valid_tiktok_url("https://m.tiktok.com/v/123456.html"));
    assert!(!is_valid_tiktok_url("https://m.tiktok.com/v/abc.html"));
}

#[test]
fn normalizing_keeps_valid_urls_and_drops_others() {
    assert_eq!(
        normalize_tiktok_url("https://vm.tiktok.com/ZTdXXXXXX/"),
        Some("https://vm.tiktok.com/ZTdXXXXXX/".to_string())
    );
    assert_eq!(normalize_tiktok_url("https://example.com/video/1"), None);
}
