use tiktok_downloader::config::{AppConfig, ConfigSettings};
use tiktok_downloader::errors::ServiceError;
use tiktok_downloader::http::{
    archive_stream_url, attachment_disposition, recaptcha_gate, AppError, CleanupSchedule,
};
use tiktok_downloader::middleware::{client_ip_from_forwarded, security_headers, RateLimiter};
use tiktok_downloader::models::{ApiError, VideoQuality};
use tiktok_downloader::recaptcha::RecaptchaService;
use tiktok_downloader::text::{decimal_string, parse_unsigned, split_lines, trimmed};

#[test]
fn test_recaptcha_service_creation() {
    let service = RecaptchaService::new(Some("test_secret".to_string()));
    assert!(service.is_enabled());

    let service_no_key = RecaptchaService::new(None);
    assert!(!service_no_key.is_enabled());
}

#[test]
fn test_error_message_generation() {
    let error_codes = vec!["invalid-input-response".to_string()];
    let message = RecaptchaService::get_error_message(Some(&error_codes));
    assert!(message.contains("reCAPTCHA verification failed"));

    let message_empty = RecaptchaService::get_error_message(None);
    assert!(message_empty.contains("reCAPTCHA verification failed"));
}

#[test]
fn recaptcha_messages_and_verification_steps() {
    let codes = vec!["timeout-or-duplicate".to_string()];
    assert_eq!(
        RecaptchaService::get_error_message(Some(&codes)),
        "reCAPTCHA has expired. Please refresh and try again"
    );
    let codes = vec!["missing-input-response".to_string()];
    assert_eq!(RecaptchaService::get_error_message(Some(&codes)), "Please complete the reCAPTCHA challenge");

    let off = RecaptchaService::new(None);
    assert!(off.prepare_verification("tok", None).unwrap().is_none());
    let on = RecaptchaService::new(Some("k".to_string()));
    assert!(on.prepare_verification("", None).is_err());
    let request = on.prepare_verification("tok", Some("1.2.3.4".to_string())).unwrap().unwrap();
    assert_eq!(request.secret, "k");
    assert_eq!(request.response, "tok");
    assert_eq!(request.remoteip, Some("1.2.3.4".to_string()));
    assert_eq!(RecaptchaService::verification_outcome(true, true), Ok(true));
    assert!(RecaptchaService::verification_outcome(true, false).is_err());
    assert!(RecaptchaService::verification_outcome(false, true).is_err());

    assert!(matches!(recaptcha_gate(false, None), Ok(false)));
    assert!(matches!(recaptcha_gate(true, None), Err(AppError::BadRequest(_))));
    let token = "t".to_string();
    assert!(matches!(recaptcha_gate(true, Some(&token)), Ok(true)));
}

fn no_settings() -> ConfigSettings {
    ConfigSettings {
        port: None,
        host: None,
        max_file_size: None,
        temp_dir: None,
        cleanup_interval: None,
        rate_limit_requests: None,
        rate_limit_window: None,
        cors_origins: None,
        recaptcha_secret_key: None,
    }
}

#[test]
fn configuration_defaults_and_overrides() {
    let config = AppConfig::default();
    assert_eq!(config.socket_addr(), "127.0.0.1:3001");
    assert_eq!(config.max_file_size, 104857600);
    assert_eq!(config.cors_origins, vec!["http://localhost:3000"]);
    assert!(!config.is_recaptcha_enabled());

    let mut settings = no_settings();
    settings.port = Some("8080".to_string());
    settings.host = Some("0.0.0.0".to_string());
    settings.rate_limit_requests = Some("not a number".to_string());
    settings.rate_limit_window = Some("+90".to_string());
    settings.cors_origins = Some(" https://a.example , https://b.example,".to_string());
    settings.recaptcha_secret_key = Some("your_recaptcha_secret_key_here".to_string());
    let config = AppConfig::from_settings(&settings);
    assert_eq!(config.socket_addr(), "0.0.0.0:8080");
    assert_eq!(config.rate_limit_requests, 10);
    assert_eq!(config.rate_limit_window, 90);
    assert_eq!(config.cors_origins, vec!["https://a.example", "https://b.example", ""]);
    assert!(!config.is_recaptcha_enabled());

    settings.port = Some("70000".to_string());
    settings.recaptcha_secret_key = Some("real".to_string());
    let config = AppConfig::from_settings(&settings);
    assert_eq!(config.port, 3001);
    assert!(config.is_recaptcha_enabled());
}

#[test]
fn rate_limiter_allows_up_to_the_limit_within_the_window() {
    let mut limiter = RateLimiter::new(2, 60);
    assert!(limiter.check_rate_limit_at("1.1.1.1", 100));
    assert!(limiter.check_rate_limit_at("1.1.1.1", 110));
    assert!(!limiter.check_rate_limit_at("1.1.1.1", 120));
    assert!(limiter.check_rate_limit_at("2.2.2.2", 120));
    assert!(limiter.check_rate_limit_at("1.1.1.1", 161));
    assert!(!limiter.check_rate_limit_at("1.1.1.1", 165));
    let mut closed = RateLimiter::new(0, 60);
    assert!(!closed.check_rate_limit_at("1.1.1.1", 1));
    assert!(RateLimiter::new(10, 60).check_rate_limit("3.3.3.3"));
}

#[test]
fn forwarded_header_names_the_client() {
    assert_eq!(client_ip_from_forwarded(Some(" 10.0.0.1 , 10.0.0.2")), "10.0.0.1");
    assert_eq!(client_ip_from_forwarded(None), "unknown");
    assert_eq!(security_headers().len(), 5);
    assert_eq!(security_headers()[1], ("X-Frame-Options", "DENY"));
}

#[test]
fn errors_map_to_responses() {
    let bad = AppError::from_service(ServiceError::InvalidInput("Invalid TikTok URL provided".to_string()));
    assert_eq!(bad.status_code(), 400);
    let body = bad.to_api_error();
    assert_eq!(body.error, "bad_request");
    assert_eq!(body.message, "Invalid TikTok URL provided");
    let internal = AppError::from_service(ServiceError::BatchDownloadFailed("x".to_string()));
    let body = internal.to_api_error();
    assert_eq!(body.code, 500);
    assert_eq!(body.message, "An error occurred: x");
    assert_eq!(AppError::Unauthorized("no".to_string()).status_code(), 401);
    let e = ApiError::new("kind", "msg", 418);
    assert_eq!((e.error.as_str(), e.message.as_str(), e.code), ("kind", "msg", 418));
    assert_eq!(VideoQuality::default(), VideoQuality::High);
}

#[test]
fn download_headers_and_links() {
    assert_eq!(attachment_disposition("a.mp4"), "attachment; filename=\"a.mp4\"");
    assert_eq!(
        archive_stream_url("/srv/d\\x.zip"),
        "/api/profile/stream?zip_path=%2Fsrv%2Fd%5Cx.zip"
    );
}

#[test]
fn archives_are_deleted_once_due() {
    let mut schedule = CleanupSchedule::new();
    assert_eq!(schedule.schedule("/a.zip".to_string(), 100), 130);
    schedule.schedule("/b.zip".to_string(), 120);
    assert!(schedule.take_due(129).is_empty());
    assert_eq!(schedule.take_due(130), vec!["/a.zip"]);
    assert_eq!(schedule.take_due(1000), vec!["/b.zip"]);
    assert!(schedule.pending.is_empty());
}

#[test]
fn text_helpers_follow_std() {
    assert_eq!(decimal_string(0), "0");
    assert_eq!(decimal_string(1234567890123), "1234567890123");
    assert_eq!(parse_unsigned("0042", 100), Some(42));
    assert_eq!(parse_unsigned("+7", 100), Some(7));
    assert_eq!(parse_unsigned("101", 100), None);
    assert_eq!(parse_unsigned("", 100), None);
    assert_eq!(parse_unsigned("+", 100), None);
    assert_eq!(parse_unsigned("-1", 100), None);
    assert_eq!(parse_unsigned("18446744073709551615", u64::MAX), Some(u64::MAX));
    assert_eq!(parse_unsigned("18446744073709551616", u64::MAX), None);
    assert_eq!(trimmed("\u{3000} a b \t\n"), "a b");
    assert_eq!(split_lines("a\r\nb\n\nc\n"), vec!["a", "b", "", "c"]);
    assert!(split_lines("").is_empty());
    assert_eq!(split_lines("x\r\ny\r"), vec!["x", "y\r"]);
}
