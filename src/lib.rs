/// The batch pipeline: enumerate-download-archive as a state machine that a
/// runner drives, with unconditional cleanup of the session directory.
pub mod batch;
/// Server settings and their defaults.
pub mod config;
/// The pipelines' error taxonomy.
pub mod errors;
/// Which download formats a video offers.
pub mod formats;
/// Error responses, download headers and deferred archive deletion.
pub mod http;
/// Thumbnails, profile listings and video descriptions built from the
/// extraction tool's records.
pub mod metadata;
/// Rate limiting, client addresses and security headers.
pub mod middleware;
/// Request and response data.
pub mod models;
/// The CAPTCHA verification rules.
pub mod recaptcha;
/// Single-video requests: validation, the tool probe and stream planning.
pub mod single;
/// The teardown contract of a process-backed byte stream.
pub mod stream;
/// Text helpers with the semantics of their std counterparts.
pub mod text;
/// Recognising video and profile URLs of the platform.
pub mod url_validator;
