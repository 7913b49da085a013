use vstd::prelude::*;

verus! {

/// A request for one video's metadata.
#[derive(Debug, Clone)]
pub struct VideoRequest {
    pub url: String,
    pub recaptcha_token: Option<String>,
}

/// One downloadable variant of a video, as offered to the client.
#[derive(Debug, Clone)]
pub struct FormatOption {
    pub format_id: String,
    pub label: String,
    pub quality: String,
    pub ext: String,
    pub filesize: Option<u64>,
    pub height: Option<u32>,
    pub width: Option<u32>,
}

/// Everything the client is told about one video.
#[derive(Debug, Clone)]
pub struct VideoInfo {
    pub id: String,
    pub title: String,
    pub author: String,
    pub description: String,
    pub duration: Option<u32>,
    pub view_count: Option<u64>,
    pub like_count: Option<u64>,
    pub share_count: Option<u64>,
    pub comment_count: Option<u64>,
    pub thumbnail_url: Option<String>,
    pub video_url: String,
    pub original_url: String,
    pub available_formats: Vec<FormatOption>,
    /// Seconds since the Unix epoch, UTC.
    pub created_at: i64,
}

/// A request to download one format of a video.
#[derive(Debug, Clone)]
pub struct DownloadRequest {
    pub url: String,
    pub format_id: String,
    pub recaptcha_token: Option<String>,
}

/// A request about a whole profile.
#[derive(Debug, Clone)]
pub struct ProfileDownloadRequest {
    pub profile_url: String,
    pub recaptcha_token: Option<String>,
}

/// A request to download some videos of a profile.
#[derive(Debug, Clone)]
pub struct SelectiveProfileDownloadRequest {
    pub profile_url: String,
    pub selected_video_urls: Vec<String>,
    pub recaptcha_token: Option<String>,
}

/// One video of a profile listing.
#[derive(Debug, Clone)]
pub struct ProfileVideoInfo {
    pub url: String,
    pub id: String,
    pub title: String,
    pub thumbnail_url: Option<String>,
    /// Length in milliseconds.
    pub duration_ms: Option<u64>,
    pub view_count: Option<u64>,
    pub upload_date: Option<String>,
}

/// Summary of a profile with its full video list.
#[derive(Debug, Clone)]
pub struct ProfileInfo {
    pub username: String,
    pub display_name: Option<String>,
    pub video_count: Option<u64>,
    pub estimated_zip_size: Option<u64>,
    pub total_downloadable_videos: u32,
    pub videos: Vec<ProfileVideoInfo>,
}

/// Query of the format-specific streaming endpoint.
#[derive(Debug, Clone)]
pub struct StreamDownloadQuery {
    pub url: String,
    pub format_id: String,
    pub recaptcha_token: Option<String>,
}

/// Query of the audio streaming endpoint.
#[derive(Debug, Clone)]
pub struct AudioStreamQuery {
    pub url: String,
    pub recaptcha_token: Option<String>,
}

/// Query of the archive streaming endpoint: the archive's full path.
#[derive(Debug, Clone)]
pub struct ProfileStreamQuery {
    pub zip_path: String,
}

/// The state of a download as reported to the client.
#[derive(Debug, Clone)]
pub struct DownloadResponse {
    /// The download's UUID, as its 128-bit value.
    pub download_id: u128,
    pub status: DownloadStatus,
    pub file_url: Option<String>,
    pub filename: String,
    pub file_size: Option<u64>,
    pub progress: u8,
}

/// The form sent to the CAPTCHA verification service.
#[derive(Debug, Clone)]
pub struct RecaptchaVerifyRequest {
    pub secret: String,
    pub response: String,
    pub remoteip: Option<String>,
}

/// Requested quality of a download.
#[derive(Debug, Clone, Copy, PartialEq, Eq, Structural)]
pub enum VideoQuality {
    High,
    Medium,
    Low,
}

impl Default for VideoQuality {
    fn default() -> (r: Self)
        ensures
            r == VideoQuality::High,
    {
        VideoQuality::High
    }
}

/// Progress of a download.
#[derive(Debug, Clone, Copy, PartialEq, Eq, Structural)]
pub enum DownloadStatus {
    Pending,
    Downloading,
    Completed,
    Failed,
}

/// The JSON body of an error response.
#[derive(Debug, Clone)]
pub struct ApiError {
    pub error: String,
    pub message: String,
    pub code: u16,
}

impl ApiError {
    pub fn new(error: &str, message: &str, code: u16) -> (r: Self)
        ensures
            r.error@ == error@,
            r.message@ == message@,
            r.code == code,
    {
        ApiError { error: error.to_string(), message: message.to_string(), code }
    }
}

} // verus!
