use vstd::prelude::*;

use crate::errors::ServiceError;
use crate::models::{FormatOption, VideoInfo};
use crate::text::{concat, decimal, decimal_string, push_str, same_text, views_of};
use crate::url_validator::{
    extract_tiktok_username, handle_in, is_profile_url, is_video_url, is_valid_tiktok_profile_url,
    is_valid_tiktok_url,
};

verus! {

/// Numbers the generated file names: starts at 1, never resets, wraps
/// around after the largest `u32`.
#[derive(Debug, Clone, Copy, PartialEq, Eq, Structural)]
pub struct DownloadCounter {
    pub next: u32,
}

impl DownloadCounter {
    pub fn new() -> (r: DownloadCounter)
        ensures
            r.next == 1,
    {
        DownloadCounter { next: 1 }
    }

    /// Takes the next number.
    pub fn take(&mut self) -> (r: u32)
        ensures
            r == old(self).next,
            final(self).next == (if old(self).next == u32::MAX {
                0
            } else {
                (old(self).next + 1) as u32
            }),
    {
        let r = self.next;
        self.next = if self.next == u32::MAX {
            0
        } else {
            self.next + 1
        };
        r
    }
}

/// Refuses a URL that is not a profile's, before anything runs.
pub fn check_profile_url(url: &str) -> (r: Result<(), ServiceError>)
    ensures
        r is Ok <==> is_profile_url(url@),
        r matches Err(e) ==> e is InvalidInput,
{
    if is_valid_tiktok_profile_url(url) {
        Ok(())
    } else {
        Err(ServiceError::InvalidInput("Invalid TikTok profile URL provided".to_string()))
    }
}

/// The username of a profile URL, or why there is none.
pub fn profile_username(url: &str) -> (r: Result<String, ServiceError>)
    ensures
        !is_profile_url(url@) ==> (r matches Err(e) && e is InvalidInput),
        is_profile_url(url@) ==> match handle_in(url@) {
            Some(u) => (r matches Ok(name) && name@ == u),
            None => (r matches Err(e) && e is InvalidInput),
        },
{
    match extract_tiktok_username(url) {
        Some(name) => Ok(name),
        None => Err(
            ServiceError::InvalidInput("Failed to extract username from profile URL".to_string()),
        ),
    }
}

/// Refuses a URL that is not a video's, before anything runs.
pub fn check_video_url(url: &str) -> (r: Result<(), ServiceError>)
    ensures
        r is Ok <==> is_video_url(url@),
        r matches Err(e) ==> e is InvalidInput,
{
    if is_valid_tiktok_url(url) {
        Ok(())
    } else {
        Err(ServiceError::InvalidInput("Invalid TikTok URL provided".to_string()))
    }
}

/// Whether the extraction tool can be used: found on the search path, and
/// answering its version probe.
pub fn tool_probe_verdict(found: bool, version_ok: bool) -> (r: Result<(), ServiceError>)
    ensures
        r is Ok <==> found && version_ok,
        r matches Err(e) ==> e is DependencyUnavailable,
{
    if !found {
        Err(
            ServiceError::DependencyUnavailable(
                "yt-dlp is not installed or not found in PATH. Please install it from: https://github.com/yt-dlp/yt-dlp".to_string(),
            ),
        )
    } else if !version_ok {
        Err(
            ServiceError::DependencyUnavailable(
                "yt-dlp is installed but not working properly".to_string(),
            ),
        )
    } else {
        Ok(())
    }
}

pub open spec fn metadata_args_spec(url: Seq<char>) -> Seq<Seq<char>> {
    seq!["--dump-json"@, "--no-download"@, "--no-warnings"@, url]
}

/// The tool arguments that dump one video's metadata without downloading it.
pub fn metadata_arguments(url: &str) -> (r: Vec<String>)
    ensures
        views_of(r@) == metadata_args_spec(url@),
{
    let mut v: Vec<String> = Vec::new();
    v.push("--dump-json".to_string());
    v.push("--no-download".to_string());
    v.push("--no-warnings".to_string());
    v.push(url.to_string());
    assert(views_of(v@) =~= metadata_args_spec(url@));
    v
}

/// Accepts a metadata run that succeeded; a failed one is an upstream error
/// that carries the tool's own words.
pub fn check_metadata_run(success: bool, stderr: &str) -> (r: Result<(), ServiceError>)
    ensures
        r is Ok <==> success,
        r matches Err(e) ==> (e matches ServiceError::UpstreamProcessError(m) && m@
            == "Failed to extract video metadata: "@ + stderr@),
{
    if success {
        Ok(())
    } else {
        Err(metadata_failure(stderr))
    }
}

/// The error of a failed metadata run, carrying the tool's own words.
pub fn metadata_failure(stderr: &str) -> (r: ServiceError)
    ensures
        r matches ServiceError::UpstreamProcessError(m) && m@ == "Failed to extract video metadata: "@
            + stderr@,
{
    ServiceError::UpstreamProcessError(concat("Failed to extract video metadata: ", stderr))
}

/// How to start one streaming download: the tool's arguments and the file
/// name offered to the client.
#[derive(Debug, Clone)]
pub struct StreamPlan {
    pub args: Vec<String>,
    pub filename: String,
}

pub open spec fn offers_format(formats: Seq<FormatOption>, format_id: Seq<char>) -> bool {
    exists|i: int| 0 <= i < formats.len() && (#[trigger] formats[i]).format_id@ == format_id
}

pub fn has_format(formats: &Vec<FormatOption>, format_id: &str) -> (r: bool)
    ensures
        r == offers_format(formats@, format_id@),
{
    let mut j: usize = 0;
    while j < formats.len()
        invariant
            j <= formats@.len(),
            forall|i: int| 0 <= i < j ==> (#[trigger] formats@[i]).format_id@ != format_id@,
        decreases formats.len() - j,
    {
        if same_text(formats[j].format_id.as_str(), format_id) {
            assert(formats@[j as int].format_id@ == format_id@);
            return true;
        }
        j = j + 1;
    }
    false
}

pub open spec fn video_stream_args_spec(format_id: Seq<char>, url: Seq<char>) -> Seq<Seq<char>> {
    seq![
        "--no-warnings"@,
        "--no-post-overwrites"@,
        "--no-embed-subs"@,
        "--no-embed-chapters"@,
        "--no-embed-info-json"@,
        "-f"@,
        format_id,
        "-o"@,
        "-"@,
        url,
    ]
}

pub open spec fn audio_stream_args_spec(url: Seq<char>) -> Seq<Seq<char>> {
    seq![
        "-x"@,
        "--audio-format"@,
        "mp3"@,
        "--no-warnings"@,
        "--no-post-overwrites"@,
        "-o"@,
        "-"@,
        url,
    ]
}

/// Plans the stream of one format of a video: the format must be one that
/// the video offers; the tool writes it to its standard output.
pub fn plan_video_stream(
    url: &str,
    format_id: &str,
    info: &VideoInfo,
    counter: &mut DownloadCounter,
) -> (r: Result<StreamPlan, ServiceError>)
    ensures
        !offers_format(info.available_formats@, format_id@) ==> (r matches Err(e)
            && e is InvalidFormat) && *final(counter) == *old(counter),
        offers_format(info.available_formats@, format_id@) ==> (r matches Ok(plan)
            && views_of(plan.args@) == video_stream_args_spec(format_id@, url@) && plan.filename@
            == "topclipdowload"@ + decimal(old(counter).next as nat) + ".mp4"@)
            && final(counter).next == (if old(counter).next == u32::MAX {
            0
        } else {
            (old(counter).next + 1) as u32
        }),
{
    if !has_format(&info.available_formats, format_id) {
        return Err(ServiceError::InvalidFormat(concat("Invalid format_id: ", format_id)));
    }
    let n = counter.take();
    let mut filename = "topclipdowload".to_string();
    let digits = decimal_string(n as u128);
    push_str(&mut filename, digits.as_str());
    push_str(&mut filename, ".mp4");
    let mut args: Vec<String> = Vec::new();
    args.push("--no-warnings".to_string());
    args.push("--no-post-overwrites".to_string());
    args.push("--no-embed-subs".to_string());
    args.push("--no-embed-chapters".to_string());
    args.push("--no-embed-info-json".to_string());
    args.push("-f".to_string());
    args.push(format_id.to_string());
    args.push("-o".to_string());
    args.push("-".to_string());
    args.push(url.to_string());
    assert(views_of(args@) =~= video_stream_args_spec(format_id@, url@));
    Ok(StreamPlan { args, filename })
}

/// Plans the audio-only stream of a video, converted to MP3.
pub fn plan_audio_stream(url: &str, counter: &mut DownloadCounter) -> (r: StreamPlan)
    ensures
        views_of(r.args@) == audio_stream_args_spec(url@),
        r.filename@ == "tiktok_audio_"@ + decimal(old(counter).next as nat) + ".mp3"@,
        final(counter).next == (if old(counter).next == u32::MAX {
            0
        } else {
            (old(counter).next + 1) as u32
        }),
{
    let n = counter.take();
    let mut filename = "tiktok_audio_".to_string();
    let digits = decimal_string(n as u128);
    push_str(&mut filename, digits.as_str());
    push_str(&mut filename, ".mp3");
    let mut args: Vec<String> = Vec::new();
    args.push("-x".to_string());
    args.push("--audio-format".to_string());
    args.push("mp3".to_string());
    args.push("--no-warnings".to_string());
    args.push("--no-post-overwrites".to_string());
    args.push("-o".to_string());
    args.push("-".to_string());
    args.push(url.to_string());
    assert(views_of(args@) =~= audio_stream_args_spec(url@));
    StreamPlan { args, filename }
}

} // verus!
