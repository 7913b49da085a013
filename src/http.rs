use vstd::prelude::*;

use crate::errors::ServiceError;
use crate::models::ApiError;
use crate::text::{chars_of, concat, push_char, push_str, views_of};

verus! {

/// A failed request, as the client sees it.
#[derive(Debug, Clone)]
pub enum AppError {
    Internal(String),
    BadRequest(String),
    Unauthorized(String),
}

pub const VIDEO_CONTENT_TYPE: &'static str = "video/mp4";

pub const AUDIO_CONTENT_TYPE: &'static str = "audio/mpeg";

pub const ARCHIVE_CONTENT_TYPE: &'static str = "application/zip";

/// Seconds an archive stays on disk after its download began.
pub const ARCHIVE_GRACE_SECONDS: u64 = 30;

impl AppError {
    /// Bad input is the client's fault; anything else is the server's.
    pub fn from_service(e: ServiceError) -> (r: AppError)
        ensures
            (e is InvalidInput || e is InvalidFormat) ==> (r matches AppError::BadRequest(m)
                && m@ == e.message_view()),
            !(e is InvalidInput || e is InvalidFormat) ==> (r matches AppError::Internal(m)
                && m@ == e.message_view()),
    {
        match e {
            ServiceError::InvalidInput(m) => AppError::BadRequest(m),
            ServiceError::InvalidFormat(m) => AppError::BadRequest(m),
            ServiceError::DependencyUnavailable(m) => AppError::Internal(m),
            ServiceError::UpstreamProcessError(m) => AppError::Internal(m),
            ServiceError::IoError(m) => AppError::Internal(m),
            ServiceError::NoVideosDownloaded(m) => AppError::Internal(m),
            ServiceError::BatchDownloadFailed(m) => AppError::Internal(m),
            ServiceError::ArchiveBuildError(m) => AppError::Internal(m),
        }
    }

    pub fn status_code(&self) -> (r: u16)
        ensures
            r == match self {
                AppError::Internal(_) => 500u16,
                AppError::BadRequest(_) => 400u16,
                AppError::Unauthorized(_) => 401u16,
            },
    {
        match self {
            AppError::Internal(_) => 500,
            AppError::BadRequest(_) => 400,
            AppError::Unauthorized(_) => 401,
        }
    }

    /// The body of the error response.
    pub fn to_api_error(&self) -> (r: ApiError)
        ensures
            r.code == self.status_code_spec(),
            r.error@ == match self {
                AppError::Internal(_) => "internal_error"@,
                AppError::BadRequest(_) => "bad_request"@,
                AppError::Unauthorized(_) => "unauthorized"@,
            },
            r.message@ == match self {
                AppError::Internal(m) => "An error occurred: "@ + m@,
                AppError::BadRequest(m) => m@,
                AppError::Unauthorized(m) => m@,
            },
    {
        match self {
            AppError::Internal(m) => {
                let message = concat("An error occurred: ", m.as_str());
                ApiError::new("internal_error", message.as_str(), 500)
            },
            AppError::BadRequest(m) => ApiError::new("bad_request", m.as_str(), 400),
            AppError::Unauthorized(m) => ApiError::new("unauthorized", m.as_str(), 401),
        }
    }

    pub open spec fn status_code_spec(&self) -> u16 {
        match self {
            AppError::Internal(_) => 500u16,
            AppError::BadRequest(_) => 400u16,
            AppError::Unauthorized(_) => 401u16,
        }
    }
}

/// Whether a request must pass CAPTCHA verification: not when it is not
/// enabled; a request without a token is then refused.
pub fn recaptcha_gate(enabled: bool, token: Option<&String>) -> (r: Result<bool, AppError>)
    ensures
        !enabled ==> r == Ok::<bool, AppError>(false),
        enabled && token is None ==> (r matches Err(e) && e is BadRequest),
        enabled && token is Some ==> r == Ok::<bool, AppError>(true),
{
    if !enabled {
        return Ok(false);
    }
    match token {
        None => Err(
            AppError::BadRequest(
                "reCAPTCHA verification required but no token provided".to_string(),
            ),
        ),
        Some(_) => Ok(true),
    }
}

/// The `Content-Disposition` value that offers `filename` as a download.
pub fn attachment_disposition(filename: &str) -> (r: String)
    ensures
        r@ == "attachment; filename=\""@ + filename@ + "\""@,
{
    let mut s = concat("attachment; filename=\"", filename);
    push_str(&mut s, "\"");
    s
}

/// `path` with each `/` written `%2F` and each `\` written `%5C`.
pub open spec fn escape_path(path: Seq<char>) -> Seq<char>
    decreases path.len(),
{
    if path.len() == 0 {
        Seq::empty()
    } else {
        escape_path(path.drop_last()) + if path.last() == '/' {
            "%2F"@
        } else if path.last() == '\\' {
            "%5C"@
        } else {
            seq![path.last()]
        }
    }
}

/// Where the client fetches an archive: the streaming path with the
/// archive's full path as its query.
pub fn archive_stream_url(zip_path: &str) -> (r: String)
    ensures
        r@ == "/api/profile/stream?zip_path="@ + escape_path(zip_path@),
{
    let cs = chars_of(zip_path);
    let mut s = "/api/profile/stream?zip_path=".to_string();
    let mut j: usize = 0;
    assert(cs@.subrange(0, 0) =~= Seq::<char>::empty());
    while j < cs.len()
        invariant
            cs@ == zip_path@,
            j <= cs@.len(),
            s@ == "/api/profile/stream?zip_path="@ + escape_path(cs@.subrange(0, j as int)),
        decreases cs.len() - j,
    {
        let ghost before = s@;
        assert(cs@.subrange(0, j + 1).drop_last() =~= cs@.subrange(0, j as int));
        let c = cs[j];
        if c == '/' {
            push_str(&mut s, "%2F");
        } else if c == '\\' {
            push_str(&mut s, "%5C");
        } else {
            push_char(&mut s, c);
        }
        j = j + 1;
        assert(s@ =~= "/api/profile/stream?zip_path="@ + escape_path(cs@.subrange(0, j as int)));
    }
    assert(cs@.subrange(0, j as int) =~= cs@);
    s
}

/// Archives waiting for their deferred deletion, each with the time it is
/// due (Unix seconds). The owner calls `take_due` when it wakes up.
#[derive(Debug, Clone)]
pub struct CleanupSchedule {
    pub pending: Vec<(String, u64)>,
}

impl CleanupSchedule {
    pub fn new() -> (r: CleanupSchedule)
        ensures
            r.pending@.len() == 0,
    {
        CleanupSchedule { pending: Vec::new() }
    }

    /// Schedules the deletion of `path` the grace period after `now`.
    pub fn schedule(&mut self, path: String, now: u64) -> (due: u64)
        ensures
            due == if now <= u64::MAX - ARCHIVE_GRACE_SECONDS {
                (now + ARCHIVE_GRACE_SECONDS) as u64
            } else {
                u64::MAX
            },
            final(self).pending@ == old(self).pending@.push((path, due)),
    {
        let due = if now <= u64::MAX - ARCHIVE_GRACE_SECONDS {
            now + ARCHIVE_GRACE_SECONDS
        } else {
            u64::MAX
        };
        self.pending.push((path, due));
        due
    }

    /// Removes and returns the paths due at `now`, in the order scheduled;
    /// the others stay, in order.
    pub fn take_due(&mut self, now: u64) -> (r: Vec<String>)
        ensures
            views_of(r@) == due_paths(old(self).pending@, now),
            final(self).pending@ == not_due(old(self).pending@, now),
    {
        let ghost all = self.pending@;
        let mut due: Vec<String> = Vec::new();
        let mut rest: Vec<(String, u64)> = Vec::new();
        let mut taken: Vec<(String, u64)> = Vec::new();
        std::mem::swap(&mut taken, &mut self.pending);
        let mut j: usize = 0;
        assert(all.subrange(0, 0) =~= Seq::<(String, u64)>::empty());
        assert(views_of(due@) =~= Seq::<Seq<char>>::empty());
        while j < taken.len()
            invariant
                taken@ == all,
                j <= all.len(),
                views_of(due@) == due_paths(all.subrange(0, j as int), now),
                rest@ == not_due(all.subrange(0, j as int), now),
            decreases taken.len() - j,
        {
            assert(all.subrange(0, j + 1).drop_last() =~= all.subrange(0, j as int));
            let p = taken[j].0.clone();
            let t = taken[j].1;
            if t <= now {
                let ghost before = due@;
                due.push(p);
                assert(views_of(due@) =~= views_of(before).push(p@));
            } else {
                rest.push((p, t));
            }
            j = j + 1;
        }
        assert(all.subrange(0, j as int) =~= all);
        self.pending = rest;
        due
    }
}

/// The paths of the entries due at `now`, in order.
pub open spec fn due_paths(es: Seq<(String, u64)>, now: u64) -> Seq<Seq<char>>
    decreases es.len(),
{
    if es.len() == 0 {
        Seq::empty()
    } else {
        let rest = due_paths(es.drop_last(), now);
        if es.last().1 <= now {
            rest.push(es.last().0@)
        } else {
            rest
        }
    }
}

/// The entries not yet due at `now`, in order.
pub open spec fn not_due(es: Seq<(String, u64)>, now: u64) -> Seq<(String, u64)>
    decreases es.len(),
{
    if es.len() == 0 {
        Seq::empty()
    } else {
        let rest = not_due(es.drop_last(), now);
        if es.last().1 <= now {
            rest
        } else {
            rest.push(es.last())
        }
    }
}

} // verus!
