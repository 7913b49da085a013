use vstd::prelude::*;

verus! {

/// Why a pipeline failed, with a message for the client.
#[derive(Debug, Clone)]
pub enum ServiceError {
    /// A malformed or unsupported URL, or an empty selection.
    InvalidInput(String),
    /// A format identifier that the video does not offer.
    InvalidFormat(String),
    /// The extraction tool is missing or does not work.
    DependencyUnavailable(String),
    /// The extraction tool failed, or its output could not be read.
    UpstreamProcessError(String),
    /// A filesystem or pipe failure.
    IoError(String),
    /// A batch ended with no video file.
    NoVideosDownloaded(String),
    /// The single invocation of a bulk batch failed.
    BatchDownloadFailed(String),
    /// The archive could not be written.
    ArchiveBuildError(String),
}

impl ServiceError {
    /// The message carried by the error.
    pub open spec fn message_view(&self) -> Seq<char> {
        match self {
            ServiceError::InvalidInput(m) => m@,
            ServiceError::InvalidFormat(m) => m@,
            ServiceError::DependencyUnavailable(m) => m@,
            ServiceError::UpstreamProcessError(m) => m@,
            ServiceError::IoError(m) => m@,
            ServiceError::NoVideosDownloaded(m) => m@,
            ServiceError::BatchDownloadFailed(m) => m@,
            ServiceError::ArchiveBuildError(m) => m@,
        }
    }

    /// A copy of the error.
    pub fn duplicate(&self) -> (r: ServiceError)
        ensures
            r == *self,
    {
        match self {
            ServiceError::InvalidInput(m) => ServiceError::InvalidInput(m.clone()),
            ServiceError::InvalidFormat(m) => ServiceError::InvalidFormat(m.clone()),
            ServiceError::DependencyUnavailable(m) => ServiceError::DependencyUnavailable(m.clone()),
            ServiceError::UpstreamProcessError(m) => ServiceError::UpstreamProcessError(m.clone()),
            ServiceError::IoError(m) => ServiceError::IoError(m.clone()),
            ServiceError::NoVideosDownloaded(m) => ServiceError::NoVideosDownloaded(m.clone()),
            ServiceError::BatchDownloadFailed(m) => ServiceError::BatchDownloadFailed(m.clone()),
            ServiceError::ArchiveBuildError(m) => ServiceError::ArchiveBuildError(m.clone()),
        }
    }

    pub fn message(&self) -> (r: &String)
        ensures
            r@ == self.message_view(),
    {
        match self {
            ServiceError::InvalidInput(m) => m,
            ServiceError::InvalidFormat(m) => m,
            ServiceError::DependencyUnavailable(m) => m,
            ServiceError::UpstreamProcessError(m) => m,
            ServiceError::IoError(m) => m,
            ServiceError::NoVideosDownloaded(m) => m,
            ServiceError::BatchDownloadFailed(m) => m,
            ServiceError::ArchiveBuildError(m) => m,
        }
    }
}

} // verus!
