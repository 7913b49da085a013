use vstd::prelude::*;

use crate::errors::ServiceError;
use crate::text::{chars_of, concat, decimal, decimal_string, push_str, same_text, string_of, views_of};
use crate::url_validator::{extract_tiktok_username, handle_in, is_profile_url, is_valid_tiktok_profile_url};

verus! {

// ---------------------------------------------------------------- paths and names

/// `name` inside directory `dir`.
pub open spec fn join_path(dir: Seq<char>, name: Seq<char>) -> Seq<char> {
    if dir.len() == 0 {
        name
    } else if dir.last() == '/' {
        dir + name
    } else {
        dir + "/"@ + name
    }
}

pub fn join(dir: &str, name: &str) -> (r: String)
    ensures
        r@ == join_path(dir@, name@),
{
    let d = chars_of(dir);
    if d.len() == 0 {
        name.to_string()
    } else if d[d.len() - 1] == '/' {
        concat(dir, name)
    } else {
        let mut s = concat(dir, "/");
        push_str(&mut s, name);
        s
    }
}

/// The index of the last `.` of `s`.
pub open spec fn last_dot(s: Seq<char>) -> Option<int>
    decreases s.len(),
{
    if s.len() == 0 {
        None
    } else if s.last() == '.' {
        Some(s.len() - 1)
    } else {
        last_dot(s.drop_last())
    }
}

/// The extension of a file name, as `Path::extension` reads it: what follows
/// the last `.`, unless that `.` begins the name.
pub open spec fn extension(name: Seq<char>) -> Option<Seq<char>> {
    match last_dot(name) {
        Some(k) => if k > 0 {
            Some(name.subrange(k + 1, name.len() as int))
        } else {
            None
        },
        None => None,
    }
}

/// A file name whose extension is one of the video containers collected.
pub open spec fn is_video_file_name(name: Seq<char>) -> bool {
    extension(name) matches Some(e) && (e == "mp4"@ || e == "webm"@ || e == "mkv"@)
}

proof fn lemma_last_dot_bounds(s: Seq<char>)
    ensures
        last_dot(s) matches Some(k) ==> 0 <= k < s.len() && s[k] == '.',
    decreases s.len(),
{
    if s.len() > 0 {
        lemma_last_dot_bounds(s.drop_last());
    }
}

pub fn video_file_name(name: &str) -> (r: bool)
    ensures
        r == is_video_file_name(name@),
{
    let cs = chars_of(name);
    let n = cs.len();
    let mut j: usize = n;
    assert(cs@.subrange(0, n as int) =~= cs@);
    while j > 0 && cs[j - 1] != '.'
        invariant
            j <= n == cs@.len(),
            cs@ == name@,
            last_dot(name@) == last_dot(cs@.subrange(0, j as int)),
        decreases j,
    {
        assert(cs@.subrange(0, j as int).drop_last() =~= cs@.subrange(0, j - 1));
        j = j - 1;
    }
    if j <= 1 {
        proof {
            lemma_last_dot_bounds(name@);
        }
        return false;
    }
    let ext = string_of(&cs, j, n);
    same_text(ext.as_str(), "mp4") || same_text(ext.as_str(), "webm") || same_text(
        ext.as_str(),
        "mkv",
    )
}

/// One entry found in a session directory.
#[derive(Debug, Clone)]
pub struct SessionEntry {
    pub name: String,
    pub is_file: bool,
}

pub open spec fn collected(e: SessionEntry) -> bool {
    e.is_file && is_video_file_name(e.name@)
}

/// The names of the collected entries, in the order found.
pub open spec fn collected_names(es: Seq<SessionEntry>) -> Seq<Seq<char>>
    decreases es.len(),
{
    if es.len() == 0 {
        Seq::empty()
    } else {
        let rest = collected_names(es.drop_last());
        if collected(es.last()) {
            rest.push(es.last().name@)
        } else {
            rest
        }
    }
}

/// The video files among the entries of a session directory: plain files
/// whose extension is `mp4`, `webm` or `mkv`; anything else is ignored.
pub fn collect_video_files(entries: &Vec<SessionEntry>) -> (r: Vec<String>)
    ensures
        views_of(r@) == collected_names(entries@),
{
    let mut out: Vec<String> = Vec::new();
    let mut j: usize = 0;
    assert(entries@.subrange(0, 0) =~= Seq::<SessionEntry>::empty());
    assert(views_of(out@) =~= Seq::<Seq<char>>::empty());
    while j < entries.len()
        invariant
            j <= entries@.len(),
            views_of(out@) == collected_names(entries@.subrange(0, j as int)),
        decreases entries.len() - j,
    {
        assert(entries@.subrange(0, j + 1).drop_last() =~= entries@.subrange(0, j as int));
        let e = &entries[j];
        if e.is_file && video_file_name(e.name.as_str()) {
            let ghost before = out@;
            out.push(e.name.clone());
            assert(views_of(out@) =~= views_of(before).push(e.name@));
        }
        j = j + 1;
    }
    assert(entries@.subrange(0, j as int) =~= entries@);
    out
}

/// Relies on uuid's `Uuid::new_v4`, rendered by its `Display`: a random
/// identifier in its 36-character hyphenated form.
#[verifier::external_body]
fn fresh_session_id() -> (r: String)
    ensures
        r@.len() == 36,
{
    uuid::Uuid::new_v4().to_string()
}

// ---------------------------------------------------------------- the pipeline

/// A finished archive: where it lies, its file name and its size in bytes.
#[derive(Debug, Clone)]
pub struct ArchiveArtifact {
    pub path: String,
    pub filename: String,
    pub size: u64,
}

impl ArchiveArtifact {
    /// A copy of the artifact.
    pub fn duplicate(&self) -> (r: ArchiveArtifact)
        ensures
            r == *self,
    {
        ArchiveArtifact { path: self.path.clone(), filename: self.filename.clone(), size: self.size }
    }
}

/// A copy of a pipeline outcome.
pub fn copy_outcome(o: &Result<ArchiveArtifact, ServiceError>) -> (r: Result<
    ArchiveArtifact,
    ServiceError,
>)
    ensures
        r == *o,
{
    match o {
        Ok(a) => Ok(a.duplicate()),
        Err(e) => Err(e.duplicate()),
    }
}

/// What the runner is to do next.
#[derive(Debug)]
pub enum BatchAction {
    /// Check that the extraction tool works; answer `ToolProbed`.
    ProbeTool,
    /// Create the session directory; answer `SessionCreated`.
    CreateSession { dir: String },
    /// Run the extraction tool with these arguments; answer `ToolRan`.
    RunTool { args: Vec<String> },
    /// List the session directory; answer `Scanned`.
    ScanSession { dir: String },
    /// Write the files, each under its name, into one archive; answer `ArchiveBuilt`.
    BuildArchive { sources: Vec<String>, names: Vec<String>, destination: String },
    /// Delete these files, logging failures; answer `FilesDeleted`.
    DeleteFiles { paths: Vec<String> },
    /// Remove the session directory and all it holds, logging failures;
    /// answer `SessionRemoved`.
    RemoveSession { dir: String },
    /// The pipeline is over, with this outcome.
    Finish(Result<ArchiveArtifact, ServiceError>),
}

/// What the runner reports after doing an action.
#[derive(Debug, Clone)]
pub enum BatchEvent {
    ToolProbed(bool),
    SessionCreated(bool),
    /// Whether the tool succeeded, and what it wrote to standard error.
    ToolRan { success: bool, stderr: String },
    /// The entries of the session directory; none when it could not be read.
    Scanned(Option<Vec<SessionEntry>>),
    /// The archive's size read back from the filesystem; none when it could
    /// not be built.
    ArchiveBuilt(Option<u64>),
    FilesDeleted,
    SessionRemoved,
}

#[derive(Debug)]
pub enum BatchPhase {
    Probing,
    CreatingSession,
    Downloading { next: usize },
    Scanning,
    Archiving { names: Vec<String> },
    DeletingInputs { artifact: ArchiveArtifact, names: Vec<String> },
    RemovingSession { outcome: Result<ArchiveArtifact, ServiceError> },
    Done { outcome: Result<ArchiveArtifact, ServiceError> },
}

/// One batch request: a whole profile (`selection` none) or some of its
/// videos, downloaded into a fresh session directory under `temp_root` and
/// packed into one archive under `downloads_root`.
#[derive(Debug)]
pub struct BatchJob {
    pub profile_url: String,
    pub selection: Option<Vec<String>>,
    pub temp_root: String,
    pub downloads_root: String,
    pub username: String,
    pub session_dir: String,
    pub phase: BatchPhase,
    pub session_created: bool,
    pub session_removed: bool,
}

pub open spec fn download_args_spec(dir: Seq<char>, target: Seq<char>) -> Seq<Seq<char>> {
    seq![
        "--no-warnings"@,
        "--no-post-overwrites"@,
        "--format"@,
        "best[ext=mp4]"@,
        "--output"@,
        dir + "/%(uploader)s_%(title)s_%(id)s.%(ext)s"@,
        target,
    ]
}

/// The tool arguments that download `target` (a profile or a video) into `dir`.
pub fn download_arguments(dir: &str, target: &str) -> (r: Vec<String>)
    ensures
        views_of(r@) == download_args_spec(dir@, target@),
{
    let mut v: Vec<String> = Vec::new();
    v.push("--no-warnings".to_string());
    v.push("--no-post-overwrites".to_string());
    v.push("--format".to_string());
    v.push("best[ext=mp4]".to_string());
    v.push("--output".to_string());
    v.push(concat(dir, "/%(uploader)s_%(title)s_%(id)s.%(ext)s"));
    v.push(target.to_string());
    assert(views_of(v@) =~= download_args_spec(dir@, target@));
    v
}

pub open spec fn session_name_spec(bulk: bool, username: Seq<char>, id: Seq<char>) -> Seq<char> {
    (if bulk {
        "profile_"@
    } else {
        "selective_"@
    }) + username + "_"@ + id
}

pub open spec fn archive_name_spec(bulk: bool, username: Seq<char>, count: nat) -> Seq<char> {
    if bulk {
        "tiktok_profile_"@ + username + ".zip"@
    } else {
        "tiktok_selected_"@ + username + "_"@ + decimal(count) + "_videos.zip"@
    }
}

pub fn archive_name(bulk: bool, username: &str, count: usize) -> (r: String)
    ensures
        r@ == archive_name_spec(bulk, username@, count as nat),
{
    if bulk {
        let mut s = concat("tiktok_profile_", username);
        push_str(&mut s, ".zip");
        s
    } else {
        let mut s = concat("tiktok_selected_", username);
        push_str(&mut s, "_");
        let n = decimal_string(count as u128);
        push_str(&mut s, n.as_str());
        push_str(&mut s, "_videos.zip");
        s
    }
}

/// The paths of the named files inside `dir`.
pub fn paths_in(dir: &str, names: &Vec<String>) -> (r: Vec<String>)
    ensures
        r@.len() == names@.len(),
        forall|i: int| 0 <= i < r@.len() ==> (#[trigger] r@[i])@ == join_path(dir@, names@[i]@),
{
    let mut out: Vec<String> = Vec::new();
    let mut j: usize = 0;
    while j < names.len()
        invariant
            j <= names@.len(),
            out@.len() == j,
            forall|i: int| 0 <= i < j ==> (#[trigger] out@[i])@ == join_path(dir@, names@[i]@),
        decreases names.len() - j,
    {
        out.push(join(dir, names[j].as_str()));
        j = j + 1;
    }
    out
}

/// `r` removes the session directory `dir`.
pub open spec fn removes_session(r: BatchAction, dir: Seq<char>) -> bool {
    match r {
        BatchAction::RemoveSession { dir: d } => d@ == dir,
        _ => false,
    }
}

/// The event answers the action that the phase waits on.
pub open spec fn answers(p: BatchPhase, e: BatchEvent) -> bool {
    match p {
        BatchPhase::Probing => e is ToolProbed,
        BatchPhase::CreatingSession => e is SessionCreated,
        BatchPhase::Downloading { next: _ } => e is ToolRan,
        BatchPhase::Scanning => e is Scanned,
        BatchPhase::Archiving { names: _ } => e is ArchiveBuilt,
        BatchPhase::DeletingInputs { artifact: _, names: _ } => e is FilesDeleted,
        BatchPhase::RemovingSession { outcome: _ } => e is SessionRemoved,
        BatchPhase::Done { outcome: _ } => false,
    }
}

/// `r` packs the named session files into the job's archive.
pub open spec fn builds_archive(r: BatchAction, job: BatchJob, names: Seq<String>) -> bool {
    match r {
        BatchAction::BuildArchive { sources, names: ns, destination } => {
            &&& views_of(ns@) == views_of(names)
            &&& sources@.len() == names.len()
            &&& forall|i: int|
                0 <= i < sources@.len() ==> (#[trigger] sources@[i])@ == join_path(
                    job.session_dir@,
                    names[i]@,
                )
            &&& destination@ == join_path(
                job.downloads_root@,
                archive_name_spec(job.is_bulk(), job.username@, names.len()),
            )
        },
        _ => false,
    }
}

/// `r` is the action that the job's phase waits on.
pub open spec fn pending(job: BatchJob, r: BatchAction) -> bool {
    match job.phase {
        BatchPhase::Probing => r is ProbeTool,
        BatchPhase::CreatingSession => match r {
            BatchAction::CreateSession { dir } => dir@ == job.session_dir@,
            _ => false,
        },
        BatchPhase::Downloading { next } => if job.is_bulk() {
            runs_download(r, job.session_dir@, job.profile_url@)
        } else if next < job.selected().len() {
            runs_download(r, job.session_dir@, job.selected()[next as int]@)
        } else {
            scans(r, job.session_dir@)
        },
        BatchPhase::Scanning => scans(r, job.session_dir@),
        BatchPhase::Archiving { names } => builds_archive(r, job, names@),
        BatchPhase::DeletingInputs { artifact: _, names } => deletes_inputs(r, job, names@),
        BatchPhase::RemovingSession { outcome: _ } => removes_session(r, job.session_dir@),
        BatchPhase::Done { outcome } => r == BatchAction::Finish(outcome),
    }
}

/// The names of the files being archived.
pub open spec fn archiving_names(p: BatchPhase) -> Option<Vec<String>> {
    match p {
        BatchPhase::Archiving { names } => Some(names),
        _ => None,
    }
}

/// The error that the pipeline finishes with, if it finishes now with one.
pub open spec fn finish_error(r: BatchAction) -> Option<ServiceError> {
    match r {
        BatchAction::Finish(Err(e)) => Some(e),
        _ => None,
    }
}

/// `r` creates the session directory that `after` records: under the temp
/// root, named by the batch's kind, the username and a fresh identifier.
pub open spec fn creates_session(r: BatchAction, before: BatchJob, after: BatchJob) -> bool {
    match r {
        BatchAction::CreateSession { dir } => dir@ == after.session_dir@ && exists|id: Seq<char>|
            id.len() == 36 && after.session_dir@ == join_path(
                before.temp_root@,
                #[trigger] session_name_spec(before.is_bulk(), after.username@, id),
            ),
        _ => false,
    }
}

/// `r` deletes the named input files of the session.
pub open spec fn deletes_inputs(r: BatchAction, job: BatchJob, names: Seq<String>) -> bool {
    match r {
        BatchAction::DeleteFiles { paths } => paths@.len() == names.len() && forall|i: int|
            0 <= i < paths@.len() ==> (#[trigger] paths@[i])@ == join_path(
                job.session_dir@,
                names[i]@,
            ),
        _ => false,
    }
}

/// The archive that awaits the end of cleanup.
pub open spec fn pending_artifact(p: BatchPhase) -> Option<ArchiveArtifact> {
    match p {
        BatchPhase::DeletingInputs { artifact, names: _ } => Some(artifact),
        _ => None,
    }
}

/// `a` is the job's archive of `count` files, of `size` bytes.
pub open spec fn artifact_of(a: ArchiveArtifact, job: BatchJob, count: nat, size: u64) -> bool {
    &&& a.size == size
    &&& a.filename@ == archive_name_spec(job.is_bulk(), job.username@, count)
    &&& a.path@ == join_path(job.downloads_root@, a.filename@)
}

/// The error that the pipeline will finish with once cleaned up.
pub open spec fn cleanup_error(p: BatchPhase) -> Option<ServiceError> {
    match p {
        BatchPhase::RemovingSession { outcome: Err(e) } => Some(e),
        _ => None,
    }
}

pub open spec fn runs_download(r: BatchAction, dir: Seq<char>, target: Seq<char>) -> bool {
    match r {
        BatchAction::RunTool { args } => views_of(args@) == download_args_spec(dir, target),
        _ => false,
    }
}

pub open spec fn scans(r: BatchAction, dir: Seq<char>) -> bool {
    match r {
        BatchAction::ScanSession { dir: d } => d@ == dir,
        _ => false,
    }
}

/// `r` packs the video files found among `entries` into the job's archive.
pub open spec fn archives(r: BatchAction, job: BatchJob, entries: Seq<SessionEntry>) -> bool {
    match r {
        BatchAction::BuildArchive { sources, names, destination } => {
            &&& views_of(names@) == collected_names(entries)
            &&& sources@.len() == names@.len()
            &&& forall|i: int|
                0 <= i < sources@.len() ==> (#[trigger] sources@[i])@ == join_path(
                    job.session_dir@,
                    names@[i]@,
                )
            &&& destination@ == join_path(
                job.downloads_root@,
                archive_name_spec(job.is_bulk(), job.username@, collected_names(entries).len()),
            )
        },
        _ => false,
    }
}

impl BatchJob {
    /// The phase agrees with the session's state: the session directory
    /// exists from its creation until its removal, which happens only at
    /// the end.
    pub open spec fn wf(&self) -> bool {
        &&& (self.selection matches Some(s) ==> s@.len() > 0)
        &&& is_profile_url(self.profile_url@)
        &&& match self.phase {
            BatchPhase::Probing => !self.session_created && !self.session_removed,
            BatchPhase::CreatingSession => !self.session_created && !self.session_removed,
            BatchPhase::Downloading { next } => self.session_created && !self.session_removed && (
            self.selection matches Some(s) ==> next < s@.len()),
            BatchPhase::Done { outcome: _ } => !self.session_created || self.session_removed,
            _ => self.session_created && !self.session_removed,
        }
    }

    pub open spec fn is_bulk(&self) -> bool {
        self.selection is None
    }

    pub open spec fn selected(&self) -> Seq<String> {
        self.selection.unwrap()@
    }

    /// Validates a batch request. A profile URL that is not one, or an empty
    /// selection, is refused before anything runs.
    pub fn start(
        profile_url: &str,
        selection: Option<Vec<String>>,
        temp_root: &str,
        downloads_root: &str,
    ) -> (r: Result<(BatchJob, BatchAction), ServiceError>)
        ensures
            !is_profile_url(profile_url@) ==> (r matches Err(e) && e is InvalidInput),
            is_profile_url(profile_url@) && (selection matches Some(s) && s@.len() == 0) ==> (
            r matches Err(e) && e is InvalidInput),
            is_profile_url(profile_url@) && !(selection matches Some(s) && s@.len() == 0) ==> (
            r matches Ok((job, a)) && a is ProbeTool && job.phase is Probing && job.wf()
                && job.profile_url@ == profile_url@ && job.temp_root@ == temp_root@
                && job.downloads_root@ == downloads_root@ && job.selection == selection
                && !job.session_created && !job.session_removed),
    {
        if !is_valid_tiktok_profile_url(profile_url) {
            return Err(ServiceError::InvalidInput("Invalid TikTok profile URL provided".to_string()));
        }
        if let Some(s) = &selection {
            if s.len() == 0 {
                return Err(ServiceError::InvalidInput("No videos selected for download".to_string()));
            }
        }
        let job = BatchJob {
            profile_url: profile_url.to_string(),
            selection,
            temp_root: temp_root.to_string(),
            downloads_root: downloads_root.to_string(),
            username: String::new(),
            session_dir: String::new(),
            phase: BatchPhase::Probing,
            session_created: false,
            session_removed: false,
        };
        Ok((job, BatchAction::ProbeTool))
    }

    /// Moves to cleanup with `outcome`: the session directory is removed
    /// before the pipeline finishes.
    fn clean_up_then(&mut self, outcome: Result<ArchiveArtifact, ServiceError>) -> (r: BatchAction)
        ensures
            *final(self) == (BatchJob { phase: BatchPhase::RemovingSession { outcome }, ..*old(self) }),
            r matches BatchAction::RemoveSession { dir } && dir@ == old(self).session_dir@,
    {
        self.phase = BatchPhase::RemovingSession { outcome };
        BatchAction::RemoveSession { dir: self.session_dir.clone() }
    }

    fn download_action(&self, target: &str) -> (r: BatchAction)
        ensures
            r matches BatchAction::RunTool { args } && views_of(args@) == download_args_spec(
                self.session_dir@,
                target@,
            ),
    {
        BatchAction::RunTool { args: download_arguments(self.session_dir.as_str(), target) }
    }

    /// Advances the pipeline with what the runner reports, and says what to
    /// do next. An event that does not answer the pending action changes
    /// nothing and the pending action is asked again.
    pub fn step(&mut self, event: BatchEvent) -> (r: BatchAction)
        requires
            old(self).wf(),
        ensures
            final(self).wf(),
            // an event that does not answer the pending action changes
            // nothing, and that action is asked again
            !answers(old(self).phase, event) ==> *final(self) == *old(self) && pending(*old(self), r),
            // cleanup is unconditional: once the session directory exists,
            // the pipeline only finishes after removing it
            r is Finish ==> !final(self).session_created || final(self).session_removed,
            old(self).session_created ==> final(self).session_created,
            final(self).profile_url == old(self).profile_url,
            final(self).selection == old(self).selection,
            // the session directory is created once, and removed only as the
            // last thing before finishing
            final(self).session_created == (old(self).session_created || (old(self).phase
                is CreatingSession && event == BatchEvent::SessionCreated(true))),
            final(self).session_removed == (old(self).session_removed || (old(self).phase
                is RemovingSession && event is SessionRemoved)),
            // a failed bulk invocation fails the whole batch with the tool's
            // words, after cleanup
            old(self).phase is Downloading && old(self).is_bulk() ==> (event matches BatchEvent::ToolRan {
                success,
                stderr,
            } ==> (!success ==> removes_session(r, old(self).session_dir@) && (cleanup_error(
                final(self).phase,
            ) matches Some(e) && e is BatchDownloadFailed && e.message_view()
                == "Failed to download profile videos: "@ + stderr@))),
            // selected videos are downloaded one at a time, in order, each
            // failure skipped
            old(self).phase matches BatchPhase::Downloading { next } ==> (!old(self).is_bulk()
                && event is ToolRan ==> if next + 1 < old(self).selected().len() {
                runs_download(r, old(self).session_dir@, old(self).selected()[next + 1]@)
                    && final(self).phase == (BatchPhase::Downloading { next: (next + 1) as usize })
            } else {
                scans(r, old(self).session_dir@) && final(self).phase is Scanning
            }),
            // only video files are collected; none at all fails the batch, after cleanup
            event matches BatchEvent::Scanned(Some(entries)) ==> (old(self).phase is Scanning ==> if collected_names(entries@).len() == 0 {
                removes_session(r, old(self).session_dir@) && (cleanup_error(final(self).phase) matches Some(e)
                    && e is NoVideosDownloaded)
            } else {
                archives(r, *old(self), entries@) && (archiving_names(final(self).phase) matches Some(
                    ns,
                ) && views_of(ns@) == collected_names(entries@))
            }),
            // the outcome is handed over once the session is gone
            old(self).phase matches BatchPhase::RemovingSession { outcome } ==> (
            event is SessionRemoved ==> r == BatchAction::Finish(outcome)),
            final(self).temp_root == old(self).temp_root,
            final(self).downloads_root == old(self).downloads_root,
            !(old(self).phase is Probing) ==> final(self).session_dir == old(self).session_dir
                && final(self).username == old(self).username,
            // the tool must work; the session directory is named after the
            // profile's username and a fresh identifier
            old(self).phase is Probing && event == BatchEvent::ToolProbed(false) ==> (finish_error(
                r,
            ) matches Some(e) && e is DependencyUnavailable),
            old(self).phase is Probing && event == BatchEvent::ToolProbed(true) ==> match handle_in(
                old(self).profile_url@,
            ) {
                None => (finish_error(r) matches Some(e) && e is InvalidInput),
                Some(u) => creates_session(r, *old(self), *final(self)) && final(self).username@
                    == u && final(self).phase is CreatingSession,
            },
            old(self).phase is CreatingSession && event == BatchEvent::SessionCreated(false) ==> (
            finish_error(r) matches Some(e) && e is IoError),
            old(self).phase is CreatingSession && event == BatchEvent::SessionCreated(true) ==> (
            runs_download(
                r,
                old(self).session_dir@,
                if old(self).is_bulk() {
                    old(self).profile_url@
                } else {
                    old(self).selected()[0]@
                },
            ) && final(self).phase == (BatchPhase::Downloading { next: 0 })),
            old(self).phase is Downloading && old(self).is_bulk() ==> (event matches BatchEvent::ToolRan {
                success,
                stderr: _,
            } ==> (success ==> scans(r, old(self).session_dir@) && final(self).phase is Scanning)),
            old(self).phase is Scanning && event == BatchEvent::Scanned(None) ==> removes_session(r, old(self).session_dir@)
                && (cleanup_error(final(self).phase) matches Some(e) && e is IoError),
            // the archive, named by the batch's kind, lies in the downloads directory
            old(self).phase matches BatchPhase::Archiving { names } ==> (event
                == BatchEvent::ArchiveBuilt(None) ==> removes_session(r, old(self).session_dir@) && (cleanup_error(
                final(self).phase,
            ) matches Some(e) && e is ArchiveBuildError)),
            old(self).phase matches BatchPhase::Archiving { names } ==> (event matches BatchEvent::ArchiveBuilt(
                Some(size),
            ) ==> deletes_inputs(r, *old(self), names@) && (pending_artifact(final(self).phase) matches Some(
                a,
            ) && artifact_of(a, *old(self), names@.len(), size))),
            old(self).phase matches BatchPhase::DeletingInputs { artifact, names } ==> (event
                is FilesDeleted ==> removes_session(r, old(self).session_dir@) && final(self).phase == (
            BatchPhase::RemovingSession { outcome: Ok(artifact) })),
    {
        let mut phase = BatchPhase::Probing;
        std::mem::swap(&mut phase, &mut self.phase);
        match (phase, event) {
            (BatchPhase::Probing, BatchEvent::ToolProbed(ok)) => {
                if !ok {
                    let e = ServiceError::DependencyUnavailable(
                        "yt-dlp is not installed or not working properly".to_string(),
                    );
                    self.phase = BatchPhase::Done { outcome: Err(e.duplicate()) };
                    return BatchAction::Finish(Err(e));
                }
                match extract_tiktok_username(self.profile_url.as_str()) {
                    None => {
                        let e = ServiceError::InvalidInput(
                            "Failed to extract username from profile URL".to_string(),
                        );
                        self.phase = BatchPhase::Done { outcome: Err(e.duplicate()) };
                        BatchAction::Finish(Err(e))
                    },
                    Some(username) => {
                        let id = fresh_session_id();
                        let bulk = self.selection.is_none();
                        let mut name = if bulk {
                            concat("profile_", username.as_str())
                        } else {
                            concat("selective_", username.as_str())
                        };
                        push_str(&mut name, "_");
                        push_str(&mut name, id.as_str());
                        assert(name@ =~= session_name_spec(bulk, username@, id@));
                        self.session_dir = join(self.temp_root.as_str(), name.as_str());
                        self.username = username;
                        self.phase = BatchPhase::CreatingSession;
                        let action = BatchAction::CreateSession { dir: self.session_dir.clone() };
                        assert(id@.len() == 36 && self.session_dir@ == join_path(
                            old(self).temp_root@,
                            session_name_spec(old(self).is_bulk(), self.username@, id@),
                        ));
                        assert(creates_session(action, *old(self), *self));
                        action
                    },
                }
            },
            (BatchPhase::CreatingSession, BatchEvent::SessionCreated(ok)) => {
                if !ok {
                    let e = ServiceError::IoError(
                        "Failed to create the session directory".to_string(),
                    );
                    self.phase = BatchPhase::Done { outcome: Err(e.duplicate()) };
                    return BatchAction::Finish(Err(e));
                }
                self.session_created = true;
                self.phase = BatchPhase::Downloading { next: 0 };
                match &self.selection {
                    None => self.download_action(self.profile_url.as_str()),
                    Some(urls) => self.download_action(urls[0].as_str()),
                }
            },
            (BatchPhase::Downloading { next }, BatchEvent::ToolRan { success, stderr }) => {
                match &self.selection {
                    None => {
                        if !success {
                            return self.clean_up_then(
                                Err(
                                    ServiceError::BatchDownloadFailed(
                                        concat("Failed to download profile videos: ", stderr.as_str()),
                                    ),
                                ),
                            );
                        }
                        self.phase = BatchPhase::Scanning;
                        BatchAction::ScanSession { dir: self.session_dir.clone() }
                    },
                    Some(urls) => {
                        if next < urls.len() && next + 1 < urls.len() {
                            let action = self.download_action(urls[next + 1].as_str());
                            self.phase = BatchPhase::Downloading { next: next + 1 };
                            action
                        } else {
                            self.phase = BatchPhase::Scanning;
                            BatchAction::ScanSession { dir: self.session_dir.clone() }
                        }
                    },
                }
            },
            (BatchPhase::Scanning, BatchEvent::Scanned(found)) => {
                match found {
                    None => self.clean_up_then(
                        Err(ServiceError::IoError("Failed to read the session directory".to_string())),
                    ),
                    Some(entries) => {
                        let names = collect_video_files(&entries);
                        if names.len() == 0 {
                            let message = if self.selection.is_none() {
                                "No videos were downloaded from the profile".to_string()
                            } else {
                                "No videos were downloaded from the selection".to_string()
                            };
                            return self.clean_up_then(
                                Err(ServiceError::NoVideosDownloaded(message)),
                            );
                        }
                        let bulk = self.selection.is_none();
                        let filename = archive_name(bulk, self.username.as_str(), names.len());
                        let destination = join(self.downloads_root.as_str(), filename.as_str());
                        let sources = paths_in(self.session_dir.as_str(), &names);
                        self.phase = BatchPhase::Archiving { names: names.clone() };
                        BatchAction::BuildArchive { sources, names, destination }
                    },
                }
            },
            (BatchPhase::Archiving { names }, BatchEvent::ArchiveBuilt(built)) => {
                match built {
                    None => self.clean_up_then(
                        Err(ServiceError::ArchiveBuildError("Failed to build the archive".to_string())),
                    ),
                    Some(size) => {
                        let bulk = self.selection.is_none();
                        let filename = archive_name(bulk, self.username.as_str(), names.len());
                        let path = join(self.downloads_root.as_str(), filename.as_str());
                        let paths = paths_in(self.session_dir.as_str(), &names);
                        let artifact = ArchiveArtifact { path, filename, size };
                        self.phase = BatchPhase::DeletingInputs { artifact, names };
                        BatchAction::DeleteFiles { paths }
                    },
                }
            },
            (BatchPhase::DeletingInputs { artifact, names: _ }, BatchEvent::FilesDeleted) => {
                self.clean_up_then(Ok(artifact))
            },
            (BatchPhase::RemovingSession { outcome }, BatchEvent::SessionRemoved) => {
                self.session_removed = true;
                self.phase = BatchPhase::Done { outcome: copy_outcome(&outcome) };
                BatchAction::Finish(outcome)
            },
            (phase, _) => {
                self.phase = phase;
                self.pending_action()
            },
        }
    }

    /// The action that the current phase waits on.
    pub fn pending_action(&self) -> (r: BatchAction)
        requires
            self.wf(),
        ensures
            pending(*self, r),
            r is Finish ==> self.phase is Done,
    {
        match &self.phase {
            BatchPhase::Probing => BatchAction::ProbeTool,
            BatchPhase::CreatingSession => BatchAction::CreateSession { dir: self.session_dir.clone() },
            BatchPhase::Downloading { next } => {
                match &self.selection {
                    None => self.download_action(self.profile_url.as_str()),
                    Some(urls) => {
                        if *next < urls.len() {
                            self.download_action(urls[*next].as_str())
                        } else {
                            BatchAction::ScanSession { dir: self.session_dir.clone() }
                        }
                    },
                }
            },
            BatchPhase::Scanning => BatchAction::ScanSession { dir: self.session_dir.clone() },
            BatchPhase::Archiving { names } => {
                let bulk = self.selection.is_none();
                let filename = archive_name(bulk, self.username.as_str(), names.len());
                let copy = names.clone();
                assert(views_of(copy@) =~= views_of(names@));
                BatchAction::BuildArchive {
                    sources: paths_in(self.session_dir.as_str(), names),
                    names: copy,
                    destination: join(self.downloads_root.as_str(), filename.as_str()),
                }
            },
            BatchPhase::DeletingInputs { artifact: _, names } => BatchAction::DeleteFiles {
                paths: paths_in(self.session_dir.as_str(), names),
            },
            BatchPhase::RemovingSession { outcome: _ } => BatchAction::RemoveSession {
                dir: self.session_dir.clone(),
            },
            BatchPhase::Done { outcome } => BatchAction::Finish(copy_outcome(outcome)),
        }
    }
}

} // verus!
