use vstd::prelude::*;

use crate::errors::ServiceError;
use crate::formats::{
    best_video_url, display_url, formats_seq, offers, parse_available_formats, ToolFormat,
};
use crate::middleware::unix_seconds;
use crate::models::{ProfileInfo, ProfileVideoInfo, VideoInfo};
use crate::text::{
    all_digits, chars_of, concat, contains, contains_text, decimal, decimal_string, digits_value,
    is_digit, lines, push_str, split_lines, trim, trim_bounds, views_of,
};

verus! {

pub open spec fn opt_view(o: Option<String>) -> Option<Seq<char>> {
    match o {
        Some(s) => Some(s@),
        None => None,
    }
}

// ---------------------------------------------------------------- thumbnails

/// One candidate of the `thumbnails` array that the extraction tool reports.
#[derive(Debug, Clone)]
pub struct ToolThumbnail {
    pub id: Option<String>,
    pub url: String,
    pub height: Option<u32>,
    pub width: Option<u32>,
}

/// The candidate is marked as the platform's cover image.
pub open spec fn is_cover(t: ToolThumbnail) -> bool {
    t.id matches Some(id) && contains(id@, "cover"@)
}

pub open spec fn area(t: ToolThumbnail) -> nat {
    let h: nat = match t.height {
        Some(h) => h as nat,
        None => 0,
    };
    let w: nat = match t.width {
        Some(w) => w as nat,
        None => 0,
    };
    h * w
}

/// The first cover candidate.
pub open spec fn first_cover(ts: Seq<ToolThumbnail>) -> Option<ToolThumbnail>
    decreases ts.len(),
{
    if ts.len() == 0 {
        None
    } else {
        let rest = first_cover(ts.drop_last());
        if rest is Some {
            rest
        } else if is_cover(ts.last()) {
            Some(ts.last())
        } else {
            None
        }
    }
}

/// The candidate of largest area, the last of equals.
pub open spec fn largest(ts: Seq<ToolThumbnail>) -> Option<ToolThumbnail>
    decreases ts.len(),
{
    if ts.len() == 0 {
        None
    } else {
        let rest = largest(ts.drop_last());
        if rest is None || area(ts.last()) >= area(rest.unwrap()) {
            Some(ts.last())
        } else {
            rest
        }
    }
}

pub open spec fn thumbnails_seq(o: Option<Vec<ToolThumbnail>>) -> Option<Seq<ToolThumbnail>> {
    match o {
        Some(v) => Some(v@),
        None => None,
    }
}

/// The thumbnail shown for a video: a cover candidate, else the largest
/// candidate, else the single legacy thumbnail, else none.
pub open spec fn best_thumbnail(
    candidates: Option<Seq<ToolThumbnail>>,
    fallback: Option<Seq<char>>,
) -> Option<Seq<char>> {
    if candidates is Some && candidates.unwrap().len() > 0 {
        let ts = candidates.unwrap();
        match first_cover(ts) {
            Some(c) => Some(c.url@),
            None => Some(largest(ts).unwrap().url@),
        }
    } else {
        fallback
    }
}

proof fn lemma_first_cover_of(ts: Seq<ToolThumbnail>, k: int)
    requires
        0 <= k < ts.len(),
        is_cover(ts[k]),
        forall|j: int| 0 <= j < ts.len() && j != k ==> !is_cover(#[trigger] ts[j]),
    ensures
        first_cover(ts) == Some(ts[k]),
    decreases ts.len(),
{
    if k == ts.len() - 1 {
        lemma_no_cover(ts.drop_last());
    } else {
        lemma_first_cover_of(ts.drop_last(), k);
    }
}

proof fn lemma_no_cover(ts: Seq<ToolThumbnail>)
    requires
        forall|j: int| 0 <= j < ts.len() ==> !is_cover(#[trigger] ts[j]),
    ensures
        first_cover(ts) is None,
    decreases ts.len(),
{
    if ts.len() > 0 {
        lemma_no_cover(ts.drop_last());
    }
}

/// Of candidates among which exactly one is marked as the cover, that one is
/// chosen, whatever the position and the size of the others.
pub proof fn lemma_cover_is_chosen(
    ts: Seq<ToolThumbnail>,
    k: int,
    fallback: Option<Seq<char>>,
)
    requires
        0 <= k < ts.len(),
        is_cover(ts[k]),
        forall|j: int| 0 <= j < ts.len() && j != k ==> !is_cover(#[trigger] ts[j]),
    ensures
        best_thumbnail(Some(ts), fallback) == Some(ts[k].url@),
{
    lemma_first_cover_of(ts, k);
}

fn is_cover_exec(t: &ToolThumbnail) -> (r: bool)
    ensures
        r == is_cover(*t),
{
    match &t.id {
        Some(id) => contains_text(id.as_str(), "cover"),
        None => false,
    }
}

fn area_exec(t: &ToolThumbnail) -> (r: u64)
    ensures
        r == area(*t),
{
    let h: u64 = match t.height {
        Some(h) => h as u64,
        None => 0,
    };
    let w: u64 = match t.width {
        Some(w) => w as u64,
        None => 0,
    };
    assert(h * w <= 0xFFFF_FFFFu64 * 0xFFFF_FFFFu64) by (nonlinear_arith)
        requires
            h <= 0xFFFF_FFFF,
            w <= 0xFFFF_FFFF,
    ;
    h * w
}

/// The thumbnail URL shown for a video (see `best_thumbnail`).
pub fn extract_best_thumbnail_url(
    thumbnails: &Option<Vec<ToolThumbnail>>,
    fallback: &Option<String>,
) -> (r: Option<String>)
    ensures
        opt_view(r) == best_thumbnail(thumbnails_seq(*thumbnails), opt_view(*fallback)),
{
    if let Some(ts) = thumbnails {
        if ts.len() > 0 {
            let mut cover: Option<usize> = None;
            let mut best: usize = 0;
            let mut j: usize = 0;
            assert(ts@.subrange(0, 0) =~= Seq::<ToolThumbnail>::empty());
            while j < ts.len()
                invariant
                    0 < ts@.len(),
                    j <= ts@.len(),
                    best < ts@.len(),
                    j > 0 ==> best < j,
                    j > 0 ==> largest(ts@.subrange(0, j as int)) == Some(ts@[best as int]),
                    cover matches Some(c) ==> c < j,
                    first_cover(ts@.subrange(0, j as int)) == match cover {
                        Some(c) => Some(ts@[c as int]),
                        None => None,
                    },
                decreases ts.len() - j,
            {
                assert(ts@.subrange(0, j + 1).drop_last() =~= ts@.subrange(0, j as int));
                if cover.is_none() && is_cover_exec(&ts[j]) {
                    cover = Some(j);
                }
                if j == 0 || area_exec(&ts[j]) >= area_exec(&ts[best]) {
                    best = j;
                }
                j = j + 1;
            }
            assert(ts@.subrange(0, j as int) =~= ts@);
            return match cover {
                Some(c) => Some(ts[c].url.clone()),
                None => Some(ts[best].url.clone()),
            };
        }
    }
    fallback.clone()
}

// ---------------------------------------------------------------- listing records

/// One record of a flat profile listing.
#[derive(Debug, Clone)]
pub struct ToolProfileEntry {
    pub id: String,
    pub title: Option<String>,
    pub url: String,
    pub thumbnail: Option<String>,
    pub thumbnails: Option<Vec<ToolThumbnail>>,
    /// Length in milliseconds.
    pub duration_ms: Option<u64>,
    pub view_count: Option<u64>,
    pub upload_date: Option<String>,
    pub webpage_url: Option<String>,
}

/// The full metadata record of one video.
#[derive(Debug, Clone)]
pub struct ToolVideo {
    pub id: String,
    pub title: Option<String>,
    pub description: Option<String>,
    pub uploader: Option<String>,
    pub uploader_id: Option<String>,
    /// Length in milliseconds.
    pub duration_ms: Option<u64>,
    pub view_count: Option<u64>,
    pub like_count: Option<u64>,
    pub comment_count: Option<u64>,
    pub thumbnail: Option<String>,
    pub thumbnails: Option<Vec<ToolThumbnail>>,
    pub webpage_url: String,
    pub upload_date: Option<String>,
    pub formats: Option<Vec<ToolFormat>>,
}

/// What a listed video holds, as values.
pub struct ProfileVideoView {
    pub url: Seq<char>,
    pub id: Seq<char>,
    pub title: Seq<char>,
    pub thumbnail_url: Option<Seq<char>>,
    pub duration_ms: Option<u64>,
    pub view_count: Option<u64>,
    pub upload_date: Option<Seq<char>>,
}

impl View for ProfileVideoInfo {
    type V = ProfileVideoView;

    open spec fn view(&self) -> ProfileVideoView {
        ProfileVideoView {
            url: self.url@,
            id: self.id@,
            title: self.title@,
            thumbnail_url: opt_view(self.thumbnail_url),
            duration_ms: self.duration_ms,
            view_count: self.view_count,
            upload_date: opt_view(self.upload_date),
        }
    }
}

pub open spec fn videos_view(v: Seq<ProfileVideoInfo>) -> Seq<ProfileVideoView> {
    v.map_values(|x: ProfileVideoInfo| x@)
}

/// The title of an untitled video on line `index` of a listing.
pub open spec fn default_title(index: int) -> Seq<char> {
    "TikTok Video #"@ + decimal((index + 1) as nat)
}

pub open spec fn title_or_default(title: Option<String>, index: int) -> Seq<char> {
    match title {
        Some(t) => t@,
        None => default_title(index),
    }
}

/// The listed video of a flat listing record found on line `index`.
pub open spec fn flat_video(e: ToolProfileEntry, index: int) -> ProfileVideoView {
    ProfileVideoView {
        url: match e.webpage_url {
            Some(u) => u@,
            None => e.url@,
        },
        id: e.id@,
        title: title_or_default(e.title, index),
        thumbnail_url: best_thumbnail(thumbnails_seq(e.thumbnails), opt_view(e.thumbnail)),
        duration_ms: e.duration_ms,
        view_count: e.view_count,
        upload_date: opt_view(e.upload_date),
    }
}

/// The listed video of a full metadata record found on line `index`.
pub open spec fn full_video(v: ToolVideo, index: int) -> ProfileVideoView {
    ProfileVideoView {
        url: v.webpage_url@,
        id: v.id@,
        title: title_or_default(v.title, index),
        thumbnail_url: best_thumbnail(thumbnails_seq(v.thumbnails), opt_view(v.thumbnail)),
        duration_ms: v.duration_ms,
        view_count: v.view_count,
        upload_date: opt_view(v.upload_date),
    }
}

/// The videos of a flat listing: one per record that could be read, in order;
/// the records that could not be read are skipped.
pub open spec fn flat_listing(records: Seq<(usize, Option<ToolProfileEntry>)>) -> Seq<
    ProfileVideoView,
>
    decreases records.len(),
{
    if records.len() == 0 {
        Seq::empty()
    } else {
        let rest = flat_listing(records.drop_last());
        match records.last().1 {
            Some(e) => rest.push(flat_video(e, records.last().0 as int)),
            None => rest,
        }
    }
}

/// The videos of a full metadata listing, before the cap.
pub open spec fn full_listing_all(records: Seq<(usize, Option<ToolVideo>)>) -> Seq<ProfileVideoView>
    decreases records.len(),
{
    if records.len() == 0 {
        Seq::empty()
    } else {
        let rest = full_listing_all(records.drop_last());
        match records.last().1 {
            Some(v) => rest.push(full_video(v, records.last().0 as int)),
            None => rest,
        }
    }
}

/// At most this many videos come from a full metadata listing.
pub const FULL_LISTING_CAP: usize = 50;

/// The first `FULL_LISTING_CAP` videos of a full metadata listing.
pub open spec fn full_listing(records: Seq<(usize, Option<ToolVideo>)>) -> Seq<ProfileVideoView> {
    let all = full_listing_all(records);
    if all.len() <= FULL_LISTING_CAP {
        all
    } else {
        all.subrange(0, FULL_LISTING_CAP as int)
    }
}

fn title_for(title: &Option<String>, index: usize) -> (r: String)
    ensures
        r@ == title_or_default(*title, index as int),
{
    match title {
        Some(t) => t.clone(),
        None => {
            let mut s = "TikTok Video #".to_string();
            let n = decimal_string(index as u128 + 1);
            push_str(&mut s, n.as_str());
            s
        },
    }
}

/// The listed video of a flat listing record found on line `index`.
pub fn video_from_flat_entry(e: &ToolProfileEntry, index: usize) -> (r: ProfileVideoInfo)
    ensures
        r@ == flat_video(*e, index as int),
{
    let url = match &e.webpage_url {
        Some(u) => u.clone(),
        None => e.url.clone(),
    };
    ProfileVideoInfo {
        url,
        id: e.id.clone(),
        title: title_for(&e.title, index),
        thumbnail_url: extract_best_thumbnail_url(&e.thumbnails, &e.thumbnail),
        duration_ms: e.duration_ms,
        view_count: e.view_count,
        upload_date: e.upload_date.clone(),
    }
}

/// The listed video of a full metadata record found on line `index`.
pub fn video_from_full_record(v: &ToolVideo, index: usize) -> (r: ProfileVideoInfo)
    ensures
        r@ == full_video(*v, index as int),
{
    ProfileVideoInfo {
        url: v.webpage_url.clone(),
        id: v.id.clone(),
        title: title_for(&v.title, index),
        thumbnail_url: extract_best_thumbnail_url(&v.thumbnails, &v.thumbnail),
        duration_ms: v.duration_ms,
        view_count: v.view_count,
        upload_date: v.upload_date.clone(),
    }
}

/// Builds the video list of a flat listing from its records, each with the
/// number of the line it stood on; `None` marks a line that could not be read.
pub fn collect_flat_listing(records: &Vec<(usize, Option<ToolProfileEntry>)>) -> (r: Vec<
    ProfileVideoInfo,
>)
    ensures
        videos_view(r@) == flat_listing(records@),
{
    let mut out: Vec<ProfileVideoInfo> = Vec::new();
    let mut j: usize = 0;
    assert(records@.subrange(0, 0) =~= Seq::<(usize, Option<ToolProfileEntry>)>::empty());
    assert(videos_view(out@) =~= Seq::<ProfileVideoView>::empty());
    while j < records.len()
        invariant
            j <= records@.len(),
            videos_view(out@) == flat_listing(records@.subrange(0, j as int)),
        decreases records.len() - j,
    {
        assert(records@.subrange(0, j + 1).drop_last() =~= records@.subrange(0, j as int));
        let (index, entry) = (records[j].0, &records[j].1);
        if let Some(e) = entry {
            let v = video_from_flat_entry(e, index);
            let ghost before = out@;
            out.push(v);
            assert(videos_view(out@) =~= videos_view(before).push(v@));
        }
        j = j + 1;
    }
    assert(records@.subrange(0, j as int) =~= records@);
    out
}

proof fn lemma_full_listing_prefix(records: Seq<(usize, Option<ToolVideo>)>, j: int)
    requires
        0 <= j <= records.len(),
    ensures
        full_listing_all(records.subrange(0, j)).len() <= full_listing_all(records).len(),
        full_listing_all(records.subrange(0, j)) == full_listing_all(records).subrange(
            0,
            full_listing_all(records.subrange(0, j)).len() as int,
        ),
    decreases records.len(),
{
    if j < records.len() {
        assert(records.drop_last().subrange(0, j) =~= records.subrange(0, j));
        lemma_full_listing_prefix(records.drop_last(), j);
        let a = full_listing_all(records.subrange(0, j));
        let b = full_listing_all(records.drop_last());
        let c = full_listing_all(records);
        assert(c.subrange(0, a.len() as int) =~= b.subrange(0, a.len() as int));
    } else {
        assert(records.subrange(0, j) =~= records);
        assert(full_listing_all(records).subrange(0, full_listing_all(records).len() as int)
            =~= full_listing_all(records));
    }
}

/// Builds the video list of a full metadata listing: as for a flat listing,
/// from the other record shape, keeping the first `FULL_LISTING_CAP` videos.
pub fn collect_full_listing(records: &Vec<(usize, Option<ToolVideo>)>) -> (r: Vec<
    ProfileVideoInfo,
>)
    ensures
        videos_view(r@) == full_listing(records@),
{
    let mut out: Vec<ProfileVideoInfo> = Vec::new();
    let mut j: usize = 0;
    assert(records@.subrange(0, 0) =~= Seq::<(usize, Option<ToolVideo>)>::empty());
    assert(videos_view(out@) =~= Seq::<ProfileVideoView>::empty());
    while j < records.len() && out.len() < FULL_LISTING_CAP
        invariant
            j <= records@.len(),
            out@.len() <= FULL_LISTING_CAP,
            videos_view(out@) == full_listing_all(records@.subrange(0, j as int)),
        decreases records.len() - j,
    {
        assert(records@.subrange(0, j + 1).drop_last() =~= records@.subrange(0, j as int));
        let (index, entry) = (records[j].0, &records[j].1);
        if let Some(v) = entry {
            let video = video_from_full_record(v, index);
            let ghost before = out@;
            out.push(video);
            assert(videos_view(out@) =~= videos_view(before).push(video@));
        }
        j = j + 1;
    }
    proof {
        lemma_full_listing_prefix(records@, j as int);
        if j == records@.len() {
            assert(records@.subrange(0, j as int) =~= records@);
        }
    }
    out
}

// ---------------------------------------------------------------- framing

/// The nonblank lines of `ls`, each with its number.
pub open spec fn numbered_nonblank(ls: Seq<Seq<char>>) -> Seq<(int, Seq<char>)>
    decreases ls.len(),
{
    if ls.len() == 0 {
        Seq::empty()
    } else {
        let rest = numbered_nonblank(ls.drop_last());
        if trim(ls.last()).len() == 0 {
            rest
        } else {
            rest.push(((ls.len() - 1) as int, ls.last()))
        }
    }
}

/// `r` holds the nonblank lines of `output`, each with its number.
pub open spec fn frames(r: Seq<(usize, String)>, output: Seq<char>) -> bool {
    let nb = numbered_nonblank(lines(output));
    &&& r.len() == nb.len()
    &&& forall|i: int|
        0 <= i < r.len() ==> (#[trigger] r[i]).0 as int == nb[i].0 && r[i].1@ == nb[i].1
}

/// The records of a tool output that holds one JSON object per line: each
/// nonblank line with its number among all lines.
pub fn json_lines(output: &str) -> (r: Vec<(usize, String)>)
    ensures
        frames(r@, output@),
{
    let ls = split_lines(output);
    let ghost all = lines(output@);
    let mut out: Vec<(usize, String)> = Vec::new();
    let mut j: usize = 0;
    assert(views_of(ls@).subrange(0, 0) =~= Seq::<Seq<char>>::empty());
    while j < ls.len()
        invariant
            views_of(ls@) == all,
            j <= ls@.len(),
            out@.len() == numbered_nonblank(all.subrange(0, j as int)).len(),
            forall|i: int|
                0 <= i < out@.len() ==> (#[trigger] out@[i]).0 as int == numbered_nonblank(
                    all.subrange(0, j as int),
                )[i].0 && out@[i].1@ == numbered_nonblank(all.subrange(0, j as int))[i].1,
        decreases ls.len() - j,
    {
        assert(all.subrange(0, j + 1).drop_last() =~= all.subrange(0, j as int));
        let cs = chars_of(ls[j].as_str());
        assert(cs@ == all[j as int]);
        let (a, b) = trim_bounds(&cs);
        if a < b {
            out.push((j, ls[j].clone()));
        }
        j = j + 1;
    }
    assert(all.subrange(0, j as int) =~= all);
    out
}

// ---------------------------------------------------------------- enumeration

/// The ways of enumerating a profile's videos, tried in order.
#[derive(Debug, Clone, Copy, PartialEq, Eq, Structural)]
pub enum ListingStrategy {
    /// A flat playlist listing of the whole profile.
    FlatPlaylist,
    /// Full metadata of the first `FULL_LISTING_CAP` videos.
    FullMetadata,
}

pub open spec fn listing_args_spec(strategy: ListingStrategy, url: Seq<char>) -> Seq<Seq<char>> {
    match strategy {
        ListingStrategy::FlatPlaylist => seq![
            "--dump-json"@,
            "--flat-playlist"@,
            "--no-warnings"@,
            "--no-download"@,
            url,
        ],
        ListingStrategy::FullMetadata => seq![
            "--dump-json"@,
            "--no-download"@,
            "--no-warnings"@,
            "--playlist-end"@,
            "50"@,
            url,
        ],
    }
}

/// The tool arguments of a listing strategy.
pub fn listing_arguments(strategy: ListingStrategy, profile_url: &str) -> (r: Vec<String>)
    ensures
        views_of(r@) == listing_args_spec(strategy, profile_url@),
{
    let mut v: Vec<String> = Vec::new();
    match strategy {
        ListingStrategy::FlatPlaylist => {
            v.push("--dump-json".to_string());
            v.push("--flat-playlist".to_string());
            v.push("--no-warnings".to_string());
            v.push("--no-download".to_string());
        },
        ListingStrategy::FullMetadata => {
            v.push("--dump-json".to_string());
            v.push("--no-download".to_string());
            v.push("--no-warnings".to_string());
            v.push("--playlist-end".to_string());
            v.push("50".to_string());
        },
    }
    v.push(profile_url.to_string());
    assert(views_of(v@) =~= listing_args_spec(strategy, profile_url@));
    v
}

/// The records to read from a listing run: a failed flat listing fails the
/// enumeration, a failed full listing yields nothing.
pub fn listing_records(strategy: ListingStrategy, success: bool, stdout: &str, stderr: &str) -> (r:
    Result<Vec<(usize, String)>, ServiceError>)
    ensures
        success ==> (r matches Ok(v) && frames(v@, stdout@)),
        !success && strategy == ListingStrategy::FullMetadata ==> (r matches Ok(v) && v@.len()
            == 0),
        !success && strategy == ListingStrategy::FlatPlaylist ==> (r matches Err(
            ServiceError::UpstreamProcessError(m),
        ) && m@ == "Failed to get profile video list: "@ + stderr@),
{
    if success {
        Ok(json_lines(stdout))
    } else {
        match strategy {
            ListingStrategy::FullMetadata => Ok(Vec::new()),
            ListingStrategy::FlatPlaylist => Err(
                ServiceError::UpstreamProcessError(
                    concat("Failed to get profile video list: ", stderr),
                ),
            ),
        }
    }
}

/// The strategy to try after one that found `found` videos, if any.
pub fn next_listing_strategy(strategy: ListingStrategy, found: usize) -> (r: Option<ListingStrategy>)
    ensures
        r == (if strategy == ListingStrategy::FlatPlaylist && found == 0 {
            Some(ListingStrategy::FullMetadata)
        } else {
            None
        }),
{
    if strategy == ListingStrategy::FlatPlaylist && found == 0 {
        Some(ListingStrategy::FullMetadata)
    } else {
        None
    }
}

/// Enumerating twice over the same tool output gives the same ordered list:
/// its lines are framed alike, and the same records give the same videos.
pub proof fn lemma_enumeration_repeatable(
    output: Seq<char>,
    first_lines: Seq<(usize, String)>,
    second_lines: Seq<(usize, String)>,
    first: Seq<(usize, Option<ToolProfileEntry>)>,
    second: Seq<(usize, Option<ToolProfileEntry>)>,
)
    requires
        frames(first_lines, output),
        frames(second_lines, output),
        first == second,
    ensures
        first_lines.len() == second_lines.len(),
        forall|i: int|
            0 <= i < first_lines.len() ==> (#[trigger] first_lines[i]).0 == second_lines[i].0
                && first_lines[i].1@ == second_lines[i].1@,
        flat_listing(first) == flat_listing(second),
{
}

// ---------------------------------------------------------------- profile summary

/// Rough size of one video in an archive.
pub const AVERAGE_VIDEO_BYTES: u64 = 5_000_000;

pub open spec fn capped_count(n: nat) -> u32 {
    if n <= u32::MAX {
        n as u32
    } else {
        u32::MAX
    }
}

impl ProfileInfo {
    /// The summary of a profile whose videos were enumerated.
    pub fn summarize(username: String, videos: Vec<ProfileVideoInfo>) -> (r: ProfileInfo)
        ensures
            r.username@ == username@,
            r.display_name matches Some(d) && d@ == "@"@ + username@,
            r.total_downloadable_videos == capped_count(videos@.len()),
            r.video_count == Some(capped_count(videos@.len()) as u64),
            r.estimated_zip_size == Some(
                (capped_count(videos@.len()) as u64 * AVERAGE_VIDEO_BYTES) as u64,
            ),
            r.videos@ == videos@,
    {
        let n = videos.len();
        let count: u32 = if n <= u32::MAX as usize {
            n as u32
        } else {
            u32::MAX
        };
        let display = concat("@", username.as_str());
        ProfileInfo {
            username,
            display_name: Some(display),
            video_count: Some(count as u64),
            estimated_zip_size: Some(count as u64 * AVERAGE_VIDEO_BYTES),
            total_downloadable_videos: count,
            videos,
        }
    }
}

// ---------------------------------------------------------------- single video

/// A year in the range that chrono's dates cover.
pub open spec fn in_date_range(year: int) -> bool {
    -262143 <= year <= 262142
}

pub open spec fn is_leap_year(year: int) -> bool {
    (year % 4 == 0 && year % 100 != 0) || year % 400 == 0
}

pub open spec fn month_length(year: int, month: int) -> int {
    if month == 2 {
        if is_leap_year(year) {
            29
        } else {
            28
        }
    } else if month == 4 || month == 6 || month == 9 || month == 11 {
        30
    } else {
        31
    }
}

/// A date of the proleptic Gregorian calendar that chrono can hold.
pub open spec fn is_calendar_date(year: int, month: int, day: int) -> bool {
    in_date_range(year) && 1 <= month <= 12 && 1 <= day <= month_length(year, month)
}

/// Days from 1970-01-01 to a date of the proleptic Gregorian calendar.
pub open spec fn days_from_civil(year: int, month: int, day: int) -> int {
    let y = if month <= 2 {
        year - 1
    } else {
        year
    };
    let era = y / 400;
    let yoe = y - era * 400;
    let mp = if month > 2 {
        month - 3
    } else {
        month + 9
    };
    let doy = (153 * mp + 2) / 5 + day - 1;
    let doe = yoe * 365 + yoe / 4 - yoe / 100 + doy;
    era * 146097 + doe - 719468
}

/// The midnight, UTC, of a calendar date as Unix seconds; none when the date
/// does not exist.
pub open spec fn utc_midnight_of(year: int, month: int, day: int) -> Option<int> {
    if is_calendar_date(year, month, day) {
        Some(days_from_civil(year, month, day) * 86400)
    } else {
        None
    }
}

/// Relies on chrono's `NaiveDate::from_ymd_opt`, which gives a date exactly
/// when the year is within its range and the month and day exist, then reads
/// the date's midnight in UTC as Unix seconds.
#[verifier::external_body]
fn utc_midnight(year: i32, month: u32, day: u32) -> (r: Option<i64>)
    ensures
        r matches Some(t) ==> utc_midnight_of(year as int, month as int, day as int) == Some(
            t as int,
        ),
        r is None ==> utc_midnight_of(year as int, month as int, day as int) is None,
{
    match chrono::NaiveDate::from_ymd_opt(year, month, day) {
        Some(date) => Some(date.and_time(chrono::NaiveTime::MIN).and_utc().timestamp()),
        None => None,
    }
}

/// The year, month and day of a `YYYYMMDD` upload date: exactly eight
/// decimal digits.
pub open spec fn date_parts(s: Seq<char>) -> Option<(int, int, int)> {
    if s.len() == 8 && all_digits(s) {
        Some(
            (
                digits_value(s.subrange(0, 4)) as int,
                digits_value(s.subrange(4, 6)) as int,
                digits_value(s.subrange(6, 8)) as int,
            ),
        )
    } else {
        None
    }
}

/// A bound on the value of `k` decimal digits.
spec fn digits_bound(k: int) -> int {
    if k <= 0 {
        1
    } else if k == 1 {
        10
    } else if k == 2 {
        100
    } else if k == 3 {
        1000
    } else {
        10000
    }
}

/// The number that the digits `cs[from..to]`, at most four, denote.
fn digits_number(cs: &Vec<char>, from: usize, to: usize) -> (r: u32)
    requires
        from <= to <= cs@.len(),
        to - from <= 4,
        all_digits(cs@.subrange(from as int, to as int)),
    ensures
        r as int == digits_value(cs@.subrange(from as int, to as int)),
        r < 10000,
{
    let mut v: u32 = 0;
    let mut i = from;
    assert(cs@.subrange(from as int, from as int) =~= Seq::<char>::empty());
    while i < to
        invariant
            from <= i <= to <= cs@.len(),
            to - from <= 4,
            all_digits(cs@.subrange(from as int, to as int)),
            v as int == digits_value(cs@.subrange(from as int, i as int)),
            v < digits_bound(i - from),
        decreases to - i,
    {
        assert(cs@.subrange(from as int, i + 1).drop_last() =~= cs@.subrange(from as int, i as int));
        assert(cs@.subrange(from as int, to as int)[i - from] == cs@[i as int]);
        assert(is_digit(cs@[i as int]));
        let d = cs[i] as u32 - 48;
        v = v * 10 + d;
        i = i + 1;
    }
    v
}

pub fn upload_date_parts(s: &str) -> (r: Option<(i32, u32, u32)>)
    ensures
        r matches Some(p) ==> date_parts(s@) == Some((p.0 as int, p.1 as int, p.2 as int)),
        r is None ==> date_parts(s@) is None,
{
    let cs = chars_of(s);
    if cs.len() != 8 {
        return None;
    }
    let mut i: usize = 0;
    while i < 8
        invariant
            cs@ == s@,
            cs@.len() == 8,
            i <= 8,
            forall|k: int| 0 <= k < i ==> #[trigger] is_digit(cs@[k]),
        decreases 8 - i,
    {
        let u = cs[i] as u32;
        if u < 48 || u > 57 {
            assert(!is_digit(s@[i as int]));
            return None;
        }
        i = i + 1;
    }
    assert(all_digits(s@));
    assert forall|a: int, b: int| 0 <= a <= b <= 8 implies all_digits(#[trigger] cs@.subrange(a, b)) by {
        assert forall|k: int| 0 <= k < b - a implies #[trigger] is_digit(cs@.subrange(a, b)[k]) by {
            assert(cs@.subrange(a, b)[k] == cs@[a + k]);
        }
    }
    let y = digits_number(&cs, 0, 4);
    let m = digits_number(&cs, 4, 6);
    let d = digits_number(&cs, 6, 8);
    Some((y as i32, m, d))
}

/// When a video was made, as Unix seconds: the midnight of its upload date,
/// or `now` when the date is absent or not a date.
pub open spec fn created_at_spec(upload_date: Option<Seq<char>>, now: int) -> int {
    match upload_date {
        Some(s) => match date_parts(s) {
            Some(p) => match utc_midnight_of(p.0, p.1, p.2) {
                Some(t) => t,
                None => now,
            },
            None => now,
        },
        None => now,
    }
}

pub fn resolve_created_at(upload_date: &Option<String>, now: i64) -> (r: i64)
    ensures
        r as int == created_at_spec(opt_view(*upload_date), now as int),
{
    match upload_date {
        Some(s) => match upload_date_parts(s.as_str()) {
            Some((y, m, d)) => match utc_midnight(y, m, d) {
                Some(t) => t,
                None => now,
            },
            None => now,
        },
        None => now,
    }
}

/// `info` is the description of the tool record `v` requested by `original_url`,
/// made at time `now` (Unix seconds).
pub open spec fn describes_video(info: VideoInfo, v: ToolVideo, original_url: Seq<char>, now: int) -> bool {
    &&& info.id@ == v.id@
    &&& info.title@ == (match v.title {
        Some(t) => t@,
        None => "Untitled"@,
    })
    &&& info.author@ == (match v.uploader_id {
        Some(a) => a@,
        None => "unknown"@,
    })
    &&& info.description@ == (match v.description {
        Some(d) => d@,
        None => Seq::<char>::empty(),
    })
    &&& info.duration == (match v.duration_ms {
        Some(ms) => Some(
            if ms / 1000 <= u32::MAX {
                (ms / 1000) as u32
            } else {
                u32::MAX
            },
        ),
        None => None,
    })
    &&& info.view_count == v.view_count
    &&& info.like_count == v.like_count
    &&& info.share_count is None
    &&& info.comment_count == v.comment_count
    &&& opt_view(info.thumbnail_url) == best_thumbnail(
        thumbnails_seq(v.thumbnails),
        opt_view(v.thumbnail),
    )
    &&& info.video_url@ == display_url(formats_seq(v.formats))
    &&& info.original_url@ == original_url
    &&& info.created_at as int == created_at_spec(opt_view(v.upload_date), now)
    &&& offers(formats_seq(v.formats), info.available_formats@)
}

/// The description of a video from its metadata record, at time `now`.
pub fn video_info_at(v: &ToolVideo, original_url: &str, now: i64) -> (r: VideoInfo)
    ensures
        describes_video(r, *v, original_url@, now as int),
        offers(formats_seq(v.formats), r.available_formats@),
{
    let duration = match v.duration_ms {
        Some(ms) => {
            let secs = ms / 1000;
            Some(
                if secs <= u32::MAX as u64 {
                    secs as u32
                } else {
                    u32::MAX
                },
            )
        },
        None => None,
    };
    let title = match &v.title {
        Some(t) => t.clone(),
        None => "Untitled".to_string(),
    };
    let author = match &v.uploader_id {
        Some(a) => a.clone(),
        None => "unknown".to_string(),
    };
    let description = match &v.description {
        Some(d) => d.clone(),
        None => String::new(),
    };
    VideoInfo {
        id: v.id.clone(),
        title,
        author,
        description,
        duration,
        view_count: v.view_count,
        like_count: v.like_count,
        share_count: None,
        comment_count: v.comment_count,
        thumbnail_url: extract_best_thumbnail_url(&v.thumbnails, &v.thumbnail),
        video_url: best_video_url(&v.formats),
        original_url: original_url.to_string(),
        available_formats: parse_available_formats(&v.formats),
        created_at: resolve_created_at(&v.upload_date, now),
    }
}

/// The description of a video from its metadata record, made now.
pub fn convert_video_info(v: &ToolVideo, original_url: &str) -> (r: VideoInfo)
    ensures
        exists|now: int| describes_video(r, *v, original_url@, now),
{
    let secs = unix_seconds();
    let now: i64 = if secs <= i64::MAX as u64 {
        secs as i64
    } else {
        i64::MAX
    };
    video_info_at(v, original_url, now)
}

} // verus!
