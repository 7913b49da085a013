use vstd::prelude::*;

use crate::models::FormatOption;
use crate::text::{decimal, decimal_string, push_str, same_text};

verus! {

/// One entry of the `formats` array that the extraction tool reports.
#[derive(Debug, Clone)]
pub struct ToolFormat {
    pub format_id: String,
    pub ext: String,
    /// The tool's quality score, truncated toward zero.
    pub quality: Option<i32>,
    pub height: Option<u32>,
    pub width: Option<u32>,
    pub filesize: Option<u64>,
    pub url: Option<String>,
    pub vcodec: Option<String>,
    pub acodec: Option<String>,
    pub format_note: Option<String>,
}

/// At most this many formats are offered.
pub const MAX_OFFERED_FORMATS: usize = 5;

/// Formats shorter than this are not offered.
pub const MIN_OFFERED_HEIGHT: u32 = 240;

/// A bound above every `u32` height.
pub open spec fn above_all_heights() -> int {
    0x1_0000_0000
}

pub open spec fn is_audio_only(f: ToolFormat) -> bool {
    f.vcodec matches Some(v) && v@ == "none"@
}

/// An MP4 video format of known height, at least 240 lines tall.
pub open spec fn qualifies(f: ToolFormat) -> bool {
    &&& f.ext@ == "mp4"@
    &&& f.height is Some
    &&& !is_audio_only(f)
    &&& f.height.unwrap() >= MIN_OFFERED_HEIGHT
}

/// The tallest height below `bound` among the qualifying formats of `fs`.
pub open spec fn tallest_below(fs: Seq<ToolFormat>, bound: int) -> Option<u32>
    decreases fs.len(),
{
    if fs.len() == 0 {
        None
    } else {
        let rest = tallest_below(fs.drop_last(), bound);
        let f = fs.last();
        if qualifies(f) && f.height.unwrap() < bound && (rest is None || f.height.unwrap()
            > rest.unwrap()) {
            Some(f.height.unwrap())
        } else {
            rest
        }
    }
}

/// The first qualifying format of `fs` with height `h`.
pub open spec fn first_at_height(fs: Seq<ToolFormat>, h: u32) -> Option<ToolFormat>
    decreases fs.len(),
{
    if fs.len() == 0 {
        None
    } else {
        let rest = first_at_height(fs.drop_last(), h);
        if rest is Some {
            rest
        } else if qualifies(fs.last()) && fs.last().height == Some(h) {
            Some(fs.last())
        } else {
            None
        }
    }
}

/// The formats offered from `fs`: for each of the `n` tallest distinct heights
/// below `bound`, tallest first, the first qualifying format of that height.
pub open spec fn chosen_formats(fs: Seq<ToolFormat>, n: nat, bound: int) -> Seq<ToolFormat>
    decreases n,
{
    if n == 0 {
        Seq::empty()
    } else {
        match tallest_below(fs, bound) {
            None => Seq::empty(),
            Some(h) => seq![first_at_height(fs, h).unwrap()] + chosen_formats(
                fs,
                (n - 1) as nat,
                h as int,
            ),
        }
    }
}

pub open spec fn offered_formats(fs: Seq<ToolFormat>) -> Seq<ToolFormat> {
    chosen_formats(fs, MAX_OFFERED_FORMATS as nat, above_all_heights())
}

/// The label of a height tier.
pub open spec fn tier_label(h: u32) -> Seq<char> {
    if h >= 1080 {
        "1080p (HD)"@
    } else if h >= 720 {
        "720p (HD)"@
    } else if h >= 480 {
        "480p"@
    } else {
        "360p"@
    }
}

pub open spec fn option_label(f: ToolFormat) -> Seq<char> {
    match f.format_note {
        Some(note) => tier_label(f.height.unwrap()) + " - "@ + note@,
        None => tier_label(f.height.unwrap()),
    }
}

/// `o` is the option offered for the qualifying format `f`.
pub open spec fn describes(o: FormatOption, f: ToolFormat) -> bool {
    &&& o.format_id@ == f.format_id@
    &&& o.label@ == option_label(f)
    &&& o.quality@ == decimal(f.height.unwrap() as nat) + "p"@
    &&& o.ext@ == f.ext@
    &&& o.filesize == f.filesize
    &&& o.height == f.height
    &&& o.width == f.width
}

/// The option offered when no format qualifies.
pub open spec fn is_fallback(o: FormatOption) -> bool {
    &&& o.format_id@ == "best"@
    &&& o.label@ == "Best Available"@
    &&& o.quality@ == "auto"@
    &&& o.ext@ == "mp4"@
    &&& o.filesize is None
    &&& o.height is None
    &&& o.width is None
}

proof fn lemma_first_at_height(fs: Seq<ToolFormat>, h: u32)
    ensures
        first_at_height(fs, h) matches Some(f) ==> qualifies(f) && f.height == Some(h),
    decreases fs.len(),
{
    if fs.len() > 0 {
        lemma_first_at_height(fs.drop_last(), h);
    }
}

proof fn lemma_tallest_below(fs: Seq<ToolFormat>, bound: int)
    ensures
        tallest_below(fs, bound) matches Some(h) ==> h < bound && first_at_height(fs, h) is Some,
    decreases fs.len(),
{
    if fs.len() > 0 {
        lemma_tallest_below(fs.drop_last(), bound);
    }
}

proof fn lemma_first_at_height_prefix(fs: Seq<ToolFormat>, k: int, h: u32)
    requires
        0 <= k <= fs.len(),
        first_at_height(fs.subrange(0, k), h) is Some,
    ensures
        first_at_height(fs, h) == first_at_height(fs.subrange(0, k), h),
    decreases fs.len(),
{
    if k < fs.len() {
        assert(fs.drop_last().subrange(0, k) =~= fs.subrange(0, k));
        lemma_first_at_height_prefix(fs.drop_last(), k, h);
    } else {
        assert(fs.subrange(0, k) =~= fs);
    }
}

/// The chosen formats qualify, come in strictly falling height below `bound`,
/// and number at most `n`.
pub proof fn lemma_chosen_shape(fs: Seq<ToolFormat>, n: nat, bound: int)
    ensures
        chosen_formats(fs, n, bound).len() <= n,
        forall|i: int|
            0 <= i < chosen_formats(fs, n, bound).len() ==> qualifies(
                #[trigger] chosen_formats(fs, n, bound)[i],
            ) && chosen_formats(fs, n, bound)[i].height.unwrap() < bound,
        forall|i: int, j: int|
            0 <= i < j < chosen_formats(fs, n, bound).len() ==> #[trigger] chosen_formats(
                fs,
                n,
                bound,
            )[i].height.unwrap() > #[trigger] chosen_formats(fs, n, bound)[j].height.unwrap(),
    decreases n,
{
    if n > 0 {
        lemma_tallest_below(fs, bound);
        match tallest_below(fs, bound) {
            None => {},
            Some(h) => {
                lemma_first_at_height(fs, h);
                lemma_chosen_shape(fs, (n - 1) as nat, h as int);
                let rest = chosen_formats(fs, (n - 1) as nat, h as int);
                let all = chosen_formats(fs, n, bound);
                assert(all == seq![first_at_height(fs, h).unwrap()] + rest);
                assert forall|i: int| 0 <= i < all.len() implies qualifies(#[trigger] all[i])
                    && all[i].height.unwrap() < bound by {
                    if i > 0 {
                        assert(all[i] == rest[i - 1]);
                    }
                }
                assert forall|i: int, j: int|
                    0 <= i < j < all.len() implies #[trigger] all[i].height.unwrap()
                    > #[trigger] all[j].height.unwrap() by {
                    assert(all[j] == rest[j - 1]);
                    if i > 0 {
                        assert(all[i] == rest[i - 1]);
                    }
                }
            },
        }
    }
}

fn qualifies_exec(f: &ToolFormat) -> (r: bool)
    ensures
        r == qualifies(*f),
{
    if !same_text(f.ext.as_str(), "mp4") {
        return false;
    }
    let audio_only = match &f.vcodec {
        Some(v) => same_text(v.as_str(), "none"),
        None => false,
    };
    match f.height {
        Some(h) => !audio_only && h >= MIN_OFFERED_HEIGHT,
        None => false,
    }
}

fn tallest_below_exec(fs: &Vec<ToolFormat>, bound: u64) -> (r: Option<u32>)
    ensures
        r == tallest_below(fs@, bound as int),
{
    let mut best: Option<u32> = None;
    let mut j: usize = 0;
    assert(fs@.subrange(0, 0) =~= Seq::<ToolFormat>::empty());
    while j < fs.len()
        invariant
            j <= fs@.len(),
            best == tallest_below(fs@.subrange(0, j as int), bound as int),
        decreases fs.len() - j,
    {
        let f = &fs[j];
        assert(fs@.subrange(0, j + 1).drop_last() =~= fs@.subrange(0, j as int));
        if qualifies_exec(f) {
            let h = f.height.unwrap();
            if (h as u64) < bound {
                match best {
                    None => {
                        best = Some(h);
                    },
                    Some(b) => {
                        if h > b {
                            best = Some(h);
                        }
                    },
                }
            }
        }
        j = j + 1;
    }
    assert(fs@.subrange(0, j as int) =~= fs@);
    best
}

fn first_at_height_exec(fs: &Vec<ToolFormat>, h: u32) -> (r: Option<usize>)
    ensures
        r matches Some(i) ==> i < fs@.len() && first_at_height(fs@, h) == Some(fs@[i as int]),
        r is None ==> first_at_height(fs@, h) is None,
{
    let mut j: usize = 0;
    assert(fs@.subrange(0, 0) =~= Seq::<ToolFormat>::empty());
    while j < fs.len()
        invariant
            j <= fs@.len(),
            first_at_height(fs@.subrange(0, j as int), h) is None,
        decreases fs.len() - j,
    {
        assert(fs@.subrange(0, j + 1).drop_last() =~= fs@.subrange(0, j as int));
        if qualifies_exec(&fs[j]) && fs[j].height == Some(h) {
            proof {
                lemma_first_at_height_prefix(fs@, j + 1, h);
            }
            return Some(j);
        }
        j = j + 1;
    }
    assert(fs@.subrange(0, j as int) =~= fs@);
    None
}

fn tier_label_exec(h: u32) -> (r: &'static str)
    ensures
        r@ == tier_label(h),
{
    if h >= 1080 {
        "1080p (HD)"
    } else if h >= 720 {
        "720p (HD)"
    } else if h >= 480 {
        "480p"
    } else {
        "360p"
    }
}

/// The option offered for a qualifying format.
fn option_for(f: &ToolFormat) -> (o: FormatOption)
    requires
        qualifies(*f),
    ensures
        describes(o, *f),
{
    let h = f.height.unwrap();
    let tier = tier_label_exec(h);
    let label = match &f.format_note {
        Some(note) => {
            let mut l = tier.to_string();
            push_str(&mut l, " - ");
            push_str(&mut l, note.as_str());
            l
        },
        None => tier.to_string(),
    };
    let mut quality = decimal_string(h as u128);
    push_str(&mut quality, "p");
    FormatOption {
        format_id: f.format_id.clone(),
        label,
        quality,
        ext: f.ext.clone(),
        filesize: f.filesize,
        height: f.height,
        width: f.width,
    }
}

/// The single option offered when no format qualifies.
pub fn fallback_option() -> (o: FormatOption)
    ensures
        is_fallback(o),
{
    FormatOption {
        format_id: "best".to_string(),
        label: "Best Available".to_string(),
        quality: "auto".to_string(),
        ext: "mp4".to_string(),
        filesize: None,
        height: None,
        width: None,
    }
}

pub open spec fn formats_seq(o: Option<Vec<ToolFormat>>) -> Option<Seq<ToolFormat>> {
    match o {
        Some(v) => Some(v@),
        None => None,
    }
}

/// `r` lists the options offered for the tool's format list: the fallback
/// alone when no format qualifies (none does when there is no list), else
/// one option per chosen format.
pub open spec fn offers(formats: Option<Seq<ToolFormat>>, r: Seq<FormatOption>) -> bool {
    match formats {
        None => r.len() == 1 && is_fallback(r[0]),
        Some(fs) => {
            let chosen = offered_formats(fs);
            if chosen.len() == 0 {
                r.len() == 1 && is_fallback(r[0])
            } else {
                r.len() == chosen.len() && forall|i: int|
                    0 <= i < r.len() ==> describes(#[trigger] r[i], chosen[i])
            }
        },
    }
}

/// The download options offered for a video: its MP4 video formats at least 240
/// lines tall, tallest first, one per height (the first the tool listed), at most
/// five; the fallback alone when none qualifies, or when the tool gave no
/// format list at all.
pub fn parse_available_formats(formats: &Option<Vec<ToolFormat>>) -> (r: Vec<FormatOption>)
    ensures
        offers(formats_seq(*formats), r@),
        formats matches Some(fs) && fs@.len() == 0 ==> r@.len() == 1 && is_fallback(r@[0]),
        r@.len() <= MAX_OFFERED_FORMATS,
        forall|i: int, j: int|
            0 <= i < j < r@.len() ==> (#[trigger] r@[i]).height is Some && (
            #[trigger] r@[j]).height is Some && r@[i].height.unwrap() > r@[j].height.unwrap(),
{
    let fs = match formats {
        Some(f) => f,
        None => {
            let mut only: Vec<FormatOption> = Vec::new();
            only.push(fallback_option());
            return only;
        },
    };
    let ghost total = offered_formats(fs@);
    proof {
        lemma_chosen_shape(fs@, MAX_OFFERED_FORMATS as nat, above_all_heights());
    }
    let mut out: Vec<FormatOption> = Vec::new();
    let ghost mut done: Seq<ToolFormat> = Seq::empty();
    let mut bound: u64 = 0x1_0000_0000;
    let mut k: usize = 0;
    while k < MAX_OFFERED_FORMATS
        invariant
            k <= MAX_OFFERED_FORMATS,
            bound <= 0x1_0000_0000,
            out@.len() == k,
            done.len() == k,
            total == offered_formats(fs@),
            total == done + chosen_formats(fs@, (MAX_OFFERED_FORMATS - k) as nat, bound as int),
            forall|i: int| 0 <= i < k ==> describes(#[trigger] out@[i], done[i]),
        ensures
            total =~= done,
        decreases MAX_OFFERED_FORMATS - k,
    {
        proof {
            lemma_tallest_below(fs@, bound as int);
        }
        let h = match tallest_below_exec(fs, bound) {
            Some(h) => h,
            None => {
                assert(total =~= done);
                break;
            },
        };
        let i = first_at_height_exec(fs, h).unwrap();
        proof {
            lemma_first_at_height(fs@, h);
        }
        let option = option_for(&fs[i]);
        proof {
            let rest = chosen_formats(fs@, (MAX_OFFERED_FORMATS - k - 1) as nat, h as int);
            assert(total =~= done.push(fs@[i as int]) + rest);
            done = done.push(fs@[i as int]);
        }
        out.push(option);
        bound = h as u64;
        k = k + 1;
    }
    if out.len() == 0 {
        out.push(fallback_option());
    }
    proof {
        if fs@.len() == 0 {
            assert(tallest_below(fs@, above_all_heights()) is None);
        }
        assert forall|i: int, j: int| 0 <= i < j < out@.len() && total.len() > 0 implies (
        #[trigger] out@[i]).height is Some && (#[trigger] out@[j]).height is Some && out@[i].height.unwrap()
            > out@[j].height.unwrap() by {
            assert(total[i].height.unwrap() > total[j].height.unwrap());
        }
    }
    out
}

/// A format that can be played directly: MP4 with a URL.
pub open spec fn streamable(f: ToolFormat) -> bool {
    f.ext@ == "mp4"@ && f.url is Some
}

pub open spec fn quality_rank(f: ToolFormat) -> int {
    match f.quality {
        Some(q) => q as int,
        None => 0,
    }
}

/// The streamable format of highest quality rank, the last of equals.
pub open spec fn best_streamable(fs: Seq<ToolFormat>) -> Option<ToolFormat>
    decreases fs.len(),
{
    if fs.len() == 0 {
        None
    } else {
        let rest = best_streamable(fs.drop_last());
        let f = fs.last();
        if streamable(f) && (rest is None || quality_rank(f) >= quality_rank(rest.unwrap())) {
            Some(f)
        } else {
            rest
        }
    }
}

/// The URL shown as the video's own: that of the best streamable format, or
/// empty when there is none.
pub open spec fn display_url(formats: Option<Seq<ToolFormat>>) -> Seq<char> {
    match formats {
        Some(fs) => match best_streamable(fs) {
            Some(f) => f.url.unwrap()@,
            None => Seq::empty(),
        },
        None => Seq::empty(),
    }
}

proof fn lemma_best_streamable(fs: Seq<ToolFormat>)
    ensures
        best_streamable(fs) matches Some(f) ==> streamable(f),
    decreases fs.len(),
{
    if fs.len() > 0 {
        lemma_best_streamable(fs.drop_last());
    }
}

pub fn best_video_url(formats: &Option<Vec<ToolFormat>>) -> (r: String)
    ensures
        r@ == display_url(
            match formats {
                Some(fs) => Some(fs@),
                None => None,
            },
        ),
{
    let fs = match formats {
        Some(f) => f,
        None => {
            return String::new();
        },
    };
    let mut best: Option<usize> = None;
    let mut j: usize = 0;
    assert(fs@.subrange(0, 0) =~= Seq::<ToolFormat>::empty());
    while j < fs.len()
        invariant
            j <= fs@.len(),
            best matches Some(b) ==> b < j,
            best_streamable(fs@.subrange(0, j as int)) == match best {
                Some(b) => Some(fs@[b as int]),
                None => None,
            },
        decreases fs.len() - j,
    {
        let f = &fs[j];
        assert(fs@.subrange(0, j + 1).drop_last() =~= fs@.subrange(0, j as int));
        let playable = same_text(f.ext.as_str(), "mp4") && f.url.is_some();
        if playable {
            let rank: i32 = match f.quality {
                Some(q) => q,
                None => 0,
            };
            match best {
                None => {
                    best = Some(j);
                },
                Some(b) => {
                    let best_rank: i32 = match fs[b].quality {
                        Some(q) => q,
                        None => 0,
                    };
                    if rank >= best_rank {
                        best = Some(j);
                    }
                },
            }
        }
        j = j + 1;
    }
    assert(fs@.subrange(0, j as int) =~= fs@);
    proof {
        lemma_best_streamable(fs@);
    }
    match best {
        Some(b) => {
            let u = fs[b].url.clone().unwrap();
            u
        },
        None => String::new(),
    }
}

} // verus!
