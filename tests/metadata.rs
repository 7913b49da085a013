use tiktok_downloader::errors::ServiceError;
use tiktok_downloader::formats::{best_video_url, parse_available_formats, ToolFormat};
use tiktok_downloader::metadata::{
    collect_flat_listing, collect_full_listing, extract_best_thumbnail_url, json_lines,
    listing_arguments, listing_records, next_listing_strategy, resolve_created_at,
    upload_date_parts, video_info_at, ListingStrategy, ToolProfileEntry, ToolThumbnail, ToolVideo,
};
use tiktok_downloader::models::{ProfileInfo, ProfileVideoInfo};

fn thumb(id: Option<&str>, url: &str, h: Option<u32>, w: Option<u32>) -> ToolThumbnail {
    ToolThumbnail { id: id.map(|s| s.to_string()), url: url.to_string(), height: h, width: w }
}

fn format(id: &str, ext: &str, height: Option<u32>, vcodec: Option<&str>, note: Option<&str>) -> ToolFormat {
    ToolFormat {
        format_id: id.to_string(),
        ext: ext.to_string(),
        quality: None,
        height,
        width: height.map(|h| h * 16 / 9),
        filesize: None,
        url: None,
        vcodec: vcodec.map(|s| s.to_string()),
        acodec: None,
        format_note: note.map(|s| s.to_string()),
    }
}

#[test]
fn test_extract_best_thumbnail_url() {
    let thumbnails = vec![
        thumb(Some("dynamic"), "https://example.com/dynamic.jpg", Some(720), Some(720)),
        thumb(Some("cover"), "https://example.com/cover.jpg", Some(1080), Some(1080)),
    ];

    let result = extract_best_thumbnail_url(&Some(thumbnails), &None);
    assert_eq!(result, Some("https://example.com/cover.jpg".to_string()));

    let fallback = Some("https://example.com/fallback.jpg".to_string());
    let result = extract_best_thumbnail_url(&None, &fallback);
    assert_eq!(result, Some("https://example.com/fallback.jpg".to_string()));

    let result = extract_best_thumbnail_url(&None, &None);
    assert_eq!(result, None);
}

#[test]
fn test_parse_available_formats() {
    let test_formats = vec![
        ToolFormat {
            format_id: "test1".to_string(),
            ext: "mp4".to_string(),
            quality: Some(1080),
            height: Some(1080),
            width: Some(1920),
            filesize: Some(5000000),
            url: Some("test_url".to_string()),
            vcodec: Some("h264".to_string()),
            acodec: Some("aac".to_string()),
            format_note: Some("high".to_string()),
        },
        ToolFormat {
            format_id: "test2".to_string(),
            ext: "mp4".to_string(),
            quality: Some(720),
            height: Some(720),
            width: Some(1280),
            filesize: Some(3000000),
            url: Some("test_url2".to_string()),
            vcodec: Some("h264".to_string()),
            acodec: Some("aac".to_string()),
            format_note: Some("medium".to_string()),
        },
    ];

    let result = parse_available_formats(&Some(test_formats));

    assert_eq!(result.len(), 2);
    assert_eq!(result[0].quality, "1080p");
    assert_eq!(result[1].quality, "720p");
}

#[test]
fn cover_wins_wherever_it_stands() {
    let thumbnails = vec![
        thumb(None, "https://example.com/big.jpg", Some(4000), Some(4000)),
        thumb(Some("origin"), "https://example.com/origin.jpg", Some(2000), Some(2000)),
        thumb(Some("cover_small"), "https://example.com/c.jpg", Some(10), Some(10)),
    ];
    assert_eq!(
        extract_best_thumbnail_url(&Some(thumbnails), &Some("https://example.com/f.jpg".to_string())),
        Some("https://example.com/c.jpg".to_string())
    );
}

#[test]
fn largest_thumbnail_without_cover_last_of_equals() {
    let thumbnails = vec![
        thumb(Some("a"), "https://example.com/a.jpg", Some(100), Some(100)),
        thumb(Some("b"), "https://example.com/b.jpg", Some(200), Some(50)),
        thumb(Some("c"), "https://example.com/c.jpg", None, Some(900)),
        thumb(Some("d"), "https://example.com/d.jpg", Some(50), Some(200)),
    ];
    assert_eq!(
        extract_best_thumbnail_url(&Some(thumbnails), &None),
        Some("https://example.com/d.jpg".to_string())
    );
    let empty: Vec<ToolThumbnail> = Vec::new();
    assert_eq!(
        extract_best_thumbnail_url(&Some(empty), &Some("https://example.com/f.jpg".to_string())),
        Some("https://example.com/f.jpg".to_string())
    );
}

#[test]
fn formats_are_sorted_deduplicated_and_capped() {
    let formats = vec![
        format("a", "mp4", Some(480), None, None),
        format("b", "mp4", Some(1080), Some("h264"), Some("hd")),
        format("c", "mp4", Some(720), None, None),
        format("d", "mp4", Some(1080), None, None),
        format("e", "webm", Some(1440), None, None),
        format("f", "mp4", Some(240), None, None),
        format("g", "mp4", Some(239), None, None),
        format("h", "mp4", Some(2160), Some("none"), None),
        format("i", "mp4", None, None, None),
        format("j", "mp4", Some(360), None, None),
        format("k", "mp4", Some(1440), None, None),
    ];
    let result = parse_available_formats(&Some(formats));
    let ids: Vec<&str> = result.iter().map(|f| f.format_id.as_str()).collect();
    assert_eq!(ids, vec!["k", "b", "c", "a", "j"]);
    assert_eq!(result[1].label, "1080p (HD) - hd");
    assert_eq!(result[0].label, "1080p (HD)");
    assert_eq!(result[2].label, "720p (HD)");
    assert_eq!(result[3].label, "480p");
    assert_eq!(result[4].label, "360p");
    assert_eq!(result[0].quality, "1440p");
    for pair in result.windows(2) {
        assert!(pair[0].height.unwrap() > pair[1].height.unwrap());
    }
}

#[test]
fn no_qualifying_format_gives_the_fallback() {
    let empty: Vec<ToolFormat> = Vec::new();
    let result = parse_available_formats(&Some(empty));
    assert_eq!(result.len(), 1);
    assert_eq!(result[0].format_id, "best");
    assert_eq!(result[0].label, "Best Available");
    assert_eq!(result[0].quality, "auto");
    assert_eq!(result[0].ext, "mp4");
    assert_eq!(result[0].height, None);

    let audio_only = vec![format("x", "mp4", Some(720), Some("none"), None)];
    assert_eq!(parse_available_formats(&Some(audio_only))[0].format_id, "best");

    let none = parse_available_formats(&None);
    assert_eq!(none.len(), 1);
    assert_eq!(none[0].format_id, "best");
}

#[test]
fn best_video_url_prefers_highest_quality_mp4_with_url() {
    let mut a = format("a", "mp4", Some(720), None, None);
    a.quality = Some(3);
    a.url = Some("https://cdn/a".to_string());
    let mut b = format("b", "webm", Some(1080), None, None);
    b.quality = Some(9);
    b.url = Some("https://cdn/b".to_string());
    let mut c = format("c", "mp4", Some(1080), None, None);
    c.quality = Some(3);
    c.url = Some("https://cdn/c".to_string());
    let mut d = format("d", "mp4", Some(1080), None, None);
    d.quality = Some(10);
    assert_eq!(best_video_url(&Some(vec![a, b, c, d])), "https://cdn/c");
    assert_eq!(best_video_url(&None), "");
}

fn entry(id: &str, title: Option<&str>) -> ToolProfileEntry {
    ToolProfileEntry {
        id: id.to_string(),
        title: title.map(|s| s.to_string()),
        url: format!("https://www.tiktok.com/@user/video/{}", id),
        thumbnail: Some("https://example.com/t.jpg".to_string()),
        thumbnails: None,
        duration_ms: Some(12_500),
        view_count: Some(7),
        upload_date: Some("20240115".to_string()),
        webpage_url: None,
    }
}

#[test]
fn flat_listing_skips_unreadable_lines_and_numbers_untitled_videos() {
    let records = vec![
        (0usize, Some(entry("1", Some("First")))),
        (1usize, None),
        (3usize, Some(entry("3", None))),
    ];
    let videos = collect_flat_listing(&records);
    assert_eq!(videos.len(), 2);
    assert_eq!(videos[0].title, "First");
    assert_eq!(videos[1].title, "TikTok Video #4");
    assert_eq!(videos[1].url, "https://www.tiktok.com/@user/video/3");
    assert_eq!(videos[1].thumbnail_url, Some("https://example.com/t.jpg".to_string()));
}

fn same_videos(a: &[ProfileVideoInfo], b: &[ProfileVideoInfo]) -> bool {
    a.len() == b.len()
        && a.iter().zip(b.iter()).all(|(x, y)| {
            x.url == y.url
                && x.id == y.id
                && x.title == y.title
                && x.thumbnail_url == y.thumbnail_url
                && x.duration_ms == y.duration_ms
                && x.view_count == y.view_count
                && x.upload_date == y.upload_date
        })
}

#[test]
fn enumeration_twice_gives_the_same_list() {
    let output = "{\"id\":\"1\"}\n\n   \nnot json\r\n{\"id\":\"2\"}\n";
    let lines = json_lines(output);
    let numbers: Vec<usize> = lines.iter().map(|l| l.0).collect();
    assert_eq!(numbers, vec![0, 3, 4]);
    assert_eq!(lines[1].1, "not json");
    let records = vec![
        (0usize, Some(entry("1", None))),
        (3usize, None),
        (4usize, Some(entry("2", Some("Two")))),
    ];
    let first = collect_flat_listing(&records);
    let second = collect_flat_listing(&records);
    assert!(same_videos(&first, &second));
    assert_eq!(first[0].title, "TikTok Video #1");
}

fn full_record(id: &str) -> ToolVideo {
    ToolVideo {
        id: id.to_string(),
        title: None,
        description: None,
        uploader: None,
        uploader_id: None,
        duration_ms: None,
        view_count: None,
        like_count: None,
        comment_count: None,
        thumbnail: None,
        thumbnails: None,
        webpage_url: format!("https://www.tiktok.com/@user/video/{}", id),
        upload_date: None,
        formats: None,
    }
}

#[test]
fn full_listing_keeps_the_first_fifty() {
    let records: Vec<(usize, Option<ToolVideo>)> =
        (0..60).map(|i| (i, Some(full_record(&i.to_string())))).collect();
    let videos = collect_full_listing(&records);
    assert_eq!(videos.len(), 50);
    assert_eq!(videos[49].id, "49");
    assert_eq!(videos[0].title, "TikTok Video #1");
}

#[test]
fn listing_strategies_chain_and_fail_as_described() {
    let flat = listing_arguments(ListingStrategy::FlatPlaylist, "https://www.tiktok.com/@u");
    assert_eq!(flat, vec!["--dump-json", "--flat-playlist", "--no-warnings", "--no-download", "https://www.tiktok.com/@u"]);
    let full = listing_arguments(ListingStrategy::FullMetadata, "https://www.tiktok.com/@u");
    assert_eq!(full, vec!["--dump-json", "--no-download", "--no-warnings", "--playlist-end", "50", "https://www.tiktok.com/@u"]);
    match listing_records(ListingStrategy::FlatPlaylist, false, "", "boom") {
        Err(ServiceError::UpstreamProcessError(m)) => assert_eq!(m, "Failed to get profile video list: boom"),
        _ => panic!("a failed flat listing must fail"),
    }
    assert!(listing_records(ListingStrategy::FullMetadata, false, "", "boom").unwrap().is_empty());
    assert_eq!(next_listing_strategy(ListingStrategy::FlatPlaylist, 0), Some(ListingStrategy::FullMetadata));
    assert_eq!(next_listing_strategy(ListingStrategy::FlatPlaylist, 2), None);
    assert_eq!(next_listing_strategy(ListingStrategy::FullMetadata, 0), None);
}

#[test]
fn profile_summary_estimates_size() {
    let records = vec![(0usize, Some(entry("1", None))), (1usize, Some(entry("2", None)))];
    let info = ProfileInfo::summarize("user".to_string(), collect_flat_listing(&records));
    assert_eq!(info.display_name, Some("@user".to_string()));
    assert_eq!(info.video_count, Some(2));
    assert_eq!(info.total_downloadable_videos, 2);
    assert_eq!(info.estimated_zip_size, Some(10_000_000));
}

#[test]
fn upload_dates_parse_or_fall_back_to_now() {
    assert_eq!(upload_date_parts("20240115"), Some((2024, 1, 15)));
    assert_eq!(upload_date_parts("2024011"), None);
    assert_eq!(upload_date_parts("2024ab15"), None);
    assert_eq!(resolve_created_at(&Some("20240115".to_string()), 99), 1705276800);
    assert_eq!(resolve_created_at(&Some("20241340".to_string()), 99), 99);
    assert_eq!(resolve_created_at(&Some("yesterday".to_string()), 99), 99);
    assert_eq!(resolve_created_at(&None, 99), 99);
    assert_eq!(resolve_created_at(&Some("19700101".to_string()), 99), 0);
    assert_eq!(resolve_created_at(&Some("19691231".to_string()), 99), -86400);
    assert_eq!(resolve_created_at(&Some("20240229".to_string()), 99), 1709164800);
    assert_eq!(resolve_created_at(&Some("20230229".to_string()), 99), 99);
    assert_eq!(resolve_created_at(&Some("00010101".to_string()), 99), -62135596800);
    assert_eq!(resolve_created_at(&Some("-0010101".to_string()), 99), 99);
    assert_eq!(resolve_created_at(&Some("2024+1+1".to_string()), 99), 99);
    assert_eq!(resolve_created_at(&Some("+2020101".to_string()), 99), 99);
    assert_eq!(upload_date_parts("2024+1+1"), None);
    assert_eq!(upload_date_parts("20241301"), Some((2024, 13, 1)));
}

#[test]
fn end_to_end_video_info_offers_two_formats() {
    let mut record = full_record("1234567890");
    record.title = Some("A video".to_string());
    record.uploader_id = Some("user".to_string());
    record.duration_ms = Some(15_900);
    record.formats = Some(vec![
        format("hd", "mp4", Some(1080), Some("h264"), None),
        format("sd", "mp4", Some(720), Some("h264"), None),
    ]);
    let info = video_info_at(&record, "https://www.tiktok.com/@user/video/1234567890", 5);
    assert_eq!(info.available_formats.len(), 2);
    assert_eq!(info.available_formats[0].quality, "1080p");
    assert_eq!(info.author, "user");
    assert_eq!(info.description, "");
    assert_eq!(info.duration, Some(15));
    assert_eq!(info.created_at, 5);
    assert_eq!(info.share_count, None);
    assert_eq!(info.original_url, "https://www.tiktok.com/@user/video/1234567890");
}
