use lastfm_edit::delete_manifest::{
    check_manifest_version, delete_attempt_result, delete_summary, target_from_track, DeleteAttemptResult,
    DeleteManifest, DeleteManifestSource,
};
use lastfm_edit::discovery::{filter_by_original_album_artist, prepare_discovered};
use lastfm_edit::headers::{add_common_headers, add_cookies, add_edit_headers, add_get_headers};
use lastfm_edit::iterator::{PageCursor, RecentTracksCursor};
use lastfm_edit::scrobble_edit_context::{EditStrategy, IntoEditContext, ScrobbleEditContext};
use lastfm_edit::types::{ExactScrobbleEdit, LastFmError, ScrobbleEdit, Track, TrackPage};

fn track(name: &str, ts: Option<u64>) -> Track {
    Track {
        name: name.to_string(),
        artist: "Band".to_string(),
        playcount: 3,
        timestamp: ts,
        album: Some("LP".to_string()),
        album_artist: None,
    }
}

fn exact(album: &str, album_artist: &str) -> ExactScrobbleEdit {
    ExactScrobbleEdit::new(
        "T".to_string(),
        album.to_string(),
        "A".to_string(),
        album_artist.to_string(),
        "T".to_string(),
        album.to_string(),
        "A".to_string(),
        album_artist.to_string(),
        100,
        true,
    )
}

#[test]
fn manifest_numbers_its_targets_and_gives_them_back() {
    let targets = vec![target_from_track(&track("a", Some(1)), Some(0), 1), target_from_track(&track("b", Some(2)), None, 2)];
    let source = DeleteManifestSource { kind: "offset".to_string(), range: Some("0-1".to_string()) };
    let m = DeleteManifest::generated_at(source, &targets, 1234);
    assert_eq!(m.version, 1);
    assert_eq!(m.generated_at_unix, 1234);
    assert_eq!(m.scrobbles.len(), 2);
    assert_eq!(m.scrobbles[0].index, 1);
    assert_eq!(m.scrobbles[1].index, 2);
    assert_eq!(m.scrobbles[1].track, "b");
    assert_eq!(m.scrobbles[0].album.as_deref(), Some("LP"));
    let back = m.targets();
    assert_eq!(back.len(), 2);
    assert_eq!(back[0].offset, Some(0));
    assert_eq!(back[1].timestamp, 2);
    let now = DeleteManifest::new(DeleteManifestSource { kind: "timestamp".to_string(), range: None }, &targets).unwrap();
    assert_eq!(now.scrobbles.len(), 2);
    assert!(now.generated_at_unix > 1_600_000_000);
}

#[test]
fn manifest_versions_are_checked() {
    let source = DeleteManifestSource { kind: "offset".to_string(), range: None };
    let mut m = DeleteManifest::generated_at(source, &vec![], 5);
    assert!(check_manifest_version(m.clone(), "x.json").is_ok());
    m.version = 2;
    match check_manifest_version(m, "x.json") {
        Err(LastFmError::Parse(msg)) => assert_eq!(msg, "Unsupported delete manifest version 2 in 'x.json'"),
        other => panic!("unexpected {:?}", other),
    }
}

#[test]
fn deletion_results_are_summarised() {
    let results = vec![
        delete_attempt_result(Ok(true)),
        delete_attempt_result(Ok(false)),
        delete_attempt_result(Err("timeout".to_string())),
    ];
    assert!(results[0].success());
    assert_eq!(results[0].message(), None);
    assert_eq!(results[1].message(), Some("Deletion failed; the scrobble may already be missing"));
    assert!(matches!(results[2], DeleteAttemptResult::Error { .. }));
    assert_eq!(results[2].message(), Some("timeout"));
    let s = delete_summary(&results);
    assert_eq!((s.total_found, s.successful_deletions, s.failed_deletions), (3, 1, 2));
}

#[test]
fn discovered_edits_are_filtered_by_album_artist() {
    let found = vec![exact("One", "Band"), exact("Two", "Other"), exact("Three", "Band")];
    let edit = ScrobbleEdit::new(
        Some("T".to_string()),
        None,
        "A".to_string(),
        Some("Band".to_string()),
        Some("T2".to_string()),
        None,
        "A".to_string(),
        None,
        None,
        true,
    );
    let kept = filter_by_original_album_artist(found.clone(), &edit);
    let albums: Vec<&str> = kept.iter().map(|e| e.album_name_original.as_str()).collect();
    assert_eq!(albums, vec!["One", "Three"]);
    let prepared = prepare_discovered(&found, &edit);
    assert_eq!(prepared.len(), 2);
    assert_eq!(prepared[0].track_name, "T2");
    assert_eq!(prepared[0].album_artist_name, "Band");
    let everything = ScrobbleEdit::from_track_and_artist("T", "A");
    assert_eq!(filter_by_original_album_artist(found, &everything).len(), 3);
}

#[test]
fn edit_contexts() {
    let ctx = track("Song", Some(5)).into_edit_context();
    assert!(matches!(ctx.strategy, EditStrategy::EditAll));
    assert_eq!(ctx.album_name, None);
    let e = ctx.create_edit("New".to_string(), None);
    assert_eq!(e.track_name.as_deref(), Some("New"));
    assert_eq!(e.album_name.as_deref(), Some("New"));
    assert_eq!(e.album_name_original.as_deref(), Some("Song"));
    assert!(e.edit_all);
    assert_eq!(
        ctx.describe_edit("New"),
        "Will edit ALL instances of 'Song' by 'Band' to 'New' (approximately 3 scrobbles)"
    );
    let recent = ctx.edit_from_recent_scrobble(&Some(track("Song", Some(77))), "New", Some("Alb")).unwrap();
    assert_eq!(recent.timestamp, Some(77));
    assert_eq!(recent.album_name.as_deref(), Some("Alb"));
    match ctx.edit_from_recent_scrobble(&Some(track("Song", None)), "New", None) {
        Err(LastFmError::Parse(m)) => assert_eq!(m, "Found recent scrobble but no timestamp available"),
        other => panic!("unexpected {:?}", other),
    }
    match ctx.edit_from_recent_scrobble(&None, "New", None) {
        Err(LastFmError::Parse(m)) => assert_eq!(m, "No recent scrobble found for 'Song' by 'Band'"),
        other => panic!("unexpected {:?}", other),
    }
    let specific = ScrobbleEditContext {
        strategy: EditStrategy::SpecificScrobbles(vec![9, 10]),
        ..ScrobbleEditContext::from_track_listing("S".to_string(), "B".to_string(), 2, Some("Al".to_string()))
    };
    let e2 = specific.create_edit("S2".to_string(), Some("Al2".to_string()));
    assert_eq!(e2.timestamp, Some(9));
    assert!(!e2.edit_all);
    assert_eq!(specific.describe_edit("S2"), "Will edit 2 specific scrobbles of 'S' by 'B' to 'S2'");
    let e3 = specific.edit_for_recent_scrobble(&Some(track("S", Some(1))), "S2".to_string(), None);
    assert_eq!(e3.timestamp, Some(9));
}

#[test]
fn cursors_walk_pages_and_stop_at_a_time() {
    let mut c = PageCursor::with_starting_page(0);
    assert_eq!(c.next_page(), Some(1));
    c.record_page(false, Some(1));
    assert_eq!(c.next_page(), None);
    assert_eq!(c.current_page_number(), 1);

    let mut r = RecentTracksCursor::with_starting_page(1).with_stop_timestamp(50);
    let page = TrackPage {
        tracks: vec![track("new", Some(90)), track("undated", None), track("old", Some(50)), track("older", Some(10))],
        page_number: 1,
        has_next_page: true,
        total_pages: Some(3),
    };
    let kept = r.accept_page(page);
    let names: Vec<&str> = kept.iter().map(|t| t.name.as_str()).collect();
    assert_eq!(names, vec!["new", "undated"]);
    assert!(!r.cursor.has_more);

    let mut open = RecentTracksCursor::with_starting_page(2);
    let page = TrackPage { tracks: vec![track("x", Some(1))], page_number: 2, has_next_page: true, total_pages: None };
    assert_eq!(open.accept_page(page).len(), 1);
    assert!(open.cursor.has_more);
    assert_eq!(open.cursor.current_page, 3);
    let empty = TrackPage { tracks: vec![], page_number: 3, has_next_page: true, total_pages: None };
    assert!(open.accept_page(empty).is_empty());
    assert!(!open.cursor.has_more);
}

#[test]
fn request_headers() {
    let mut hs = Vec::new();
    add_common_headers(&mut hs);
    assert_eq!(hs.len(), 8);
    assert_eq!(hs[0].0, "User-Agent");
    let mut edit = Vec::new();
    add_edit_headers(&mut edit, "https://x/lib");
    assert_eq!(edit.last().unwrap(), &("Referer".to_string(), "https://x/lib".to_string()));
    assert!(edit.iter().any(|(k, v)| k == "X-Requested-With" && v == "XMLHttpRequest"));
    let mut get = Vec::new();
    add_get_headers(&mut get, false, None);
    assert!(get.iter().any(|(k, _)| k == "Upgrade-Insecure-Requests"));
    assert!(get.iter().all(|(k, _)| k != "Referer"));
    let mut ajax = Vec::new();
    add_get_headers(&mut ajax, true, Some("https://x/r"));
    assert_eq!(ajax.len(), 11);
    let mut c = Vec::new();
    add_cookies(&mut c, &vec!["a=1".to_string(), "b=2".to_string()]);
    assert_eq!(c, vec![("Cookie".to_string(), "a=1; b=2".to_string())]);
    let mut none = Vec::new();
    add_cookies(&mut none, &vec![]);
    assert!(none.is_empty());
}
