use lastfm_edit::cli::delete::{
    DeletionTally, ScrobbleToDelete,
    dated_at_offsets, deletion_event, deletion_summary, needed_scrobbles, scrobbles_at_offsets, select_dated,
    DeleteEvent,
};
use lastfm_edit::cli::search::{reached_limit, starting_page, within_page_offset, SearchProgress, SearchStep};
use lastfm_edit::cli::show::{max_offset, show_events, shown_count, sorted_offsets, unavailable_offsets, ShowEvent};
use lastfm_edit::cli::utils::parse_range;
use lastfm_edit::types::Track;

fn track(name: &str, ts: Option<u64>) -> Track {
    Track {
        name: name.to_string(),
        artist: "Band".to_string(),
        playcount: 1,
        timestamp: ts,
        album: None,
        album_artist: None,
    }
}

#[test]
fn ranges_are_read_and_checked() {
    assert_eq!(parse_range("3-7", "offset"), Ok((3, 7)));
    assert_eq!(parse_range("5-5", "offset"), Ok((5, 5)));
    assert_eq!(
        parse_range("7", "timestamp"),
        Err("Invalid timestamp range format. Expected 'start-end', got '7'".to_string())
    );
    assert_eq!(parse_range("1-2-3", "offset").unwrap_err(), "Invalid offset range format. Expected 'start-end', got '1-2-3'");
    assert_eq!(parse_range("a-2", "offset"), Err("Invalid start offset: 'a'".to_string()));
    assert_eq!(parse_range("1-", "offset"), Err("Invalid end offset: ''".to_string()));
    assert_eq!(
        parse_range("9-2", "offset"),
        Err("Start offset (9) cannot be greater than end offset (2)".to_string())
    );
}

#[test]
fn dated_scrobbles_in_a_time_range() {
    let ts = vec![track("a", Some(10)), track("b", None), track("c", Some(20)), track("d", Some(30))];
    let chosen = select_dated(&ts, 10, 20);
    let names: Vec<&str> = chosen.iter().map(|s| s.track.as_str()).collect();
    assert_eq!(names, vec!["a", "c"]);
    assert_eq!(chosen[1].timestamp, 20);
    assert!(select_dated(&ts, 31, 40).is_empty());
}

#[test]
fn scrobbles_by_offset() {
    let ts = vec![track("a", Some(10)), track("b", None), track("c", Some(20))];
    assert_eq!(needed_scrobbles(4), 5);
    let picked = scrobbles_at_offsets(&ts, 1, 9).unwrap();
    assert_eq!(picked.len(), 2);
    assert_eq!(picked[0].0, 1);
    assert_eq!(picked[1].1.name, "c");
    assert!(scrobbles_at_offsets(&ts, 3, 4).is_none());
    let dated = dated_at_offsets(&picked);
    assert_eq!(dated.len(), 1);
    assert_eq!(dated[0].track, "c");
}

#[test]
fn deletion_events() {
    let ts = vec![track("a", Some(10))];
    let chosen = select_dated(&ts, 0, 100);
    match deletion_event(1, &chosen[0], Ok(false)) {
        DeleteEvent::ScrobbleDeleted { index, success, message, timestamp, .. } => {
            assert_eq!(index, 1);
            assert!(!success);
            assert_eq!(message.as_deref(), Some("Deletion failed"));
            assert_eq!(timestamp, 10);
        }
        other => panic!("unexpected {:?}", other),
    }
    match deletion_event(2, &chosen[0], Err("network".to_string())) {
        DeleteEvent::ScrobbleDeleted { message, .. } => assert_eq!(message.as_deref(), Some("network")),
        other => panic!("unexpected {:?}", other),
    }
    match deletion_event(3, &chosen[0], Ok(true)) {
        DeleteEvent::ScrobbleDeleted { success, message, .. } => {
            assert!(success);
            assert!(message.is_none());
        }
        other => panic!("unexpected {:?}", other),
    }
    match deletion_summary(3, 2, 1, false) {
        DeleteEvent::Summary { total_found, successful_deletions, failed_deletions, dry_run } => {
            assert_eq!((total_found, successful_deletions, failed_deletions, dry_run), (3, 2, 1, false));
        }
        other => panic!("unexpected {:?}", other),
    }
}

#[test]
fn showing_offsets() {
    let offsets = vec![5, 0, 9, 2];
    assert_eq!(max_offset(&offsets), 9);
    assert_eq!(sorted_offsets(&offsets), vec![0, 2, 5, 9]);
    assert_eq!(sorted_offsets(&vec![3, 1, 3]), vec![1, 3, 3]);
    assert_eq!(unavailable_offsets(&offsets, 3), vec![5, 9]);
    let all = vec![track("a", Some(1)), track("b", Some(2)), track("c", Some(3))];
    let sorted = sorted_offsets(&offsets);
    let events = show_events(&sorted, &all);
    assert_eq!(events.len(), 4);
    match &events[1] {
        ShowEvent::ScrobbleDetails { offset, scrobble } => {
            assert_eq!(*offset, 2);
            assert_eq!(scrobble.name, "c");
        }
        other => panic!("unexpected {:?}", other),
    }
    match &events[3] {
        ShowEvent::OffsetUnavailable { offset, total_available } => {
            assert_eq!((*offset, *total_available), (9, 3));
        }
        other => panic!("unexpected {:?}", other),
    }
    assert_eq!(shown_count(&sorted, 3), 2);
}

#[test]
fn search_paging_and_limits() {
    assert_eq!(starting_page(0), 1);
    assert_eq!(starting_page(29), 1);
    assert_eq!(starting_page(30), 2);
    assert_eq!(within_page_offset(65), 5);
    assert!(reached_limit(3, 3));
    assert!(!reached_limit(3, 0));

    let mut p = SearchProgress::new(2, 2);
    assert_eq!(p.on_result(), SearchStep::Skip);
    assert_eq!(p.on_result(), SearchStep::Skip);
    assert!(p.no_results());
    assert_eq!(p.on_result(), SearchStep::Show { index: 3, stop_after: false });
    assert_eq!(p.on_result(), SearchStep::Show { index: 4, stop_after: true });
    assert!(!p.no_results());
    assert_eq!(p.total_count, 4);
}

#[test]
fn deletion_tally_counts_outcomes() {
    let scrobble = ScrobbleToDelete { artist: "A".to_string(), track: "T".to_string(), timestamp: 5 };
    let mut tally = DeletionTally::new();
    tally.record(&deletion_event(1, &scrobble, Ok(true)));
    tally.record(&deletion_event(2, &scrobble, Ok(false)));
    tally.record(&deletion_event(3, &scrobble, Err("boom".to_string())));
    tally.record(&deletion_summary(3, 0, 0, false));
    assert_eq!((tally.successful, tally.failed), (1, 2));
}
