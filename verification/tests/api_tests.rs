use lastfm_edit::api::{
    api_error, build_recent_tracks_url, recent_tracks_outcome, recent_tracks_page, ApiDate,
    ApiPaginationAttr, ApiRecentTracks, ApiRecentTracksResponse, ApiTextField, ApiTrack,
    ApiTrackAttr,
};
use lastfm_edit::types::LastFmError;

fn api_track(name: &str, artist: &str, album: &str, uts: Option<&str>, nowplaying: bool) -> ApiTrack {
    ApiTrack {
        name: name.to_string(),
        artist: ApiTextField { text: artist.to_string() },
        album: ApiTextField { text: album.to_string() },
        date: uts.map(|u| ApiDate { uts: u.to_string() }),
        attr: if nowplaying {
            Some(ApiTrackAttr { nowplaying: Some("true".to_string()) })
        } else {
            None
        },
    }
}

fn response(tracks: Vec<ApiTrack>, page: &str, total_pages: &str) -> ApiRecentTracksResponse {
    ApiRecentTracksResponse {
        recenttracks: ApiRecentTracks {
            track: tracks,
            attr: ApiPaginationAttr { page: page.to_string(), total_pages: total_pages.to_string() },
        },
    }
}

#[test]
fn test_parse_api_recent_tracks() {
    let r = response(
        vec![
            api_track("Test Track", "Test Artist", "Test Album", Some("1700000000"), false),
            api_track("Now Playing", "Some Artist", "Some Album", None, true),
        ],
        "1",
        "5",
    );
    let page = recent_tracks_outcome(Ok(r), None).unwrap();
    assert_eq!(page.tracks.len(), 1);
    assert_eq!(page.tracks[0].name, "Test Track");
    assert_eq!(page.tracks[0].artist, "Test Artist");
    assert_eq!(page.tracks[0].album.as_deref(), Some("Test Album"));
    assert_eq!(page.tracks[0].album_artist, None);
    assert_eq!(page.tracks[0].timestamp, Some(1700000000));
    assert_eq!(page.tracks[0].playcount, 1);
    assert_eq!(page.page_number, 1);
    assert!(page.has_next_page);
    assert_eq!(page.total_pages, Some(5));
}

#[test]
fn test_parse_single_track_as_object() {
    let r = response(vec![api_track("Solo", "Artist", "Album", Some("1700000000"), false)], "1", "1");
    let page = recent_tracks_outcome(Ok(r), None).unwrap();
    assert_eq!(page.tracks.len(), 1);
    assert_eq!(page.tracks[0].name, "Solo");
}

#[test]
fn test_parse_empty_page_without_track_field() {
    let r = response(vec![], "1", "0");
    let page = recent_tracks_outcome(Ok(r), None).unwrap();
    assert!(page.tracks.is_empty());
}

#[test]
fn test_api_error_body_is_surfaced() {
    let err = recent_tracks_outcome(
        Err("missing field `recenttracks`".to_string()),
        Some((6, "User not found".to_string())),
    )
    .unwrap_err();
    assert!(err.to_string().contains("User not found"), "{:?}", err);
}

#[test]
fn test_parse_api_last_page() {
    let r = response(vec![api_track("Track", "Artist", "Album", Some("1700000000"), false)], "3", "3");
    let page = recent_tracks_outcome(Ok(r), None).unwrap();
    assert!(!page.has_next_page);
    assert_eq!(page.page_number, 3);
}

#[test]
fn test_build_recent_tracks_url_without_range() {
    let url = build_recent_tracks_url("someuser", "apikey123", 2, None, None);
    assert_eq!(
        url,
        "https://ws.audioscrobbler.com/2.0/?method=user.getrecenttracks&user=someuser&api_key=apikey123&format=json&page=2&limit=200"
    );
    assert!(!url.contains("&from="));
    assert!(!url.contains("&to="));
}

#[test]
fn test_build_recent_tracks_url_with_from_and_to() {
    let url = build_recent_tracks_url("someuser", "apikey123", 1, Some(1700000000), Some(1700086400));
    assert_eq!(
        url,
        "https://ws.audioscrobbler.com/2.0/?method=user.getrecenttracks&user=someuser&api_key=apikey123&format=json&page=1&limit=200&from=1700000000&to=1700086400"
    );
}

#[test]
fn test_build_recent_tracks_url_with_only_from() {
    let url = build_recent_tracks_url("someuser", "apikey123", 1, Some(1700000000), None);
    assert!(url.ends_with("&limit=200&from=1700000000"));
    assert!(!url.contains("&to="));
}

#[test]
fn test_build_recent_tracks_url_with_only_to() {
    let url = build_recent_tracks_url("someuser", "apikey123", 1, None, Some(1700086400));
    assert!(url.ends_with("&limit=200&to=1700086400"));
    assert!(!url.contains("&from="));
}

#[test]
fn test_build_recent_tracks_url_encodes_username() {
    let url = build_recent_tracks_url("some user&x", "key", 1, None, None);
    assert!(url.contains("user=some%20user%26x"));
}

#[test]
fn api_unreadable_pagination_counts_as_one() {
    let r = response(vec![api_track("T", "A", "B", Some("12"), false)], "x", "");
    let page = recent_tracks_page(&r);
    assert_eq!(page.page_number, 1);
    assert_eq!(page.total_pages, Some(1));
    assert!(!page.has_next_page);
}

#[test]
fn api_undated_and_badly_dated_tracks_are_dropped() {
    let r = response(
        vec![
            api_track("NoDate", "A", "B", None, false),
            api_track("BadDate", "A", "B", Some("12x"), false),
            api_track("Good", "A", "B", Some("42"), false),
        ],
        "2",
        "4",
    );
    let page = recent_tracks_page(&r);
    assert_eq!(page.tracks.len(), 1);
    assert_eq!(page.tracks[0].name, "Good");
    assert_eq!(page.tracks[0].timestamp, Some(42));
    assert!(page.has_next_page);
}

#[test]
fn api_error_text_names_code_and_message() {
    match api_error(-3, "bad") {
        LastFmError::Http(m) => assert_eq!(m, "last.fm API error -3: bad"),
        other => panic!("unexpected {:?}", other),
    }
}

#[test]
fn api_unparsed_body_is_a_parse_error() {
    match recent_tracks_outcome(Err("expected value".to_string()), None) {
        Err(LastFmError::Parse(m)) => assert_eq!(m, "expected value"),
        other => panic!("unexpected {:?}", other),
    }
}
