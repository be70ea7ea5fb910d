use lastfm_edit::client::{
    album_tracks_url, apply_edit, artist_albums_url, artist_tracks_url, artists_url, body_is_rate_limited,
    delete_form_body, delete_url, discovered_edit_result, edit_single_response, edit_url,
    extract_csrf_token, extract_scrobble_edits_from_page, fetch_headers, fetch_step, find_matching_scrobble,
    has_next_scrobbles_page, is_login_redirect, is_rate_limit_response, library_url, no_scrobble_forms_error,
    nothing_to_edit_error, read_next_scrobbles_page, recent_scrobbles_url, redirect_target,
    search_albums_url, search_tracks_url, session_check_url, session_response_valid, too_many_redirects,
    track_scrobbles_url, user_url, FetchStep,
};
use lastfm_edit::types::{
    EditResponse, ExactScrobbleEdit, LastFmEditSession, LastFmError, RateLimitConfig, RateLimitType, ScrobbleEdit,
    Track,
};

fn session() -> LastFmEditSession {
    LastFmEditSession::new(
        "me".to_string(),
        vec!["a=1".to_string()],
        Some("tok".to_string()),
        "https://www.last.fm".to_string(),
    )
}

fn track(name: &str, artist: &str, ts: u64) -> Track {
    Track {
        name: name.to_string(),
        artist: artist.to_string(),
        playcount: 1,
        timestamp: Some(ts),
        album: None,
        album_artist: None,
    }
}

fn exact(album: &str, album_artist: &str) -> ExactScrobbleEdit {
    ExactScrobbleEdit::new(
        "T".to_string(),
        album.to_string(),
        "A".to_string(),
        album_artist.to_string(),
        "T".to_string(),
        album.to_string(),
        "A".to_string(),
        album_artist.to_string(),
        100,
        true,
    )
}

#[test]
fn urls_of_the_web_interface() {
    let s = session();
    assert_eq!(user_url(&s), "https://www.last.fm/user/me");
    assert_eq!(recent_scrobbles_url(&s, 3), "https://www.last.fm/user/me/library?page=3");
    assert_eq!(artists_url(&s, 1), "https://www.last.fm/user/me/library/artists?page=1");
    assert_eq!(
        artist_tracks_url(&s, "AC/DC", 2),
        "https://www.last.fm/user/me/library/music/AC%2FDC/+tracks?page=2&ajax=true"
    );
    assert_eq!(
        artist_albums_url(&s, "A B", 1),
        "https://www.last.fm/user/me/library/music/A%20B/+albums?page=1&ajax=true"
    );
    assert_eq!(
        album_tracks_url(&s, "Lp 1", "Art", 1),
        "https://www.last.fm/user/me/library/music/Art/Lp%201?page=1&ajax=true"
    );
    assert_eq!(
        search_tracks_url(&s, "x y", 2),
        "https://www.last.fm/user/me/library/tracks/search?page=2&query=x%20y&ajax=1"
    );
    assert_eq!(
        search_albums_url(&s, "q", 1),
        "https://www.last.fm/user/me/library/albums/search?page=1&query=q&ajax=1"
    );
    assert_eq!(
        track_scrobbles_url(&s, "Art", "Song 1", 1),
        "https://www.last.fm/user/me/library/music/+noredirect/Art/_/Song%201"
    );
    assert_eq!(
        track_scrobbles_url(&s, "Art", "Song", 2),
        "https://www.last.fm/user/me/library/music/Art/_/Song?page=2"
    );
    assert_eq!(edit_url(&s), "https://www.last.fm/user/me/library/edit?edited-variation=library-track-scrobble");
    assert_eq!(delete_url(&s), "https://www.last.fm/user/me/library/delete");
    assert_eq!(library_url(&s), "https://www.last.fm/user/me/library");
    assert_eq!(session_check_url(&s), "https://www.last.fm/settings/subscription/automatic-edits/tracks");
}

#[test]
fn login_pages_and_session_checks() {
    assert!(is_login_redirect("Please sign in to continue"));
    assert!(is_login_redirect("<form method=post><input type=password></form>"));
    assert!(!is_login_redirect("<p>Your library</p>"));
    assert!(!session_response_valid(302, Some("/login?next=/user")));
    assert!(session_response_valid(302, Some("/user/me")));
    assert!(session_response_valid(200, Some("/login")));
    assert!(session_response_valid(200, None));
}

#[test]
fn redirects() {
    assert_eq!(redirect_target("https://x/a/b", "/c", "https://x"), "https://x/c");
    assert_eq!(redirect_target("https://x/a/b", "https://y/z", "https://x"), "https://y/z");
    assert_eq!(redirect_target("https://x/a/b", "c?d=1", "https://x"), "https://x/a/c?d=1");
    assert!(too_many_redirects(5).is_none());
    match too_many_redirects(6) {
        Some(LastFmError::Http(m)) => assert_eq!(m, "Too many redirects"),
        other => panic!("unexpected {:?}", other),
    }
}

#[test]
fn fetch_steps() {
    let config = RateLimitConfig::default();
    match fetch_step(&config, "https://x/p", 302, Some("/next"), None, true, "https://x") {
        FetchStep::Follow { url } => assert_eq!(url, "https://x/next"),
        other => panic!("unexpected {:?}", other),
    }
    match fetch_step(&config, "https://x/p?page=2", 302, Some("/login"), None, true, "https://x") {
        FetchStep::Fail { error: LastFmError::Auth(m) } => {
            assert_eq!(m, "Session expired or invalid for paginated request")
        }
        other => panic!("unexpected {:?}", other),
    }
    match fetch_step(&config, "https://x/p", 429, None, Some("17"), true, "https://x") {
        FetchStep::RateLimited { rate_limit_type: RateLimitType::Http429, retry_after } => assert_eq!(retry_after, 17),
        other => panic!("unexpected {:?}", other),
    }
    match fetch_step(&config, "https://x/p", 429, None, Some("soon"), true, "https://x") {
        FetchStep::RateLimited { retry_after, .. } => assert_eq!(retry_after, 60),
        other => panic!("unexpected {:?}", other),
    }
    match fetch_step(&config, "https://x/p", 403, None, None, true, "https://x") {
        FetchStep::RateLimited { rate_limit_type: RateLimitType::Http403, retry_after } => assert_eq!(retry_after, 60),
        other => panic!("unexpected {:?}", other),
    }
    assert!(matches!(fetch_step(&config, "https://x/p", 403, None, None, false, "https://x"), FetchStep::Done));
    assert!(matches!(
        fetch_step(&RateLimitConfig::disabled(), "https://x/p", 429, None, None, true, "https://x"),
        FetchStep::Done
    ));
    assert!(matches!(fetch_step(&config, "https://x/p", 200, None, None, true, "https://x"), FetchStep::Done));
}

#[test]
fn fetch_headers_carry_cookies_and_referer() {
    let hs = fetch_headers("https://x/lib?page=2", &vec!["a=1".to_string(), "b=2".to_string()]);
    assert_eq!(hs[0], ("Cookie".to_string(), "a=1; b=2".to_string()));
    assert!(hs.iter().any(|(k, v)| k == "Referer" && v == "https://x/lib"));
    let none = fetch_headers("https://x/lib", &vec![]);
    assert!(none.iter().all(|(k, _)| k != "Cookie" && k != "Referer"));
}

#[test]
fn rate_limit_patterns_in_bodies() {
    let config = RateLimitConfig::default();
    assert!(is_rate_limit_response(&config, "Sorry: TOO MANY REQUESTS, slow down"));
    assert!(!is_rate_limit_response(&config, "<p>hello</p>"));
    assert!(!is_rate_limit_response(&RateLimitConfig::status_only(), "slow down"));
    let custom = RateLimitConfig::custom_patterns_only(vec!["Whoa There".to_string()]);
    assert!(is_rate_limit_response(&custom, "whoa there, friend"));
    assert!(body_is_rate_limited(&config, 200, "Rate Limit reached"));
    assert!(!body_is_rate_limited(&config, 500, "Rate Limit reached"));
    assert!(!body_is_rate_limited(&config, 200, "too many requests"));
}

const TRACK_PAGE: &str = r#"
<table class="chartlist">
  <tr>
    <td><form data-edit-scrobble>
      <input name="track_name" value="Song">
      <input name="artist_name" value="Band">
      <input name="album_name" value="First">
      <input name="album_artist_name" value="Band">
      <input name="timestamp" value="1700000000">
    </form></td>
  </tr>
  <tr>
    <td><form data-edit-scrobble>
      <input name="track_name" value="Song">
      <input name="artist_name" value="Band">
      <input name="album_name" value="First">
      <input name="album_artist_name" value="Band">
      <input name="timestamp" value="1700000100">
    </form></td>
  </tr>
  <tr>
    <td><form data-edit-scrobble>
      <input name="track_name" value="Song">
      <input name="artist_name" value="Band">
      <input name="album_name" value="Second">
      <input name="timestamp" value="1700000200">
    </form></td>
  </tr>
  <tr>
    <td><form data-edit-scrobble>
      <input name="track_name" value="Other">
      <input name="artist_name" value="Band">
      <input name="album_name" value="Third">
      <input name="timestamp" value="1700000300">
    </form></td>
  </tr>
</table>
<div class="pagination"><span class="pagination-next"><a href="?page=2">Next</a></span></div>
"#;

#[test]
fn scrobble_edits_from_a_track_page() {
    let mut seen = Vec::new();
    let edits = extract_scrobble_edits_from_page(TRACK_PAGE, "Song", "Band", &mut seen).unwrap();
    assert_eq!(edits.len(), 2);
    assert_eq!(edits[0].album_name_original, "First");
    assert_eq!(edits[0].timestamp, 1700000000);
    assert!(edits[0].edit_all);
    assert_eq!(edits[1].album_name_original, "Second");
    assert_eq!(edits[1].album_artist_name_original, "Band");
    assert_eq!(seen.len(), 2);
    let again = extract_scrobble_edits_from_page(TRACK_PAGE, "Song", "Band", &mut seen).unwrap();
    assert!(again.is_empty());
    assert!(has_next_scrobbles_page(TRACK_PAGE));
    assert!(!has_next_scrobbles_page("<p></p>"));
    match extract_scrobble_edits_from_page("<p>none</p>", "Song", "Band", &mut seen) {
        Err(LastFmError::Parse(m)) => assert_eq!(m, "No chartlist table found on track page"),
        other => panic!("unexpected {:?}", other),
    }
    assert!(read_next_scrobbles_page(true, 5));
    assert!(!read_next_scrobbles_page(true, 6));
    assert!(!read_next_scrobbles_page(false, 1));
}

#[test]
fn edit_errors_and_results() {
    match no_scrobble_forms_error("S", "A") {
        LastFmError::Parse(m) => assert_eq!(m, "No scrobble forms found for track 'S' by 'A'"),
        other => panic!("unexpected {:?}", other),
    }
    match nothing_to_edit_error(&ScrobbleEdit::for_album("LP", "Old", "New")) {
        LastFmError::Parse(m) => assert_eq!(
            m,
            "No scrobbles found for album 'LP' by 'Old'. Make sure the names are correct and that you have scrobbled recently."
        ),
        other => panic!("unexpected {:?}", other),
    }
    let r = edit_single_response(Err(LastFmError::RateLimit { retry_after: 5 }), 3, exact("LP", "AA"));
    assert!(!r.individual_results[0].success);
    assert_eq!(r.individual_results[0].message.as_deref(), Some("Rate limit exceeded after 3 retries"));
    let ok = edit_single_response(Ok(true), 3, exact("LP", "AA"));
    assert!(ok.success());
    let failed = edit_single_response(Err(LastFmError::Http("boom".to_string())), 3, exact("LP", "AA"));
    assert_eq!(failed.individual_results[0].message.as_deref(), Some("HTTP error: boom"));
    let d = discovered_edit_result(exact("LP", "AA"), &ok);
    assert!(d.success);
    assert_eq!(d.album_info.as_deref(), Some("LP by AA"));
    assert_eq!(d.message.as_deref(), Some("Edit completed successfully"));
    let none = discovered_edit_result(exact("LP", "AA"), &EditResponse::from_results(vec![]));
    assert!(!none.success);
}

#[test]
fn applying_a_requested_edit() {
    let d = exact("LP", "AA");
    let e = ScrobbleEdit::from_track_and_artist("T", "A").with_track_name("T2").with_edit_all(false);
    let m = apply_edit(&d, &e);
    assert_eq!(m.track_name, "T2");
    assert_eq!(m.track_name_original, "T");
    assert_eq!(m.album_name, "LP");
    assert_eq!(m.artist_name, "A");
    assert!(!m.edit_all);
}

#[test]
fn deletion_form_and_tokens() {
    assert_eq!(
        delete_form_body("tok", "A B", "S&T", 42),
        "csrfmiddlewaretoken=tok&artist_name=A%20B&track_name=S%26T&timestamp=42&ajax=1"
    );
    assert_eq!(
        extract_csrf_token(r#"<input name="csrfmiddlewaretoken" value="xyz">"#).unwrap(),
        "xyz"
    );
    assert!(matches!(extract_csrf_token("<p></p>"), Err(LastFmError::CsrfNotFound)));
}

#[test]
fn matching_scrobbles() {
    let ts = vec![track("A", "X", 1), track("B", "Y", 2), track("B", "Y", 3)];
    assert_eq!(find_matching_scrobble(&ts, "B", "Y").unwrap().timestamp, Some(2));
    assert!(find_matching_scrobble(&ts, "B", "X").is_none());
}
