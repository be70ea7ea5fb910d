use lastfm_edit::types::{EditResponse, ExactScrobbleEdit, LastFmError, ScrobbleEdit, SingleEditResponse};

fn exact(track: &str, album_artist: &str, edit_all: bool) -> ExactScrobbleEdit {
    ExactScrobbleEdit::new(
        track.to_string(),
        "Album".to_string(),
        "Artist".to_string(),
        album_artist.to_string(),
        format!("{} (new)", track),
        "Album".to_string(),
        "Artist".to_string(),
        album_artist.to_string(),
        1700000000,
        edit_all,
    )
}

fn result(success: bool, message: Option<&str>, album_info: Option<&str>) -> SingleEditResponse {
    SingleEditResponse {
        success,
        message: message.map(|m| m.to_string()),
        album_info: album_info.map(|m| m.to_string()),
        exact_scrobble_edit: exact("T", "AA", false),
    }
}

#[test]
fn build_form_data_lists_fields_in_order() {
    let fields = exact("Song", "Band", true).build_form_data("tok");
    let names: Vec<&str> = fields.iter().map(|(k, _)| k.as_str()).collect();
    assert_eq!(
        names,
        vec![
            "csrfmiddlewaretoken",
            "track_name_original",
            "track_name",
            "artist_name_original",
            "artist_name",
            "album_name_original",
            "album_name",
            "album_artist_name_original",
            "album_artist_name",
            "timestamp",
            "edit_all",
            "submit",
            "ajax",
        ]
    );
    assert_eq!(fields[0].1, "tok");
    assert_eq!(fields[2].1, "Song (new)");
    assert_eq!(fields[9].1, "1700000000");
    assert_eq!(fields[10].1, "1");
    assert_eq!(fields[11].1, "edit-scrobble");
    let without = exact("Song", "Band", false).build_form_data("tok");
    assert_eq!(without.len(), 12);
    assert!(without.iter().all(|(k, _)| k != "edit_all"));
}

#[test]
fn exact_edit_round_trips_through_scrobble_edit() {
    let e = exact("Song", "Band", true);
    let s = e.to_scrobble_edit();
    assert_eq!(s.track_name_original.as_deref(), Some("Song"));
    assert_eq!(s.track_name.as_deref(), Some("Song (new)"));
    assert_eq!(s.album_artist_name.as_deref(), Some("Band"));
    assert_eq!(s.timestamp, Some(1700000000));
    assert!(s.edit_all);
}

#[test]
fn scrobble_edit_builders() {
    let e = ScrobbleEdit::from_track_and_artist("Song", "Artist")
        .with_track_name("Song 2")
        .with_album_name("LP")
        .with_edit_all(false);
    assert_eq!(e.track_name.as_deref(), Some("Song 2"));
    assert_eq!(e.album_name.as_deref(), Some("LP"));
    assert_eq!(e.artist_name, "Artist");
    assert!(!e.edit_all);
    let a = ScrobbleEdit::for_artist("Old", "New");
    assert_eq!(a.artist_name_original, "Old");
    assert_eq!(a.artist_name, "New");
    assert!(a.track_name.is_none());
    let b = ScrobbleEdit::for_album("LP", "Old", "New");
    assert_eq!(b.album_name_original.as_deref(), Some("LP"));
    assert_eq!(b.album_artist_name_original.as_deref(), Some("Old"));
    let w = ScrobbleEdit::from_track_and_artist("S", "A").with_artist_name("B");
    assert_eq!(w.artist_name, "B");
    assert_eq!(w.album_artist_name.as_deref(), Some("B"));
}

#[test]
fn edit_response_counts_and_summaries() {
    let none = EditResponse::from_results(vec![]);
    assert_eq!(none.summary_message(), "No edit operations performed");
    assert!(!none.all_successful());
    assert!(!none.any_successful());
    assert!(!none.success());

    let one = EditResponse::single(true, None, None, exact("T", "AA", false));
    assert!(one.is_single_edit());
    assert_eq!(one.summary_message(), "Edit completed successfully");
    assert_eq!(one.message().as_deref(), Some("Edit completed successfully"));

    let one_failed = EditResponse::from_results(vec![result(false, None, None)]);
    assert_eq!(one_failed.summary_message(), "Edit failed");

    let all = EditResponse::from_results(vec![result(true, None, None), result(true, None, None)]);
    assert_eq!(all.summary_message(), "All 2 edits completed successfully");
    let none_ok = EditResponse::from_results(vec![result(false, None, None), result(false, None, None)]);
    assert_eq!(none_ok.summary_message(), "All 2 edits failed");

    let mixed = EditResponse::from_results(vec![
        result(true, Some("ok"), Some("LP by AA")),
        result(false, None, None),
        result(true, None, Some("EP by AA")),
    ]);
    assert_eq!(mixed.total_edits(), 3);
    assert_eq!(mixed.successful_edits(), 2);
    assert_eq!(mixed.failed_edits(), 1);
    assert_eq!(mixed.successful_edits() + mixed.failed_edits(), mixed.total_edits());
    assert!(!mixed.all_successful());
    assert!(mixed.any_successful());
    assert_eq!(mixed.summary_message(), "2 of 3 edits succeeded, 1 failed");
    assert_eq!(
        mixed.detailed_messages(),
        vec!["1: ok (LP by AA)".to_string(), "2: Failed".to_string(), "3: Success (EP by AA)".to_string()]
    );
}

#[test]
fn error_texts() {
    assert_eq!(LastFmError::Http("x".to_string()).to_string(), "HTTP error: x");
    assert_eq!(LastFmError::Auth("bad".to_string()).to_string(), "Authentication failed: bad");
    assert_eq!(LastFmError::CsrfNotFound.to_string(), "CSRF token not found");
    assert_eq!(LastFmError::Parse("p".to_string()).to_string(), "Failed to parse response: p");
    assert_eq!(
        LastFmError::RateLimit { retry_after: 30 }.to_string(),
        "Rate limited, retry after 30 seconds"
    );
    assert_eq!(LastFmError::EditFailed("e".to_string()).to_string(), "Edit failed: e");
    let io = LastFmError::Io(std::io::Error::new(std::io::ErrorKind::Other, "disk"));
    assert!(io.to_string().starts_with("IO error: "));
}
