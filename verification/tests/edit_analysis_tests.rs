use lastfm_edit::edit_analysis::{analyze_edit_response, status_display};

#[test]
fn test_analyze_success_response() {
    let html = r#"
            <div class="alert-success">Edit successful</div>
            <table>
                <tr>
                    <td class="chartlist-name"><a href="/music/artist/_/track">Test Track</a></td>
                    <td class="chartlist-album"><a href="/music/artist/album">Test Album</a></td>
                </tr>
            </table>
        "#;

    let result = analyze_edit_response(html, 200);
    assert!(result.success);
    assert_eq!(result.actual_track_name, Some("Test Track".to_string()));
    assert_eq!(result.actual_album_name, Some("Test Album".to_string()));
}

#[test]
fn test_analyze_error_response() {
    let html = r#"
            <div class="alert-danger">Edit failed: Invalid data</div>
        "#;

    let result = analyze_edit_response(html, 200);
    assert!(!result.success);
    assert!(result.message.unwrap().contains("Edit failed: Invalid data"));
}

#[test]
fn test_extract_from_regex_patterns() {
    let html = r#"
            Some content with <a href="/music/Artist/AlbumName">album link</a>
            and later <a href="/music/Artist/_/TrackName">track link</a>
        "#;

    let result = analyze_edit_response(html, 200);
    assert_eq!(result.actual_track_name, Some("TrackName".to_string()));
    assert_eq!(result.actual_album_name, Some("AlbumName".to_string()));
}

#[test]
fn analyze_success_message_names_track_and_album() {
    let html = r#"
            <div class="alert-success">Edit successful</div>
            <table><tr>
                <td class="chartlist-name"><a href="/music/a/_/new_name">  New Name </a></td>
            </tr></table>
        "#;
    let result = analyze_edit_response(html, 200);
    assert!(result.success);
    assert_eq!(
        result.message,
        Some("Edit successful - Track: 'New Name', Album: 'unknown'".to_string())
    );
}

#[test]
fn analyze_bad_status_is_a_failure_with_the_status() {
    let html = r#"<div class="alert-success">Edit successful</div>"#;
    let result = analyze_edit_response(html, 404);
    assert!(!result.success);
    assert_eq!(result.message, Some("Edit failed with status: 404: Not Found".to_string()));
}

#[test]
fn analyze_decodes_names_from_links() {
    let html = r#"<a href="/music/Some+Artist/_/Song+%231">x</a>"#;
    let result = analyze_edit_response(html, 200);
    assert_eq!(result.actual_track_name, Some("Song #1".to_string()));
    assert!(!result.success);
}

#[test]
fn status_is_written_with_its_reason() {
    assert_eq!(status_display(200), "200: OK");
    assert_eq!(status_display(429), "429: Too Many Requests");
}
