use lastfm_edit::parsing::LastFmParser;
use lastfm_edit::types::LastFmError;

const RECENT: &str = r#"
<html><body>
<table class="chartlist"><tbody>
  <tr>
    <td class="chartlist-name"><a href="/music/Artist+One/_/Song+One">  Song One </a></td>
    <td class="chartlist-artist"><a href="/music/Artist+One">Artist One</a></td>
    <td>
      <form data-edit-scrobble>
        <input name="timestamp" value="1700000000">
        <input name="album_name" value="Album X">
        <input name="album_artist_name" value="">
      </form>
    </td>
  </tr>
  <tr>
    <td class="chartlist-name"></td>
    <td class="chartlist-artist"><a href="/music/Nobody">Nobody</a></td>
  </tr>
  <tr data-timestamp="1600000000">
    <td class="chartlist-name"><a href="/music/B/_/Two">Two</a></td>
    <td class="chartlist-artist"><a href="/music/B">B</a></td>
  </tr>
</tbody></table>
</body></html>
"#;

#[test]
fn parse_recent_scrobbles_reads_rows_in_order() {
    let parser = LastFmParser::new();
    let tracks = parser.parse_recent_scrobbles(RECENT).unwrap();
    assert_eq!(tracks.len(), 2);
    assert_eq!(tracks[0].name, "Song One");
    assert_eq!(tracks[0].artist, "Artist One");
    assert_eq!(tracks[0].timestamp, Some(1700000000));
    assert_eq!(tracks[0].album.as_deref(), Some("Album X"));
    assert_eq!(tracks[0].album_artist, None);
    assert_eq!(tracks[0].playcount, 1);
    assert_eq!(tracks[1].name, "Two");
    assert_eq!(tracks[1].timestamp, Some(1600000000));
    assert_eq!(tracks[1].album, None);
}

const ARTIST_TRACKS: &str = r#"
<html><body>
<table class="chartlist"><tbody>
  <tr data-track-name="Alpha">
    <td class="chartlist-name"><a href="/music/Art/_/Alpha">Alpha</a></td>
    <td><span class="chartlist-count-bar-value">42 scrobbles</span></td>
  </tr>
  <tr data-track-name="Beta">
    <td class="chartlist-name"><a href="/music/Art/_/Beta">Beta</a></td>
    <td><span class="chartlist-count-bar-value">7</span></td>
  </tr>
  <tr data-track-name="Alpha">
    <td class="chartlist-name"><a href="/music/Art/_/Alpha">Alpha</a></td>
    <td><span class="chartlist-count-bar-value">9</span></td>
  </tr>
</tbody></table>
<ul class="pagination-list">
  <li>Page 1 of 3</li>
  <li class="pagination-next"><a href="?page=2">Next</a></li>
</ul>
</body></html>
"#;

#[test]
fn parse_tracks_page_reads_names_counts_and_pagination() {
    let parser = LastFmParser::new();
    let page = parser.parse_tracks_page(ARTIST_TRACKS, 1, "Art", Some("Record")).unwrap();
    assert_eq!(page.page_number, 1);
    assert!(page.has_next_page);
    assert_eq!(page.total_pages, Some(3));
    assert_eq!(page.tracks.len(), 2);
    assert_eq!(page.tracks[0].name, "Alpha");
    assert_eq!(page.tracks[0].playcount, 42);
    assert_eq!(page.tracks[0].artist, "Art");
    assert_eq!(page.tracks[0].album.as_deref(), Some("Record"));
    assert_eq!(page.tracks[1].name, "Beta");
    assert_eq!(page.tracks[1].playcount, 7);
}

#[test]
fn find_playcount_by_name() {
    let parser = LastFmParser::new();
    assert_eq!(parser.find_playcount_for_track(ARTIST_TRACKS, "Beta").unwrap(), 7);
    match parser.find_playcount_for_album(ARTIST_TRACKS, "Gamma") {
        Err(LastFmError::Parse(m)) => assert_eq!(m, "Could not find playcount for album: Gamma"),
        other => panic!("unexpected {:?}", other),
    }
    assert_eq!(parser.find_timestamp_for_track(ARTIST_TRACKS, "Beta"), None);
}

#[test]
fn parse_pagination_without_list_is_a_single_page() {
    let parser = LastFmParser::new();
    assert_eq!(parser.parse_pagination("<p>nothing</p>", 4).unwrap(), (false, Some(1)));
    let last = r#"<ul class="pagination-list"><li>Page 3 of 3</li></ul>"#;
    assert_eq!(parser.parse_pagination(last, 3).unwrap(), (false, Some(3)));
}

#[test]
fn parse_artists_page_reads_names_and_counts() {
    let html = r#"
<table class="chartlist"><tbody>
  <tr class="js-link-block">
    <td class="chartlist-name"><a href="/music/First">First</a></td>
    <td><span class="chartlist-count-bar">1,234 scrobbles</span></td>
  </tr>
  <tr class="js-link-block">
    <td class="chartlist-name"><a href="/music/Second">Second</a></td>
    <td><span class="chartlist-count-bar">nothing</span></td>
  </tr>
  <tr>
    <td class="chartlist-name"><a href="/music/Third">Third</a></td>
  </tr>
</tbody></table>
"#;
    let parser = LastFmParser::new();
    let page = parser.parse_artists_page(html, 2).unwrap();
    assert_eq!(page.page_number, 2);
    assert!(!page.has_next_page);
    assert_eq!(page.artists.len(), 2);
    assert_eq!(page.artists[0].name, "First");
    assert_eq!(page.artists[0].playcount, 1234);
    assert_eq!(page.artists[1].name, "Second");
    assert_eq!(page.artists[1].playcount, 0);
}

#[test]
fn recent_scrobble_time_is_read_from_the_time_element() {
    let html = r#"
<table class="chartlist"><tbody>
  <tr>
    <td class="chartlist-name"><a href="/music/A/_/Timed">Timed</a></td>
    <td class="chartlist-artist"><a href="/music/A">A</a></td>
    <td><span><time datetime="2023-11-14T22:13:20+00:00">14 Nov</time></span></td>
  </tr>
  <tr>
    <td class="chartlist-name"><a href="/music/A/_/Untimed">Untimed</a></td>
    <td class="chartlist-artist"><a href="/music/A">A</a></td>
    <td><time datetime="yesterday">yesterday</time></td>
  </tr>
</tbody></table>
"#;
    let tracks = LastFmParser::new().parse_recent_scrobbles(html).unwrap();
    assert_eq!(tracks.len(), 2);
    assert_eq!(tracks[0].timestamp, Some(1700000000));
    assert_eq!(tracks[1].timestamp, None);
}
