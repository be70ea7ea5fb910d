//! The public web API's recent-tracks listing: the request URL and the reading of its response.

use vstd::prelude::*;
use crate::text::{u64_to_string, decimal_digits, parse_u32, parse_u64, parse_u32_spec, parse_u64_spec};
use crate::encoding::{url_encode, url_encoded};
use crate::types::{Track, TrackView, TrackPage, LastFmError};

verus! {

broadcast use vstd::string::group_string_axioms;

/// A recent-tracks response.
#[derive(Debug, Clone)]
pub struct ApiRecentTracksResponse {
    pub recenttracks: ApiRecentTracks,
}

/// The tracks of a recent-tracks response and its pagination.
#[derive(Debug, Clone)]
pub struct ApiRecentTracks {
    pub track: Vec<ApiTrack>,
    pub attr: ApiPaginationAttr,
}

/// One track of a recent-tracks response.
#[derive(Debug, Clone)]
pub struct ApiTrack {
    pub name: String,
    pub artist: ApiTextField,
    pub album: ApiTextField,
    pub date: Option<ApiDate>,
    pub attr: Option<ApiTrackAttr>,
}

/// A field given as text.
#[derive(Debug, Clone)]
pub struct ApiTextField {
    pub text: String,
}

/// A date given as Unix seconds in text.
#[derive(Debug, Clone)]
pub struct ApiDate {
    pub uts: String,
}

/// The attributes of a track: whether it is playing now.
#[derive(Debug, Clone)]
pub struct ApiTrackAttr {
    pub nowplaying: Option<String>,
}

/// The page number and page count, as text.
#[derive(Debug, Clone)]
pub struct ApiPaginationAttr {
    pub page: String,
    pub total_pages: String,
}

/// The URL of one page of a user's recent tracks, optionally limited to a time range.
pub open spec fn recent_tracks_url(username: Seq<char>, api_key: Seq<char>, page: u32, from: Option<u64>, to: Option<u64>) -> Seq<char> {
    "https://ws.audioscrobbler.com/2.0/?method=user.getrecenttracks&user="@ + url_encoded(username)
        + "&api_key="@ + url_encoded(api_key) + "&format=json&page="@ + decimal_digits(page as nat)
        + "&limit=200"@
        + match from {
        Some(f) => "&from="@ + decimal_digits(f as nat),
        None => Seq::<char>::empty(),
    } + match to {
        Some(t) => "&to="@ + decimal_digits(t as nat),
        None => Seq::<char>::empty(),
    }
}

/// Builds the URL of one page of a user's recent tracks.
pub fn build_recent_tracks_url(username: &str, api_key: &str, page: u32, from: Option<u64>, to: Option<u64>) -> (res: String)
    ensures
        res@ == recent_tracks_url(username@, api_key@, page, from, to),
{
    let mut url = String::from_str("https://ws.audioscrobbler.com/2.0/?method=user.getrecenttracks&user=");
    url.append(url_encode(username).as_str());
    url.append("&api_key=");
    url.append(url_encode(api_key).as_str());
    url.append("&format=json&page=");
    url.append(u64_to_string(page as u64).as_str());
    url.append("&limit=200");
    let ghost base = url@;
    match from {
        Some(f) => {
            url.append("&from=");
            url.append(u64_to_string(f).as_str());
        },
        None => {},
    }
    let ghost mid = url@;
    match to {
        Some(t) => {
            url.append("&to=");
            url.append(u64_to_string(t).as_str());
        },
        None => {},
    }
    assert(url@ =~= recent_tracks_url(username@, api_key@, page, from, to));
    url
}

/// The track that a response entry stands for: none for the track playing now, nor for an entry
/// without a readable date.
pub open spec fn api_track_view(t: ApiTrack) -> Option<TrackView> {
    if t.attr matches Some(a) && a.nowplaying.deep_view() == Some("true"@) {
        None
    } else {
        match t.date {
            Some(d) => match parse_u64_spec(d.uts@) {
                Some(ts) => Some(TrackView {
                    name: t.name@,
                    artist: t.artist.text@,
                    playcount: 1,
                    timestamp: Some(ts),
                    album: Some(t.album.text@),
                    album_artist: None,
                }),
                None => None,
            },
            None => None,
        }
    }
}

pub open spec fn api_tracks(ts: Seq<ApiTrack>) -> Seq<TrackView>
    decreases ts.len(),
{
    if ts.len() == 0 {
        Seq::empty()
    } else {
        let prev = api_tracks(ts.drop_last());
        match api_track_view(ts.last()) {
            Some(t) => prev.push(t),
            None => prev,
        }
    }
}

pub open spec fn number_or_one(s: Seq<char>) -> u32 {
    match parse_u32_spec(s) {
        Some(n) => n,
        None => 1,
    }
}

fn api_track_of(t: &ApiTrack) -> (res: Option<Track>)
    ensures
        res.deep_view() == api_track_view(*t),
{
    match &t.attr {
        Some(a) => match &a.nowplaying {
            Some(np) => if np.eq(&String::from_str("true")) {
                return None;
            },
            None => {},
        },
        None => {},
    }
    match &t.date {
        Some(d) => match parse_u64(d.uts.as_str()) {
            Some(ts) => Some(Track {
                name: t.name.clone(),
                artist: t.artist.text.clone(),
                playcount: 1,
                timestamp: Some(ts),
                album: Some(t.album.text.clone()),
                album_artist: None,
            }),
            None => None,
        },
        None => None,
    }
}

/// The page of recent tracks in a response: its dated tracks, except the one playing now; the
/// page number and page count (1 when unreadable); a next page when the number is below the count.
pub fn recent_tracks_page(response: &ApiRecentTracksResponse) -> (res: TrackPage)
    ensures
        res.tracks.deep_view() == api_tracks(response.recenttracks.track@),
        res.page_number == number_or_one(response.recenttracks.attr.page@),
        res.total_pages == Some(number_or_one(response.recenttracks.attr.total_pages@)),
        res.has_next_page == (number_or_one(response.recenttracks.attr.page@) < number_or_one(response.recenttracks.attr.total_pages@)),
{
    let current_page = match parse_u32(response.recenttracks.attr.page.as_str()) {
        Some(n) => n,
        None => 1,
    };
    let total_pages = match parse_u32(response.recenttracks.attr.total_pages.as_str()) {
        Some(n) => n,
        None => 1,
    };
    let src = &response.recenttracks.track;
    let mut tracks: Vec<Track> = Vec::new();
    let mut i: usize = 0;
    while i < src.len()
        invariant
            i <= src@.len(),
            tracks.deep_view() == api_tracks(src@.take(i as int)),
        decreases src.len() - i,
    {
        assert(src@.take(i + 1).drop_last() =~= src@.take(i as int));
        let ghost before = tracks.deep_view();
        match api_track_of(&src[i]) {
            Some(t) => {
                tracks.push(t);
                assert(tracks.deep_view() =~= before.push(t.deep_view()));
            },
            None => {},
        }
        i = i + 1;
    }
    assert(src@.take(i as int) =~= src@);
    TrackPage { tracks, page_number: current_page, has_next_page: current_page < total_pages, total_pages: Some(total_pages) }
}

/// The decimal form of a signed number.
pub open spec fn signed_decimal(n: int) -> Seq<char> {
    if n < 0 { "-"@ + decimal_digits((-n) as nat) } else { decimal_digits(n as nat) }
}

/// The error for an error body of the API.
pub open spec fn api_error_text(code: i64, message: Seq<char>) -> Seq<char> {
    "last.fm API error "@ + signed_decimal(code as int) + ": "@ + message
}

/// The error reported for an error body of the API: an HTTP error naming the code and message.
pub fn api_error(code: i64, message: &str) -> (res: LastFmError)
    ensures
        res matches LastFmError::Http(m) && m@ == api_error_text(code, message@),
{
    let mut m = String::from_str("last.fm API error ");
    if code < 0 {
        m.append("-");
        let magnitude: u64 = if code == i64::MIN { 9223372036854775808u64 } else { (-code) as u64 };
        m.append(u64_to_string(magnitude).as_str());
    } else {
        m.append(u64_to_string(code as u64).as_str());
    }
    m.append(": ");
    m.append(message);
    LastFmError::Http(m)
}

/// The outcome of reading a recent-tracks response body: the page when it parsed as a listing;
/// otherwise the API's error when the body is an error body, else a parse error with the parser's
/// message.
pub fn recent_tracks_outcome(
    listing: Result<ApiRecentTracksResponse, String>,
    error_body: Option<(i64, String)>,
) -> (res: Result<TrackPage, LastFmError>)
    ensures
        match listing {
            Ok(r) => res matches Ok(p) && p.tracks.deep_view() == api_tracks(r.recenttracks.track@)
                && p.page_number == number_or_one(r.recenttracks.attr.page@)
                && p.total_pages == Some(number_or_one(r.recenttracks.attr.total_pages@))
                && p.has_next_page == (number_or_one(r.recenttracks.attr.page@) < number_or_one(r.recenttracks.attr.total_pages@)),
            Err(e) => match error_body {
                Some((code, msg)) => res matches Err(LastFmError::Http(m)) && m@ == api_error_text(code, msg@),
                None => res matches Err(LastFmError::Parse(m)) && m@ == e@,
            },
        },
{
    match listing {
        Ok(r) => Ok(recent_tracks_page(&r)),
        Err(e) => match error_body {
            Some((code, msg)) => Err(api_error(code, msg.as_str())),
            None => Err(LastFmError::Parse(e)),
        },
    }
}

} // verus!
