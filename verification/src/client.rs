//! The decisions of the web client: the URLs it fetches, how it reads redirects and rate
//! limits, and how it turns discovered scrobbles into edits.

use vstd::prelude::*;
use crate::text::{
    chars_of, str_contains, str_starts_with, contains_seq, starts_with_seq, to_lowercase, lowercase,
    u64_to_string, decimal_digits, slice_chars, string_of, parse_u64, parse_u64_spec, find_char,
    split_once_spec, index_of_char, lemma_index_of_char,
};
use crate::encoding::{url_encode, url_encoded};
use crate::types::{
    LastFmEditSession, LastFmError, RateLimitConfig, RateLimitType, ScrobbleEdit, ExactScrobbleEdit,
    EditResponse, SingleEditResponse, Track, TrackView, TrackPage,
};
use crate::headers::{add_cookies, add_get_headers, get_headers};
use crate::html::{RowView, HtmlRow, first_group, select_first_group, first_cell, attr_lookup, attr_value, row_first_cell, elements_in, select_all};
use crate::types::{ExactEditView, byte_len};
use crate::vcr::{encoded_form, encode_form_data};

verus! {

broadcast use vstd::string::group_string_axioms;

// ------------------------------------------------------------------------------------------------
// URLs
// ------------------------------------------------------------------------------------------------

/// The base of a user's pages: `{base_url}/user/{username}`.
pub open spec fn user_url_spec(s: LastFmEditSession) -> Seq<char> {
    s.base_url@ + "/user/"@ + s.username@
}

/// `{base_url}/user/{username}`.
pub fn user_url(session: &LastFmEditSession) -> (res: String)
    ensures
        res@ == user_url_spec(*session),
{
    let mut u = session.base_url.clone();
    u.append("/user/");
    u.append(session.username.as_str());
    u
}

/// A page of the user's library followed by `suffix`.
pub fn user_page_url(session: &LastFmEditSession, suffix: &str) -> (res: String)
    ensures
        res@ == user_url_spec(*session) + suffix@,
{
    let mut u = user_url(session);
    u.append(suffix);
    u
}

/// The page of recent scrobbles: `.../library?page={page}`.
pub fn recent_scrobbles_url(session: &LastFmEditSession, page: u32) -> (res: String)
    ensures
        res@ == user_url_spec(*session) + "/library?page="@ + decimal_digits(page as nat),
{
    let mut u = user_page_url(session, "/library?page=");
    u.append(u64_to_string(page as u64).as_str());
    u
}

/// The page of the user's artists: `.../library/artists?page={page}`.
pub fn artists_url(session: &LastFmEditSession, page: u32) -> (res: String)
    ensures
        res@ == user_url_spec(*session) + "/library/artists?page="@ + decimal_digits(page as nat),
{
    let mut u = user_page_url(session, "/library/artists?page=");
    u.append(u64_to_string(page as u64).as_str());
    u
}

/// The AJAX page of an artist's tracks or albums (`kind` is `+tracks` or `+albums`).
pub open spec fn artist_listing_url_spec(s: LastFmEditSession, artist: Seq<char>, kind: Seq<char>, page: u32) -> Seq<char> {
    user_url_spec(s) + "/library/music/"@ + url_encoded(artist) + "/"@ + kind + "?page="@ + decimal_digits(page as nat)
        + "&ajax=true"@
}

/// The AJAX page of an artist's tracks: `.../library/music/{artist}/+tracks?page={page}&ajax=true`.
pub fn artist_tracks_url(session: &LastFmEditSession, artist: &str, page: u32) -> (res: String)
    ensures
        res@ == artist_listing_url_spec(*session, artist@, "+tracks"@, page),
{
    let mut u = user_page_url(session, "/library/music/");
    u.append(url_encode(artist).as_str());
    u.append("/+tracks?page=");
    u.append(u64_to_string(page as u64).as_str());
    u.append("&ajax=true");
    assert(u@ =~= artist_listing_url_spec(*session, artist@, "+tracks"@, page)) by {
        reveal_strlit("/+tracks?page=");
        reveal_strlit("/");
        reveal_strlit("+tracks");
        reveal_strlit("?page=");
    }
    u
}

/// The AJAX page of an artist's albums: `.../library/music/{artist}/+albums?page={page}&ajax=true`.
pub fn artist_albums_url(session: &LastFmEditSession, artist: &str, page: u32) -> (res: String)
    ensures
        res@ == artist_listing_url_spec(*session, artist@, "+albums"@, page),
{
    let mut u = user_page_url(session, "/library/music/");
    u.append(url_encode(artist).as_str());
    u.append("/+albums?page=");
    u.append(u64_to_string(page as u64).as_str());
    u.append("&ajax=true");
    assert(u@ =~= artist_listing_url_spec(*session, artist@, "+albums"@, page)) by {
        reveal_strlit("/+albums?page=");
        reveal_strlit("/");
        reveal_strlit("+albums");
        reveal_strlit("?page=");
    }
    u
}

/// The AJAX page of an album's tracks: `.../library/music/{artist}/{album}?page={page}&ajax=true`.
pub fn album_tracks_url(session: &LastFmEditSession, album_name: &str, artist_name: &str, page: u32) -> (res: String)
    ensures
        res@ == artist_listing_url_spec(*session, artist_name@, url_encoded(album_name@), page),
{
    let mut u = user_page_url(session, "/library/music/");
    u.append(url_encode(artist_name).as_str());
    u.append("/");
    u.append(url_encode(album_name).as_str());
    u.append("?page=");
    u.append(u64_to_string(page as u64).as_str());
    u.append("&ajax=true");
    u
}

/// A search page of the library (`kind` is `tracks` or `albums`).
pub open spec fn search_url_spec(s: LastFmEditSession, kind: Seq<char>, query: Seq<char>, page: u32) -> Seq<char> {
    user_url_spec(s) + "/library/"@ + kind + "/search?page="@ + decimal_digits(page as nat) + "&query="@
        + url_encoded(query) + "&ajax=1"@
}

fn search_url(session: &LastFmEditSession, kind: &str, query: &str, page: u32) -> (res: String)
    ensures
        res@ == search_url_spec(*session, kind@, query@, page),
{
    let mut u = user_page_url(session, "/library/");
    u.append(kind);
    u.append("/search?page=");
    u.append(u64_to_string(page as u64).as_str());
    u.append("&query=");
    u.append(url_encode(query).as_str());
    u.append("&ajax=1");
    u
}

/// The search page for tracks: `.../library/tracks/search?page={page}&query={query}&ajax=1`.
pub fn search_tracks_url(session: &LastFmEditSession, query: &str, page: u32) -> (res: String)
    ensures
        res@ == search_url_spec(*session, "tracks"@, query@, page),
{
    search_url(session, "tracks", query, page)
}

/// The search page for albums: `.../library/albums/search?page={page}&query={query}&ajax=1`.
pub fn search_albums_url(session: &LastFmEditSession, query: &str, page: u32) -> (res: String)
    ensures
        res@ == search_url_spec(*session, "albums"@, query@, page),
{
    search_url(session, "albums", query, page)
}

/// The page of a track's scrobbles (`.../library/music/+noredirect/{artist}/_/{track}`) for the
/// first page, `.../library/music/{artist}/_/{track}?page={page}` for the others.
pub open spec fn track_scrobbles_url_spec(s: LastFmEditSession, artist: Seq<char>, track: Seq<char>, page: u32) -> Seq<char> {
    if page <= 1 {
        user_url_spec(s) + "/library/music/+noredirect/"@ + url_encoded(artist) + "/_/"@ + url_encoded(track)
    } else {
        user_url_spec(s) + "/library/music/"@ + url_encoded(artist) + "/_/"@ + url_encoded(track) + "?page="@
            + decimal_digits(page as nat)
    }
}

/// The URL of a page of a track's scrobbles.
pub fn track_scrobbles_url(session: &LastFmEditSession, artist: &str, track: &str, page: u32) -> (res: String)
    ensures
        res@ == track_scrobbles_url_spec(*session, artist@, track@, page),
{
    if page <= 1 {
        let mut u = user_page_url(session, "/library/music/+noredirect/");
        u.append(url_encode(artist).as_str());
        u.append("/_/");
        u.append(url_encode(track).as_str());
        u
    } else {
        let mut u = user_page_url(session, "/library/music/");
        u.append(url_encode(artist).as_str());
        u.append("/_/");
        u.append(url_encode(track).as_str());
        u.append("?page=");
        u.append(u64_to_string(page as u64).as_str());
        u
    }
}

/// The URL that edit forms are posted to.
pub fn edit_url(session: &LastFmEditSession) -> (res: String)
    ensures
        res@ == user_url_spec(*session) + "/library/edit?edited-variation=library-track-scrobble"@,
{
    user_page_url(session, "/library/edit?edited-variation=library-track-scrobble")
}

/// The URL that deletions are posted to.
pub fn delete_url(session: &LastFmEditSession) -> (res: String)
    ensures
        res@ == user_url_spec(*session) + "/library/delete"@,
{
    user_page_url(session, "/library/delete")
}

/// The library page, where fresh tokens are read.
pub fn library_url(session: &LastFmEditSession) -> (res: String)
    ensures
        res@ == user_url_spec(*session) + "/library"@,
{
    user_page_url(session, "/library")
}

/// The page fetched to check that a session is still valid.
pub fn session_check_url(session: &LastFmEditSession) -> (res: String)
    ensures
        res@ == session.base_url@ + "/settings/subscription/automatic-edits/tracks"@,
{
    let mut u = session.base_url.clone();
    u.append("/settings/subscription/automatic-edits/tracks");
    u
}

// ------------------------------------------------------------------------------------------------
// Session checks
// ------------------------------------------------------------------------------------------------

/// The phrases whose presence marks a page as a login page.
pub open spec fn login_redirect_text(c: Seq<char>) -> bool {
    contains_seq(c, "login"@) || contains_seq(c, "sign in"@) || contains_seq(c, "signin"@)
        || contains_seq(c, "Log in to Last.fm"@) || contains_seq(c, "Please sign in"@)
        || (contains_seq(c, "<form"@) && contains_seq(c, "password"@)) || contains_seq(c, "auth-form"@)
        || contains_seq(c, "login-form"@)
}

/// Whether a page looks like a login page.
pub fn is_login_redirect(content: &str) -> (res: bool)
    ensures
        res == login_redirect_text(content@),
{
    str_contains(content, "login") || str_contains(content, "sign in") || str_contains(content, "signin")
        || str_contains(content, "Log in to Last.fm") || str_contains(content, "Please sign in")
        || (str_contains(content, "<form") && str_contains(content, "password")) || str_contains(content, "auth-form")
        || str_contains(content, "login-form")
}

/// Whether the answer to the session check shows a valid session: a redirect (301 or 302) with a
/// location is valid unless it leads to `/login`; any other answer is valid.
pub fn session_response_valid(status: u16, location: Option<&str>) -> (res: bool)
    ensures
        res == match location {
            Some(l) => !((status == 301 || status == 302) && contains_seq(l@, "/login"@)),
            None => true,
        },
{
    if status == 302 || status == 301 {
        match location {
            Some(l) => !str_contains(l, "/login"),
            None => true,
        }
    } else {
        true
    }
}

// ------------------------------------------------------------------------------------------------
// Fetching pages
// ------------------------------------------------------------------------------------------------

/// The position of the last `c` in `s`.
pub open spec fn last_index_of(s: Seq<char>, c: char) -> Option<nat>
    decreases s.len(),
{
    if s.len() == 0 {
        None
    } else if s.last() == c {
        Some((s.len() - 1) as nat)
    } else {
        last_index_of(s.drop_last(), c)
    }
}

pub proof fn lemma_last_index_bound(s: Seq<char>, c: char)
    ensures
        last_index_of(s, c) matches Some(i) ==> i < s.len(),
    decreases s.len(),
{
    if s.len() > 0 {
        lemma_last_index_bound(s.drop_last(), c);
    }
}

/// The part of a URL before its last `/` (empty when it has none).
pub open spec fn url_directory(url: Seq<char>) -> Seq<char> {
    match last_index_of(url, '/') {
        Some(i) => url.take(i as int),
        None => Seq::empty(),
    }
}

/// Where a redirect leads: a path is taken on the base URL, an absolute URL as it is, anything
/// else relative to the URL's directory.
pub open spec fn redirect_target_spec(url: Seq<char>, location: Seq<char>, base_url: Seq<char>) -> Seq<char> {
    if starts_with_seq(location, "/"@) {
        base_url + location
    } else if starts_with_seq(location, "http"@) {
        location
    } else {
        url_directory(url) + "/"@ + location
    }
}

/// Where a redirect leads.
pub fn redirect_target(url: &str, location: &str, base_url: &str) -> (res: String)
    ensures
        res@ == redirect_target_spec(url@, location@, base_url@),
{
    if str_starts_with(location, "/") {
        let mut u = String::from_str(base_url);
        u.append(location);
        u
    } else if str_starts_with(location, "http") {
        String::from_str(location)
    } else {
        let cs = chars_of(url);
        let mut i = cs.len();
        let ghost full = cs@;
        assert(full.take(i as int) =~= full);
        while i > 0 && cs[i - 1] != '/'
            invariant
                i <= cs@.len(),
                full == cs@,
                last_index_of(full.take(i as int), '/') == last_index_of(full, '/'),
            decreases i,
        {
            assert(full.take(i as int).drop_last() =~= full.take(i - 1));
            i = i - 1;
        }
        let dir = if i > 0 {
            assert(full.take(i as int).last() == '/');
            assert(last_index_of(full, '/') == Some((i - 1) as nat));
            slice_chars(&cs, 0, i - 1)
        } else {
            Vec::new()
        };
        assert(dir@ =~= url_directory(url@));
        let mut u = string_of(&dir);
        u.append("/");
        u.append(location);
        u
    }
}

/// The referer of a page fetch: for a paginated URL, the URL without its query.
pub open spec fn fetch_referer(url: Seq<char>) -> Option<Seq<char>> {
    if contains_seq(url, "page="@) {
        match split_once_spec(url, '?') {
            Some((p, _q)) => Some(p),
            None => Some(url),
        }
    } else {
        None
    }
}

/// The headers of a page fetch of `url` with the session's cookies.
pub fn fetch_headers(url: &str, cookies: &Vec<String>) -> (res: Vec<(String, String)>)
    ensures
        res.deep_view() == (if cookies@.len() > 0 {
            seq![("Cookie"@, crate::vcr::join_spec(cookies.deep_view(), "; "@))]
        } else {
            Seq::empty()
        }) + get_headers(contains_seq(url@, "ajax=true"@), fetch_referer(url@)),
{
    let mut hs: Vec<(String, String)> = Vec::new();
    add_cookies(&mut hs, cookies);
    let is_ajax = str_contains(url, "ajax=true");
    if str_contains(url, "page=") {
        let cs = chars_of(url);
        let referer = match crate::text::split_once_chars(&cs, '?') {
            Some((p, _q)) => string_of(&p),
            None => String::from_str(url),
        };
        add_get_headers(&mut hs, is_ajax, Some(referer.as_str()));
    } else {
        add_get_headers(&mut hs, is_ajax, None);
    }
    assert(hs.deep_view() =~= (if cookies@.len() > 0 {
        seq![("Cookie"@, crate::vcr::join_spec(cookies.deep_view(), "; "@))]
    } else {
        Seq::empty()
    }) + get_headers(contains_seq(url@, "ajax=true"@), fetch_referer(url@)));
    hs
}

/// What to do with the answer to a page fetch.
#[derive(Debug)]
pub enum FetchStep {
    /// Fetch this URL next, as a redirect.
    Follow { url: String },
    /// Stop with this error.
    Fail { error: LastFmError },
    /// The service limits the rate: wait this many seconds before trying again.
    RateLimited { rate_limit_type: RateLimitType, retry_after: u64 },
    /// The answer is the page.
    Done,
}

/// The most redirects followed for one fetch.
pub open spec fn max_redirects() -> u32 {
    5
}

/// Whether the fetch has followed too many redirects to go on.
pub fn too_many_redirects(redirect_count: u32) -> (res: Option<LastFmError>)
    ensures
        redirect_count > max_redirects() ==> (res matches Some(LastFmError::Http(m)) && m@ == "Too many redirects"@),
        redirect_count <= max_redirects() ==> res is None,
{
    if redirect_count > 5 {
        Some(LastFmError::Http(String::from_str("Too many redirects")))
    } else {
        None
    }
}

/// The seconds a 429 answer asks to wait: its `Retry-After` when that is a number, else 60.
pub open spec fn retry_after_seconds(header: Option<Seq<char>>) -> u64 {
    match header {
        Some(h) => match parse_u64_spec(h) {
            Some(n) => n,
            None => 60,
        },
        None => 60,
    }
}

/// How the answer to a page fetch of `url` is read: a redirect with a location is followed (but
/// a paginated fetch sent to the login page fails as an expired session); with detection by
/// status, a 429 is a rate limit for its `Retry-After`, and a 403 to a request with cookies is a
/// rate limit of 60 seconds; anything else is the page.
pub fn fetch_step(
    config: &RateLimitConfig,
    url: &str,
    status: u16,
    location: Option<&str>,
    retry_after: Option<&str>,
    has_cookies: bool,
    base_url: &str,
) -> (res: FetchStep)
    ensures
        match location {
            Some(l) if status == 301 || status == 302 => if contains_seq(url@, "page="@) && contains_seq(l@, "/login"@) {
                res matches FetchStep::Fail { error: LastFmError::Auth(m) } && m@ == "Session expired or invalid for paginated request"@
            } else {
                res matches FetchStep::Follow { url: u } && u@ == redirect_target_spec(url@, l@, base_url@)
            },
            _ => if config.detect_by_status && status == 429 {
                res == (FetchStep::RateLimited {
                    rate_limit_type: RateLimitType::Http429,
                    retry_after: retry_after_seconds(match retry_after {
                        Some(h) => Some(h@),
                        None => None,
                    }),
                })
            } else if config.detect_by_status && status == 403 && has_cookies {
                res == (FetchStep::RateLimited { rate_limit_type: RateLimitType::Http403, retry_after: 60 })
            } else {
                res is Done
            },
        },
{
    if status == 302 || status == 301 {
        match location {
            Some(l) => {
                if str_contains(url, "page=") && str_contains(l, "/login") {
                    return FetchStep::Fail {
                        error: LastFmError::Auth(String::from_str("Session expired or invalid for paginated request")),
                    };
                }
                return FetchStep::Follow { url: redirect_target(url, l, base_url) };
            },
            None => {},
        }
    }
    if config.detect_by_status && status == 429 {
        let secs = match retry_after {
            Some(h) => match parse_u64(h) {
                Some(n) => n,
                None => 60,
            },
            None => 60,
        };
        return FetchStep::RateLimited { rate_limit_type: RateLimitType::Http429, retry_after: secs };
    }
    if config.detect_by_status && status == 403 && has_cookies {
        return FetchStep::RateLimited { rate_limit_type: RateLimitType::Http403, retry_after: 60 };
    }
    FetchStep::Done
}

/// Some pattern, lower-cased, occurs in the lower-cased body.
pub open spec fn matches_some_pattern(body_lower: Seq<char>, patterns: Seq<Seq<char>>) -> bool {
    exists|i: int| 0 <= i < patterns.len() && contains_seq(body_lower, lowercase(#[trigger] patterns[i]))
}

/// Whether a page body reveals a rate limit: a custom pattern, or (with pattern detection) a
/// standard one, occurs in it, ignoring case.
pub open spec fn rate_limited_body(config: RateLimitConfig, body: Seq<char>) -> bool {
    if !config.detect_by_patterns && config.custom_patterns@.len() == 0 {
        false
    } else {
        matches_some_pattern(lowercase(body), config.custom_patterns.deep_view()) || (config.detect_by_patterns
            && matches_some_pattern(lowercase(body), config.patterns.deep_view()))
    }
}

fn any_pattern(body_lower: &String, patterns: &Vec<String>) -> (res: bool)
    ensures
        res == matches_some_pattern(body_lower@, patterns.deep_view()),
{
    let mut i: usize = 0;
    while i < patterns.len()
        invariant
            i <= patterns@.len(),
            forall|j: int| 0 <= j < i ==> !contains_seq(body_lower@, lowercase(#[trigger] patterns.deep_view()[j])),
        decreases patterns.len() - i,
    {
        let p = to_lowercase(patterns[i].as_str());
        if str_contains(body_lower.as_str(), p.as_str()) {
            assert(contains_seq(body_lower@, lowercase(patterns.deep_view()[i as int])));
            return true;
        }
        i = i + 1;
    }
    false
}

/// Whether a page body reveals a rate limit.
pub fn is_rate_limit_response(config: &RateLimitConfig, response_body: &str) -> (res: bool)
    ensures
        res == rate_limited_body(*config, response_body@),
{
    if !config.detect_by_patterns && config.custom_patterns.len() == 0 {
        return false;
    }
    let body_lower = to_lowercase(response_body);
    if any_pattern(&body_lower, &config.custom_patterns) {
        return true;
    }
    config.detect_by_patterns && any_pattern(&body_lower, &config.patterns)
}

/// Whether a fetched page counts as rate limited: a 2xx answer whose body reveals a rate limit.
pub fn body_is_rate_limited(config: &RateLimitConfig, status: u16, body: &str) -> (res: bool)
    ensures
        res == (200 <= status < 300 && rate_limited_body(*config, body@)),
{
    200 <= status && status < 300 && is_rate_limit_response(config, body)
}

// ------------------------------------------------------------------------------------------------
// Discovering the scrobbles of a track
// ------------------------------------------------------------------------------------------------

/// The cells read from a row of a track's scrobbles.
pub open spec fn edit_row_cells() -> Seq<Seq<char>> {
    seq![
        ".chartlist-count-bar-link"@,
        "form[data-edit-scrobble]"@,
        "form[data-edit-scrobble] input[name='track_name']"@,
        "form[data-edit-scrobble] input[name='artist_name']"@,
        "form[data-edit-scrobble] input[name='album_name']"@,
        "form[data-edit-scrobble] input[name='album_artist_name']"@,
        "form[data-edit-scrobble] input[name='timestamp']"@,
    ]
}

fn edit_cells() -> (res: Vec<String>)
    ensures
        res.deep_view() == edit_row_cells(),
        res@.len() == 7,
{
    let mut v: Vec<String> = Vec::new();
    v.push(String::from_str(".chartlist-count-bar-link"));
    v.push(String::from_str("form[data-edit-scrobble]"));
    v.push(String::from_str("form[data-edit-scrobble] input[name='track_name']"));
    v.push(String::from_str("form[data-edit-scrobble] input[name='artist_name']"));
    v.push(String::from_str("form[data-edit-scrobble] input[name='album_name']"));
    v.push(String::from_str("form[data-edit-scrobble] input[name='album_artist_name']"));
    v.push(String::from_str("form[data-edit-scrobble] input[name='timestamp']"));
    assert(v.deep_view() =~= edit_row_cells());
    v
}

/// The value of the input in cell `k`, if there is one.
pub open spec fn form_value(row: RowView, k: int) -> Option<Seq<char>> {
    match first_cell(row, k) {
        Some(e) => attr_lookup(e.1, "value"@),
        None => None,
    }
}

pub open spec fn or_empty(o: Option<Seq<char>>) -> Seq<char> {
    match o {
        Some(s) => s,
        None => Seq::empty(),
    }
}

/// The edits found so far, and the (album, album artist) pairs seen so far.
pub type DiscoverState = (Seq<ExactEditView>, Seq<(Seq<char>, Seq<char>)>);

/// One row of a track's scrobbles: an edit form of the expected track and artist, for an album
/// not seen yet and with a readable time, gives an edit of every scrobble with those values.
pub open spec fn edit_row_step(st: DiscoverState, row: RowView, track: Seq<char>, artist: Seq<char>) -> DiscoverState {
    if first_cell(row, 0) is Some || first_cell(row, 1) is None {
        st
    } else {
        let t = or_empty(form_value(row, 2));
        let a = or_empty(form_value(row, 3));
        let al = or_empty(form_value(row, 4));
        let aa = match form_value(row, 5) {
            Some(v) => v,
            None => a,
        };
        let ts = or_empty(form_value(row, 6));
        if t == track && a == artist && !st.1.contains((al, aa)) {
            let seen = st.1.push((al, aa));
            let stamp = if ts.len() == 0 { None } else { parse_u64_spec(ts) };
            match stamp {
                Some(n) => (st.0.push(ExactEditView {
                    track_name_original: t,
                    album_name_original: al,
                    artist_name_original: a,
                    album_artist_name_original: aa,
                    track_name: t,
                    album_name: al,
                    artist_name: a,
                    album_artist_name: aa,
                    timestamp: n,
                    edit_all: true,
                }), seen),
                None => (st.0, seen),
            }
        } else {
            st
        }
    }
}

pub open spec fn fold_edit_rows(rows: Seq<RowView>, st: DiscoverState, track: Seq<char>, artist: Seq<char>) -> DiscoverState
    decreases rows.len(),
{
    if rows.len() == 0 {
        st
    } else {
        edit_row_step(fold_edit_rows(rows.drop_last(), st, track, artist), rows.last(), track, artist)
    }
}

/// The (album, album artist) pair of an edit.
pub open spec fn album_pair(e: ExactEditView) -> (Seq<char>, Seq<char>) {
    (e.album_name_original, e.album_artist_name_original)
}

/// The edits found are of the expected track and artist, each for an album pair of its own, all
/// among the pairs seen and none among the pairs `before` that were seen earlier.
pub open spec fn discovered_ok(st: DiscoverState, before: Seq<(Seq<char>, Seq<char>)>, track: Seq<char>, artist: Seq<char>) -> bool {
    &&& forall|i: int| 0 <= i < st.0.len() ==> (#[trigger] st.0[i]).track_name_original == track
        && st.0[i].artist_name_original == artist && st.0[i].edit_all
    &&& forall|i: int, j: int| 0 <= i < j < st.0.len() ==> album_pair(#[trigger] st.0[i]) != album_pair(#[trigger] st.0[j])
    &&& forall|i: int| 0 <= i < st.0.len() ==> st.1.contains(album_pair(#[trigger] st.0[i]))
        && !before.contains(album_pair(st.0[i]))
    &&& forall|k: int| 0 <= k < before.len() ==> st.1.contains(#[trigger] before[k])
}

pub proof fn lemma_fold_edit_rows_ok(rows: Seq<RowView>, st: DiscoverState, before: Seq<(Seq<char>, Seq<char>)>, track: Seq<char>, artist: Seq<char>)
    requires
        discovered_ok(st, before, track, artist),
    ensures
        discovered_ok(fold_edit_rows(rows, st, track, artist), before, track, artist),
    decreases rows.len(),
{
    if rows.len() > 0 {
        lemma_fold_edit_rows_ok(rows.drop_last(), st, before, track, artist);
        let prev = fold_edit_rows(rows.drop_last(), st, track, artist);
        let next = fold_edit_rows(rows, st, track, artist);
        let row = rows.last();
        if !(first_cell(row, 0) is Some || first_cell(row, 1) is None) {
            let t = or_empty(form_value(row, 2));
            let a = or_empty(form_value(row, 3));
            let al = or_empty(form_value(row, 4));
            let aa = match form_value(row, 5) {
                Some(v) => v,
                None => a,
            };
            if t == track && a == artist && !prev.1.contains((al, aa)) {
                let seen = prev.1.push((al, aa));
                assert(next.1 == seen);
                assert(next.0 == prev.0 || (next.0.len() == prev.0.len() + 1 && next.0.drop_last() == prev.0
                    && album_pair(next.0.last()) == (al, aa) && next.0.last().track_name_original == track
                    && next.0.last().artist_name_original == artist && next.0.last().edit_all));
                assert forall|k: int| 0 <= k < before.len() implies seen.contains(#[trigger] before[k]) by {
                    let w = choose|w: int| 0 <= w < prev.1.len() && prev.1[w] == before[k];
                    assert(seen[w] == prev.1[w]);
                }
                assert(!before.contains((al, aa))) by {
                    if before.contains((al, aa)) {
                        let k = choose|k: int| 0 <= k < before.len() && before[k] == (al, aa);
                        assert(prev.1.contains(before[k]));
                    }
                }
                assert forall|i: int| 0 <= i < next.0.len() implies seen.contains(album_pair(#[trigger] next.0[i]))
                    && !before.contains(album_pair(next.0[i])) by {
                    if i < prev.0.len() {
                        assert(next.0[i] == prev.0[i]);
                        let w = choose|w: int| 0 <= w < prev.1.len() && prev.1[w] == album_pair(prev.0[i]);
                        assert(seen[w] == prev.1[w]);
                    } else {
                        assert(next.0[i] == next.0.last());
                        assert(seen[prev.1.len() as int] == (al, aa));
                    }
                }
                assert forall|i: int, j: int| 0 <= i < j < next.0.len() implies album_pair(#[trigger] next.0[i]) != album_pair(#[trigger] next.0[j]) by {
                    if j < prev.0.len() {
                        assert(next.0[i] == prev.0[i] && next.0[j] == prev.0[j]);
                    } else {
                        assert(next.0[i] == prev.0[i]);
                        assert(next.0[j] == next.0.last());
                        assert(prev.1.contains(album_pair(prev.0[i])));
                    }
                }
                assert forall|i: int| 0 <= i < next.0.len() implies (#[trigger] next.0[i]).track_name_original == track
                    && next.0[i].artist_name_original == artist && next.0[i].edit_all by {
                    if i < prev.0.len() {
                        assert(next.0[i] == prev.0[i]);
                    } else {
                        assert(next.0[i] == next.0.last());
                    }
                }
            }
        }
    }
}

fn row_form_value(row: &HtmlRow, k: usize) -> (res: Option<String>)
    requires
        k < row.1@.len(),
    ensures
        res.deep_view() == form_value(row.deep_view(), k as int),
{
    match row_first_cell(row, k) {
        Some(e) => attr_value(&e.1, "value"),
        None => None,
    }
}

fn string_or_empty(o: Option<String>) -> (res: String)
    ensures
        res@ == or_empty(o.deep_view()),
{
    match o {
        Some(s) => s,
        None => String::new(),
    }
}

fn contains_pair(v: &Vec<(String, String)>, a: &String, b: &String) -> (res: bool)
    ensures
        res == v.deep_view().contains((a@, b@)),
{
    let mut i: usize = 0;
    while i < v.len()
        invariant
            i <= v@.len(),
            forall|j: int| 0 <= j < i ==> v.deep_view()[j] != (a@, b@),
        decreases v.len() - i,
    {
        if v[i].0.eq(a) && v[i].1.eq(b) {
            assert(v.deep_view()[i as int] == (a@, b@));
            return true;
        }
        i = i + 1;
    }
    false
}

/// The message when a track page has no scrobble table.
pub open spec fn no_chartlist_text() -> Seq<char> {
    "No chartlist table found on track page"@
}

/// The edits of the scrobbles of `expected_track` by `expected_artist` listed on a page of the
/// track's scrobbles, one per (album, album artist) pair not seen before (the pairs seen are
/// kept in `unique_albums`); a page without the scrobble table is an error.
pub fn extract_scrobble_edits_from_page(
    document: &str,
    expected_track: &str,
    expected_artist: &str,
    unique_albums: &mut Vec<(String, String)>,
) -> (res: Result<Vec<ExactScrobbleEdit>, LastFmError>)
    ensures
        match first_group(document@, "table.chartlist:not(.chartlist__placeholder)"@, "tr"@, edit_row_cells()) {
            Some(rows) => {
                let st = fold_edit_rows(rows, (Seq::empty(), old(unique_albums).deep_view()), expected_track@, expected_artist@);
                res matches Ok(v) && v.deep_view() == st.0 && final(unique_albums).deep_view() == st.1
            },
            None => res matches Err(LastFmError::Parse(m)) && m@ == no_chartlist_text()
                && final(unique_albums).deep_view() == old(unique_albums).deep_view(),
        },
{
    let cells = edit_cells();
    let rows = match select_first_group(document, "table.chartlist:not(.chartlist__placeholder)", "tr", &cells) {
        Some(r) => r,
        None => return Err(LastFmError::Parse(String::from_str("No chartlist table found on track page"))),
    };
    let ghost rv = rows.deep_view();
    let ghost u0 = unique_albums.deep_view();
    let mut edits: Vec<ExactScrobbleEdit> = Vec::new();
    let mut i: usize = 0;
    while i < rows.len()
        invariant
            i <= rows@.len(),
            rv == rows.deep_view(),
            forall|k: int| 0 <= k < rows@.len() ==> (#[trigger] rows@[k]).1@.len() == 7,
            (edits.deep_view(), unique_albums.deep_view()) == fold_edit_rows(rv.take(i as int), (Seq::empty(), u0), expected_track@, expected_artist@),
        decreases rows.len() - i,
    {
        assert(rv.take(i + 1).drop_last() =~= rv.take(i as int));
        assert(rv.take(i + 1).last() == rv[i as int]);
        assert(rv[i as int] == rows@[i as int].deep_view());
        let row = &rows[i];
        let ghost e0 = edits.deep_view();
        let ghost s0 = unique_albums.deep_view();
        let skip = row_first_cell(row, 0).is_some() || row_first_cell(row, 1).is_none();
        if !skip {
            let t = string_or_empty(row_form_value(row, 2));
            let a = string_or_empty(row_form_value(row, 3));
            let al = string_or_empty(row_form_value(row, 4));
            let aa = match row_form_value(row, 5) {
                Some(v) => v,
                None => a.clone(),
            };
            let ts = string_or_empty(row_form_value(row, 6));
            if t.eq(&String::from_str(expected_track)) && a.eq(&String::from_str(expected_artist)) && !contains_pair(unique_albums, &al, &aa) {
                unique_albums.push((al.clone(), aa.clone()));
                assert(unique_albums.deep_view() =~= s0.push((al@, aa@)));
                let stamp = if ts.as_str().is_empty() { None } else { parse_u64(ts.as_str()) };
                match stamp {
                    Some(n) => {
                        let e = ExactScrobbleEdit::new(t.clone(), al.clone(), a.clone(), aa.clone(), t, al, a, aa, n, true);
                        edits.push(e);
                        assert(edits.deep_view() =~= e0.push(e.deep_view()));
                    },
                    None => {},
                }
            }
        }
        i = i + 1;
    }
    assert(rv.take(i as int) =~= rv);
    Ok(edits)
}

/// Whether a page of a track's scrobbles links to a next page.
pub fn has_next_scrobbles_page(document: &str) -> (res: bool)
    ensures
        res == (elements_in(document@, ".pagination .pagination-next"@).len() > 0),
{
    select_all(document, ".pagination .pagination-next").len() > 0
}

/// The message when no page of a track's scrobbles holds an edit form for it.
pub open spec fn no_forms_text(track: Seq<char>, artist: Seq<char>) -> Seq<char> {
    "No scrobble forms found for track '"@ + track + "' by '"@ + artist + "'"@
}

/// The error when no page of a track's scrobbles holds an edit form for it.
pub fn no_scrobble_forms_error(track_name: &str, artist_name: &str) -> (res: LastFmError)
    ensures
        res matches LastFmError::Parse(m) && m@ == no_forms_text(track_name@, artist_name@),
{
    let mut m = String::from_str("No scrobble forms found for track '");
    m.append(track_name);
    m.append("' by '");
    m.append(artist_name);
    m.append("'");
    LastFmError::Parse(m)
}

/// The most pages of a track's scrobbles that are read.
pub open spec fn max_scrobble_pages() -> u32 {
    5
}

/// Whether page `page` of a track's scrobbles is read next, after a page that did or did not
/// link to a next one.
pub fn read_next_scrobbles_page(has_next_page: bool, page: u32) -> (res: bool)
    ensures
        res == (has_next_page && page <= max_scrobble_pages()),
{
    has_next_page && page <= 5
}

// ------------------------------------------------------------------------------------------------
// Editing
// ------------------------------------------------------------------------------------------------

/// What a requested edit names, for the message when nothing is found.
pub open spec fn edit_context_text(e: ScrobbleEdit) -> Seq<char> {
    match (e.track_name_original, e.album_name_original) {
        (Some(t), _) => "track '"@ + t@ + "' by '"@ + e.artist_name_original@ + "'"@,
        (None, Some(al)) => "album '"@ + al@ + "' by '"@ + e.artist_name_original@ + "'"@,
        (None, None) => "artist '"@ + e.artist_name_original@ + "'"@,
    }
}

/// The message when no scrobble matches a requested edit.
pub open spec fn nothing_to_edit_text(e: ScrobbleEdit) -> Seq<char> {
    "No scrobbles found for "@ + edit_context_text(e)
        + ". Make sure the names are correct and that you have scrobbled recently."@
}

/// The error when no scrobble matches a requested edit.
pub fn nothing_to_edit_error(edit: &ScrobbleEdit) -> (res: LastFmError)
    ensures
        res matches LastFmError::Parse(m) && m@ == nothing_to_edit_text(*edit),
{
    let mut m = String::from_str("No scrobbles found for ");
    match (&edit.track_name_original, &edit.album_name_original) {
        (Some(t), _) => {
            m.append("track '");
            m.append(t.as_str());
            m.append("' by '");
            m.append(edit.artist_name_original.as_str());
            m.append("'");
        },
        (None, Some(al)) => {
            m.append("album '");
            m.append(al.as_str());
            m.append("' by '");
            m.append(edit.artist_name_original.as_str());
            m.append("'");
        },
        (None, None) => {
            m.append("artist '");
            m.append(edit.artist_name_original.as_str());
            m.append("'");
        },
    }
    m.append(". Make sure the names are correct and that you have scrobbled recently.");
    LastFmError::Parse(m)
}

pub open spec fn or_keep(o: Option<String>, keep: Seq<char>) -> Seq<char> {
    match o {
        Some(s) => s@,
        None => keep,
    }
}

/// A discovered scrobble with the requested changes applied: the new names where the request
/// gives them, its new artist, and its `edit_all`; the originals stay.
pub open spec fn applied_edit(d: ExactEditView, e: ScrobbleEdit) -> ExactEditView {
    ExactEditView {
        track_name: or_keep(e.track_name, d.track_name),
        album_name: or_keep(e.album_name, d.album_name),
        artist_name: e.artist_name@,
        album_artist_name: or_keep(e.album_artist_name, d.album_artist_name),
        edit_all: e.edit_all,
        ..d
    }
}

fn override_or_keep(o: &Option<String>, keep: &String) -> (res: String)
    ensures
        res@ == or_keep(*o, keep@),
{
    match o {
        Some(s) => s.clone(),
        None => keep.clone(),
    }
}

/// Applies the requested changes to a discovered scrobble.
pub fn apply_edit(discovered: &ExactScrobbleEdit, edit: &ScrobbleEdit) -> (res: ExactScrobbleEdit)
    ensures
        res@ == applied_edit(discovered@, *edit),
        edit.track_name matches Some(n) ==> res.track_name@ == n@,
        edit.track_name is None ==> res.track_name@ == discovered.track_name@,
        edit.album_name matches Some(n) ==> res.album_name@ == n@,
        edit.album_name is None ==> res.album_name@ == discovered.album_name@,
        edit.album_artist_name matches Some(n) ==> res.album_artist_name@ == n@,
        edit.album_artist_name is None ==> res.album_artist_name@ == discovered.album_artist_name@,
        res.artist_name@ == edit.artist_name@,
        res.edit_all == edit.edit_all,
        res.track_name_original@ == discovered.track_name_original@,
        res.album_name_original@ == discovered.album_name_original@,
        res.artist_name_original@ == discovered.artist_name_original@,
        res.album_artist_name_original@ == discovered.album_artist_name_original@,
        res.timestamp == discovered.timestamp,
{
    proof {
        crate::laws::law_applied_edit_takes_requested_values(discovered@, *edit);
    }
    let mut m = discovered.copy();
    m.track_name = override_or_keep(&edit.track_name, &discovered.track_name);
    m.album_name = override_or_keep(&edit.album_name, &discovered.album_name);
    m.artist_name = edit.artist_name.clone();
    m.album_artist_name = override_or_keep(&edit.album_artist_name, &discovered.album_artist_name);
    m.edit_all = edit.edit_all;
    m
}

/// `{album} by {album artist}`, describing the album of an edit.
pub fn album_info(edit: &ExactScrobbleEdit) -> (res: String)
    ensures
        res@ == edit.album_name_original@ + " by "@ + edit.album_artist_name_original@,
{
    let mut s = edit.album_name_original.clone();
    s.append(" by ");
    s.append(edit.album_artist_name_original.as_str());
    s
}

/// Whether `m` is the text of the error `e`: its kind, then its detail (for an I/O error, the
/// text that the operating system gives, which is not known here).
pub open spec fn describes_error(e: LastFmError, m: Seq<char>) -> bool {
    match e {
        LastFmError::Http(s) => m == "HTTP error: "@ + s@,
        LastFmError::Auth(s) => m == "Authentication failed: "@ + s@,
        LastFmError::CsrfNotFound => m == "CSRF token not found"@,
        LastFmError::Parse(s) => m == "Failed to parse response: "@ + s@,
        LastFmError::RateLimit { retry_after } => m == "Rate limited, retry after "@ + decimal_digits(retry_after as nat)
            + " seconds"@,
        LastFmError::EditFailed(s) => m == "Edit failed: "@ + s@,
        LastFmError::Io(_) => starts_with_seq(m, "IO error: "@),
    }
}

impl LastFmError {
    /// The text of the error: its kind, then its detail.
    pub fn to_string(&self) -> (res: String)
        ensures
            describes_error(*self, res@),
    {
        match self {
            LastFmError::Http(s) => {
                let mut m = String::from_str("HTTP error: ");
                m.append(s.as_str());
                m
            },
            LastFmError::Auth(s) => {
                let mut m = String::from_str("Authentication failed: ");
                m.append(s.as_str());
                m
            },
            LastFmError::CsrfNotFound => String::from_str("CSRF token not found"),
            LastFmError::Parse(s) => {
                let mut m = String::from_str("Failed to parse response: ");
                m.append(s.as_str());
                m
            },
            LastFmError::RateLimit { retry_after } => {
                let mut m = String::from_str("Rate limited, retry after ");
                m.append(u64_to_string(*retry_after).as_str());
                m.append(" seconds");
                m
            },
            LastFmError::EditFailed(s) => {
                let mut m = String::from_str("Edit failed: ");
                m.append(s.as_str());
                m
            },
            LastFmError::Io(e) => {
                let mut m = String::from_str("IO error: ");
                let detail = io_error_text(e);
                proof {
                    reveal_strlit("IO error: ");
                }
                let ghost head = m@;
                m.append(detail.as_str());
                assert(m@.subrange(0, head.len() as int) =~= head);
                m
            },
        }
    }
}

/// Calls `Display` on `std::io::Error`, whose text comes from the operating system: nothing is
/// promised of it.
#[verifier::external_body]
fn io_error_text(e: &std::io::Error) -> (res: String) {
    e.to_string()
}

/// The response for one edit request after its retries: the result of the edit, or a failure
/// that names the rate limit or the error.
pub fn edit_single_response(outcome: Result<bool, LastFmError>, max_retries: u32, exact_edit: ExactScrobbleEdit) -> (res: EditResponse)
    ensures
        res.individual_results@.len() == 1,
        res.individual_results@[0].exact_scrobble_edit == exact_edit,
        res.individual_results@[0].album_info is None,
        match outcome {
            Ok(b) => res.individual_results@[0].success == b && res.individual_results@[0].message is None,
            Err(LastFmError::RateLimit { .. }) => !res.individual_results@[0].success
                && res.individual_results@[0].message.deep_view() == Some("Rate limit exceeded after "@ + decimal_digits(max_retries as nat) + " retries"@),
            Err(e) => !res.individual_results@[0].success && (res.individual_results@[0].message matches Some(m)
                && describes_error(e, m@)),
        },
{
    match outcome {
        Ok(b) => EditResponse::single(b, None, None, exact_edit),
        Err(LastFmError::RateLimit { .. }) => {
            let mut m = String::from_str("Rate limit exceeded after ");
            m.append(u64_to_string(max_retries as u64).as_str());
            m.append(" retries");
            EditResponse::single(false, Some(m), None, exact_edit)
        },
        Err(e) => EditResponse::single(false, Some(e.to_string()), None, exact_edit),
    }
}

/// The result of one discovered scrobble in a multi-scrobble edit: the single response's overall
/// success and message, with the album described.
pub fn discovered_edit_result(modified: ExactScrobbleEdit, single: &EditResponse) -> (res: SingleEditResponse)
    ensures
        res.success == (single.individual_results@.len() > 0 && forall|i: int|
            0 <= i < single.individual_results@.len() ==> #[trigger] single.individual_results@[i].success),
        res.message.deep_view() == Some(crate::types::summary_text(
            single.individual_results@.len(),
            crate::types::count_successes(single.individual_results@),
            crate::types::count_failures(single.individual_results@),
        )),
        res.album_info.deep_view() == Some(modified.album_name_original@ + " by "@ + modified.album_artist_name_original@),
        res.exact_scrobble_edit == modified,
{
    let info = album_info(&modified);
    SingleEditResponse { success: single.success(), message: single.message(), album_info: Some(info), exact_scrobble_edit: modified }
}

// ------------------------------------------------------------------------------------------------
// Deleting
// ------------------------------------------------------------------------------------------------

/// The fields of a deletion request.
pub open spec fn delete_fields(csrf: Seq<char>, artist: Seq<char>, track: Seq<char>, timestamp: u64) -> Seq<(Seq<char>, Seq<char>)> {
    seq![
        ("csrfmiddlewaretoken"@, csrf),
        ("artist_name"@, artist),
        ("track_name"@, track),
        ("timestamp"@, decimal_digits(timestamp as nat)),
        ("ajax"@, "1"@),
    ]
}

/// The body of a deletion request.
pub fn delete_form_body(csrf_token: &str, artist_name: &str, track_name: &str, timestamp: u64) -> (res: String)
    ensures
        res@ == encoded_form(delete_fields(csrf_token@, artist_name@, track_name@, timestamp)),
{
    let mut f: Vec<(String, String)> = Vec::new();
    f.push((String::from_str("csrfmiddlewaretoken"), String::from_str(csrf_token)));
    f.push((String::from_str("artist_name"), String::from_str(artist_name)));
    f.push((String::from_str("track_name"), String::from_str(track_name)));
    f.push((String::from_str("timestamp"), u64_to_string(timestamp)));
    f.push((String::from_str("ajax"), String::from_str("1")));
    assert(f.deep_view() =~= delete_fields(csrf_token@, artist_name@, track_name@, timestamp));
    encode_form_data(&f)
}

/// The CSRF token of a page: the value of its first token input.
pub fn extract_csrf_token(document: &str) -> (res: Result<String, LastFmError>)
    ensures
        match crate::login::first_value(document@, "input[name=\"csrfmiddlewaretoken\"]"@) {
            Some(t) => res matches Ok(s) && s@ == t,
            None => res matches Err(LastFmError::CsrfNotFound),
        },
{
    let found = select_all(document, "input[name=\"csrfmiddlewaretoken\"]");
    if found.len() > 0 {
        match attr_value(&found[0].1, "value") {
            Some(t) => Ok(t),
            None => Err(LastFmError::CsrfNotFound),
        }
    } else {
        Err(LastFmError::CsrfNotFound)
    }
}

// ------------------------------------------------------------------------------------------------
// Recent scrobbles
// ------------------------------------------------------------------------------------------------

/// A page of recent scrobbles: another page is assumed whenever this one is not empty.
pub fn recent_tracks_page(tracks: Vec<Track>, page: u32) -> (res: TrackPage)
    ensures
        res.tracks == tracks,
        res.page_number == page,
        res.has_next_page == (tracks@.len() > 0),
        res.total_pages is None,
{
    let has_next_page = tracks.len() > 0;
    TrackPage { tracks, page_number: page, has_next_page, total_pages: None }
}

/// The first scrobble of the given track by the given artist.
pub fn find_matching_scrobble(tracks: &Vec<Track>, track_name: &str, artist_name: &str) -> (res: Option<Track>)
    ensures
        match res {
            Some(t) => exists|i: int| 0 <= i < tracks@.len() && t@ == tracks@[i]@ && tracks@[i].name@ == track_name@
                && tracks@[i].artist@ == artist_name@ && forall|j: int| 0 <= j < i ==> !(tracks@[j].name@ == track_name@
                && tracks@[j].artist@ == artist_name@),
            None => forall|j: int| 0 <= j < tracks@.len() ==> !(tracks@[j].name@ == track_name@ && tracks@[j].artist@
                == artist_name@),
        },
{
    let tn = String::from_str(track_name);
    let an = String::from_str(artist_name);
    let mut i: usize = 0;
    while i < tracks.len()
        invariant
            i <= tracks@.len(),
            tn@ == track_name@,
            an@ == artist_name@,
            forall|j: int| 0 <= j < i ==> !(tracks@[j].name@ == track_name@ && tracks@[j].artist@ == artist_name@),
        decreases tracks.len() - i,
    {
        if tracks[i].name.eq(&tn) && tracks[i].artist.eq(&an) {
            return Some(crate::parsing::clone_track(&tracks[i]));
        }
        i = i + 1;
    }
    None
}

} // verus!
